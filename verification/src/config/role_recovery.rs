//! The role recovery stage of the wizard.

use vstd::prelude::*;
use crate::interaction::Interaction;
use crate::text::str_eq;
use super::{ConfigWrite, StageStep, invalid_option, step, step_writing, timed_out};
use super::logging::{clicked, yes_no_answer};

verus! {

/// Asks whether members who leave and come back get their roles again.
#[derive(Debug)]
pub struct RoleRecovery;

impl RoleRecovery {
    /// `yes`/`no` switch role recovery on/off and move on.
    pub fn answer(&self, reply: Option<&Interaction>) -> (r: StageStep)
        ensures
            yes_no_answer(clicked(reply), (seq![ConfigWrite::RoleRecovery(true)], Ok(None)),
                (seq![ConfigWrite::RoleRecovery(false)], Ok(None)), r.writes@, r.result),
    {
        match reply {
            None => step(Err(timed_out())),
            Some(i) => if str_eq(i.custom_id.as_str(), "yes") {
                step_writing(ConfigWrite::RoleRecovery(true), Ok(None))
            } else if str_eq(i.custom_id.as_str(), "no") {
                step_writing(ConfigWrite::RoleRecovery(false), Ok(None))
            } else {
                step(Err(invalid_option()))
            },
        }
    }
}

} // verus!
