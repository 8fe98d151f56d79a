//! The role multiplier stages of the wizard, which ask nothing yet.

use vstd::prelude::*;
use crate::config::ConfigError;

verus! {

/// Would ask whether to configure role multipliers; moves on at once.
#[derive(Debug)]
pub struct RoleMultiplierEnter;

impl RoleMultiplierEnter {
    /// The stage moves on without asking.
    pub fn answer(&self) -> (r: Result<Option<usize>, ConfigError>)
        ensures
            r == Ok::<Option<usize>, ConfigError>(None),
    {
        Ok(None)
    }
}

/// Would manage role multipliers; moves on at once.
#[derive(Debug)]
pub struct RoleMultiplierManage;

impl RoleMultiplierManage {
    /// The stage moves on without asking.
    pub fn answer(&self) -> (r: Result<Option<usize>, ConfigError>)
        ensures
            r == Ok::<Option<usize>, ConfigError>(None),
    {
        Ok(None)
    }
}

} // verus!
