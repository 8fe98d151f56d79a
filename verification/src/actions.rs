//! Moderation actions and the escalations a server sets for repeated
//! strikes.

use vstd::prelude::*;
use crate::text::str_eq;

verus! {

/// The kinds of moderation action.
#[derive(Clone, Copy, Debug, PartialEq, Eq, Structural)]
pub enum ActionType {
    Strike,
    Mute,
    Kick,
    Ban,
}

impl ActionType {
    /// The name the action is stored and shown under.
    pub open spec fn spec_name(self) -> Seq<char> {
        match self {
            ActionType::Strike => "strike"@,
            ActionType::Mute => "mute"@,
            ActionType::Kick => "kick"@,
            ActionType::Ban => "ban"@,
        }
    }

    /// The name the action is stored and shown under.
    pub fn name(&self) -> (r: &'static str)
        ensures
            r@ == self.spec_name(),
    {
        match self {
            ActionType::Strike => "strike",
            ActionType::Mute => "mute",
            ActionType::Kick => "kick",
            ActionType::Ban => "ban",
        }
    }

    /// The action with the given name, if any.
    pub fn from_name(name: &str) -> (r: Option<ActionType>)
        ensures
            match r {
                Some(a) => a.spec_name() == name@,
                None => forall|a: ActionType| a.spec_name() != name@,
            },
    {
        if str_eq(name, "strike") {
            Some(ActionType::Strike)
        } else if str_eq(name, "mute") {
            Some(ActionType::Mute)
        } else if str_eq(name, "kick") {
            Some(ActionType::Kick)
        } else if str_eq(name, "ban") {
            Some(ActionType::Ban)
        } else {
            None
        }
    }
}

/// What happens to a user when they reach `strike_count` active strikes.
#[derive(Debug)]
pub struct ActionEscalation {
    pub strike_count: i64,
    pub action_type: ActionType,
    pub action_duration: Option<String>,
}

} // verus!
