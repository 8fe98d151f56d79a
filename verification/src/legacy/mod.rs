//! The commands of the bot's earlier command set, kept beside the
//! current ones: their registrations and how a command was routed.

use vstd::prelude::*;
use crate::text::str_eq;

pub mod ban;
pub mod permissions;

verus! {

/// The commands the earlier command set answered.
#[derive(Clone, Copy, Debug, PartialEq, Eq, Structural)]
pub enum LegacyCommand {
    Permissions,
    Strike,
    Mute,
    Kick,
    Ban,
}

/// The command of this name in the earlier set, if any; other names
/// were ignored.
pub open spec fn legacy_command(name: Seq<char>) -> Option<LegacyCommand> {
    if name == "permissions"@ {
        Some(LegacyCommand::Permissions)
    } else if name == "strike"@ {
        Some(LegacyCommand::Strike)
    } else if name == "mute"@ {
        Some(LegacyCommand::Mute)
    } else if name == "kick"@ {
        Some(LegacyCommand::Kick)
    } else if name == "ban"@ {
        Some(LegacyCommand::Ban)
    } else {
        None
    }
}

/// Routes a command of the earlier set by its name; see
/// `legacy_command`.
pub fn on_command(name: &str) -> (r: Option<LegacyCommand>)
    ensures
        r == legacy_command(name@),
{
    if str_eq(name, "permissions") {
        Some(LegacyCommand::Permissions)
    } else if str_eq(name, "strike") {
        Some(LegacyCommand::Strike)
    } else if str_eq(name, "mute") {
        Some(LegacyCommand::Mute)
    } else if str_eq(name, "kick") {
        Some(LegacyCommand::Kick)
    } else if str_eq(name, "ban") {
        Some(LegacyCommand::Ban)
    } else {
        None
    }
}

} // verus!
