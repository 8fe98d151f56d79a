//! The moderation commands: the checks a request passes before anything
//! is done, and what the bot does and says for each action.

use vstd::prelude::*;
use crate::actions::ActionType;
use crate::permissions::{Permission, holds};
use crate::response::{Refusal, is_refusal, missing_permission, missing_permission_text, no_member,
    no_member_text, no_member_title, no_permission_title, refuses};
use crate::text::push_str;

pub mod strike;
pub mod purge;
pub mod search;
pub mod records;
pub mod changes;

verus! {

/// The permission needed to strike, mute or kick; no permission is tied
/// to a ban, which has no command here.
pub open spec fn action_permission(a: ActionType) -> Permission
    recommends
        a != ActionType::Ban,
{
    match a {
        ActionType::Mute => Permission::ModerationMute,
        ActionType::Kick => Permission::ModerationKick,
        _ => Permission::ModerationStrike,
    }
}

fn permission_for(a: ActionType) -> (r: Permission)
    ensures
        r == action_permission(a),
{
    match a {
        ActionType::Mute => Permission::ModerationMute,
        ActionType::Kick => Permission::ModerationKick,
        _ => Permission::ModerationStrike,
    }
}

/// `before`, the action's name, then `after`.
pub open spec fn about(a: ActionType, before: Seq<char>, after: Seq<char>) -> Seq<char> {
    before + a.spec_name() + after
}

fn about_text(a: ActionType, before: &str, after: &str) -> (r: String)
    ensures
        r@ == about(a, before@, after@),
{
    let mut s = String::new();
    push_str(&mut s, before);
    push_str(&mut s, a.name());
    push_str(&mut s, after);
    assert(s@ =~= about(a, before@, after@));
    s
}

fn about_refusal(a: ActionType, t1: &str, t2: &str, d1: &str, d2: &str) -> (r: Refusal)
    ensures
        is_refusal(r, about(a, t1@, t2@), about(a, d1@, d2@)),
{
    Refusal { title: about_text(a, t1, t2), detail: Some(about_text(a, d1, d2)) }
}

/// A request aimed at a member: who, and why.
#[derive(Debug)]
pub struct TargetRequest {
    pub user: u64,
    pub reason: String,
}

/// What checking a request to act on a member gives: the missing
/// permission, the absent user, the invoker aiming at themselves and the
/// absent reason are refused, in that order.
pub open spec fn target_request_outcome(a: ActionType, held: Seq<Permission>, invoker: u64, user: Option<u64>,
    reason: Option<Seq<char>>, r: Result<TargetRequest, Refusal>) -> bool {
    if !held.contains(action_permission(a)) {
        refuses(r, no_permission_title(), missing_permission_text(action_permission(a)))
    } else {
        match user {
            None => refuses(r, no_member_title(), no_member_text()),
            Some(u) => if u == invoker {
                refuses(r, about(a, "You cannot "@, " yourself!"@), about(a, "You cannot "@,
                    " yourself, that would be silly."@))
            } else {
                match reason {
                    None => refuses(r, "No reason provided!"@, about(a, "Please provide a reason for the "@, "."@)),
                    Some(t) => r matches Ok(q) && q.user == u && q.reason@ == t,
                }
            },
        }
    }
}

/// The text of an optional string option.
pub open spec fn text_of(o: Option<String>) -> Option<Seq<char>> {
    match o {
        Some(s) => Some(s@),
        None => None,
    }
}

/// Checks a request to strike, mute or kick a member; see
/// `target_request_outcome`. `held` is what the invoker holds.
pub fn check_target_request(a: ActionType, held: &Vec<Permission>, invoker: u64, user: Option<u64>, reason: Option<String>)
    -> (r: Result<TargetRequest, Refusal>)
    requires
        a != ActionType::Ban,
    ensures
        target_request_outcome(a, held@, invoker, user, text_of(reason), r),
{
    if !holds(held, permission_for(a)) {
        return Err(missing_permission(permission_for(a)));
    }
    let u = match user {
        None => return Err(no_member()),
        Some(u) => u,
    };
    if u == invoker {
        return Err(about_refusal(a, "You cannot ", " yourself!", "You cannot ", " yourself, that would be silly."));
    }
    match reason {
        None => {
            let mut t = String::new();
            push_str(&mut t, "No reason provided!");
            Err(Refusal { title: t, detail: Some(about_text(a, "Please provide a reason for the ", ".")) })
        },
        Some(reason) => Ok(TargetRequest { user: u, reason }),
    }
}

/// What comparing the invoker's highest role with the member's gives: a
/// member ranked at or above the invoker is refused.
pub open spec fn rank_outcome(a: ActionType, moderator_rank: u64, target_rank: u64, r: Result<(), Refusal>) -> bool {
    if moderator_rank <= target_rank {
        refuses(r, about(a, "You cannot "@, " this user!"@), about(a, "You cannot "@,
            " a user with a role equal to or higher than yours."@))
    } else {
        r is Ok
    }
}

/// Compares the positions of the highest roles; see `rank_outcome`.
pub fn check_rank(a: ActionType, moderator_rank: u64, target_rank: u64) -> (r: Result<(), Refusal>)
    ensures
        rank_outcome(a, moderator_rank, target_rank, r),
{
    if moderator_rank <= target_rank {
        Err(about_refusal(a, "You cannot ", " this user!", "You cannot ",
            " a user with a role equal to or higher than yours."))
    } else {
        Ok(())
    }
}

/// Strikes a member.
#[derive(Debug)]
pub struct StrikeCommand;

/// Kicks a member.
#[derive(Debug)]
pub struct KickCommand;

/// Mutes a member for a while.
#[derive(Debug)]
pub struct MuteCommand;

impl StrikeCommand {
    /// The command's name.
    pub fn name(&self) -> (r: &'static str)
        ensures
            r@ == "strike"@,
    {
        "strike"
    }

    /// Checks a strike request; see `target_request_outcome`. The duration
    /// text is passed on as given.
    pub fn check(&self, held: &Vec<Permission>, invoker: u64, user: Option<u64>, reason: Option<String>)
        -> (r: Result<TargetRequest, Refusal>)
        ensures
            target_request_outcome(ActionType::Strike, held@, invoker, user, text_of(reason), r),
    {
        check_target_request(ActionType::Strike, held, invoker, user, reason)
    }
}

impl KickCommand {
    /// The command's name.
    pub fn name(&self) -> (r: &'static str)
        ensures
            r@ == "kick"@,
    {
        "kick"
    }

    /// Checks a kick request; see `target_request_outcome`.
    pub fn check(&self, held: &Vec<Permission>, invoker: u64, user: Option<u64>, reason: Option<String>)
        -> (r: Result<TargetRequest, Refusal>)
        ensures
            target_request_outcome(ActionType::Kick, held@, invoker, user, text_of(reason), r),
    {
        check_target_request(ActionType::Kick, held, invoker, user, reason)
    }

    /// Compares highest roles: the invoker, then the bot, must rank above
    /// the member.
    pub fn check_ranks(&self, moderator_rank: u64, bot_rank: u64, target_rank: u64) -> (r: Result<(), Refusal>)
        ensures
            moderator_rank <= target_rank ==> rank_outcome(ActionType::Kick, moderator_rank, target_rank, r),
            moderator_rank > target_rank && bot_rank <= target_rank ==> refuses(r,
                "Reaper cannot kick this user!"@,
                "Reaper cannot kick a user with a role equal to or higher than itself."@),
            moderator_rank > target_rank && bot_rank > target_rank ==> r is Ok,
    {
        match check_rank(ActionType::Kick, moderator_rank, target_rank) {
            Err(e) => Err(e),
            Ok(()) => if bot_rank <= target_rank {
                Err(crate::response::refusal("Reaper cannot kick this user!",
                    "Reaper cannot kick a user with a role equal to or higher than itself."))
            } else {
                Ok(())
            },
        }
    }
}

/// A mute request: who, why and for how long (the duration as typed).
#[derive(Debug)]
pub struct MuteRequest {
    pub target: TargetRequest,
    pub duration: String,
}

impl MuteCommand {
    /// The command's name.
    pub fn name(&self) -> (r: &'static str)
        ensures
            r@ == "mute"@,
    {
        "mute"
    }

    /// Checks a mute request as `target_request_outcome` says, then that a
    /// duration was given.
    pub fn check(&self, held: &Vec<Permission>, invoker: u64, user: Option<u64>, reason: Option<String>,
        duration: Option<String>) -> (r: Result<MuteRequest, Refusal>)
        ensures
            ({
                let first = match r {
                    Ok(m) => Ok::<TargetRequest, Refusal>(m.target),
                    Err(e) => Err(e),
                };
                let passes = held@.contains(action_permission(ActionType::Mute)) && user is Some && user->0 != invoker && reason is Some;
                &&& !passes ==> target_request_outcome(ActionType::Mute, held@, invoker, user, text_of(reason), first)
                &&& passes && duration is None ==> refuses(r, "Invalid or no duration provided"@,
                    "The duration value was either not provided, or was not a valid duration."@)
                &&& passes && duration is Some ==> (r matches Ok(m) && m.duration@ == duration->0@
                    && target_request_outcome(ActionType::Mute, held@, invoker, user, text_of(reason), first))
            }),
    {
        match check_target_request(ActionType::Mute, held, invoker, user, reason) {
            Err(e) => Err(e),
            Ok(target) => match duration {
                None => Err(crate::response::refusal("Invalid or no duration provided",
                    "The duration value was either not provided, or was not a valid duration.")),
                Some(d) => Ok(MuteRequest { target, duration: d }),
            },
        }
    }
}

} // verus!
