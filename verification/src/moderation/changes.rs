//! Commands that change recorded actions (duration, expiry, reason,
//! removal) or lift a ban or a mute.

use vstd::prelude::*;
use crate::permissions::{Permission, holds};
use crate::response::{Refusal, is_refusal, missing_permission, missing_permission_text, no_permission_title, refusal, refuses};
use crate::actions::ActionType;
use crate::moderation::records::{Action, timestamp_tag, user_tag};
use crate::text::{decimal_text, push_decimal, push_str};

verus! {

/// Changes when an action ends.
#[derive(Debug)]
pub struct DurationCommand;

/// Ends an action early.
#[derive(Debug)]
pub struct ExpireCommand;

/// Changes why an action was taken.
#[derive(Debug)]
pub struct ReasonCommand;

/// Deletes an action.
#[derive(Debug)]
pub struct RemoveCommand;

/// Lifts a ban.
#[derive(Debug)]
pub struct UnbanCommand;

/// Lifts a mute.
#[derive(Debug)]
pub struct UnmuteCommand;

/// The text of an optional string.
pub open spec fn text_of(o: Option<String>) -> Option<Seq<char>> {
    match o {
        Some(s) => Some(s@),
        None => None,
    }
}

/// What checking a permission, then a required text option, gives: the
/// text, or the refusal when `held` lacks `needed` (a refusal that names
/// `named`) or the option is missing.
pub open spec fn required_outcome(held: Seq<Permission>, needed: Permission, named: Permission, value: Option<Seq<char>>, title: Seq<char>,
    detail: Seq<char>, r: Result<String, Refusal>) -> bool {
    if !held.contains(needed) {
        refuses(r, no_permission_title(), missing_permission_text(named))
    } else {
        match value {
            None => refuses(r, title, detail),
            Some(v) => r matches Ok(s) && s@ == v,
        }
    }
}

fn require(held: &Vec<Permission>, needed: Permission, named: Permission, value: Option<String>, title: &str, detail: &str) -> (r: Result<String, Refusal>)
    ensures
        required_outcome(held@, needed, named, text_of(value), title@, detail@, r),
{
    if !holds(held, needed) {
        return Err(missing_permission(named));
    }
    match value {
        None => Err(refusal(title, detail)),
        Some(v) => Ok(v),
    }
}

/// What choosing the action to change gives: the id given, or else the
/// invoker's most recent action, or a refusal when there is none.
pub open spec fn action_id_outcome(given: Option<Seq<char>>, recent: Option<Seq<char>>, r: Result<String, Refusal>) -> bool {
    match given {
        Some(g) => r matches Ok(s) && s@ == g,
        None => match recent {
            Some(m) => r matches Ok(s) && s@ == m,
            None => refuses(r, "Could not find most recent action"@,
                "Your most recent action could not be found. This could be because you've yet to issue someone with an action. Please provide a UUID with your next command"@),
        },
    }
}

/// The action to change; see `action_id_outcome`. `recent` is only
/// looked at when no id is given.
pub fn action_id(given: Option<String>, recent: Option<String>) -> (r: Result<String, Refusal>)
    ensures
        action_id_outcome(text_of(given), text_of(recent), r),
{
    match given {
        Some(g) => Ok(g),
        None => match recent {
            Some(m) => Ok(m),
            None => Err(refusal("Could not find most recent action",
                "Your most recent action could not be found. This could be because you've yet to issue someone with an action. Please provide a UUID with your next command")),
        },
    }
}

fn quoted(before: &str, id: &str, after: &str) -> (r: String)
    ensures
        r@ == before@ + "`"@ + id@ + "`"@ + after@,
{
    let mut s = String::new();
    push_str(&mut s, before);
    push_str(&mut s, "`");
    push_str(&mut s, id);
    push_str(&mut s, "`");
    push_str(&mut s, after);
    assert(s@ =~= before@ + "`"@ + id@ + "`"@ + after@);
    s
}

fn labelled(before: &str, id: &str) -> (r: String)
    ensures
        r@ == before@ + id@,
{
    let mut s = String::new();
    push_str(&mut s, before);
    push_str(&mut s, id);
    assert(s@ =~= before@ + id@);
    s
}

impl DurationCommand {
    /// The refusal when the change could not be stored.
    pub fn failed(&self) -> (r: Refusal)
        ensures
            is_refusal(r, "Could not update action duration"@, "The action duration could not be updated. Please try again later."@),
    {
        refusal("Could not update action duration", "The action duration could not be updated. Please try again later.")
    }

    /// The command's name.
    pub fn name(&self) -> (r: &'static str)
        ensures
            r@ == "duration"@,
    {
        "duration"
    }

    /// Checks the permission, then that a duration was given.
    pub fn check(&self, held: &Vec<Permission>, duration: Option<String>) -> (r: Result<String, Refusal>)
        ensures
            required_outcome(held@, Permission::ModerationDuration, Permission::ModerationDuration, text_of(duration), "Duration not provided!"@,
                "A duration must be provided before continuing!"@, r),
    {
        require(held, Permission::ModerationDuration, Permission::ModerationDuration, duration, "Duration not provided!",
            "A duration must be provided before continuing!")
    }

    /// The reply and the log entry (description and footer) after action
    /// `id` was set to end at `expiry`.
    pub fn messages(&self, id: &str, expiry: i64) -> (r: (String, String, String))
        ensures
            r.0@ == "The duration of action `"@ + id@ + "` has been updated to "@ + timestamp_tag(expiry as int),
            r.1@ == "The duration of action `"@ + id@ + "` will now expire on "@ + timestamp_tag(expiry as int),
            r.2@ == "Duration updated | UUID: "@ + id@,
    {
        let tag = crate::moderation::records::timestamp_text(expiry);
        let reply = quoted("The duration of action ", id, " has been updated to ");
        let log = quoted("The duration of action ", id, " will now expire on ");
        let mut reply = reply;
        push_str(&mut reply, tag.as_str());
        let mut log = log;
        push_str(&mut log, tag.as_str());
        proof {
            reveal_strlit("The duration of action ");
            reveal_strlit("The duration of action `");
            reveal_strlit("`");
            reveal_strlit(" has been updated to ");
            reveal_strlit("` has been updated to ");
            reveal_strlit(" will now expire on ");
            reveal_strlit("` will now expire on ");
        }
        assert(reply@ =~= "The duration of action `"@ + id@ + "` has been updated to "@ + timestamp_tag(expiry as int));
        assert(log@ =~= "The duration of action `"@ + id@ + "` will now expire on "@ + timestamp_tag(expiry as int));
        (reply, log, labelled("Duration updated | UUID: ", id))
    }
}

/// The refusal when a UUID is missing.
pub open spec fn no_uuid_title() -> Seq<char> {
    "UUID not provided!"@
}

/// The explanation when a UUID is missing.
pub open spec fn no_uuid_text() -> Seq<char> {
    "A UUID must be provided before continuing!"@
}

impl ExpireCommand {
    /// The refusal when the change could not be stored.
    pub fn failed(&self) -> (r: Refusal)
        ensures
            is_refusal(r, "Could not expire action"@, "The action could not be expired. Please try again later."@),
    {
        refusal("Could not expire action", "The action could not be expired. Please try again later.")
    }

    /// The command's name.
    pub fn name(&self) -> (r: &'static str)
        ensures
            r@ == "expire"@,
    {
        "expire"
    }

    /// Checks the permission, then that a UUID was given.
    pub fn check(&self, held: &Vec<Permission>, uuid: Option<String>) -> (r: Result<String, Refusal>)
        ensures
            required_outcome(held@, Permission::ModerationExpire, Permission::ModerationExpire, text_of(uuid), no_uuid_title(), no_uuid_text(), r),
    {
        require(held, Permission::ModerationExpire, Permission::ModerationExpire, uuid, "UUID not provided!", "A UUID must be provided before continuing!")
    }

    /// The reply (also the log entry's description) and the log footer
    /// after action `id` was expired.
    pub fn messages(&self, id: &str) -> (r: (String, String))
        ensures
            r.0@ == "The action with ID `"@ + id@ + "` has been manually expired"@,
            r.1@ == "Action expired | UUID: "@ + id@,
    {
        let s = quoted("The action with ID ", id, " has been manually expired");
        proof {
            reveal_strlit("The action with ID ");
            reveal_strlit("The action with ID `");
            reveal_strlit("`");
            reveal_strlit(" has been manually expired");
            reveal_strlit("` has been manually expired");
        }
        assert(s@ =~= "The action with ID `"@ + id@ + "` has been manually expired"@);
        (s, labelled("Action expired | UUID: ", id))
    }
}

impl ReasonCommand {
    /// The refusal when the change could not be stored.
    pub fn failed(&self) -> (r: Refusal)
        ensures
            is_refusal(r, "Could not update action reason"@, "The action reason could not be updated. Please try again later."@),
    {
        refusal("Could not update action reason", "The action reason could not be updated. Please try again later.")
    }

    /// The command's name.
    pub fn name(&self) -> (r: &'static str)
        ensures
            r@ == "reason"@,
    {
        "reason"
    }

    /// Checks the permission, then that a reason was given.
    pub fn check(&self, held: &Vec<Permission>, reason: Option<String>) -> (r: Result<String, Refusal>)
        ensures
            required_outcome(held@, Permission::ModerationReason, Permission::ModerationReason, text_of(reason), "Reason not provided!"@,
                "A reason must be provided before continuing!"@, r),
    {
        require(held, Permission::ModerationReason, Permission::ModerationReason, reason, "Reason not provided!",
            "A reason must be provided before continuing!")
    }

    /// The reply (also the log entry's description) and the log footer
    /// after action `id` was given the reason `reason`.
    pub fn messages(&self, id: &str, reason: &str) -> (r: (String, String))
        ensures
            r.0@ == "The reason of action `"@ + id@ + "` has been updated to "@ + reason@,
            r.1@ == "Reason updated | UUID: "@ + id@,
    {
        let mut s = quoted("The reason of action ", id, " has been updated to ");
        push_str(&mut s, reason);
        proof {
            reveal_strlit("The reason of action ");
            reveal_strlit("The reason of action `");
            reveal_strlit("`");
            reveal_strlit(" has been updated to ");
            reveal_strlit("` has been updated to ");
        }
        assert(s@ =~= "The reason of action `"@ + id@ + "` has been updated to "@ + reason@);
        (s, labelled("Reason updated | UUID: ", id))
    }
}

impl RemoveCommand {
    /// The refusal when the change could not be stored.
    pub fn failed(&self) -> (r: Refusal)
        ensures
            is_refusal(r, "Could not remove action"@, "The action could not be removed. Please try again later."@),
    {
        refusal("Could not remove action", "The action could not be removed. Please try again later.")
    }

    /// The command's name.
    pub fn name(&self) -> (r: &'static str)
        ensures
            r@ == "remove"@,
    {
        "remove"
    }

    /// Checks the `moderation.remove` permission (the refusal names
    /// `moderation.reason`), then that a UUID was given.
    pub fn check(&self, held: &Vec<Permission>, uuid: Option<String>) -> (r: Result<String, Refusal>)
        ensures
            required_outcome(held@, Permission::ModerationRemove, Permission::ModerationReason, text_of(uuid), no_uuid_title(), no_uuid_text(), r),
    {
        require(held, Permission::ModerationRemove, Permission::ModerationReason, uuid, "UUID not provided!", "A UUID must be provided before continuing!")
    }

    /// The reply (also the log entry's description) and the log footer
    /// after action `id` was removed.
    pub fn messages(&self, id: &str) -> (r: (String, String))
        ensures
            r.0@ == "The action with ID `"@ + id@ + "` has been removed"@,
            r.1@ == "Action removed | UUID: "@ + id@,
    {
        let s = quoted("The action with ID ", id, " has been removed");
        proof {
            reveal_strlit("The action with ID ");
            reveal_strlit("The action with ID `");
            reveal_strlit("`");
            reveal_strlit(" has been removed");
            reveal_strlit("` has been removed");
        }
        assert(s@ =~= "The action with ID `"@ + id@ + "` has been removed"@);
        (s, labelled("Action removed | UUID: ", id))
    }
}

/// What checking a request to lift a ban or a mute gives: the member, or
/// the refusal for the missing permission or member.
pub open spec fn lift_outcome(held: Seq<Permission>, p: Permission, user: Option<u64>, r: Result<u64, Refusal>) -> bool {
    if !held.contains(p) {
        refuses(r, no_permission_title(), missing_permission_text(p))
    } else {
        match user {
            None => refuses(r, "User not provided!"@, "A user must be provided before continuing!"@),
            Some(u) => r == Ok::<u64, Refusal>(u),
        }
    }
}

fn check_lift(held: &Vec<Permission>, p: Permission, user: Option<u64>) -> (r: Result<u64, Refusal>)
    ensures
        lift_outcome(held@, p, user, r),
{
    if !holds(held, p) {
        return Err(missing_permission(p));
    }
    match user {
        None => Err(refusal("User not provided!", "A user must be provided before continuing!")),
        Some(u) => Ok(u),
    }
}

/// The reason recorded in the audit log when `name` (id `id`) lifts a
/// ban or a mute: `Unban by name (id)`.
pub open spec fn lift_reason(verb: Seq<char>, name: Seq<char>, id: u64) -> Seq<char> {
    verb + " by "@ + name + " ("@ + decimal_text(id as int) + ")"@
}

fn lift_reason_text(verb: &str, name: &str, id: u64) -> (r: String)
    ensures
        r@ == lift_reason(verb@, name@, id),
{
    let mut s = String::new();
    push_str(&mut s, verb);
    push_str(&mut s, " by ");
    push_str(&mut s, name);
    push_str(&mut s, " (");
    push_decimal(&mut s, id);
    push_str(&mut s, ")");
    assert(s@ =~= lift_reason(verb@, name@, id));
    s
}

fn user_line(user: u64, after: &str) -> (r: String)
    ensures
        r@ == user_tag(user as int) + after@,
{
    let mut s = String::new();
    push_str(&mut s, "<@");
    push_decimal(&mut s, user);
    push_str(&mut s, ">");
    push_str(&mut s, after);
    proof {
        reveal_strlit("<@");
        reveal_strlit(">");
    }
    assert(s@ =~= user_tag(user as int) + after@);
    s
}

fn user_footer(user: u64, after: &str) -> (r: String)
    ensures
        r@ == "User "@ + decimal_text(user as int) + after@,
{
    let mut s = String::new();
    push_str(&mut s, "User ");
    push_decimal(&mut s, user);
    push_str(&mut s, after);
    assert(s@ =~= "User "@ + decimal_text(user as int) + after@);
    s
}

impl UnbanCommand {
    /// The command's name.
    pub fn name(&self) -> (r: &'static str)
        ensures
            r@ == "unban"@,
    {
        "unban"
    }

    /// Checks the permission, then that a user was given.
    pub fn check(&self, held: &Vec<Permission>, user: Option<u64>) -> (r: Result<u64, Refusal>)
        ensures
            lift_outcome(held@, Permission::ModerationUnban, user, r),
    {
        check_lift(held, Permission::ModerationUnban, user)
    }

    /// The audit reason for an unban by `name` (id `id`).
    pub fn audit_reason(&self, name: &str, id: u64) -> (r: String)
        ensures
            r@ == lift_reason("Unban"@, name@, id),
    {
        lift_reason_text("Unban", name, id)
    }

    /// The refusal when the ban could not be lifted.
    pub fn failed(&self) -> (r: Refusal)
        ensures
            is_refusal(r, "Could not unban user"@,
                "The user could not be unbanned. This could be because no ban exists. Please double check before trying again"@),
    {
        refusal("Could not unban user",
            "The user could not be unbanned. This could be because no ban exists. Please double check before trying again")
    }

    /// The reply (also the log entry's description) and the log footer.
    pub fn messages(&self, user: u64) -> (r: (String, String))
        ensures
            r.0@ == user_tag(user as int) + " has been unbanned"@,
            r.1@ == "User "@ + decimal_text(user as int) + " unbanned"@,
    {
        (user_line(user, " has been unbanned"), user_footer(user, " unbanned"))
    }
}

/// Whether unmuting `user` in `guild` ends the action `a`: an active mute
/// of that member in that server.
pub open spec fn ended_by_unmute(a: Action, guild: i64, user: i64) -> bool {
    a.active && a.action_type == ActionType::Mute && a.user_id == user && a.guild_id == guild
}

/// An action as it stands after unmuting `user` in `guild`: made inactive
/// where the unmute ends it, unchanged otherwise.
pub open spec fn after_unmute(a: Action, guild: i64, user: i64) -> Action {
    if ended_by_unmute(a, guild, user) {
        Action { active: false, ..a }
    } else {
        a
    }
}

impl UnmuteCommand {
    /// The command's name.
    pub fn name(&self) -> (r: &'static str)
        ensures
            r@ == "unmute"@,
    {
        "unmute"
    }

    /// Checks the permission, then that a user was given.
    pub fn check(&self, held: &Vec<Permission>, user: Option<u64>) -> (r: Result<u64, Refusal>)
        ensures
            lift_outcome(held@, Permission::ModerationUnmute, user, r),
    {
        check_lift(held, Permission::ModerationUnmute, user)
    }

    /// The audit reason for an unmute by `name` (id `id`).
    pub fn audit_reason(&self, name: &str, id: u64) -> (r: String)
        ensures
            r@ == lift_reason("Unmute"@, name@, id),
    {
        lift_reason_text("Unmute", name, id)
    }

    /// The recorded actions after `user` is unmuted in `guild`: that
    /// member's active mutes in that server become inactive, and every
    /// other action, in other servers too, stays as it was.
    pub fn end_mutes(&self, actions: Vec<Action>, guild: i64, user: i64) -> (r: Vec<Action>)
        ensures
            r@.len() == actions@.len(),
            forall|i: int| 0 <= i < r@.len() ==> #[trigger] r@[i] == after_unmute(actions@[i], guild, user),
    {
        let ghost all = actions@;
        let mut rest = actions;
        let mut out: Vec<Action> = Vec::new();
        while rest.len() > 0
            invariant
                out@.len() + rest@.len() == all.len(),
                rest@ == all.subrange(out@.len() as int, all.len() as int),
                forall|k: int| 0 <= k < out@.len() ==> #[trigger] out@[k] == after_unmute(all[k], guild, user),
            decreases rest.len(),
        {
            let ghost k = out@.len() as int;
            let mut a = rest.remove(0);
            assert(a == all[k]);
            let is_mute = match a.action_type {
                ActionType::Mute => true,
                _ => false,
            };
            if a.active && is_mute && a.user_id == user && a.guild_id == guild {
                a.active = false;
            }
            out.push(a);
            assert(rest@ =~= all.subrange(out@.len() as int, all.len() as int));
        }
        out
    }

    /// The refusal when the mute role could not be taken away.
    pub fn failed(&self) -> (r: Refusal)
        ensures
            is_refusal(r, "Could not unmute user"@,
                "The user could not be unmuted. This could be because they currently do not have the mute role. Please double check before trying again"@),
    {
        refusal("Could not unmute user",
            "The user could not be unmuted. This could be because they currently do not have the mute role. Please double check before trying again")
    }

    /// The reply (also the log entry's description) and the log footer.
    pub fn messages(&self, user: u64) -> (r: (String, String))
        ensures
            r.0@ == user_tag(user as int) + " has been unmuted"@,
            r.1@ == "User "@ + decimal_text(user as int) + " unmuted"@,
    {
        (user_line(user, " has been unmuted"), user_footer(user, " unmuted"))
    }
}

} // verus!
