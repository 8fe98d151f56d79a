//! Stored moderation actions and the texts that show them.

use vstd::prelude::*;
use crate::actions::ActionType;
use crate::text::{decimal_text, push_i64, push_str};

verus! {

/// A moderation action as stored: its id, kind, the member it was taken
/// against, who took it, where and why, whether it is still in force, and
/// when it was issued and ends (seconds since the Unix epoch; no end for a
/// permanent action).
#[derive(Debug)]
pub struct Action {
    pub id: String,
    pub action_type: ActionType,
    pub user_id: i64,
    pub moderator_id: i64,
    pub guild_id: i64,
    pub reason: String,
    pub active: bool,
    pub created_at: i64,
    pub expiry: Option<i64>,
}

/// A Discord timestamp tag showing a full date: `<t:1700000000:F>`.
pub open spec fn timestamp_tag(t: int) -> Seq<char> {
    "<t:"@ + decimal_text(t) + ":F>"@
}

/// The timestamp tag of `t`; see `timestamp_tag`.
pub fn timestamp_text(t: i64) -> (r: String)
    ensures
        r@ == timestamp_tag(t as int),
{
    let mut s = String::new();
    push_str(&mut s, "<t:");
    push_i64(&mut s, t);
    push_str(&mut s, ":F>");
    assert(s@ =~= timestamp_tag(t as int));
    s
}

/// When an action ends, as shown: its timestamp tag, or `Never`.
pub open spec fn expiry_text(e: Option<i64>) -> Seq<char> {
    match e {
        Some(t) => timestamp_tag(t as int),
        None => "Never"@,
    }
}

/// When an action ends, as shown; see `expiry_text`.
pub fn expiry_field(e: Option<i64>) -> (r: String)
    ensures
        r@ == expiry_text(e),
{
    match e {
        Some(t) => timestamp_text(t),
        None => {
            let mut s = String::new();
            push_str(&mut s, "Never");
            assert(s@ =~= "Never"@);
            s
        },
    }
}

/// A user mention, `<@id>`.
pub open spec fn user_tag(id: int) -> Seq<char> {
    "<@"@ + decimal_text(id) + ">"@
}

/// A user mention; see `user_tag`.
pub fn user_mention(id: i64) -> (r: String)
    ensures
        r@ == user_tag(id as int),
{
    let mut s = String::new();
    push_str(&mut s, "<@");
    push_i64(&mut s, id);
    push_str(&mut s, ">");
    assert(s@ =~= user_tag(id as int));
    s
}

/// What the reply to an action says: the member's mention and what was
/// done, and, when the member could not be told by direct message, a
/// second line saying so.
pub open spec fn action_notice(user: int, done: Seq<char>, notified: bool) -> Seq<char> {
    if notified {
        user_tag(user) + done
    } else {
        user_tag(user) + done + "\n*"@ + user_tag(user) + " could not be notified*"@
    }
}

/// The reply text for an action; see `action_notice`. `done` is what
/// happened, such as ` was kicked`.
pub fn notice(user: i64, done: &str, notified: bool) -> (r: String)
    ensures
        r@ == action_notice(user as int, done@, notified),
{
    let mut s = user_mention(user);
    push_str(&mut s, done);
    if !notified {
        push_str(&mut s, "\n*");
        let m = user_mention(user);
        push_str(&mut s, m.as_str());
        push_str(&mut s, " could not be notified*");
    }
    assert(s@ =~= action_notice(user as int, done@, notified));
    s
}

/// What the reply to a strike, mute or kick says happened to the member.
pub open spec fn done_text(a: ActionType) -> Seq<char>
    recommends
        a != ActionType::Ban,
{
    match a {
        ActionType::Mute => " has been muted"@,
        ActionType::Kick => " was kicked"@,
        _ => " was issued a strike"@,
    }
}

/// The reply to an action against `user`; see `action_notice`.
pub fn action_reply(a: ActionType, user: i64, notified: bool) -> (r: String)
    requires
        a != ActionType::Ban,
    ensures
        r@ == action_notice(user as int, done_text(a), notified),
{
    match a {
        ActionType::Mute => notice(user, " has been muted", notified),
        ActionType::Kick => notice(user, " was kicked", notified),
        _ => notice(user, " was issued a strike", notified),
    }
}

} // verus!
