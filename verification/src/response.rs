//! Refusals: the error a command answers with, a title and an
//! explanation, and the ones several commands share.

use vstd::prelude::*;
use crate::permissions::Permission;
use crate::text::push_str;

verus! {

/// Why a command did not do what was asked: a title and, mostly, an
/// explanation.
#[derive(Debug)]
pub struct Refusal {
    pub title: String,
    pub detail: Option<String>,
}

/// Whether `e` has this title and explanation.
pub open spec fn is_refusal(e: Refusal, title: Seq<char>, detail: Seq<char>) -> bool {
    &&& e.title@ == title
    &&& e.detail matches Some(d) && d@ == detail
}

/// Whether `e` has this title and no explanation.
pub open spec fn is_bare_refusal(e: Refusal, title: Seq<char>) -> bool {
    e.title@ == title && e.detail is None
}

/// A refusal with a title only.
pub fn bare_refusal(title: &str) -> (r: Refusal)
    ensures
        is_bare_refusal(r, title@),
{
    let mut t = String::new();
    push_str(&mut t, title);
    assert(t@ =~= title@);
    Refusal { title: t, detail: None }
}

/// Whether `r` is a refusal with this title and explanation.
pub open spec fn refuses<T>(r: Result<T, Refusal>, title: Seq<char>, detail: Seq<char>) -> bool {
    r matches Err(e) && is_refusal(e, title, detail)
}

/// A refusal with the given texts.
pub fn refusal(title: &str, detail: &str) -> (r: Refusal)
    ensures
        is_refusal(r, title@, detail@),
{
    let mut t = String::new();
    push_str(&mut t, title);
    let mut d = String::new();
    push_str(&mut d, detail);
    assert(t@ =~= title@);
    assert(d@ =~= detail@);
    Refusal { title: t, detail: Some(d) }
}

/// The title when a permission is missing.
pub open spec fn no_permission_title() -> Seq<char> {
    "You do not have permission to do this!"@
}

/// The explanation when the permission `p` is missing.
pub open spec fn missing_permission_text(p: Permission) -> Seq<char> {
    "You are missing the `"@ + p.spec_name()
        + "` permission. If you believe this is a mistake, please contact your server administrators."@
}

/// The explanation that `p` is missing, under `title`.
pub fn missing_permission_titled(title: &str, p: Permission) -> (r: Refusal)
    ensures
        is_refusal(r, title@, missing_permission_text(p)),
{
    let mut t = String::new();
    push_str(&mut t, title);
    let mut d = String::new();
    push_str(&mut d, "You are missing the `");
    push_str(&mut d, p.name());
    push_str(&mut d, "` permission. If you believe this is a mistake, please contact your server administrators.");
    assert(t@ =~= title@);
    assert(d@ =~= missing_permission_text(p));
    Refusal { title: t, detail: Some(d) }
}

/// The refusal for a user who lacks `p`.
pub fn missing_permission(p: Permission) -> (r: Refusal)
    ensures
        is_refusal(r, no_permission_title(), missing_permission_text(p)),
{
    missing_permission_titled("You do not have permission to do this!", p)
}

/// The title when the user option is absent.
pub open spec fn no_member_title() -> Seq<char> {
    "No member found!"@
}

/// The explanation when the user option is absent.
pub open spec fn no_member_text() -> Seq<char> {
    "The user option either was not provided, or this command was not ran in a guild. Both of these should not occur, if they do, please contact a developer."@
}

/// The refusal when the user option is absent.
pub fn no_member() -> (r: Refusal)
    ensures
        is_refusal(r, no_member_title(), no_member_text()),
{
    refusal("No member found!", "The user option either was not provided, or this command was not ran in a guild. Both of these should not occur, if they do, please contact a developer.")
}

/// How a reply to a command is sent.
#[derive(Clone, Copy, Debug, PartialEq, Eq, Structural)]
pub enum ReplyMode {
    /// The first answer already went out: it is edited (an edit cannot
    /// make a message visible to the invoker only).
    Edit,
    /// The first answer is created, visible to the invoker only when
    /// `ephemeral`.
    Create { ephemeral: bool },
}

/// How to send a reply, given whether the command was answered already
/// and whether the reply asks to be seen by the invoker only.
pub fn reply_mode(has_responded: bool, ephemeral: bool) -> (r: ReplyMode)
    ensures
        has_responded ==> r == ReplyMode::Edit,
        !has_responded ==> r == (ReplyMode::Create { ephemeral }),
{
    if has_responded {
        ReplyMode::Edit
    } else {
        ReplyMode::Create { ephemeral }
    }
}

/// Whether a command has been answered yet, which decides how its next
/// reply is sent.
#[derive(Debug)]
pub struct ReplyState {
    pub answered: bool,
}

/// Whether a command is answered after replies were sent, starting from
/// `answered`, and each of them went out or failed as `outcomes` says.
pub open spec fn answered_after(answered: bool, outcomes: Seq<bool>) -> bool
    decreases outcomes.len(),
{
    if outcomes.len() == 0 {
        answered
    } else {
        answered_after(answered || outcomes[0], outcomes.skip(1))
    }
}

impl ReplyState {
    /// A command that has not been answered.
    pub fn new() -> (r: ReplyState)
        ensures
            !r.answered,
    {
        ReplyState { answered: false }
    }

    /// How the next reply is sent; see `reply_mode`.
    pub fn mode(&self, ephemeral: bool) -> (r: ReplyMode)
        ensures
            self.answered ==> r == ReplyMode::Edit,
            !self.answered ==> r == (ReplyMode::Create { ephemeral }),
    {
        reply_mode(self.answered, ephemeral)
    }

    /// Records whether a reply, sent as `mode` said, went out: the command
    /// is answered once a reply went out (whatever happens after), and an
    /// answered command stays answered, even when an edit fails.
    pub fn after_send(&mut self, sent: bool)
        ensures
            final(self).answered == (old(self).answered || sent),
    {
        self.answered = self.answered || sent;
    }
}

/// Once a command is answered it stays answered, and it is answered
/// exactly when it was before or one of its replies went out.
pub proof fn law_answered_never_reverts(answered: bool, outcomes: Seq<bool>)
    ensures
        answered ==> answered_after(answered, outcomes),
        answered_after(answered, outcomes) == (answered || outcomes.contains(true)),
    decreases outcomes.len(),
{
    if outcomes.len() > 0 {
        law_answered_never_reverts(answered || outcomes[0], outcomes.skip(1));
        if outcomes.skip(1).contains(true) {
            let k = choose|k: int| 0 <= k < outcomes.skip(1).len() && outcomes.skip(1)[k] == true;
            assert(outcomes[k + 1] == true);
        }
        if outcomes.contains(true) && !outcomes[0] {
            let k = choose|k: int| 0 <= k < outcomes.len() && outcomes[k] == true;
            assert(outcomes.skip(1)[k - 1] == true);
        }
        if outcomes[0] {
            assert(outcomes.contains(true));
        }
    }
}

} // verus!
