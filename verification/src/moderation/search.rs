//! Searching a member's moderation history: who may look, and the pages
//! that show one action each.

use vstd::prelude::*;
use crate::actions::ActionType;
use crate::permissions::{Permission, holds};
use crate::interaction::{ComponentData, Interaction};
use crate::moderation::records::{Action, expiry_field, expiry_text, timestamp_tag, timestamp_text, user_mention,
    user_tag};
use crate::response::{Refusal, is_refusal, missing_permission_text, missing_permission, no_permission_title};
use crate::text::{decimal_text, push_decimal, push_str, str_eq};

verus! {

/// What `inflections::case::to_title_case` makes of a text.
pub uninterp spec fn title_case_text(s: Seq<char>) -> Seq<char>;

/// Writes `s` in title case with `inflections::case::to_title_case`
/// (words split at separators and case changes, each capitalised and
/// joined by spaces). The result is named by `title_case_text`.
#[verifier::external_body]
fn title_case(s: &str) -> (r: String)
    ensures
        r@ == title_case_text(s@),
{
    inflections::case::to_title_case(s)
}

/// Looks up a member's moderation history.
#[derive(Debug)]
pub struct SearchCommand;

/// The permission needed to look at a history: one's own or another's,
/// active actions only or expired ones too.
pub open spec fn search_permission(own: bool, expired: bool) -> Permission {
    if own {
        if expired { Permission::ModerationSearchSelfExpired } else { Permission::ModerationSearchSelf }
    } else if expired {
        Permission::ModerationSearchOthersExpired
    } else {
        Permission::ModerationSearchOthers
    }
}

/// The colour of an action's page: a bright shade while in force, a dark
/// one once expired.
pub open spec fn action_colour(a: ActionType, active: bool) -> u32 {
    if active {
        match a {
            ActionType::Strike => 0xeb966d,
            ActionType::Mute => 0x2e4045,
            ActionType::Kick => 0x000080,
            ActionType::Ban => 0xf54029,
        }
    } else {
        match a {
            ActionType::Strike => 0xbd7857,
            ActionType::Mute => 0x182124,
            ActionType::Kick => 0x000054,
            ActionType::Ban => 0xba2f1e,
        }
    }
}

/// What a history page shows when it shows an action.
#[derive(Debug)]
pub struct ActionPage {
    pub title: String,
    pub description: String,
    pub kind: String,
    pub reason: String,
    pub moderator: String,
    pub issued: String,
    pub expires: String,
    pub colour: u32,
    /// `Page 2/5`.
    pub position: String,
    pub previous_disabled: bool,
    pub next_disabled: bool,
}

/// A history page: the message shown when there is nothing to show, or
/// an action.
#[derive(Debug)]
pub enum SearchPage {
    Empty { title: String, description: String },
    Shown(ActionPage),
}

/// The title of a history.
pub open spec fn history_title(name: Seq<char>) -> Seq<char> {
    name + "'s history"@
}

/// What the type field shows: the action's name in title case, a space,
/// and `(Expired)` once it has expired.
pub open spec fn kind_text(a: ActionType, active: bool) -> Seq<char> {
    title_case_text(a.spec_name()) + " "@ + if active { Seq::empty() } else { "(Expired)"@ }
}

/// Whether `p` shows page `page` (counted from 1) of the history `actions`
/// of the member `user` called `name`.
pub open spec fn shows_search_page(p: SearchPage, name: Seq<char>, user: u64, actions: Seq<Action>, page: int, expired: bool) -> bool {
    if actions.len() == 0 {
        p matches SearchPage::Empty { title, description } && title@ == history_title(name)
            && description@ == "No actions found"@
    } else if page - 1 >= actions.len() {
        p matches SearchPage::Empty { title, description } && title@ == history_title(name)
            && description@ == "Invalid page"@
    } else {
        let a = actions[page - 1];
        &&& p matches SearchPage::Shown(s)
        &&& s.title@ == name + "'s "@ + (if expired { Seq::empty() } else { "active "@ }) + "history"@
        &&& s.description@ == user_tag(user as int)
        &&& s.kind@ == kind_text(a.action_type, a.active)
        &&& s.reason@ == a.reason@
        &&& s.moderator@ == user_tag(a.moderator_id as int)
        &&& s.issued@ == timestamp_tag(a.created_at as int)
        &&& s.expires@ == expiry_text(a.expiry)
        &&& s.colour == action_colour(a.action_type, a.active)
        &&& s.position@ == "Page "@ + decimal_text(page) + "/"@ + decimal_text(actions.len() as int)
        &&& s.previous_disabled == (page == 1)
        &&& s.next_disabled == (page == actions.len())
    }
}

fn texted(t: &str) -> (r: String)
    ensures
        r@ == t@,
{
    let mut s = String::new();
    push_str(&mut s, t);
    assert(s@ =~= t@);
    s
}

fn colour_of(a: ActionType, active: bool) -> (r: u32)
    ensures
        r == action_colour(a, active),
{
    if active {
        match a {
            ActionType::Strike => 0xeb966d,
            ActionType::Mute => 0x2e4045,
            ActionType::Kick => 0x000080,
            ActionType::Ban => 0xf54029,
        }
    } else {
        match a {
            ActionType::Strike => 0xbd7857,
            ActionType::Mute => 0x182124,
            ActionType::Kick => 0x000054,
            ActionType::Ban => 0xba2f1e,
        }
    }
}

/// What a click on a history page does.
#[derive(Debug)]
pub enum SearchStep {
    /// Not a button: nothing happens.
    Ignored,
    /// Someone who may not look at this history clicked: they are told.
    Refused(Refusal),
    /// The page shown changes to this one (counted from 1).
    Moved(u8),
    /// The id of the action at this position is sent to the clicker.
    ShowId(usize),
    /// The history is closed.
    Close,
    /// Nothing changes.
    Unchanged,
}

/// What a button on page `page` of a history of `count` actions does:
/// `previous` and `next` move one page while they stay within the
/// history, `uuid` sends the id of the action shown, `close` closes it,
/// and anything else changes nothing.
pub open spec fn button_outcome(id: Seq<char>, page: u8, count: usize, r: SearchStep) -> bool {
    if id == "previous"@ {
        if page > 1 { r == SearchStep::Moved((page - 1) as u8) } else { r is Unchanged }
    } else if id == "next"@ {
        if page < count { r == SearchStep::Moved((page + 1) as u8) } else { r is Unchanged }
    } else if id == "uuid"@ {
        r == SearchStep::ShowId((page - 1) as usize)
    } else if id == "close"@ {
        r is Close
    } else {
        r is Unchanged
    }
}

/// Moving through a history never leaves it: from a page within it, a
/// button leads to a page within it, and the id sent is that of an action
/// it holds.
pub proof fn law_search_stays_in_history(id: Seq<char>, page: u8, count: usize, r: SearchStep)
    requires
        1 <= page <= count <= 255,
        button_outcome(id, page, count, r),
    ensures
        r matches SearchStep::Moved(p) ==> 1 <= p <= count,
        r matches SearchStep::ShowId(k) ==> k < count,
{
}

impl SearchCommand {
    /// The command's name.
    pub fn name(&self) -> (r: &'static str)
        ensures
            r@ == "search"@,
    {
        "search"
    }

    /// Whose history is searched: the member chosen, or the invoker.
    pub fn target(&self, invoker: u64, user: Option<u64>) -> (r: u64)
        ensures
            r == match user { Some(u) => u, None => invoker },
    {
        match user {
            Some(u) => u,
            None => invoker,
        }
    }

    /// The permission needed; see `search_permission`.
    pub fn required(&self, own: bool, expired: bool) -> (r: Permission)
        ensures
            r == search_permission(own, expired),
    {
        if own {
            if expired { Permission::ModerationSearchSelfExpired } else { Permission::ModerationSearchSelf }
        } else if expired {
            Permission::ModerationSearchOthersExpired
        } else {
            Permission::ModerationSearchOthers
        }
    }

    /// Refuses a search when the invoker, who holds `held`, lacks the
    /// permission it needs (see `search_permission`): searching oneself or
    /// another member, with or without expired actions.
    pub fn check(&self, invoker: u64, target: u64, expired: bool, held: &Vec<Permission>) -> (r: Result<(), Refusal>)
        ensures
            held@.contains(search_permission(target == invoker, expired)) ==> r is Ok,
            !held@.contains(search_permission(target == invoker, expired)) ==> (r matches Err(e)
                && is_refusal(e, no_permission_title(), missing_permission_text(search_permission(target == invoker, expired)))),
    {
        let needed = self.required(target == invoker, expired);
        if holds(held, needed) {
            Ok(())
        } else {
            Err(missing_permission(needed))
        }
    }

    /// Page `page` of a history of at most 255 actions; see
    /// `shows_search_page`. Pages are numbered by a byte, and the state of
    /// the "next" button is decided by the number of actions taken as a
    /// byte, so a longer history has no page.
    pub fn page(&self, name: &str, user: u64, actions: &Vec<Action>, page: u8, expired: bool) -> (r: SearchPage)
        requires
            1 <= page,
            actions.len() <= 255,
        ensures
            shows_search_page(r, name@, user, actions@, page as int, expired),
    {
        proof {
            reveal_strlit("'s history");
            reveal_strlit("'s ");
            reveal_strlit("active ");
            reveal_strlit("history");
            reveal_strlit(" ");
        }
        let mut title = String::new();
        push_str(&mut title, name);
        if actions.len() == 0 {
            push_str(&mut title, "'s history");
            return SearchPage::Empty { title, description: texted("No actions found") };
        }
        let index = (page - 1) as usize;
        if index >= actions.len() {
            push_str(&mut title, "'s history");
            return SearchPage::Empty { title, description: texted("Invalid page") };
        }
        let a = &actions[index];
        push_str(&mut title, "'s ");
        if !expired {
            push_str(&mut title, "active ");
        }
        push_str(&mut title, "history");
        let mut kind = title_case(a.action_type.name());
        push_str(&mut kind, " ");
        if !a.active {
            push_str(&mut kind, "(Expired)");
        }
        let mut position = String::new();
        push_str(&mut position, "Page ");
        push_decimal(&mut position, page as u64);
        push_str(&mut position, "/");
        push_decimal(&mut position, actions.len() as u64);
        let mut reason = String::new();
        push_str(&mut reason, a.reason.as_str());
        let p = ActionPage {
            title,
            description: crate::levelling::mention(user),
            kind,
            reason,
            moderator: user_mention(a.moderator_id),
            issued: timestamp_text(a.created_at),
            expires: expiry_field(a.expiry),
            colour: colour_of(a.action_type, a.active),
            position,
            previous_disabled: page == 1,
            next_disabled: index + 1 == actions.len(),
        };
        proof {
            reveal_strlit("<@");
            reveal_strlit(">");
            assert(p.title@ =~= name@ + "'s "@ + (if expired { Seq::empty() } else { "active "@ }) + "history"@);
            assert(p.kind@ =~= kind_text(a.action_type, a.active));
            assert(p.reason@ =~= a.reason@);
            assert(p.description@ =~= user_tag(user as int));
        }
        SearchPage::Shown(p)
    }

    /// Handles a click on page `page` of a history of `count` actions of
    /// the member `target`, opened by `invoker`. `clicker_held` is what the
    /// clicker holds: a clicker other than the invoker needs the
    /// permission to see this history (see `search_permission`, with the
    /// clicker in the place of the invoker).
    pub fn on_click(&self, i: &Interaction, clicker: u64, invoker: u64, target: u64, expired: bool,
        clicker_held: &Vec<Permission>, page: u8, count: usize) -> (r: SearchStep)
        requires
            1 <= page,
            count <= 255,
        ensures
            !(i.data is Button) ==> r is Ignored,
            i.data is Button && clicker != invoker && !clicker_held@.contains(search_permission(target == clicker, expired))
                ==> (r matches SearchStep::Refused(e) && is_refusal(e, no_permission_title(),
                missing_permission_text(search_permission(target == clicker, expired)))),
            i.data is Button && (clicker == invoker || clicker_held@.contains(search_permission(target == clicker, expired)))
                ==> button_outcome(i.custom_id@, page, count, r),
    {
        match i.data {
            ComponentData::Button => {},
            _ => return SearchStep::Ignored,
        }
        if clicker != invoker {
            let needed = self.required(target == clicker, expired);
            if !holds(clicker_held, needed) {
                return SearchStep::Refused(missing_permission(needed));
            }
        }
        let id = i.custom_id.as_str();
        if str_eq(id, "previous") {
            if page > 1 { SearchStep::Moved(page - 1) } else { SearchStep::Unchanged }
        } else if str_eq(id, "next") {
            if (page as usize) < count { SearchStep::Moved(page + 1) } else { SearchStep::Unchanged }
        } else if str_eq(id, "uuid") {
            SearchStep::ShowId((page - 1) as usize)
        } else if str_eq(id, "close") {
            SearchStep::Close
        } else {
            SearchStep::Unchanged
        }
    }
}

/// Every page of a history can be reached and left: on a page within it,
/// "previous" is disabled exactly on the first page and "next" exactly on
/// the last, and the page shows its own action (the `page`-th, counted
/// from 1) with its position out of the whole history. A page past the
/// end shows "Invalid page".
pub proof fn law_search_pages_navigate(p: SearchPage, name: Seq<char>, user: u64, actions: Seq<Action>, page: int,
    expired: bool)
    requires
        shows_search_page(p, name, user, actions, page, expired),
        1 <= page,
    ensures
        page <= actions.len() ==> (p matches SearchPage::Shown(s) && (s.previous_disabled <==> page == 1)
            && (s.next_disabled <==> page == actions.len()) && (page < actions.len() ==> !s.next_disabled)
            && s.reason@ == actions[page - 1].reason@ && s.moderator@ == user_tag(actions[page - 1].moderator_id as int)
            && s.position@ == "Page "@ + decimal_text(page) + "/"@ + decimal_text(actions.len() as int)),
        page > actions.len() ==> (p matches SearchPage::Empty { description, .. } && (description@ == "Invalid page"@
            || (actions.len() == 0 && description@ == "No actions found"@))),
{
}

/// "next" and "previous" move exactly one page while one is left in that
/// direction, so every page of a history is reached from the first by
/// pressing "next"; "uuid" sends the id of the action on the page shown.
pub proof fn law_buttons_move_one_page(id: Seq<char>, page: u8, count: usize, r: SearchStep)
    requires
        1 <= page <= count <= 255,
        button_outcome(id, page, count, r),
    ensures
        id == "next"@ && page < count ==> r == SearchStep::Moved((page + 1) as u8),
        id == "next"@ && page == count ==> r is Unchanged,
        id == "previous"@ && page > 1 ==> r == SearchStep::Moved((page - 1) as u8),
        id == "previous"@ && page == 1 ==> r is Unchanged,
        id == "uuid"@ ==> r == SearchStep::ShowId((page - 1) as usize),
{
    reveal_strlit("next");
    reveal_strlit("previous");
    reveal_strlit("uuid");
    reveal_strlit("close");
    assert("next"@ != "previous"@) by {
        assert("next"@[0] != "previous"@[0]);
    }
    assert("uuid"@ != "previous"@ && "uuid"@ != "next"@) by {
        assert("uuid"@[0] != "previous"@[0]);
        assert("uuid"@[0] != "next"@[0]);
    }
}

} // verus!
