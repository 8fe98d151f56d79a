//! The channel blacklist stages of the wizard, and the list editor they
//! share with the role blacklist.

use vstd::prelude::*;
use crate::interaction::{ComponentData, Interaction};
use crate::text::{decimal_text, push_char, push_decimal, push_i64, push_str, str_eq};
use crate::config::{ConfigError, ConfigIssue, invalid_option, issue, spec_timed_out, step, timed_out};
use crate::config::logging::clicked;

verus! {

/// How many entries a page of a blacklist shows.
pub const ENTRIES_PER_PAGE: usize = 25;

/// The number of pages a list of `count` entries fills: at least one, and
/// enough for 25 entries each.
pub open spec fn page_count(count: nat) -> nat {
    if count == 0 {
        1
    } else {
        ((count + 24) / 25) as nat
    }
}

/// The pages needed for `count` entries; see `page_count`.
pub fn pages_for(count: usize) -> (r: usize)
    ensures
        r == page_count(count as nat),
        r >= 1,
{
    if count == 0 {
        1
    } else {
        count / 25 + if count % 25 == 0 { 0 } else { 1 }
    }
}

/// What a blacklist holds: channels or roles.
#[derive(Clone, Copy, Debug, PartialEq, Eq, Structural)]
pub enum BlacklistKind {
    Channel,
    Role,
}

impl BlacklistKind {
    /// The id of the menu that picks an entry.
    pub open spec fn spec_menu(self) -> Seq<char> {
        match self {
            BlacklistKind::Channel => "pick_channel"@,
            BlacklistKind::Role => "pick_role"@,
        }
    }

    /// Whether a click carries picks of this kind, and which.
    pub open spec fn picks(self, d: ComponentData) -> Option<Seq<i64>> {
        match (self, d) {
            (BlacklistKind::Channel, ComponentData::ChannelSelect(cs)) => Some(cs@),
            (BlacklistKind::Role, ComponentData::RoleSelect(rs)) => Some(rs@),
            _ => None,
        }
    }

    /// The problems of this kind of list.
    pub open spec fn issues(self) -> (ConfigIssue, ConfigIssue, ConfigIssue, ConfigIssue) {
        match self {
            BlacklistKind::Channel => (ConfigIssue::NoChannelSelected, ConfigIssue::ChannelAlreadyAdded,
                ConfigIssue::ChannelBoosted, ConfigIssue::ChannelNotAdded),
            BlacklistKind::Role => (ConfigIssue::NoRoleSelected, ConfigIssue::RoleAlreadyAdded,
                ConfigIssue::RoleBoosted, ConfigIssue::RoleNotAdded),
        }
    }
}

/// What the next pick does.
#[derive(Clone, Copy, Debug, PartialEq, Eq, Structural)]
pub enum EditMode {
    Add,
    Remove,
}

/// What the editor does after a click.
#[derive(Debug)]
pub enum BlacklistStep {
    /// The list is shown again. `acknowledge` tells whether a pick must
    /// still be acknowledged (other clicks always are).
    Redraw { acknowledge: bool },
    /// The stage ends with `result`; when `save` is set the list as it
    /// stands is stored first. `acknowledge` as for `Redraw`.
    Finish { save: bool, acknowledge: bool, result: Result<Option<usize>, ConfigError> },
}

/// A blacklist being edited: its entries, the page shown and what the
/// next pick does.
#[derive(Debug)]
pub struct BlacklistEditor {
    pub kind: BlacklistKind,
    pub entries: Vec<i64>,
    pub page: usize,
    pub mode: Option<EditMode>,
}

/// The position of the first `x` in `s`, if any.
pub open spec fn position_of(s: Seq<i64>, x: i64) -> Option<int>
    decreases s.len(),
{
    if s.len() == 0 {
        None
    } else if s[0] == x {
        Some(0)
    } else {
        match position_of(s.skip(1), x) {
            Some(p) => Some(p + 1),
            None => None,
        }
    }
}

proof fn lemma_position_of(s: Seq<i64>, x: i64)
    ensures
        match position_of(s, x) {
            Some(p) => 0 <= p < s.len() && s[p] == x && forall|j: int| 0 <= j < p ==> s[j] != x,
            None => !s.contains(x),
        },
    decreases s.len(),
{
    if s.len() > 0 && s[0] != x {
        lemma_position_of(s.skip(1), x);
        match position_of(s.skip(1), x) {
            Some(p) => {
                assert forall|j: int| 0 <= j < p + 1 implies s[j] != x by {
                    if j > 0 {
                        assert(s[j] == s.skip(1)[j - 1]);
                    }
                }
            },
            None => {
                if s.contains(x) {
                    let k = choose|k: int| 0 <= k < s.len() && s[k] == x;
                    assert(s.skip(1)[k - 1] == x);
                }
            },
        }
    }
}

fn find_entry(s: &Vec<i64>, x: i64) -> (r: Option<usize>)
    ensures
        match r {
            Some(p) => position_of(s@, x) == Some(p as int),
            None => position_of(s@, x).is_none(),
        },
{
    let mut i: usize = 0;
    assert(s@.skip(0) =~= s@);
    while i < s.len()
        invariant
            i <= s.len(),
            position_of(s@, x) == match position_of(s@.skip(i as int), x) {
                Some(p) => Some(p + i),
                None => None,
            },
        decreases s.len() - i,
    {
        assert(s@.skip(i as int)[0] == s@[i as int]);
        assert(s@.skip(i as int).skip(1) =~= s@.skip(i + 1));
        if s[i] == x {
            return Some(i);
        }
        i += 1;
    }
    None
}

/// The editor's state as plain values.
pub open spec fn editor_state(e: BlacklistEditor) -> (Seq<i64>, usize, Option<EditMode>) {
    (e.entries@, e.page, e.mode)
}

/// Whether a step finishes with these values.
pub open spec fn finishes_with(r: BlacklistStep, save: bool, acknowledge: bool, result: Result<Option<usize>, ConfigError>) -> bool {
    match r {
        BlacklistStep::Finish { save: s, acknowledge: a, result: res } => s == save && a == acknowledge && res == result,
        _ => false,
    }
}

/// Whether a step redraws.
pub open spec fn redraws(r: BlacklistStep, acknowledge: bool) -> bool {
    match r {
        BlacklistStep::Redraw { acknowledge: a } => a == acknowledge,
        _ => false,
    }
}

/// What a pick of `x` does to the editor `before`, given whether `x` is
/// boosted: the expected step and the state after it.
pub open spec fn pick_outcome(before: BlacklistEditor, x: i64, boosted: bool, r: BlacklistStep, after: (Seq<i64>, usize, Option<EditMode>)) -> bool {
    let (_, added, boost, missing) = before.kind.issues();
    let same = after == editor_state(before);
    match before.mode {
        Some(EditMode::Add) => if before.entries@.contains(x) {
            same && finishes_with(r, true, false, Err(issue(added)))
        } else if boosted {
            same && finishes_with(r, true, false, Err(issue(boost)))
        } else {
            redraws(r, true) && after == (before.entries@.push(x), before.page, None::<EditMode>)
        },
        Some(EditMode::Remove) => match position_of(before.entries@, x) {
            None => same && finishes_with(r, true, true, Err(issue(missing))),
            Some(p) => redraws(r, true) && after == (before.entries@.remove(p), before.page, None::<EditMode>),
        },
        None => false,
    }
}

/// What a click with custom id `id` and data `data` does to the editor
/// `before`: the step `r` and the state `after`. `boosted` tells whether the
/// entry picked, if any, has an XP multiplier.
pub open spec fn click_outcome(before: BlacklistEditor, id: Seq<char>, data: ComponentData, boosted: bool,
    r: BlacklistStep, after: (Seq<i64>, usize, Option<EditMode>)) -> bool {
    let same = after == editor_state(before);
    let pages = page_count(before.entries@.len());
    if id == before.kind.spec_menu() {
        match before.mode {
            None => same && finishes_with(r, true, false, Err(issue(ConfigIssue::InvalidOption))),
            Some(_) => match before.kind.picks(data) {
                None => same && finishes_with(r, true, false, Err(issue(ConfigIssue::InvalidOption))),
                Some(xs) => if xs.len() == 0 {
                    same && finishes_with(r, false, false, Err(issue(before.kind.issues().0)))
                } else {
                    pick_outcome(before, xs[0], boosted, r, after)
                },
            },
        }
    } else if id == "add"@ {
        redraws(r, false) && after == (before.entries@, before.page,
            if before.mode.is_none() { Some(EditMode::Add) } else { before.mode })
    } else if id == "remove"@ {
        redraws(r, false) && after == (before.entries@, before.page,
            if before.mode.is_none() { Some(EditMode::Remove) } else { before.mode })
    } else if id == "cancel"@ {
        redraws(r, false) && after == (before.entries@, before.page, None::<EditMode>)
    } else if id == "next"@ {
        redraws(r, false) && after == (before.entries@,
            if before.page + 1 != pages { (before.page + 1) as usize } else { before.page }, before.mode)
    } else if id == "previous"@ {
        redraws(r, false) && after == (before.entries@,
            if before.page > 0 { (before.page - 1) as usize } else { before.page }, before.mode)
    } else if id == "done"@ {
        same && finishes_with(r, true, false, Ok(None))
    } else if id == "revert"@ {
        same && finishes_with(r, false, false, Ok(Some(0)))
    } else {
        same && finishes_with(r, false, false, Err(issue(ConfigIssue::InvalidOption)))
    }
}

impl BlacklistEditor {
    /// An editor on the stored list, at its first page, not editing.
    pub fn new(kind: BlacklistKind, entries: Vec<i64>) -> (r: BlacklistEditor)
        ensures
            r.kind == kind,
            r.entries@ == entries@,
            r.page == 0,
            r.mode.is_none(),
    {
        BlacklistEditor { kind, entries, page: 0, mode: None }
    }

    /// Handles one click. `boosted` tells whether the entry picked, if any,
    /// has an XP multiplier (boosted entries cannot be blacklisted).
    pub fn on_click(&mut self, i: &Interaction, boosted: bool) -> (r: BlacklistStep)
        requires
            old(self).page < usize::MAX,
        ensures
            final(self).kind == old(self).kind,
            click_outcome(*old(self), i.custom_id@, i.data, boosted, r, editor_state(*final(self))),
    {
        let id = i.custom_id.as_str();
        let menu = match self.kind {
            BlacklistKind::Channel => "pick_channel",
            BlacklistKind::Role => "pick_role",
        };
        let pages = pages_for(self.entries.len());
        if str_eq(id, menu) {
            let mode = match self.mode {
                None => return BlacklistStep::Finish { save: true, acknowledge: false, result: Err(invalid_option()) },
                Some(m) => m,
            };
            let xs = match (self.kind, &i.data) {
                (BlacklistKind::Channel, ComponentData::ChannelSelect(cs)) => cs,
                (BlacklistKind::Role, ComponentData::RoleSelect(rs)) => rs,
                _ => return BlacklistStep::Finish { save: true, acknowledge: false, result: Err(invalid_option()) },
            };
            let (none_picked, already, boosted_issue, not_added) = match self.kind {
                BlacklistKind::Channel => (ConfigIssue::NoChannelSelected, ConfigIssue::ChannelAlreadyAdded,
                    ConfigIssue::ChannelBoosted, ConfigIssue::ChannelNotAdded),
                BlacklistKind::Role => (ConfigIssue::NoRoleSelected, ConfigIssue::RoleAlreadyAdded,
                    ConfigIssue::RoleBoosted, ConfigIssue::RoleNotAdded),
            };
            if xs.len() == 0 {
                return BlacklistStep::Finish {
                    save: false,
                    acknowledge: false,
                    result: Err(ConfigError { error: none_picked, stages_to_skip: None }),
                };
            }
            let x = xs[0];
            match mode {
                EditMode::Add => {
                    let found = find_entry(&self.entries, x);
                    proof {
                        lemma_position_of(self.entries@, x);
                    }
                    if found.is_some() {
                        return BlacklistStep::Finish {
                            save: true,
                            acknowledge: false,
                            result: Err(ConfigError { error: already, stages_to_skip: None }),
                        };
                    }
                    if boosted {
                        return BlacklistStep::Finish {
                            save: true,
                            acknowledge: false,
                            result: Err(ConfigError { error: boosted_issue, stages_to_skip: None }),
                        };
                    }
                    self.entries.push(x);
                    self.mode = None;
                    BlacklistStep::Redraw { acknowledge: true }
                },
                EditMode::Remove => {
                    proof {
                        lemma_position_of(self.entries@, x);
                    }
                    match find_entry(&self.entries, x) {
                        None => BlacklistStep::Finish {
                            save: true,
                            acknowledge: true,
                            result: Err(ConfigError { error: not_added, stages_to_skip: None }),
                        },
                        Some(p) => {
                            self.entries.remove(p);
                            self.mode = None;
                            BlacklistStep::Redraw { acknowledge: true }
                        },
                    }
                },
            }
        } else if str_eq(id, "add") {
            if self.mode.is_none() {
                self.mode = Some(EditMode::Add);
            }
            BlacklistStep::Redraw { acknowledge: false }
        } else if str_eq(id, "remove") {
            if self.mode.is_none() {
                self.mode = Some(EditMode::Remove);
            }
            BlacklistStep::Redraw { acknowledge: false }
        } else if str_eq(id, "cancel") {
            self.mode = None;
            BlacklistStep::Redraw { acknowledge: false }
        } else if str_eq(id, "next") {
            if self.page + 1 != pages {
                self.page = self.page + 1;
            }
            BlacklistStep::Redraw { acknowledge: false }
        } else if str_eq(id, "previous") {
            if self.page > 0 {
                self.page = self.page - 1;
            }
            BlacklistStep::Redraw { acknowledge: false }
        } else if str_eq(id, "done") {
            BlacklistStep::Finish { save: true, acknowledge: false, result: Ok(None) }
        } else if str_eq(id, "revert") {
            BlacklistStep::Finish { save: false, acknowledge: false, result: Ok(Some(0)) }
        } else {
            BlacklistStep::Finish { save: false, acknowledge: false, result: Err(invalid_option()) }
        }
    }

    /// When no click comes for ten minutes the stage ends without storing
    /// anything.
    pub fn on_silence(&self) -> (r: Result<Option<usize>, ConfigError>)
        ensures
            r == Ok::<Option<usize>, ConfigError>(None),
    {
        Ok(None)
    }
}

/// How an entry is written in the list: `<#id>` for a channel, `<@&id>`
/// for a role.
pub open spec fn entry_text(kind: BlacklistKind, id: i64) -> Seq<char> {
    match kind {
        BlacklistKind::Channel => seq!['<', '#'] + decimal_text(id as int) + seq!['>'],
        BlacklistKind::Role => seq!['<', '@', '&'] + decimal_text(id as int) + seq!['>'],
    }
}

/// The entries of `s`, one per line.
pub open spec fn entry_lines(kind: BlacklistKind, s: Seq<i64>) -> Seq<char>
    decreases s.len(),
{
    if s.len() == 0 {
        Seq::empty()
    } else if s.len() == 1 {
        entry_text(kind, s[0])
    } else {
        entry_lines(kind, s.drop_last()) + seq!['\n'] + entry_text(kind, s.last())
    }
}

/// The entries shown on page `page` (counted from 0).
pub open spec fn page_entries(s: Seq<i64>, page: int) -> Seq<i64> {
    let start = page * 25;
    let end = if start + 25 > s.len() { s.len() as int } else { start + 25 };
    s.subrange(start, end)
}

/// The title of a page: `Blacklisted Channels - Page 2/3`.
pub open spec fn blacklist_title(kind: BlacklistKind, page: int, pages: int) -> Seq<char> {
    (match kind {
        BlacklistKind::Channel => "Blacklisted Channels - Page "@,
        BlacklistKind::Role => "Blacklisted Roles - Page "@,
    }) + decimal_text(page + 1) + seq!['/'] + decimal_text(pages)
}

/// The line above the listed entries.
pub open spec fn blacklist_heading(kind: BlacklistKind) -> Seq<char> {
    match kind {
        BlacklistKind::Channel => "The following channels are currently blacklisted:\n\n"@,
        BlacklistKind::Role => "The following roles are currently blacklisted:\n\n"@,
    }
}

/// Whether `v` shows page `page` of `entries`.
pub open spec fn shows_page(v: BlacklistView, kind: BlacklistKind, entries: Seq<i64>, page: int, editing: bool) -> bool {
    let shown = page_entries(entries, page);
    &&& v.title@ == blacklist_title(kind, page, page_count(entries.len()) as int)
    &&& shown.len() == 0 ==> v.description.is_none()
    &&& shown.len() > 0 ==> (v.description matches Some(d)
        && d@ == blacklist_heading(kind) + entry_lines(kind, shown))
    &&& v.editing == editing
    &&& v.previous_disabled == (page == 0)
    &&& v.next_disabled == (page + 1 == page_count(entries.len()))
    &&& v.remove_disabled == (entries.len() == 0)
}

/// What a page of a blacklist shows. While editing, the page shows the
/// picker with the cancel and revert buttons; otherwise the previous, next,
/// add, remove and done buttons and the revert button.
#[derive(Debug)]
pub struct BlacklistView {
    pub title: String,
    /// The listed entries, absent on an empty page.
    pub description: Option<String>,
    pub editing: bool,
    pub previous_disabled: bool,
    pub next_disabled: bool,
    pub remove_disabled: bool,
}

pub(crate) fn push_entry(s: &mut String, kind: BlacklistKind, id: i64)
    ensures
        final(s)@ == old(s)@ + entry_text(kind, id),
{
    match kind {
        BlacklistKind::Channel => {
            push_char(s, '<');
            push_char(s, '#');
        },
        BlacklistKind::Role => {
            push_char(s, '<');
            push_char(s, '@');
            push_char(s, '&');
        },
    }
    push_i64(s, id);
    push_char(s, '>');
    assert(s@ =~= old(s)@ + entry_text(kind, id));
}

/// The page `page` of the list `entries`. The page must start within the
/// list (at its end for an empty page).
pub fn blacklist_view(kind: BlacklistKind, entries: &Vec<i64>, page: usize, editing: bool) -> (r: BlacklistView)
    requires
        page * 25 <= entries.len(),
    ensures
        shows_page(r, kind, entries@, page as int, editing),
{
    proof {
        reveal_strlit("Blacklisted Channels - Page ");
        reveal_strlit("Blacklisted Roles - Page ");
    }
    let start = page * 25;
    let end = if entries.len() - start < 25 { entries.len() } else { start + 25 };
    let pages = pages_for(entries.len());
    let mut title = String::new();
    match kind {
        BlacklistKind::Channel => push_str(&mut title, "Blacklisted Channels - Page "),
        BlacklistKind::Role => push_str(&mut title, "Blacklisted Roles - Page "),
    }
    push_decimal(&mut title, (page + 1) as u64);
    push_char(&mut title, '/');
    push_decimal(&mut title, pages as u64);
    assert(title@ =~= blacklist_title(kind, page as int, page_count(entries@.len()) as int));
    let ghost shown = page_entries(entries@, page as int);
    let description = if start == end {
        None
    } else {
        let mut d = String::new();
        match kind {
            BlacklistKind::Channel => push_str(&mut d, "The following channels are currently blacklisted:\n\n"),
            BlacklistKind::Role => push_str(&mut d, "The following roles are currently blacklisted:\n\n"),
        }
        let ghost head = d@;
        let mut i: usize = start;
        while i < end
            invariant
                start <= i <= end,
                end <= entries.len(),
                shown == entries@.subrange(start as int, end as int),
                d@ == head + entry_lines(kind, entries@.subrange(start as int, i as int)),
            decreases end - i,
        {
            let ghost before = entries@.subrange(start as int, i as int);
            let ghost after = entries@.subrange(start as int, i + 1);
            assert(after.drop_last() =~= before);
            assert(after.last() == entries@[i as int]);
            if i > start {
                push_char(&mut d, '\n');
            }
            push_entry(&mut d, kind, entries[i]);
            assert(d@ =~= head + entry_lines(kind, after));
            i += 1;
        }
        Some(d)
    };
    BlacklistView {
        title,
        description,
        editing,
        previous_disabled: page == 0,
        next_disabled: page + 1 == pages,
        remove_disabled: entries.len() == 0,
    }
}

impl BlacklistEditor {
    /// The page the editor shows; see `blacklist_view`.
    pub fn view(&self) -> (r: BlacklistView)
        requires
            self.page * 25 <= self.entries.len(),
        ensures
            shows_page(r, self.kind, self.entries@, self.page as int, self.mode.is_some()),
    {
        blacklist_view(self.kind, &self.entries, self.page, self.mode.is_some())
    }
}

/// The result of a stage that asks whether to configure a part of the
/// levelling settings: `yes` enters the part, `skip` passes over its two
/// stages.
pub open spec fn yes_skip_result(reply: Option<Seq<char>>) -> Result<Option<usize>, ConfigError> {
    match reply {
        None => Err(spec_timed_out()),
        Some(id) => if id == "skip"@ {
            Ok(Some(2))
        } else if id == "yes"@ {
            Ok(None)
        } else {
            Err(issue(ConfigIssue::InvalidOption))
        },
    }
}

/// The answer to a yes-or-skip question (`None`: no click in time).
pub fn yes_skip(reply: Option<&Interaction>) -> (r: Result<Option<usize>, ConfigError>)
    ensures
        r == yes_skip_result(clicked(reply)),
{
    match reply {
        None => Err(timed_out()),
        Some(i) => if str_eq(i.custom_id.as_str(), "skip") {
            Ok(Some(2))
        } else if str_eq(i.custom_id.as_str(), "yes") {
            Ok(None)
        } else {
            Err(invalid_option())
        },
    }
}

/// Asks whether to configure the channels where no XP is earned.
#[derive(Debug)]
pub struct ChannelBlacklistEnter;

impl ChannelBlacklistEnter {
    /// The answer to the stage's buttons; see `yes_skip_result`.
    pub fn answer(&self, reply: Option<&Interaction>) -> (r: Result<Option<usize>, ConfigError>)
        ensures
            r == yes_skip_result(clicked(reply)),
    {
        yes_skip(reply)
    }
}

/// Edits the channels where no XP is earned.
#[derive(Debug)]
pub struct ChannelBlacklistManage;

impl ChannelBlacklistManage {
    /// The pages that `count` blacklisted channels fill.
    pub fn max_pages(count: usize) -> (r: usize)
        ensures
            r == page_count(count as nat),
    {
        pages_for(count)
    }

    /// Page `page` of the blacklisted channels.
    pub fn generate_display_message(entries: &Vec<i64>, page: usize, editing: bool) -> (r: BlacklistView)
        requires
            page * 25 <= entries.len(),
        ensures
            shows_page(r, BlacklistKind::Channel, entries@, page as int, editing),
    {
        blacklist_view(BlacklistKind::Channel, entries, page, editing)
    }

    /// An editor on the stored channels.
    pub fn editor(&self, entries: Vec<i64>) -> (r: BlacklistEditor)
        ensures
            r.kind == BlacklistKind::Channel,
            r.entries@ == entries@,
            r.page == 0,
            r.mode.is_none(),
    {
        BlacklistEditor::new(BlacklistKind::Channel, entries)
    }
}

/// Editing keeps a list free of repeats: no click puts an entry in twice.
pub proof fn law_blacklist_stays_distinct(before: BlacklistEditor, id: Seq<char>, data: ComponentData, boosted: bool,
    r: BlacklistStep, after: (Seq<i64>, usize, Option<EditMode>))
    requires
        before.entries@.no_duplicates(),
        click_outcome(before, id, data, boosted, r, after),
    ensures
        after.0.no_duplicates(),
{
    let s = before.entries@;
    if id == before.kind.spec_menu() && before.mode is Some && before.kind.picks(data) is Some {
        let xs = before.kind.picks(data)->0;
        if xs.len() > 0 {
            let x = xs[0];
            lemma_position_of(s, x);
            match (before.mode, position_of(s, x)) {
                (Some(EditMode::Remove), Some(p)) => {
                    assert forall|a: int, b: int| 0 <= a < b < after.0.len() implies after.0[a] != after.0[b] by {
                        let a2 = if a < p { a } else { a + 1 };
                        let b2 = if b < p { b } else { b + 1 };
                        assert(after.0[a] == s[a2]);
                        assert(after.0[b] == s[b2]);
                    }
                },
                _ => {},
            }
        }
    }
}

/// Adding an entry that was not listed and then removing it gives back the
/// list as it was.
pub proof fn law_blacklist_add_then_remove(e0: BlacklistEditor, e1: BlacklistEditor, e2: BlacklistEditor,
    x: i64, pick: ComponentData, boosted: bool, remove: ComponentData, pick_again: ComponentData,
    r0: BlacklistStep, r1: BlacklistStep, r2: BlacklistStep, after: (Seq<i64>, usize, Option<EditMode>))
    requires
        e0.mode == Some(EditMode::Add),
        !e0.entries@.contains(x),
        !boosted,
        e1.kind == e0.kind,
        e2.kind == e0.kind,
        e0.kind.picks(pick) == Some(seq![x]),
        e0.kind.picks(pick_again) == Some(seq![x]),
        click_outcome(e0, e0.kind.spec_menu(), pick, boosted, r0, editor_state(e1)),
        click_outcome(e1, "remove"@, remove, false, r1, editor_state(e2)),
        click_outcome(e2, e0.kind.spec_menu(), pick_again, false, r2, after),
    ensures
        after.0 == e0.entries@,
        redraws(r2, true),
{
    proof_menus_differ(e0.kind);
    let s = e0.entries@;
    assert(e1.entries@ == s.push(x));
    assert(e2.mode == Some(EditMode::Remove));
    assert(s.push(x)[s.len() as int] == x);
    lemma_position_of(s.push(x), x);
    lemma_position_of(s, x);
    let p = position_of(s.push(x), x)->0;
    assert(0 <= p < s.len() + 1);
    if p < s.len() {
        assert(s.push(x)[p] == s[p]);
    }
    assert(p == s.len());
    assert(s.push(x).remove(p) =~= s);
}

proof fn proof_menus_differ(k: BlacklistKind)
    ensures
        k.spec_menu() != "remove"@,
        "add"@ != "remove"@,
{
    reveal_strlit("pick_channel");
    reveal_strlit("pick_role");
    reveal_strlit("remove");
    reveal_strlit("add");
    assert(k.spec_menu().len() != "remove"@.len());
    assert("add"@.len() != "remove"@.len());
}

/// Paging through a list never leaves its pages: from a page within the
/// list, `next` and `previous` lead to a page within it.
pub proof fn law_blacklist_paging_stays_in_range(before: BlacklistEditor, id: Seq<char>, data: ComponentData,
    boosted: bool, r: BlacklistStep, after: (Seq<i64>, usize, Option<EditMode>))
    requires
        before.page < page_count(before.entries@.len()),
        id == "next"@ || id == "previous"@,
        click_outcome(before, id, data, boosted, r, after),
    ensures
        after.1 < page_count(after.0.len()),
        after.0 == before.entries@,
{
    proof_paging_ids_differ(before.kind);
}

proof fn proof_paging_ids_differ(k: BlacklistKind)
    ensures
        k.spec_menu() != "next"@,
        k.spec_menu() != "previous"@,
        "add"@ != "next"@,
        "add"@ != "previous"@,
        "remove"@ != "next"@,
        "remove"@ != "previous"@,
        "cancel"@ != "next"@,
        "cancel"@ != "previous"@,
        "next"@ != "previous"@,
{
    reveal_strlit("pick_channel");
    reveal_strlit("pick_role");
    reveal_strlit("next");
    reveal_strlit("previous");
    reveal_strlit("add");
    reveal_strlit("remove");
    reveal_strlit("cancel");
    assert(k.spec_menu().len() != "next"@.len());
    assert(k.spec_menu().len() != "previous"@.len());
    assert("add"@.len() != "next"@.len());
    assert("add"@.len() != "previous"@.len());
    assert("remove"@[0] != "next"@[0]);
    assert("remove"@.len() != "previous"@.len());
    assert("cancel"@[0] != "next"@[0]);
    assert("cancel"@.len() != "previous"@.len());
    assert("next"@.len() != "previous"@.len());
}

} // verus!
