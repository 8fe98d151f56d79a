//! The role blacklist stages of the wizard; the editor is shared with the
//! channel blacklist.

use vstd::prelude::*;
use crate::interaction::Interaction;
use crate::config::ConfigError;
use crate::config::logging::clicked;
use crate::config::xp::channel_blacklist::{BlacklistEditor, BlacklistKind, BlacklistView, blacklist_view,
    page_count, pages_for, shows_page, yes_skip, yes_skip_result};

verus! {

/// Asks whether to configure the roles whose members earn no XP.
#[derive(Debug)]
pub struct RoleBlacklistEnter;

impl RoleBlacklistEnter {
    /// The answer to the stage's buttons; see `yes_skip_result`.
    pub fn answer(&self, reply: Option<&Interaction>) -> (r: Result<Option<usize>, ConfigError>)
        ensures
            r == yes_skip_result(clicked(reply)),
    {
        yes_skip(reply)
    }
}

/// Edits the roles whose members earn no XP.
#[derive(Debug)]
pub struct RoleBlacklistManage;

impl RoleBlacklistManage {
    /// The pages that `count` blacklisted roles fill.
    pub fn max_pages(count: usize) -> (r: usize)
        ensures
            r == page_count(count as nat),
    {
        pages_for(count)
    }

    /// Page `page` of the blacklisted roles.
    pub fn generate_display_message(entries: &Vec<i64>, page: usize, editing: bool) -> (r: BlacklistView)
        requires
            page * 25 <= entries.len(),
        ensures
            shows_page(r, BlacklistKind::Role, entries@, page as int, editing),
    {
        blacklist_view(BlacklistKind::Role, entries, page, editing)
    }

    /// An editor on the stored roles.
    pub fn editor(&self, entries: Vec<i64>) -> (r: BlacklistEditor)
        ensures
            r.kind == BlacklistKind::Role,
            r.entries@ == entries@,
            r.page == 0,
            r.mode.is_none(),
    {
        BlacklistEditor::new(BlacklistKind::Role, entries)
    }
}

} // verus!
