//! The level reward stages of the wizard.

use vstd::prelude::*;
use crate::interaction::Interaction;
use crate::text::{decimal_text, push_char, push_decimal, push_i64, push_str, str_eq};
use crate::config::{ConfigError, ConfigIssue, invalid_option, issue, spec_timed_out, timed_out};
use crate::config::logging::clicked;
use crate::config::xp::channel_blacklist::{BlacklistKind, entry_lines, push_entry};

verus! {

/// Asks whether to configure level rewards.
#[derive(Debug)]
pub struct RewardsEnter;

/// The result of the rewards question: `yes` enters the reward stage, `no`
/// and `skip` pass over both reward stages.
pub open spec fn rewards_answer(reply: Option<Seq<char>>) -> Result<Option<usize>, ConfigError> {
    match reply {
        None => Err(spec_timed_out()),
        Some(id) => if id == "skip"@ || id == "no"@ {
            Ok(Some(2))
        } else if id == "yes"@ {
            Ok(None)
        } else {
            Err(issue(ConfigIssue::InvalidOption))
        },
    }
}

impl RewardsEnter {
    /// The answer to the stage's buttons (`None`: no click in time).
    pub fn answer(&self, reply: Option<&Interaction>) -> (r: Result<Option<usize>, ConfigError>)
        ensures
            r == rewards_answer(clicked(reply)),
    {
        match reply {
            None => Err(timed_out()),
            Some(i) => if str_eq(i.custom_id.as_str(), "skip") || str_eq(i.custom_id.as_str(), "no") {
                Ok(Some(2))
            } else if str_eq(i.custom_id.as_str(), "yes") {
                Ok(None)
            } else {
                Err(invalid_option())
            },
        }
    }
}

/// A stored reward: a role given at a level.
#[derive(Clone, Copy, Debug, PartialEq, Eq, Structural)]
pub struct LevelReward {
    pub role: i64,
    pub level: i64,
}

/// The levels that have rewards, each once, in the order they first occur.
pub open spec fn reward_levels(rs: Seq<LevelReward>) -> Seq<i64>
    decreases rs.len(),
{
    if rs.len() == 0 {
        Seq::empty()
    } else {
        let d = reward_levels(rs.drop_last());
        if d.contains(rs.last().level) {
            d
        } else {
            d.push(rs.last().level)
        }
    }
}

/// The roles given at `level`, in order.
pub open spec fn roles_at_level(rs: Seq<LevelReward>, level: i64) -> Seq<i64>
    decreases rs.len(),
{
    if rs.len() == 0 {
        Seq::empty()
    } else {
        let d = roles_at_level(rs.drop_last(), level);
        if rs.last().level == level {
            d.push(rs.last().role)
        } else {
            d
        }
    }
}

/// The pages that `count` reward levels fill, 25 to a page (none when
/// there are no rewards).
pub open spec fn reward_page_count(count: nat) -> nat {
    ((count + 24) / 25) as nat
}

/// One level of the reward list: its name and its roles, one per line.
#[derive(Debug)]
pub struct RewardField {
    pub name: String,
    pub value: String,
}

/// What a page of the reward list shows. With `show_roles` the page shows
/// the role picker with the cancel and revert buttons; otherwise the
/// previous, next, add, remove and close buttons and the revert button.
#[derive(Debug)]
pub struct RewardsView {
    pub title: String,
    pub fields: Vec<RewardField>,
    pub show_roles: bool,
    pub previous_disabled: bool,
    pub next_disabled: bool,
    pub remove_disabled: bool,
}

/// The title of a page: `Level Rewards - Page 1/2`.
pub open spec fn rewards_title(page: int, pages: int) -> Seq<char> {
    "Level Rewards - Page "@ + decimal_text(page + 1) + seq!['/'] + decimal_text(pages)
}

/// Whether `f` shows the rewards at `level`.
pub open spec fn shows_level(f: RewardField, rs: Seq<LevelReward>, level: i64) -> bool {
    &&& f.name@ == "Level "@ + decimal_text(level as int)
    &&& f.value@ == entry_lines(BlacklistKind::Role, roles_at_level(rs, level))
}

/// Whether `v` shows page `page` of the rewards `rs`.
pub open spec fn shows_rewards_page(v: RewardsView, rs: Seq<LevelReward>, page: int, show_roles: bool) -> bool {
    let levels = reward_levels(rs);
    let start = page * 25;
    let end = if start + 25 > levels.len() { levels.len() as int } else { start + 25 };
    &&& v.title@ == rewards_title(page, reward_page_count(levels.len()) as int)
    &&& v.fields.len() == end - start
    &&& forall|j: int| 0 <= j < v.fields.len() ==> #[trigger] shows_level(v.fields@[j], rs, levels[start + j])
    &&& v.show_roles == show_roles
    &&& v.previous_disabled == (page == 0)
    &&& v.next_disabled == (page + 1 == reward_page_count(levels.len()))
    &&& v.remove_disabled == (rs.len() == 0)
}

fn holds_level(s: &Vec<i64>, x: i64) -> (r: bool)
    ensures
        r == s@.contains(x),
{
    let mut i: usize = 0;
    while i < s.len()
        invariant
            i <= s.len(),
            forall|j: int| 0 <= j < i ==> s@[j] != x,
        decreases s.len() - i,
    {
        if s[i] == x {
            return true;
        }
        i += 1;
    }
    false
}

/// The levels that have rewards; see `reward_levels`.
pub fn levels_of(rs: &Vec<LevelReward>) -> (r: Vec<i64>)
    ensures
        r@ == reward_levels(rs@),
{
    let mut d: Vec<i64> = Vec::new();
    let mut i: usize = 0;
    while i < rs.len()
        invariant
            i <= rs.len(),
            d@ == reward_levels(rs@.subrange(0, i as int)),
        decreases rs.len() - i,
    {
        let ghost sub = rs@.subrange(0, i + 1);
        assert(sub.drop_last() =~= rs@.subrange(0, i as int));
        if !holds_level(&d, rs[i].level) {
            d.push(rs[i].level);
        }
        i += 1;
    }
    assert(rs@.subrange(0, rs.len() as int) =~= rs@);
    d
}

/// The roles given at `level`, one mention per line.
fn level_roles_text(rs: &Vec<LevelReward>, level: i64) -> (r: String)
    ensures
        r@ == entry_lines(BlacklistKind::Role, roles_at_level(rs@, level)),
{
    let mut t = String::new();
    let mut i: usize = 0;
    let mut any = false;
    while i < rs.len()
        invariant
            i <= rs.len(),
            t@ == entry_lines(BlacklistKind::Role, roles_at_level(rs@.subrange(0, i as int), level)),
            any == (roles_at_level(rs@.subrange(0, i as int), level).len() > 0),
        decreases rs.len() - i,
    {
        let ghost sub = rs@.subrange(0, i + 1);
        let ghost before = roles_at_level(rs@.subrange(0, i as int), level);
        assert(sub.drop_last() =~= rs@.subrange(0, i as int));
        if rs[i].level == level {
            assert(before.push(rs@[i as int].role).drop_last() =~= before);
            if any {
                push_char(&mut t, '\n');
            }
            push_entry(&mut t, BlacklistKind::Role, rs[i].role);
            any = true;
        }
        i += 1;
    }
    assert(rs@.subrange(0, rs.len() as int) =~= rs@);
    t
}

/// Shows the level rewards of the server.
#[derive(Debug)]
pub struct ManageRewards;

impl ManageRewards {
    /// Page `page` of the rewards, grouped by level. The page must start
    /// within the list of levels (at its end for an empty page).
    pub fn generate_display_message(rewards: &Vec<LevelReward>, page: usize, show_roles: bool) -> (r: RewardsView)
        requires
            page * 25 <= reward_levels(rewards@).len(),
        ensures
            shows_rewards_page(r, rewards@, page as int, show_roles),
    {
        proof {
            reveal_strlit("Level Rewards - Page ");
            reveal_strlit("Level ");
        }
        let levels = levels_of(rewards);
        assert(page * 25 <= levels.len());
        let start = page * 25;
        let end = if levels.len() - start < 25 { levels.len() } else { start + 25 };
        let pages = levels.len() / 25 + if levels.len() % 25 == 0 { 0 } else { 1 };
        assert(pages == reward_page_count(levels@.len()));
        let mut title = String::new();
        push_str(&mut title, "Level Rewards - Page ");
        push_decimal(&mut title, (page + 1) as u64);
        push_char(&mut title, '/');
        push_decimal(&mut title, pages as u64);
        assert(title@ =~= rewards_title(page as int, reward_page_count(levels@.len()) as int));
        let mut fields: Vec<RewardField> = Vec::new();
        let mut i: usize = start;
        while i < end
            invariant
                start <= i <= end,
                end <= levels.len(),
                start == page * 25,
                end == if start + 25 > levels@.len() { levels@.len() as int } else { start + 25 },
                levels@ == reward_levels(rewards@),
                fields.len() == i - start,
                forall|j: int| 0 <= j < fields.len() ==> #[trigger] shows_level(fields@[j], rewards@, levels@[start + j]),
            decreases end - i,
        {
            let mut name = String::new();
            push_str(&mut name, "Level ");
            push_i64(&mut name, levels[i]);
            let value = level_roles_text(rewards, levels[i]);
            fields.push(RewardField { name, value });
            assert(shows_level(fields@[i - start], rewards@, levels@[start + (i - start)]));
            i += 1;
        }
        RewardsView {
            title,
            fields,
            show_roles,
            previous_disabled: page == 0,
            next_disabled: page + 1 == pages,
            remove_disabled: rewards.len() == 0,
        }
    }
}

} // verus!
