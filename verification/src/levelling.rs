//! Levels earned from XP, the progress shown on a rank card, the roles a
//! level rewards, and the message sent when someone levels up.

use vstd::prelude::*;
use crate::text::{i64_to_string, decimal_text, chars_of, replace_all, replace_all_chars, string_of};

verus! {

/// The XP at which level `level` starts: `50 * level^2 + 25 * level`.
pub open spec fn level_xp(level: int) -> int {
    50 * (level * level) + 25 * level
}

/// The level an amount of XP reaches. For `xp >= 0` it is the greatest
/// `level >= 0` with `level_xp(level) <= xp`, which is the floor of
/// `(-25 + sqrt(625 + 200 * xp)) / 100`. For `-3 <= xp <= -1` that formula
/// gives -1; below, its square root is undefined and the level is 0.
pub open spec fn is_level_of(xp: int, level: int) -> bool {
    if xp >= 0 {
        level >= 0 && level_xp(level) <= xp && xp < level_xp(level + 1)
    } else if xp >= -3 {
        level == -1
    } else {
        level == 0
    }
}

/// The XP values for which `200 * xp + 625` stays within `i64`. The level
/// formula computes that product in `i64` before taking its square root,
/// so larger amounts of XP overflow it.
pub open spec fn xp_in_range(xp: int) -> bool {
    i64::MIN <= 200 * xp && 200 * xp + 625 <= i64::MAX
}

proof fn lemma_level_xp_monotone(a: int, b: int)
    requires
        0 <= a <= b,
    ensures
        level_xp(a) <= level_xp(b),
        a < b ==> level_xp(a) < level_xp(b),
{
    assert(50 * (a * a) + 25 * a <= 50 * (b * b) + 25 * b) by (nonlinear_arith)
        requires
            0 <= a <= b,
    ;
    assert(a < b ==> 50 * (a * a) + 25 * a < 50 * (b * b) + 25 * b) by (nonlinear_arith)
        requires
            0 <= a <= b,
    ;
}

/// The levels whose starting XP, `50 * (level * level) + 25 * level`,
/// can be computed in `i64` one operation at a time.
pub open spec fn level_in_range(level: int) -> bool {
    50 * (level * level) <= i64::MAX && i64::MIN <= level_xp(level) <= i64::MAX
}

/// Every level an amount of XP in range reaches, and the one after it,
/// is in range.
pub proof fn lemma_reached_levels_in_range(level: int)
    requires
        -1 <= level <= 40_000_001,
    ensures
        level_in_range(level),
        0 <= level * level <= 1_600_000_080_000_001,
{
    assert(0 <= level * level <= 1_600_000_080_000_001) by (nonlinear_arith)
        requires
            -1 <= level <= 40_000_001,
    ;
}

/// The XP at which a level starts.
pub fn xp_for_level(level: i64) -> (r: i64)
    requires
        level_in_range(level as int),
    ensures
        r == level_xp(level as int),
{
    assert(-500_000_000 <= level <= 500_000_000) by (nonlinear_arith)
        requires
            50 * (level * level) <= i64::MAX,
    ;
    50 * (level * level) + 25 * level
}

/// The level reached with `xp`; see `is_level_of`.
pub fn level_for_xp(xp: i64) -> (r: i64)
    requires
        xp_in_range(xp as int),
    ensures
        is_level_of(xp as int, r as int),
        0 <= xp ==> r <= 40_000_000,
{
    if xp < 0 {
        if xp >= -3 {
            return -1;
        }
        return 0;
    }
    let mut lo: i128 = 0;
    let mut hi: i128 = 40_000_000;
    assert(level_xp(40_000_000) > xp) by (nonlinear_arith)
        requires
            200 * xp + 625 <= i64::MAX,
    ;
    while lo + 1 < hi
        invariant
            0 <= lo < hi <= 40_000_000,
            0 <= xp,
            level_xp(lo as int) <= xp,
            xp < level_xp(hi as int),
        decreases hi - lo,
    {
        let mid: i128 = lo + (hi - lo) / 2;
        assert(mid * mid <= 1_600_000_000_000_000) by (nonlinear_arith)
            requires
                0 <= mid <= 40_000_000,
        ;
        let at_mid: i128 = 50 * (mid * mid) + 25 * mid;
        if at_mid <= xp as i128 {
            lo = mid;
        } else {
            hi = mid;
        }
    }
    proof {
        if lo + 1 < hi {
            assert(false);
        }
        assert(hi == lo + 1);
    }
    lo as i64
}

/// Where an amount of XP stands: the level reached, the XP earned within
/// it and the XP the level spans before the next one.
#[derive(Debug)]
pub struct LevelProgress {
    pub level: i64,
    pub xp_into_level: i64,
    pub xp_for_next: i64,
}

/// What the rank card shows for `xp`: its level, `xp - level_xp(level)`
/// and `level_xp(level + 1) - level_xp(level)`.
pub fn level_progress(xp: i64) -> (r: LevelProgress)
    requires
        0 <= xp,
        xp_in_range(xp as int),
    ensures
        is_level_of(xp as int, r.level as int),
        r.xp_into_level == xp - level_xp(r.level as int),
        r.xp_for_next == level_xp(r.level + 1) - level_xp(r.level as int),
        0 <= r.xp_into_level < r.xp_for_next,
{
    let level = level_for_xp(xp);
    proof {
        lemma_level_xp_monotone(level as int, level + 1);
        lemma_reached_levels_in_range(level as int);
        lemma_reached_levels_in_range(level + 1);
    }
    let current = xp_for_level(level);
    let next = xp_for_level(level + 1);
    LevelProgress { level, xp_into_level: xp - current, xp_for_next: next - current }
}

/// What a `numfmt::Formatter` set to `Precision::Significance(significance)`
/// and to `Scales::new(base, units)` writes for `n` through `fmt2`.
pub uninterp spec fn compact_number_text(n: int, significance: u8, base: u16, units: Seq<Seq<char>>) -> Seq<char>;

/// The plain texts of some string slices.
pub open spec fn unit_texts(units: Seq<&str>) -> Seq<Seq<char>> {
    units.map_values(|u: &str| u@)
}

/// Formats `number` with a `numfmt::Formatter` set to
/// `Precision::Significance(significance)` and `Scales::new(base, units)`,
/// through `Formatter::fmt2`. `Scales::new` refuses a base of 0 and a unit
/// longer than 12 bytes; a unit of at most 3 characters is at most 12
/// bytes. The text is named by `compact_number_text`; nothing more is
/// claimed of it.
#[verifier::external_body]
fn format_compact(number: i64, significance: u8, base: u16, units: Vec<&'static str>) -> (r: String)
    requires
        base > 0,
        forall|i: int| 0 <= i < units@.len() ==> (#[trigger] units@[i])@.len() <= 3,
    ensures
        r@ == compact_number_text(number as int, significance, base, unit_texts(units@)),
{
    let scales = numfmt::Scales::new(base, units).unwrap();
    let mut formatter = numfmt::Formatter::default().precision(numfmt::Precision::Significance(significance)).scales(scales);
    formatter.fmt2(number).to_string()
}

/// The units a rank card scales numbers by: none, then K, M, B, T, P, E,
/// Z and Y, each a thousand times the one before.
pub open spec fn card_units() -> Seq<Seq<char>> {
    seq![""@, "K"@, "M"@, "B"@, "T"@, "P"@, "E"@, "Z"@, "Y"@]
}

/// How a number is shown on a rank card: in full below 1000, otherwise
/// compacted to three significant digits with the units of `card_units`
/// (such as `1.23K`).
pub open spec fn shown_number(n: int) -> Seq<char> {
    if n < 1000 {
        decimal_text(n)
    } else {
        compact_number_text(n, 3, 1000, card_units())
    }
}

/// A number as the rank card shows it; see `shown_number`.
pub fn number_to_string(number: i64) -> (r: String)
    ensures
        r@ == shown_number(number as int),
{
    if number < 1000 {
        i64_to_string(number)
    } else {
        proof {
            reveal_strlit("");
            reveal_strlit("K");
            reveal_strlit("M");
            reveal_strlit("B");
            reveal_strlit("T");
            reveal_strlit("P");
            reveal_strlit("E");
            reveal_strlit("Z");
            reveal_strlit("Y");
        }
        let units: Vec<&'static str> = vec!["", "K", "M", "B", "T", "P", "E", "Z", "Y"];
        assert(unit_texts(units@) =~= card_units());
        format_compact(number, 3, 1000, units)
    }
}

/// The levels before and after a change of someone's XP, and the XP they
/// end with.
#[derive(Debug)]
pub struct XpChange {
    pub old_level: i64,
    pub new_level: i64,
    pub new_xp: i64,
}

impl XpChange {
    /// Whether the change moves the user to another level, which sends the
    /// level-up rewards and message.
    pub fn changes_level(&self) -> (r: bool)
        ensures
            r == (self.old_level != self.new_level),
    {
        self.old_level != self.new_level
    }
}

/// Adding `added` XP to someone holding `current`.
pub fn xp_added(current: i64, added: i64) -> (r: XpChange)
    requires
        xp_in_range(current as int),
        xp_in_range(current + added),
    ensures
        r.new_xp == current + added,
        is_level_of(current as int, r.old_level as int),
        is_level_of(current + added, r.new_level as int),
{
    let new_xp = current + added;
    XpChange { old_level: level_for_xp(current), new_level: level_for_xp(new_xp), new_xp }
}

/// Setting the XP of someone holding `current` to `xp`.
pub fn xp_set(current: i64, xp: i64) -> (r: XpChange)
    requires
        xp_in_range(current as int),
        xp_in_range(xp as int),
    ensures
        r.new_xp == xp,
        is_level_of(current as int, r.old_level as int),
        is_level_of(xp as int, r.new_level as int),
{
    XpChange { old_level: level_for_xp(current), new_level: level_for_xp(xp), new_xp: xp }
}

/// A role given at a level.
#[derive(Clone, Copy, Debug, PartialEq, Eq, Structural)]
pub struct Reward {
    pub level: i64,
    pub role: u64,
}

/// The members of `s`, in order, that `keep` accepts.
pub open spec fn keep_roles(s: Seq<u64>, keep: spec_fn(u64) -> bool) -> Seq<u64>
    decreases s.len(),
{
    if s.len() == 0 {
        Seq::empty()
    } else if keep(s.last()) {
        keep_roles(s.drop_last(), keep).push(s.last())
    } else {
        keep_roles(s.drop_last(), keep)
    }
}

/// The roles, in order, of the rewards that `keep` accepts.
pub open spec fn reward_roles_where(rs: Seq<Reward>, keep: spec_fn(Reward) -> bool) -> Seq<u64>
    decreases rs.len(),
{
    if rs.len() == 0 {
        Seq::empty()
    } else if keep(rs.last()) {
        reward_roles_where(rs.drop_last(), keep).push(rs.last().role)
    } else {
        reward_roles_where(rs.drop_last(), keep)
    }
}

/// The highest level of a reward at or below `level`, if any.
pub open spec fn best_level_at_most(rs: Seq<Reward>, level: int) -> Option<i64>
    decreases rs.len(),
{
    if rs.len() == 0 {
        None
    } else {
        let rest = best_level_at_most(rs.drop_last(), level);
        let r = rs.last();
        if r.level > level {
            rest
        } else {
            match rest {
                Some(b) => if r.level > b { Some(r.level) } else { Some(b) },
                None => Some(r.level),
            }
        }
    }
}

/// The reward roles a member at `level` should hold: with stacking, those
/// of every reward at or below the level; without, those of the highest
/// such reward level only.
pub open spec fn earned_roles(stack: bool, rs: Seq<Reward>, level: int) -> Seq<u64> {
    if stack {
        reward_roles_where(rs, |r: Reward| r.level <= level)
    } else {
        match best_level_at_most(rs, level) {
            Some(b) => reward_roles_where(rs, |r: Reward| r.level == b),
            None => Seq::empty(),
        }
    }
}

/// The roles to take away from and to give to a member whose roles are
/// `member` and who reached `level`; `None` when there are no rewards or
/// the member's roles already are exactly the earned ones.
pub open spec fn reward_changes_spec(stack: bool, rs: Seq<Reward>, member: Seq<u64>, level: int) -> Option<
    (Seq<u64>, Seq<u64>),
> {
    let earned = earned_roles(stack, rs, level);
    let all = reward_roles_where(rs, |r: Reward| true);
    if rs.len() == 0 || member == earned {
        None
    } else {
        Some(
            (
                keep_roles(member, |x: u64| !earned.contains(x) && all.contains(x)),
                keep_roles(earned, |x: u64| !member.contains(x)),
            ),
        )
    }
}

/// Whether `s` holds `x`.
pub fn holds_role(s: &Vec<u64>, x: u64) -> (r: bool)
    ensures
        r == s@.contains(x),
{
    let mut i: usize = 0;
    while i < s.len()
        invariant
            i <= s.len(),
            forall|j: int| 0 <= j < i ==> s@[j] != x,
        decreases s.len() - i,
    {
        if s[i] == x {
            return true;
        }
        i += 1;
    }
    false
}

/// The roles of the rewards at exactly `level` (`exact`) or at most
/// `level` (otherwise).
fn roles_at_level(rs: &Vec<Reward>, level: i64, exact: bool) -> (r: Vec<u64>)
    ensures
        exact ==> r@ == reward_roles_where(rs@, |x: Reward| x.level == level),
        !exact ==> r@ == reward_roles_where(rs@, |x: Reward| x.level <= level),
{
    let mut out: Vec<u64> = Vec::new();
    let mut i: usize = 0;
    while i < rs.len()
        invariant
            i <= rs.len(),
            exact ==> out@ == reward_roles_where(rs@.subrange(0, i as int), |x: Reward| x.level == level),
            !exact ==> out@ == reward_roles_where(rs@.subrange(0, i as int), |x: Reward| x.level <= level),
        decreases rs.len() - i,
    {
        assert(rs@.subrange(0, i + 1).drop_last() =~= rs@.subrange(0, i as int));
        let keep = if exact { rs[i].level == level } else { rs[i].level <= level };
        if keep {
            out.push(rs[i].role);
        }
        i += 1;
    }
    assert(rs@.subrange(0, rs.len() as int) =~= rs@);
    out
}

/// Every reward role.
fn all_reward_roles(rs: &Vec<Reward>) -> (r: Vec<u64>)
    ensures
        r@ == reward_roles_where(rs@, |x: Reward| true),
{
    let mut out: Vec<u64> = Vec::new();
    let mut i: usize = 0;
    while i < rs.len()
        invariant
            i <= rs.len(),
            out@ == reward_roles_where(rs@.subrange(0, i as int), |x: Reward| true),
        decreases rs.len() - i,
    {
        assert(rs@.subrange(0, i + 1).drop_last() =~= rs@.subrange(0, i as int));
        out.push(rs[i].role);
        i += 1;
    }
    assert(rs@.subrange(0, rs.len() as int) =~= rs@);
    out
}

/// The highest reward level at or below `level`.
fn best_level(rs: &Vec<Reward>, level: i64) -> (r: Option<i64>)
    ensures
        r == best_level_at_most(rs@, level as int),
{
    let mut best: Option<i64> = None;
    let mut i: usize = 0;
    while i < rs.len()
        invariant
            i <= rs.len(),
            best == best_level_at_most(rs@.subrange(0, i as int), level as int),
        decreases rs.len() - i,
    {
        assert(rs@.subrange(0, i + 1).drop_last() =~= rs@.subrange(0, i as int));
        let l = rs[i].level;
        if l <= level {
            best = match best {
                Some(b) => if l > b { Some(l) } else { Some(b) },
                None => Some(l),
            };
        }
        i += 1;
    }
    assert(rs@.subrange(0, rs.len() as int) =~= rs@);
    best
}

/// The roles of `member` that `earned` lacks and `all` holds (`take`), or
/// the roles of `earned` that `member` lacks (otherwise).
fn role_difference(member: &Vec<u64>, earned: &Vec<u64>, all: &Vec<u64>, take: bool) -> (r: Vec<u64>)
    ensures
        take ==> r@ == keep_roles(member@, |x: u64| !earned@.contains(x) && all@.contains(x)),
        !take ==> r@ == keep_roles(earned@, |x: u64| !member@.contains(x)),
{
    let source = if take { member } else { earned };
    let mut out: Vec<u64> = Vec::new();
    let mut i: usize = 0;
    while i < source.len()
        invariant
            i <= source.len(),
            source@ == if take { member@ } else { earned@ },
            take ==> out@ == keep_roles(source@.subrange(0, i as int), |x: u64| !earned@.contains(x) && all@.contains(x)),
            !take ==> out@ == keep_roles(source@.subrange(0, i as int), |x: u64| !member@.contains(x)),
        decreases source.len() - i,
    {
        assert(source@.subrange(0, i + 1).drop_last() =~= source@.subrange(0, i as int));
        let x = source[i];
        let keep = if take {
            !holds_role(earned, x) && holds_role(all, x)
        } else {
            !holds_role(member, x)
        };
        if keep {
            out.push(x);
        }
        i += 1;
    }
    assert(source@.subrange(0, source.len() as int) =~= source@);
    out
}

fn same_roles(a: &Vec<u64>, b: &Vec<u64>) -> (r: bool)
    ensures
        r == (a@ == b@),
{
    if a.len() != b.len() {
        return false;
    }
    let mut i: usize = 0;
    while i < a.len()
        invariant
            a.len() == b.len(),
            i <= a.len(),
            forall|j: int| 0 <= j < i ==> a@[j] == b@[j],
        decreases a.len() - i,
    {
        if a[i] != b[i] {
            return false;
        }
        i += 1;
    }
    assert(a@ =~= b@);
    true
}

/// The roles to remove from and to add to a member who reached
/// `new_level`; see `reward_changes_spec`.
pub fn reward_changes(stack: bool, rewards: &Vec<Reward>, member_roles: &Vec<u64>, new_level: i64) -> (r:
    Option<(Vec<u64>, Vec<u64>)>)
    ensures
        match r {
            Some((remove, add)) => reward_changes_spec(stack, rewards@, member_roles@, new_level as int)
                == Some((remove@, add@)),
            None => reward_changes_spec(stack, rewards@, member_roles@, new_level as int).is_none(),
        },
{
    if rewards.len() == 0 {
        return None;
    }
    let earned = if stack {
        roles_at_level(rewards, new_level, false)
    } else {
        match best_level(rewards, new_level) {
            Some(b) => roles_at_level(rewards, b, true),
            None => Vec::new(),
        }
    };
    assert(earned@ == earned_roles(stack, rewards@, new_level as int));
    if same_roles(member_roles, &earned) {
        return None;
    }
    let all = all_reward_roles(rewards);
    let remove = role_difference(member_roles, &earned, &all, true);
    let add = role_difference(member_roles, &earned, &all, false);
    Some((remove, add))
}

proof fn lemma_push_has(t: Seq<u64>, y: u64, x: u64)
    ensures
        t.push(y).contains(x) <==> (t.contains(x) || y == x),
{
    if t.contains(x) {
        let k = choose|k: int| 0 <= k < t.len() && t[k] == x;
        assert(t.push(y)[k] == x);
    }
    if y == x {
        assert(t.push(y)[t.len() as int] == x);
    }
    if t.push(y).contains(x) {
        let k = choose|k: int| 0 <= k < t.push(y).len() && t.push(y)[k] == x;
        if k < t.len() {
            assert(t[k] == x);
        }
    }
}

proof fn lemma_keep_roles_has(s: Seq<u64>, keep: spec_fn(u64) -> bool, x: u64)
    ensures
        keep_roles(s, keep).contains(x) <==> (s.contains(x) && keep(x)),
    decreases s.len(),
{
    if s.len() > 0 {
        let t = s.drop_last();
        lemma_keep_roles_has(t, keep, x);
        assert(s =~= t.push(s.last()));
        lemma_push_has(t, s.last(), x);
        lemma_push_has(keep_roles(t, keep), s.last(), x);
    }
}

proof fn lemma_reward_roles_within(rs: Seq<Reward>, keep: spec_fn(Reward) -> bool, x: u64)
    ensures
        reward_roles_where(rs, keep).contains(x) ==> reward_roles_where(rs, |r: Reward| true).contains(x),
    decreases rs.len(),
{
    if rs.len() > 0 {
        let t = rs.drop_last();
        lemma_reward_roles_within(t, keep, x);
        lemma_push_has(reward_roles_where(t, |r: Reward| true), rs.last().role, x);
        if keep(rs.last()) {
            lemma_push_has(reward_roles_where(t, keep), rs.last().role, x);
        }
    }
}

/// After a member loses the roles to remove and gains the roles to add,
/// they hold exactly the earned roles among the reward roles, and every
/// role that no reward gives is held as before.
pub proof fn law_reward_changes_apply(stack: bool, rs: Seq<Reward>, member: Seq<u64>, level: int, x: u64)
    requires
        reward_changes_spec(stack, rs, member, level).is_some(),
    ensures
        ({
            let (remove, add) = reward_changes_spec(stack, rs, member, level).unwrap();
            let held_after = (member.contains(x) && !remove.contains(x)) || add.contains(x);
            if reward_roles_where(rs, |r: Reward| true).contains(x) {
                held_after == earned_roles(stack, rs, level).contains(x)
            } else {
                held_after == member.contains(x)
            }
        }),
{
    let earned = earned_roles(stack, rs, level);
    let all = reward_roles_where(rs, |r: Reward| true);
    lemma_keep_roles_has(member, |y: u64| !earned.contains(y) && all.contains(y), x);
    lemma_keep_roles_has(earned, |y: u64| !member.contains(y), x);
    if stack {
        lemma_reward_roles_within(rs, |r: Reward| r.level <= level, x);
    } else {
        match best_level_at_most(rs, level) {
            Some(b) => lemma_reward_roles_within(rs, |r: Reward| r.level == b, x),
            None => {},
        }
    }
}

/// The reward roles, in reward order, that a member holds: those that
/// resetting their XP takes away.
pub fn reward_roles_held(rewards: &Vec<Reward>, member_roles: &Vec<u64>) -> (r: Vec<u64>)
    ensures
        r@ == keep_roles(reward_roles_where(rewards@, |x: Reward| true), |x: u64| member_roles@.contains(x)),
{
    let all = all_reward_roles(rewards);
    let mut out: Vec<u64> = Vec::new();
    let mut i: usize = 0;
    while i < all.len()
        invariant
            i <= all.len(),
            out@ == keep_roles(all@.subrange(0, i as int), |x: u64| member_roles@.contains(x)),
        decreases all.len() - i,
    {
        assert(all@.subrange(0, i + 1).drop_last() =~= all@.subrange(0, i as int));
        if holds_role(member_roles, all[i]) {
            out.push(all[i]);
        }
        i += 1;
    }
    assert(all@.subrange(0, all.len() as int) =~= all@);
    out
}

/// A user mention: `<@` then the id then `>`.
pub open spec fn mention_text(id: u64) -> Seq<char> {
    seq!['<', '@'] + decimal_text(id as int) + seq!['>']
}

/// A user mention; see `mention_text`.
pub fn mention(id: u64) -> (r: String)
    ensures
        r@ == mention_text(id),
{
    let mut s = String::new();
    crate::text::push_char(&mut s, '<');
    crate::text::push_char(&mut s, '@');
    crate::text::push_decimal(&mut s, id);
    crate::text::push_char(&mut s, '>');
    assert(s@ =~= mention_text(id));
    s
}

/// The level-up message: the configured text with `{user.name}`,
/// `{user.mention}` and `{user.level}` replaced, in that order.
pub open spec fn level_up_text(template: Seq<char>, name: Seq<char>, id: u64, level: int) -> Seq<char> {
    replace_all(
        replace_all(
            replace_all(template, "{user.name}"@, name),
            "{user.mention}"@,
            mention_text(id),
        ),
        "{user.level}"@,
        decimal_text(level),
    )
}

/// The level-up message; see `level_up_text`.
pub fn render_level_up_message(template: &str, user_name: &str, user_id: u64, level: i64) -> (r: String)
    ensures
        r@ == level_up_text(template@, user_name@, user_id, level as int),
{
    proof {
        reveal_strlit("{user.name}");
        reveal_strlit("{user.mention}");
        reveal_strlit("{user.level}");
    }
    let t = chars_of(template);
    let step1 = replace_all_chars(&t, &chars_of("{user.name}"), &chars_of(user_name));
    let mention_text = mention(user_id);
    let step2 = replace_all_chars(&step1, &chars_of("{user.mention}"), &chars_of(mention_text.as_str()));
    let level_text = i64_to_string(level);
    let step3 = replace_all_chars(&step2, &chars_of("{user.level}"), &chars_of(level_text.as_str()));
    string_of(&step3)
}

/// How a server set up level-up messages.
#[derive(Debug)]
pub struct LevelUpSettings {
    pub enabled: bool,
    pub message: Option<String>,
    pub dm_message: bool,
    pub channel: Option<i64>,
}

/// Where a level-up message goes.
#[derive(Clone, Copy, Debug, PartialEq, Eq, Structural)]
pub enum LevelUpTarget {
    /// To the member, privately.
    DirectMessage,
    /// To the configured channel.
    Channel(i64),
    /// To the channel the member was talking in.
    SummoningChannel,
}

/// Where the message for reaching `new_level` goes, or `None` when none
/// is sent: at level 0, when the server has no settings, when messages are
/// off, or when no message text is set.
pub fn level_up_delivery(settings: &Option<LevelUpSettings>, new_level: i64) -> (r: Option<LevelUpTarget>)
    ensures
        match settings {
            None => r.is_none(),
            Some(s) => if new_level == 0 || !s.enabled || s.message.is_none() {
                r.is_none()
            } else if s.dm_message {
                r == Some(LevelUpTarget::DirectMessage)
            } else {
                match s.channel {
                    Some(c) => r == Some(LevelUpTarget::Channel(c)),
                    None => r == Some(LevelUpTarget::SummoningChannel),
                }
            },
        },
{
    if new_level == 0 {
        return None;
    }
    match settings {
        None => None,
        Some(s) => {
            if !s.enabled || s.message.is_none() {
                None
            } else if s.dm_message {
                Some(LevelUpTarget::DirectMessage)
            } else {
                match s.channel {
                    Some(c) => Some(LevelUpTarget::Channel(c)),
                    None => Some(LevelUpTarget::SummoningChannel),
                }
            }
        },
    }
}

/// Each amount of XP reaches exactly one level.
pub proof fn law_level_unique(xp: int, a: int, b: int)
    requires
        is_level_of(xp, a),
        is_level_of(xp, b),
    ensures
        a == b,
{
    if xp >= 0 {
        if a < b {
            lemma_level_xp_monotone(a + 1, b);
        } else if b < a {
            lemma_level_xp_monotone(b + 1, a);
        }
    }
}

/// More XP never means a lower level.
pub proof fn law_level_monotone(x: int, y: int, a: int, b: int)
    requires
        0 <= x <= y,
        is_level_of(x, a),
        is_level_of(y, b),
    ensures
        a <= b,
{
    if b < a {
        lemma_level_xp_monotone(b + 1, a);
    }
}

/// A level starts exactly at `level_xp(level)`: that much XP reaches it,
/// one XP less does not.
pub proof fn law_level_starts_at_its_xp(level: int)
    requires
        level >= 0,
    ensures
        is_level_of(level_xp(level), level),
        level > 0 ==> !is_level_of(level_xp(level) - 1, level),
{
    lemma_level_xp_monotone(level, level + 1);
    lemma_level_xp_monotone(0, level);
}

/// Adding XP never lowers the level.
pub proof fn law_adding_xp_never_lowers_level(current: int, added: int, old_level: int, new_level: int)
    requires
        current >= 0,
        added >= 0,
        is_level_of(current, old_level),
        is_level_of(current + added, new_level),
    ensures
        old_level <= new_level,
{
    law_level_monotone(current, current + added, old_level, new_level);
}

/// Without stacking, the level that counts is the greatest reward level at
/// or below the member's level, whatever the order of the rewards: it is
/// the level of some reward, it is reached, and no reached reward level is
/// higher. There is none exactly when no reward level is reached.
pub proof fn law_best_level_is_greatest(rs: Seq<Reward>, level: int)
    ensures
        match best_level_at_most(rs, level) {
            Some(b) => {
                &&& b <= level
                &&& exists|i: int| 0 <= i < rs.len() && (#[trigger] rs[i]).level == b
                &&& forall|i: int| 0 <= i < rs.len() && (#[trigger] rs[i]).level <= level ==> rs[i].level <= b
            },
            None => forall|i: int| 0 <= i < rs.len() ==> (#[trigger] rs[i]).level > level,
        },
    decreases rs.len(),
{
    if rs.len() > 0 {
        let t = rs.drop_last();
        law_best_level_is_greatest(t, level);
        assert forall|i: int| 0 <= i < t.len() implies t[i] == rs[i] by {}
        let last = rs.len() - 1;
        assert(rs[last] == rs.last());
        match best_level_at_most(t, level) {
            Some(b) => {
                let k = choose|k: int| 0 <= k < t.len() && (#[trigger] t[k]).level == b;
                assert(rs[k] == t[k]);
            },
            None => {},
        }
    }
}

/// A role is among those of the rewards `keep` accepts exactly when one of
/// them gives it.
proof fn lemma_reward_roles_members(rs: Seq<Reward>, keep: spec_fn(Reward) -> bool, x: u64)
    ensures
        reward_roles_where(rs, keep).contains(x) <==> exists|i: int| 0 <= i < rs.len() && keep(#[trigger] rs[i])
            && rs[i].role == x,
    decreases rs.len(),
{
    if rs.len() > 0 {
        let t = rs.drop_last();
        lemma_reward_roles_members(t, keep, x);
        lemma_push_has(reward_roles_where(t, keep), rs.last().role, x);
        assert forall|i: int| 0 <= i < t.len() implies t[i] == rs[i] by {}
        if exists|i: int| 0 <= i < rs.len() && keep(#[trigger] rs[i]) && rs[i].role == x {
            let i = choose|i: int| 0 <= i < rs.len() && keep(#[trigger] rs[i]) && rs[i].role == x;
            if i < t.len() {
                assert(keep(t[i]) && t[i].role == x);
            }
        }
        if exists|i: int| 0 <= i < t.len() && keep(#[trigger] t[i]) && t[i].role == x {
            let i = choose|i: int| 0 <= i < t.len() && keep(#[trigger] t[i]) && t[i].role == x;
            assert(keep(rs[i]) && rs[i].role == x);
        }
    }
}

/// Without stacking, a member earns role `x` exactly when some reward at or
/// below their level gives `x` and no reward at or below their level has
/// a higher level. With stacking, exactly when some reward at or below
/// their level gives `x`.
pub proof fn law_earned_roles(rs: Seq<Reward>, level: int, x: u64)
    ensures
        earned_roles(false, rs, level).contains(x) <==> exists|i: int| 0 <= i < rs.len()
            && (#[trigger] rs[i]).role == x && rs[i].level <= level && forall|j: int| 0 <= j < rs.len()
            && (#[trigger] rs[j]).level <= level ==> rs[j].level <= rs[i].level,
        earned_roles(true, rs, level).contains(x) <==> exists|i: int| 0 <= i < rs.len()
            && (#[trigger] rs[i]).role == x && rs[i].level <= level,
{
    law_best_level_is_greatest(rs, level);
    lemma_reward_roles_members(rs, |r: Reward| r.level <= level, x);
    match best_level_at_most(rs, level) {
        Some(b) => {
            lemma_reward_roles_members(rs, |r: Reward| r.level == b, x);
            if exists|i: int| 0 <= i < rs.len() && (#[trigger] rs[i]).role == x && rs[i].level <= level
                && forall|j: int| 0 <= j < rs.len() && (#[trigger] rs[j]).level <= level ==> rs[j].level <= rs[i].level {
                let i = choose|i: int| 0 <= i < rs.len() && (#[trigger] rs[i]).role == x && rs[i].level <= level
                    && forall|j: int| 0 <= j < rs.len() && (#[trigger] rs[j]).level <= level ==> rs[j].level <= rs[i].level;
                let k = choose|k: int| 0 <= k < rs.len() && (#[trigger] rs[k]).level == b;
                assert(rs[k].level <= level);
                assert(rs[i].level == b);
            }
        },
        None => {
            if exists|i: int| 0 <= i < rs.len() && (#[trigger] rs[i]).role == x && rs[i].level <= level {
                let i = choose|i: int| 0 <= i < rs.len() && (#[trigger] rs[i]).role == x && rs[i].level <= level;
                assert(rs[i].level > level);
            }
        },
    }
}

} // verus!
