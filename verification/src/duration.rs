//! Durations written by moderators, such as `1y`, `3mo`, `2w`, `30d` or
//! `1h30m`, and the moments they reach from now.

use vstd::prelude::*;
use crate::numbers::{all_digits, digits_value, is_ascii_digit, parse_u64, unsigned_body, unsigned_from_str};
use crate::text::{chars_of, push_char, str_eq};

verus! {

/// Whether `c` is white space: the characters of Unicode's `White_Space`
/// property.
pub open spec fn is_white_space(c: char) -> bool {
    let n = c as u32;
    (9 <= n <= 13) || n == 32 || n == 0x85 || n == 0xa0 || n == 0x1680 || (0x2000 <= n <= 0x200a)
        || n == 0x2028 || n == 0x2029 || n == 0x202f || n == 0x205f || n == 0x3000
}

/// Where the run of ASCII digits that starts at `i` ends.
pub open spec fn digits_end(t: Seq<char>, i: int) -> int
    decreases t.len() - i,
{
    if 0 <= i < t.len() && is_ascii_digit(t[i]) {
        digits_end(t, i + 1)
    } else {
        i
    }
}

/// Where the run of characters other than white space that starts at `i`
/// ends.
pub open spec fn word_end(t: Seq<char>, i: int) -> int
    decreases t.len() - i,
{
    if 0 <= i < t.len() && !is_white_space(t[i]) {
        word_end(t, i + 1)
    } else {
        i
    }
}

/// The length of the unit written at `p`, 0 where none is. The units are
/// tried in the order `y`, `mo`, `w`, `d`, `h`, `m`, `s`, so `mo` wins
/// over `m`.
pub open spec fn unit_len_at(t: Seq<char>, p: int) -> int {
    if !(0 <= p < t.len()) {
        0
    } else if t[p] == 'y' {
        1
    } else if t[p] == 'm' && p + 1 < t.len() && t[p + 1] == 'o' {
        2
    } else if t[p] == 'w' || t[p] == 'd' || t[p] == 'h' || t[p] == 'm' || t[p] == 's' {
        1
    } else {
        0
    }
}

/// The last position in `[from, to)` where a unit is written.
pub open spec fn last_unit(t: Seq<char>, from: int, to: int) -> Option<int>
    decreases to - from,
{
    if to <= from {
        None
    } else if unit_len_at(t, to - 1) > 0 {
        Some(to - 1)
    } else {
        last_unit(t, from, to - 1)
    }
}

/// The match that starts at `i`, if one does: all the digits from `i` on
/// make its number, and its unit is the last one written before the next
/// white space. Gives where the number ends and where the unit stands.
pub open spec fn match_at(t: Seq<char>, i: int) -> Option<(int, int)> {
    if 0 <= i < t.len() && is_ascii_digit(t[i]) {
        let e = digits_end(t, i);
        match last_unit(t, e, word_end(t, e)) {
            Some(p) => Some((e, p)),
            None => None,
        }
    } else {
        None
    }
}

/// The matches in `t` from position `from` on, leftmost first and not
/// overlapping: each gives the text of its number and of its unit, and the
/// search goes on after its unit.
pub open spec fn matches_from(t: Seq<char>, from: int) -> Seq<(Seq<char>, Seq<char>)>
    decreases t.len() - from,
{
    if from < 0 || from >= t.len() {
        seq![]
    } else {
        match match_at(t, from) {
            None => matches_from(t, from + 1),
            Some((e, p)) => {
                let next = p + unit_len_at(t, p);
                if from < next <= t.len() {
                    seq![(t.subrange(from, e), t.subrange(p, next))] + matches_from(t, next)
                } else {
                    seq![]
                }
            },
        }
    }
}

/// The matches of a duration text: those of the regular expression
/// `(\d+)\S*(y|mo|w|d|h|m|s)`, where `\d` is an ASCII digit and `\S` any
/// character but white space.
pub open spec fn duration_matches(t: Seq<char>) -> Seq<(Seq<char>, Seq<char>)> {
    matches_from(t, 0)
}

fn is_white_space_char(c: char) -> (r: bool)
    ensures
        r == is_white_space(c),
{
    let n: u32 = c as u32;
    (9 <= n && n <= 13) || n == 32 || n == 0x85 || n == 0xa0 || n == 0x1680 || (0x2000 <= n && n
        <= 0x200a) || n == 0x2028 || n == 0x2029 || n == 0x202f || n == 0x205f || n == 0x3000
}

fn digits_end_exec(t: &Vec<char>, i: usize) -> (r: usize)
    requires
        i <= t.len(),
    ensures
        r as int == digits_end(t@, i as int),
        i <= r <= t.len(),
{
    let mut j: usize = i;
    while j < t.len() && '0' <= t[j] && t[j] <= '9'
        invariant
            i <= j <= t.len(),
            digits_end(t@, i as int) == digits_end(t@, j as int),
        decreases t.len() - j,
    {
        j += 1;
    }
    j
}

fn word_end_exec(t: &Vec<char>, i: usize) -> (r: usize)
    requires
        i <= t.len(),
    ensures
        r as int == word_end(t@, i as int),
        i <= r <= t.len(),
{
    let mut j: usize = i;
    while j < t.len() && !is_white_space_char(t[j])
        invariant
            i <= j <= t.len(),
            word_end(t@, i as int) == word_end(t@, j as int),
        decreases t.len() - j,
    {
        j += 1;
    }
    j
}

fn unit_len_exec(t: &Vec<char>, p: usize) -> (r: usize)
    ensures
        r as int == unit_len_at(t@, p as int),
        r > 0 ==> p + r <= t.len(),
{
    if p >= t.len() {
        0
    } else if t[p] == 'y' {
        1
    } else if t[p] == 'm' && p + 1 < t.len() && t[p + 1] == 'o' {
        2
    } else if t[p] == 'w' || t[p] == 'd' || t[p] == 'h' || t[p] == 'm' || t[p] == 's' {
        1
    } else {
        0
    }
}

fn last_unit_exec(t: &Vec<char>, from: usize, to: usize) -> (r: Option<usize>)
    requires
        from <= to <= t.len(),
    ensures
        r is None ==> last_unit(t@, from as int, to as int) is None,
        r matches Some(p) ==> last_unit(t@, from as int, to as int) == Some(p as int) && from <= p
            < to && unit_len_at(t@, p as int) > 0,
{
    let mut q: usize = to;
    while q > from
        invariant
            from <= q <= to,
            last_unit(t@, from as int, to as int) == last_unit(t@, from as int, q as int),
        decreases q - from,
    {
        if unit_len_exec(t, q - 1) > 0 {
            return Some(q - 1);
        }
        q -= 1;
    }
    None
}

fn chars_between(t: &Vec<char>, a: usize, b: usize) -> (r: String)
    requires
        a <= b <= t.len(),
    ensures
        r@ == t@.subrange(a as int, b as int),
{
    let mut r = String::new();
    let mut i: usize = a;
    while i < b
        invariant
            a <= i <= b <= t.len(),
            r@ == t@.subrange(a as int, i as int),
        decreases b - i,
    {
        push_char(&mut r, t[i]);
        i += 1;
        assert(r@ =~= t@.subrange(a as int, i as int));
    }
    r
}

/// The matches of a duration text (see `duration_matches`): for each, the
/// text of its number and of its unit.
pub fn find_duration_matches(text: &str) -> (r: Vec<(String, String)>)
    ensures
        r@.map_values(|c: (String, String)| (c.0@, c.1@)) == duration_matches(text@),
{
    let t = chars_of(text);
    let mut r: Vec<(String, String)> = Vec::new();
    let mut from: usize = 0;
    while from < t.len()
        invariant
            t@ == text@,
            from <= t.len(),
            r@.map_values(|c: (String, String)| (c.0@, c.1@)) + matches_from(t@, from as int)
                == matches_from(t@, 0),
        decreases t.len() - from,
    {
        let ghost before = r@.map_values(|c: (String, String)| (c.0@, c.1@));
        let mut next: usize = from + 1;
        if '0' <= t[from] && t[from] <= '9' {
            let e = digits_end_exec(&t, from);
            let w = word_end_exec(&t, e);
            match last_unit_exec(&t, e, w) {
                Some(p) => {
                    let len = unit_len_exec(&t, p);
                    let number = chars_between(&t, from, e);
                    let unit = chars_between(&t, p, p + len);
                    r.push((number, unit));
                    next = p + len;
                    let ghost now = r@.map_values(|c: (String, String)| (c.0@, c.1@));
                    assert(match_at(t@, from as int) == Some((e as int, p as int)));
                    assert(now =~= before.push((t@.subrange(from as int, e as int), t@.subrange(p as int, next as int))));
                    assert(now + matches_from(t@, next as int) =~= before + matches_from(t@, from as int));
                },
                None => {},
            }
        }
        from = next;
    }
    assert(matches_from(t@, from as int) == Seq::<(Seq<char>, Seq<char>)>::empty());
    assert(r@.map_values(|c: (String, String)| (c.0@, c.1@)) =~= matches_from(t@, 0));
    r
}

/// The seven amounts of a duration.
#[derive(Clone, Copy, PartialEq, Eq, Debug)]
pub struct DurationUnits {
    pub years: u64,
    pub months: u64,
    pub weeks: u64,
    pub days: u64,
    pub hours: u64,
    pub minutes: u64,
    pub seconds: u64,
}

impl DurationUnits {
    /// No time at all.
    pub open spec fn zero() -> DurationUnits {
        DurationUnits { years: 0, months: 0, weeks: 0, days: 0, hours: 0, minutes: 0, seconds: 0 }
    }

    /// These amounts with the amount of `unit` set to `value`; an unknown
    /// unit changes nothing.
    pub open spec fn with_unit(self, unit: Seq<char>, value: u64) -> DurationUnits {
        if unit == seq!['y'] {
            DurationUnits { years: value, ..self }
        } else if unit == seq!['m', 'o'] {
            DurationUnits { months: value, ..self }
        } else if unit == seq!['w'] {
            DurationUnits { weeks: value, ..self }
        } else if unit == seq!['d'] {
            DurationUnits { days: value, ..self }
        } else if unit == seq!['h'] {
            DurationUnits { hours: value, ..self }
        } else if unit == seq!['m'] {
            DurationUnits { minutes: value, ..self }
        } else if unit == seq!['s'] {
            DurationUnits { seconds: value, ..self }
        } else {
            self
        }
    }

    /// The length of the duration in seconds: a month counts 30 days and a
    /// year 365.
    pub open spec fn total_seconds(self) -> nat {
        self.seconds as nat + self.minutes as nat * 60 + self.hours as nat * 3600 + self.days as nat
            * 86400 + self.weeks as nat * 604800 + self.months as nat * 2592000 + self.years as nat
            * 31536000
    }
}

/// The amounts read from the captures, front to back, starting from
/// `units`: each capture sets its unit to its number, a later capture of
/// the same unit winning. `None` when a number does not fit in a `u64`.
pub open spec fn units_from_captures(
    units: DurationUnits,
    captures: Seq<(Seq<char>, Seq<char>)>,
) -> Option<DurationUnits>
    decreases captures.len(),
{
    if captures.len() == 0 {
        Some(units)
    } else {
        match unsigned_from_str(captures[0].0, u64::MAX as nat) {
            None => None,
            Some(v) => units_from_captures(
                units.with_unit(captures[0].1, v as u64),
                captures.skip(1),
            ),
        }
    }
}

/// The amounts a duration text gives, or `None` when a number in it does
/// not fit in a `u64`.
pub open spec fn units_from_text(text: Seq<char>) -> Option<DurationUnits> {
    units_from_captures(DurationUnits::zero(), duration_matches(text))
}

/// A duration, with the text it was read from.
#[derive(Debug)]
pub struct Duration {
    pub years: u64,
    pub months: u64,
    pub weeks: u64,
    pub days: u64,
    pub hours: u64,
    pub minutes: u64,
    pub seconds: u64,
    pub string: String,
}

/// The current time in whole seconds since the Unix epoch, from
/// `SystemTime::now().duration_since(UNIX_EPOCH)`; `None` where the clock
/// reads a time before the epoch. Nothing more is claimed of the value,
/// which depends on the clock.
#[verifier::external_body]
fn unix_now() -> Option<u64> {
    std::time::SystemTime::now().duration_since(std::time::UNIX_EPOCH).ok().map(|d| d.as_secs())
}

impl Duration {
    /// The amounts of this duration.
    pub open spec fn units(&self) -> DurationUnits {
        DurationUnits {
            years: self.years,
            months: self.months,
            weeks: self.weeks,
            days: self.days,
            hours: self.hours,
            minutes: self.minutes,
            seconds: self.seconds,
        }
    }

    /// Whether every amount is zero.
    pub open spec fn spec_is_permanent(&self) -> bool {
        self.units() == DurationUnits::zero()
    }

    /// The moment this duration reaches from `now` (seconds since the Unix
    /// epoch): 0 for a permanent duration, otherwise `now` plus its length,
    /// and `None` when that does not fit in a `u64`.
    pub open spec fn timestamp_from(&self, now: u64) -> Option<u64> {
        if self.spec_is_permanent() {
            Some(0)
        } else if now + self.units().total_seconds() <= u64::MAX {
            Some((now + self.units().total_seconds()) as u64)
        } else {
            None
        }
    }

    /// Reads a duration from text: every match of a number followed, after
    /// any non-blank characters, by a unit (`y`, `mo`, `w`, `d`, `h`, `m`
    /// or `s`) sets that unit, a later match of a unit winning.
    pub fn new(duration_string: String) -> (r: Duration)
        requires
            units_from_text(duration_string@).is_some(),
        ensures
            Some(r.units()) == units_from_text(duration_string@),
            r.string@ == duration_string@,
    {
        let captures = find_duration_matches(duration_string.as_str());
        Self::from_captures(duration_string, &captures).unwrap()
    }

    /// Reads a duration from text as `new` does, or `None` when a number
    /// in it does not fit in a `u64`.
    pub fn try_new(duration_string: String) -> (r: Option<Duration>)
        ensures
            match r {
                Some(d) => Some(d.units()) == units_from_text(duration_string@) && d.string@
                    == duration_string@,
                None => units_from_text(duration_string@).is_none(),
            },
    {
        let captures = find_duration_matches(duration_string.as_str());
        match Self::from_captures(duration_string.clone(), &captures) {
            Some(_) => Some(Self::new(duration_string)),
            None => None,
        }
    }

    /// Whether the duration is empty, which stands for "forever".
    pub fn is_permanent(&self) -> (r: bool)
        ensures
            r == self.spec_is_permanent(),
    {
        self.years == 0 && self.months == 0 && self.weeks == 0 && self.days == 0 && self.hours == 0
            && self.minutes == 0 && self.seconds == 0
    }

    /// The moment this duration reaches from `now`; see `timestamp_from`.
    pub fn to_unix_timestamp_from(&self, now: u64) -> (r: Option<u64>)
        ensures
            r == self.timestamp_from(now),
    {
        if self.is_permanent() {
            return Some(0);
        }
        let total: u128 = now as u128 + self.seconds as u128 + self.minutes as u128 * 60
            + self.hours as u128 * 3600 + self.days as u128 * 86400 + self.weeks as u128 * 604800
            + self.months as u128 * 2592000 + self.years as u128 * 31536000;
        if total > 0xFFFF_FFFF_FFFF_FFFFu128 {
            None
        } else {
            Some(total as u64)
        }
    }

    /// The moment this duration reaches from the current time: 0 for a
    /// permanent duration, otherwise the current time plus its length;
    /// `None` when that does not fit in a `u64`, or when the clock reads a
    /// time before the Unix epoch.
    pub fn to_unix_timestamp(&self) -> (r: Option<u64>)
        ensures
            self.spec_is_permanent() ==> r == Some(0u64),
            exists|now: u64| r == self.timestamp_from(now),
    {
        if self.is_permanent() {
            assert(Some(0u64) == self.timestamp_from(0));
            return Some(0);
        }
        match unix_now() {
            Some(now) => self.to_unix_timestamp_from(now),
            None => {
                assert(self.units().total_seconds() > 0);
                assert(self.timestamp_from(u64::MAX) is None);
                None
            },
        }
    }

    /// The duration that `captures` (the matches found in `text`) describe,
    /// or `None` when one of their numbers does not fit in a `u64`.
    pub fn from_captures(text: String, captures: &Vec<(String, String)>) -> (r: Option<Duration>)
        ensures
            ({
                let caps = captures@.map_values(|c: (String, String)| (c.0@, c.1@));
                match r {
                    Some(d) => units_from_captures(DurationUnits::zero(), caps) == Some(d.units())
                        && d.string@ == text@,
                    None => units_from_captures(DurationUnits::zero(), caps).is_none(),
                }
            }),
    {
        let ghost caps = captures@.map_values(|c: (String, String)| (c.0@, c.1@));
        let mut units = DurationUnits {
            years: 0,
            months: 0,
            weeks: 0,
            days: 0,
            hours: 0,
            minutes: 0,
            seconds: 0,
        };
        let mut i: usize = 0;
        assert(caps.skip(0) =~= caps);
        while i < captures.len()
            invariant
                i <= captures.len(),
                caps == captures@.map_values(|c: (String, String)| (c.0@, c.1@)),
                units_from_captures(DurationUnits::zero(), caps) == units_from_captures(
                    units,
                    caps.skip(i as int),
                ),
            decreases captures.len() - i,
        {
            assert(caps.skip(i as int)[0] == caps[i as int]);
            assert(caps.skip(i as int).skip(1) =~= caps.skip(i + 1));
            let value = match parse_u64(captures[i].0.as_str()) {
                Some(v) => v,
                None => {
                    return None;
                },
            };
            let unit = captures[i].1.as_str();
            let ghost u = unit@;
            let ghost before = units;
            assert(caps[i as int] == (captures@[i as int].0@, captures@[i as int].1@));
            proof {
                reveal_strlit("y");
                reveal_strlit("mo");
                reveal_strlit("w");
                reveal_strlit("d");
                reveal_strlit("h");
                reveal_strlit("m");
                reveal_strlit("s");
                assert("y"@ =~= seq!['y']);
                assert("mo"@ =~= seq!['m', 'o']);
                assert("w"@ =~= seq!['w']);
                assert("d"@ =~= seq!['d']);
                assert("h"@ =~= seq!['h']);
                assert("m"@ =~= seq!['m']);
                assert("s"@ =~= seq!['s']);
            }
            if str_eq(unit, "y") {
                assert(u =~= seq!['y']);
                units.years = value;
            } else if str_eq(unit, "mo") {
                assert(u =~= seq!['m', 'o']);
                units.months = value;
            } else if str_eq(unit, "w") {
                assert(u =~= seq!['w']);
                units.weeks = value;
            } else if str_eq(unit, "d") {
                assert(u =~= seq!['d']);
                units.days = value;
            } else if str_eq(unit, "h") {
                assert(u =~= seq!['h']);
                units.hours = value;
            } else if str_eq(unit, "m") {
                assert(u =~= seq!['m']);
                units.minutes = value;
            } else if str_eq(unit, "s") {
                assert(u =~= seq!['s']);
                units.seconds = value;
            }
            assert(units == before.with_unit(u, value));
            i += 1;
        }
        assert(caps.skip(i as int).len() == 0);
        Some(Duration {
            years: units.years,
            months: units.months,
            weeks: units.weeks,
            days: units.days,
            hours: units.hours,
            minutes: units.minutes,
            seconds: units.seconds,
            string: text,
        })
    }
}


/// A duration's moment is 0 exactly when the duration is permanent (when
/// it can be computed at all).
pub proof fn law_timestamp_zero_iff_permanent(d: Duration, now: u64)
    requires
        d.timestamp_from(now) is Some,
    ensures
        d.timestamp_from(now) == Some(0u64) <==> d.spec_is_permanent(),
{
    if !d.spec_is_permanent() {
        assert(d.units().total_seconds() > 0);
    }
}

/// Later starting points give later (or equal) moments.
pub proof fn law_timestamp_monotone(d: Duration, a: u64, b: u64)
    requires
        a <= b,
        d.timestamp_from(b) is Some,
    ensures
        d.timestamp_from(a) is Some,
        d.timestamp_from(a)->0 <= d.timestamp_from(b)->0,
{
}

/// A non-permanent duration reaches past its starting point by exactly
/// its length.
pub proof fn law_timestamp_adds_length(d: Duration, now: u64)
    requires
        !d.spec_is_permanent(),
        d.timestamp_from(now) is Some,
    ensures
        d.timestamp_from(now)->0 == now + d.units().total_seconds(),
{
}

/// The length of each unit: a second; a minute of 60 seconds; an hour of
/// 60 minutes; a day of 24 hours; a week of 7 days; a month of 30 days; a
/// year of 365 days. A duration of `n` of one unit lasts `n` times that
/// unit.
pub proof fn law_unit_lengths(n: u64)
    ensures
        (DurationUnits { seconds: n, ..DurationUnits::zero() }).total_seconds() == n,
        (DurationUnits { minutes: n, ..DurationUnits::zero() }).total_seconds() == n * 60,
        (DurationUnits { hours: n, ..DurationUnits::zero() }).total_seconds() == n * 60 * 60,
        (DurationUnits { days: n, ..DurationUnits::zero() }).total_seconds() == n * 24 * 60 * 60,
        (DurationUnits { weeks: n, ..DurationUnits::zero() }).total_seconds() == n * 7 * 24 * 60 * 60,
        (DurationUnits { months: n, ..DurationUnits::zero() }).total_seconds() == n * 30 * 24 * 60 * 60,
        (DurationUnits { years: n, ..DurationUnits::zero() }).total_seconds() == n * 365 * 24 * 60 * 60,
{
}

/// The length of a duration is the sum of the lengths of its parts: each
/// amount counts on its own, whatever the others are.
pub proof fn law_length_adds_up(u: DurationUnits)
    ensures
        u.total_seconds() == (DurationUnits { seconds: u.seconds, ..DurationUnits::zero() }).total_seconds()
            + (DurationUnits { minutes: u.minutes, ..DurationUnits::zero() }).total_seconds()
            + (DurationUnits { hours: u.hours, ..DurationUnits::zero() }).total_seconds()
            + (DurationUnits { days: u.days, ..DurationUnits::zero() }).total_seconds()
            + (DurationUnits { weeks: u.weeks, ..DurationUnits::zero() }).total_seconds()
            + (DurationUnits { months: u.months, ..DurationUnits::zero() }).total_seconds()
            + (DurationUnits { years: u.years, ..DurationUnits::zero() }).total_seconds(),
{
}

/// A duration of `n` days (and nothing else) ends exactly `n * 86400`
/// seconds after its starting point, or is permanent when `n` is 0.
pub proof fn law_days_end_after_whole_days(d: Duration, now: u64)
    requires
        d.units() == (DurationUnits { days: d.days, ..DurationUnits::zero() }),
        now + d.days * 86400 <= u64::MAX,
    ensures
        d.days == 0 ==> d.timestamp_from(now) == Some(0u64),
        d.days > 0 ==> d.timestamp_from(now) == Some((now + d.days * 86400) as u64),
{
}

proof fn lemma_digits_run(t: Seq<char>, n: int, i: int)
    requires
        0 <= i <= n < t.len(),
        forall|k: int| 0 <= k < n ==> is_ascii_digit(#[trigger] t[k]),
        !is_ascii_digit(t[n]),
    ensures
        digits_end(t, i) == n,
    decreases n - i,
{
    if i < n {
        lemma_digits_run(t, n, i + 1);
    }
}

/// The units a duration text can name.
pub open spec fn is_unit_text(u: Seq<char>) -> bool {
    u == seq!['y'] || u == seq!['m', 'o'] || u == seq!['w'] || u == seq!['d'] || u == seq!['h']
        || u == seq!['m'] || u == seq!['s']
}

proof fn lemma_number_then_unit(ds: Seq<char>, u: Seq<char>)
    requires
        ds.len() > 0,
        all_digits(ds),
        is_unit_text(u),
    ensures
        duration_matches(ds + u) == seq![(ds, u)],
{
    let t = ds + u;
    let n = ds.len() as int;
    assert forall|k: int| 0 <= k < n implies is_ascii_digit(#[trigger] t[k]) by {
        assert(t[k] == ds[k]);
    }
    assert(t[n] == u[0]);
    lemma_digits_run(t, n, 0);
    assert(is_ascii_digit(t[0]));
    if u.len() == 1 {
        assert(word_end(t, n + 1) == n + 1);
        assert(word_end(t, n) == n + 1);
        assert(unit_len_at(t, n) == 1);
        assert(last_unit(t, n, n + 1) == Some(n));
    } else {
        assert(t[n + 1] == 'o');
        assert(word_end(t, n + 2) == n + 2);
        assert(word_end(t, n + 1) == n + 2);
        assert(word_end(t, n) == n + 2);
        assert(unit_len_at(t, n + 1) == 0);
        assert(unit_len_at(t, n) == 2);
        assert(last_unit(t, n, n + 1) == Some(n));
        assert(last_unit(t, n, n + 2) == Some(n));
    }
    assert(match_at(t, 0) == Some((n, n)));
    assert(t.subrange(0, n) =~= ds);
    assert(t.subrange(n, t.len() as int) =~= u);
    assert(matches_from(t, t.len() as int) == Seq::<(Seq<char>, Seq<char>)>::empty());
    assert(matches_from(t, 0) =~= seq![(ds, u)]);
}

proof fn lemma_units_of_one_match(ds: Seq<char>, u: Seq<char>)
    requires
        ds.len() > 0,
        all_digits(ds),
        is_unit_text(u),
    ensures
        digits_value(ds) <= u64::MAX ==> units_from_text(ds + u) == Some(
            DurationUnits::zero().with_unit(u, digits_value(ds) as u64),
        ),
        digits_value(ds) > u64::MAX ==> units_from_text(ds + u) is None,
{
    lemma_number_then_unit(ds, u);
    let caps = seq![(ds, u)];
    assert(ds[0] != '+') by {
        assert(is_ascii_digit(ds[0]));
    }
    assert(unsigned_body(ds) == ds);
    assert(caps.skip(1) =~= Seq::<(Seq<char>, Seq<char>)>::empty());
    assert(caps[0] == (ds, u));
    if digits_value(ds) <= u64::MAX {
        assert(unsigned_from_str(ds, u64::MAX as nat) == Some(digits_value(ds)));
        let z = DurationUnits::zero().with_unit(u, digits_value(ds) as u64);
        assert(units_from_captures(z, caps.skip(1)) == Some(z));
        assert(units_from_captures(DurationUnits::zero(), caps) == Some(z));
    }
}

/// A number followed by a unit sets that unit to the number and nothing
/// else: `12d` is twelve days, `3mo` three months, `5m` five minutes. A
/// number too large for a `u64` is refused.
pub proof fn law_number_then_unit(ds: Seq<char>)
    requires
        ds.len() > 0,
        all_digits(ds),
    ensures
        ({
            let v = digits_value(ds) as u64;
            let z = DurationUnits::zero();
            digits_value(ds) <= u64::MAX ==> {
                &&& units_from_text(ds + seq!['y']) == Some(DurationUnits { years: v, ..z })
                &&& units_from_text(ds + seq!['m', 'o']) == Some(DurationUnits { months: v, ..z })
                &&& units_from_text(ds + seq!['w']) == Some(DurationUnits { weeks: v, ..z })
                &&& units_from_text(ds + seq!['d']) == Some(DurationUnits { days: v, ..z })
                &&& units_from_text(ds + seq!['h']) == Some(DurationUnits { hours: v, ..z })
                &&& units_from_text(ds + seq!['m']) == Some(DurationUnits { minutes: v, ..z })
                &&& units_from_text(ds + seq!['s']) == Some(DurationUnits { seconds: v, ..z })
            }
        }),
        digits_value(ds) > u64::MAX ==> units_from_text(ds + seq!['d']) is None,
{
    lemma_units_of_one_match(ds, seq!['y']);
    lemma_units_of_one_match(ds, seq!['m', 'o']);
    lemma_units_of_one_match(ds, seq!['w']);
    lemma_units_of_one_match(ds, seq!['d']);
    lemma_units_of_one_match(ds, seq!['h']);
    lemma_units_of_one_match(ds, seq!['m']);
    lemma_units_of_one_match(ds, seq!['s']);
    law_setting_a_unit_keeps_the_others(DurationUnits::zero(), digits_value(ds) as u64);
}

/// A duration read from `n` followed by `d` (what `Duration::new` gives
/// for such a text) ends exactly `n` days of 86400 seconds after `now`.
pub proof fn law_day_text_ends_after_days(ds: Seq<char>, d: Duration, now: u64)
    requires
        ds.len() > 0,
        all_digits(ds),
        Some(d.units()) == units_from_text(ds + seq!['d']),
        0 < digits_value(ds),
        now + digits_value(ds) * 86400 <= u64::MAX,
    ensures
        d.timestamp_from(now) == Some((now + digits_value(ds) * 86400) as u64),
{
    law_number_then_unit(ds);
}

/// A match read after the others sets its unit whatever earlier matches
/// set it to, and leaves the other units as they were: in `1h 2h` the
/// hours are 2.
pub proof fn law_later_match_wins(start: DurationUnits, caps: Seq<(Seq<char>, Seq<char>)>, ds: Seq<char>,
    u: Seq<char>, before: DurationUnits)
    requires
        units_from_captures(start, caps) == Some(before),
        ds.len() > 0,
        all_digits(ds),
        digits_value(ds) <= u64::MAX,
    ensures
        units_from_captures(start, caps.push((ds, u))) == Some(before.with_unit(u, digits_value(ds) as u64)),
    decreases caps.len(),
{
    assert(ds[0] != '+') by {
        assert(is_ascii_digit(ds[0]));
    }
    assert(unsigned_body(ds) == ds);
    let all = caps.push((ds, u));
    assert(unsigned_from_str(ds, u64::MAX as nat) == Some(digits_value(ds)));
    if caps.len() == 0 {
        assert(all.skip(1) =~= Seq::<(Seq<char>, Seq<char>)>::empty());
        assert(all[0] == (ds, u));
        assert(before == start);
        let z = start.with_unit(u, digits_value(ds) as u64);
        assert(units_from_captures(z, all.skip(1)) == Some(z));
    } else {
        let v = unsigned_from_str(caps[0].0, u64::MAX as nat)->0;
        let next = start.with_unit(caps[0].1, v as u64);
        assert(all.skip(1) =~= caps.skip(1).push((ds, u)));
        assert(all[0] == caps[0]);
        law_later_match_wins(next, caps.skip(1), ds, u, before);
    }
}

/// Setting a unit changes that unit only: the other six amounts stay.
pub proof fn law_setting_a_unit_keeps_the_others(a: DurationUnits, v: u64)
    ensures
        a.with_unit(seq!['y'], v) == (DurationUnits { years: v, ..a }),
        a.with_unit(seq!['m', 'o'], v) == (DurationUnits { months: v, ..a }),
        a.with_unit(seq!['w'], v) == (DurationUnits { weeks: v, ..a }),
        a.with_unit(seq!['d'], v) == (DurationUnits { days: v, ..a }),
        a.with_unit(seq!['h'], v) == (DurationUnits { hours: v, ..a }),
        a.with_unit(seq!['m'], v) == (DurationUnits { minutes: v, ..a }),
        a.with_unit(seq!['s'], v) == (DurationUnits { seconds: v, ..a }),
{
    assert(seq!['m', 'o'] != seq!['y']) by {
        assert(seq!['m', 'o'].len() != seq!['y'].len());
    }
    assert(seq!['w'] != seq!['y']) by {
        assert(seq!['w'][0] != seq!['y'][0]);
    }
    assert(seq!['d'] != seq!['y'] && seq!['d'] != seq!['m', 'o'] && seq!['d'] != seq!['w']) by {
        assert(seq!['d'][0] != seq!['y'][0]);
        assert(seq!['d'].len() != seq!['m', 'o'].len());
        assert(seq!['d'][0] != seq!['w'][0]);
    }
    assert(seq!['h'] != seq!['y'] && seq!['h'] != seq!['m', 'o'] && seq!['h'] != seq!['w'] && seq!['h'] != seq!['d']) by {
        assert(seq!['h'][0] != seq!['y'][0]);
        assert(seq!['h'].len() != seq!['m', 'o'].len());
        assert(seq!['h'][0] != seq!['w'][0]);
        assert(seq!['h'][0] != seq!['d'][0]);
    }
    assert(seq!['m'] != seq!['y'] && seq!['m'] != seq!['m', 'o'] && seq!['m'] != seq!['w'] && seq!['m'] != seq!['d'] && seq!['m'] != seq!['h']) by {
        assert(seq!['m'][0] != seq!['y'][0]);
        assert(seq!['m'].len() != seq!['m', 'o'].len());
        assert(seq!['m'][0] != seq!['w'][0]);
        assert(seq!['m'][0] != seq!['d'][0]);
        assert(seq!['m'][0] != seq!['h'][0]);
    }
    assert(seq!['s'] != seq!['y'] && seq!['s'] != seq!['m', 'o'] && seq!['s'] != seq!['w'] && seq!['s'] != seq!['d'] && seq!['s'] != seq!['h'] && seq!['s'] != seq!['m']) by {
        assert(seq!['s'][0] != seq!['y'][0]);
        assert(seq!['s'].len() != seq!['m', 'o'].len());
        assert(seq!['s'][0] != seq!['w'][0]);
        assert(seq!['s'][0] != seq!['d'][0]);
        assert(seq!['s'][0] != seq!['h'][0]);
        assert(seq!['s'][0] != seq!['m'][0]);
    }
}

} // verus!
