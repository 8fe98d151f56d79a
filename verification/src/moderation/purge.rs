//! Purging messages from a channel: how many, in which rounds, which
//! messages go, and what the bot reports.

use vstd::prelude::*;
use crate::text::{decimal_text, push_i64, push_str};
use crate::moderation::records::user_tag;
use crate::permissions::{Permission, holds};
use crate::response::{Refusal, is_refusal, missing_permission, missing_permission_text, no_permission_title};

verus! {

/// Clears recent messages from the channel it is used in.
#[derive(Debug)]
pub struct PurgeCommand;

/// How many messages a purge aims at: the count asked for, at most 1000,
/// or 100 when none was given.
pub open spec fn purge_target(count: Option<i64>) -> i64 {
    match count {
        Some(c) => if c < 1000 { c } else { 1000 },
        None => 100,
    }
}

/// Rust's integer division of `a` by 100, which rounds toward zero.
pub open spec fn div100_toward_zero(a: int) -> int {
    if a >= 0 {
        a / 100
    } else {
        -((-a) / 100)
    }
}

/// How many rounds of fetching a purge of `target` messages makes: one
/// per started hundred plus one, at most ten, and none for a target of
/// -100 or less.
pub open spec fn purge_rounds(target: int) -> int {
    let n = div100_toward_zero(target) + 1;
    let capped = if n < 10 { n } else { 10 };
    if capped < 0 { 0 } else { capped }
}

/// The smaller of `a` and `b`.
pub open spec fn min_int(a: int, b: int) -> int {
    if a < b { a } else { b }
}

/// A message fetched for a purge: its id, its author and whether the
/// author is a bot.
#[derive(Clone, Copy, Debug, PartialEq, Eq, Structural)]
pub struct FetchedMessage {
    pub id: u64,
    pub author: u64,
    pub bot: bool,
}

/// Whether a purge removes `m`: never a bot's message, and only the
/// chosen author's when one was chosen.
pub open spec fn purged(m: FetchedMessage, author: Option<u64>) -> bool {
    !m.bot && match author {
        Some(a) => m.author == a,
        None => true,
    }
}

/// The ids, in order, of the messages of `ms` that a purge removes.
pub open spec fn purge_selection(ms: Seq<FetchedMessage>, author: Option<u64>) -> Seq<u64>
    decreases ms.len(),
{
    if ms.len() == 0 {
        Seq::empty()
    } else if purged(ms.last(), author) {
        purge_selection(ms.drop_last(), author).push(ms.last().id)
    } else {
        purge_selection(ms.drop_last(), author)
    }
}

proof fn lemma_selection_len(ms: Seq<FetchedMessage>, author: Option<u64>)
    ensures
        purge_selection(ms, author).len() <= ms.len(),
    decreases ms.len(),
{
    if ms.len() > 0 {
        lemma_selection_len(ms.drop_last(), author);
    }
}

/// How the messages of a round are deleted: one alone, or several (or
/// none) in one bulk request.
#[derive(Debug)]
pub enum PurgeDeletion {
    Single(u64),
    Bulk(Vec<u64>),
}

/// A purge under way: its target, its rounds, the rounds done, the
/// messages deleted so far and the author chosen, if any.
#[derive(Debug)]
pub struct Purge {
    pub target: i64,
    pub rounds: i64,
    pub round: i64,
    pub deleted: i64,
    pub author: Option<u64>,
    pub stopped: bool,
}

impl Purge {
    /// The purge's invariant: the rounds lie between none and ten, and
    /// never more messages are deleted than aimed at.
    pub open spec fn wf(&self) -> bool {
        &&& 0 <= self.rounds <= 10
        &&& 0 <= self.round <= self.rounds
        &&& 0 <= self.deleted
        &&& (self.round > 0 ==> self.deleted <= self.target)
    }

    /// Whether another round is fetched.
    pub open spec fn spec_goes_on(&self) -> bool {
        !self.stopped && self.round < self.rounds
    }

    /// Whether another round is fetched: the rounds are not all done and
    /// the last round did not come back short.
    pub fn goes_on(&self) -> (r: bool)
        ensures
            r == self.spec_goes_on(),
    {
        !self.stopped && self.round < self.rounds
    }

    /// How many messages the next round asks for: what is left to delete,
    /// at most 100. What is left must fit in a byte.
    pub fn limit(&self) -> (r: u8)
        requires
            0 <= self.target - self.deleted <= 255,
        ensures
            r == min_int(self.target - self.deleted, 100),
    {
        let left = self.target - self.deleted;
        if left < 100 {
            left as u8
        } else {
            100u8
        }
    }

    /// The ids of the fetched messages this purge removes; see
    /// `purge_selection`.
    pub fn select(&self, messages: &Vec<FetchedMessage>) -> (r: Vec<u64>)
        ensures
            r@ == purge_selection(messages@, self.author),
            r.len() <= messages.len(),
    {
        let mut r: Vec<u64> = Vec::new();
        let mut i: usize = 0;
        while i < messages.len()
            invariant
                i <= messages.len(),
                r@ == purge_selection(messages@.subrange(0, i as int), self.author),
            decreases messages.len() - i,
        {
            let ghost next = messages@.subrange(0, i + 1);
            assert(next.drop_last() =~= messages@.subrange(0, i as int));
            let m = messages[i];
            let keep = !m.bot && match self.author {
                Some(a) => m.author == a,
                None => true,
            };
            if keep {
                r.push(m.id);
            }
            i += 1;
        }
        assert(messages@.subrange(0, messages.len() as int) =~= messages@);
        proof {
            lemma_selection_len(messages@, self.author);
        }
        r
    }

    /// Ends a round in which `fetched` messages came back and `removed`
    /// were deleted (those of `select`, or none when a bulk deletion was
    /// refused for its size). A round that came back with fewer messages
    /// than it asked for is the last.
    pub fn finish_round(&mut self, fetched: usize, removed: usize)
        requires
            old(self).wf(),
            old(self).spec_goes_on(),
            0 <= old(self).target - old(self).deleted <= 255,
            fetched <= min_int(old(self).target - old(self).deleted, 100),
            removed <= fetched,
        ensures
            final(self).wf(),
            final(self).target == old(self).target,
            final(self).rounds == old(self).rounds,
            final(self).author == old(self).author,
            final(self).round == old(self).round + 1,
            final(self).deleted == old(self).deleted + removed,
            final(self).stopped == (fetched != min_int(old(self).target - old(self).deleted, 100)),
    {
        let left = self.target - self.deleted;
        let asked: i64 = if left < 100 { left } else { 100 };
        self.stopped = (fetched as i64) != asked;
        self.deleted = self.deleted + removed as i64;
        self.round = self.round + 1;
    }
}

impl PurgeCommand {
    /// The command's name.
    pub fn name(&self) -> (r: &'static str)
        ensures
            r@ == "purge"@,
    {
        "purge"
    }

    /// The permission a purge needs.
    pub fn required_permission(&self) -> (r: Permission)
        ensures
            r == Permission::ModerationPurge,
    {
        Permission::ModerationPurge
    }

    /// Refuses a purge, before any message is read, when the invoker,
    /// who holds `held`, lacks `moderation.purge`.
    pub fn check(&self, held: &Vec<Permission>) -> (r: Result<(), Refusal>)
        ensures
            held@.contains(Permission::ModerationPurge) ==> r is Ok,
            !held@.contains(Permission::ModerationPurge) ==> (r matches Err(e) && is_refusal(e,
                no_permission_title(), missing_permission_text(Permission::ModerationPurge))),
    {
        if holds(held, Permission::ModerationPurge) {
            Ok(())
        } else {
            Err(missing_permission(Permission::ModerationPurge))
        }
    }

    /// A purge of `count` messages (see `purge_target`), by `author` when
    /// one is chosen, before its first round.
    pub fn start(&self, count: Option<i64>, author: Option<u64>) -> (r: Purge)
        ensures
            r.wf(),
            r.target == purge_target(count),
            r.rounds == purge_rounds(purge_target(count) as int),
            r.round == 0,
            r.deleted == 0,
            r.author == author,
            !r.stopped,
    {
        let target: i64 = match count {
            Some(c) => if c < 1000 { c } else { 1000 },
            None => 100,
        };
        let rounds: i64 = if target <= -100 {
            0
        } else if target < 0 {
            1
        } else if target / 100 + 1 < 10 {
            target / 100 + 1
        } else {
            10
        };
        proof {
            if target <= -100 {
                assert((-target) / 100 >= 1);
            } else if target < 0 {
                assert((-target) / 100 == 0);
            }
        }
        Purge { target, rounds, round: 0, deleted: 0, author, stopped: false }
    }
}

/// How a round deletes `ids`: alone when there is one, in bulk otherwise.
pub fn deletion_of(ids: Vec<u64>) -> (r: PurgeDeletion)
    ensures
        ids.len() == 1 ==> r == PurgeDeletion::Single(ids@[0]),
        ids.len() != 1 ==> (r matches PurgeDeletion::Bulk(v) && v@ == ids@),
{
    if ids.len() == 1 {
        PurgeDeletion::Single(ids[0])
    } else {
        PurgeDeletion::Bulk(ids)
    }
}

/// The earliest message id a purge fetches after: the snowflake of the
/// moment fourteen days before `now` (seconds since the Unix epoch),
/// computed as `((now - 14 days) * 1000 - 1420070400000) << 22` on 64 bits.
pub open spec fn purge_cutoff(now: int) -> int {
    (((now - 1209600) * 1000 - 1420070400000) * 4194304) % 0x1_0000_0000_0000_0000
}

/// The snowflake fourteen days back; see `purge_cutoff`. `now` must lie
/// after the start of 2015 plus fourteen days and its milliseconds must
/// fit in 64 bits.
pub fn cutoff_snowflake(now: u64) -> (r: u64)
    requires
        1421280000 <= now,
        (now - 1209600) * 1000 <= u64::MAX,
    ensures
        r == purge_cutoff(now as int),
{
    let ms: u64 = (now - 1209600) * 1000 - 1420070400000;
    let r = ms << 22;
    assert(r == (ms * 4194304) % 0x1_0000_0000_0000_0000) by (bit_vector)
        requires
            r == ms << 22,
    ;
    r
}

/// The reply after a purge.
pub open spec fn purge_reply(deleted: int, author: Option<u64>) -> Seq<char> {
    match author {
        Some(a) => "`"@ + decimal_text(deleted) + "` messages posted by "@ + user_tag(a as int) + " have been purged"@,
        None => "`"@ + decimal_text(deleted) + "` messages have been purged"@,
    }
}

/// The description of the purge log entry.
pub open spec fn purge_log_text(moderator: u64, deleted: int, author: Option<u64>, channel: u64) -> Seq<char> {
    match author {
        Some(_) => user_tag(moderator as int) + " has purged `"@ + decimal_text(deleted) + "` messages from <#"@
            + decimal_text(channel as int) + ">"@,
        None => user_tag(moderator as int) + " has purged `"@ + decimal_text(deleted) + "` messages"@,
    }
}

/// The footer of the purge log entry.
pub open spec fn purge_log_footer(moderator: u64, deleted: int, author: Option<u64>) -> Seq<char> {
    match author {
        Some(a) => "Moderator "@ + decimal_text(moderator as int) + " purged "@ + decimal_text(deleted)
            + " messages from "@ + decimal_text(a as int),
        None => "Moderator "@ + decimal_text(moderator as int) + " purged "@ + decimal_text(deleted) + " messages"@,
    }
}

/// The reply after a purge; see `purge_reply`.
pub fn purge_reply_text(deleted: i64, author: Option<u64>) -> (r: String)
    ensures
        r@ == purge_reply(deleted as int, author),
{
    let mut s = String::new();
    push_str(&mut s, "`");
    push_i64(&mut s, deleted);
    match author {
        Some(a) => {
            push_str(&mut s, "` messages posted by <@");
            crate::text::push_decimal(&mut s, a);
            push_str(&mut s, "> have been purged");
        },
        None => push_str(&mut s, "` messages have been purged"),
    }
    proof {
        reveal_strlit("` messages posted by <@");
        reveal_strlit("> have been purged");
        reveal_strlit("<@");
        reveal_strlit(">");
        reveal_strlit("` messages posted by ");
        reveal_strlit(" have been purged");
    }
    assert(s@ =~= purge_reply(deleted as int, author));
    s
}

/// The description and footer of the purge log entry; see
/// `purge_log_text` and `purge_log_footer`.
pub fn purge_log(moderator: u64, deleted: i64, author: Option<u64>, channel: u64) -> (r: (String, String))
    ensures
        r.0@ == purge_log_text(moderator, deleted as int, author, channel),
        r.1@ == purge_log_footer(moderator, deleted as int, author),
{
    let mut d = String::new();
    push_str(&mut d, "<@");
    crate::text::push_decimal(&mut d, moderator);
    push_str(&mut d, "> has purged `");
    push_i64(&mut d, deleted);
    push_str(&mut d, "` messages");
    let mut f = String::new();
    push_str(&mut f, "Moderator ");
    crate::text::push_decimal(&mut f, moderator);
    push_str(&mut f, " purged ");
    push_i64(&mut f, deleted);
    push_str(&mut f, " messages");
    if author.is_some() {
        push_str(&mut d, " from <#");
        crate::text::push_decimal(&mut d, channel);
        push_str(&mut d, ">");
    }
    match author {
        Some(a) => {
            push_str(&mut f, " from ");
            crate::text::push_decimal(&mut f, a);
        },
        None => {},
    }
    proof {
        reveal_strlit("<@");
        reveal_strlit(">");
        reveal_strlit("> has purged `");
        reveal_strlit(" has purged `");
        reveal_strlit("` messages");
        reveal_strlit("` messages from <#");
        reveal_strlit(" from <#");
        reveal_strlit(" messages");
        reveal_strlit(" messages from ");
        reveal_strlit(" from ");
    }
    assert(d@ =~= purge_log_text(moderator, deleted as int, author, channel));
    assert(f@ =~= purge_log_footer(moderator, deleted as int, author));
    (d, f)
}

} // verus!
