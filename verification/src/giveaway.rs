//! Giveaways: starting one, entering it, drawing its winners and what the
//! bot says along the way.

use vstd::prelude::*;
use crate::numbers::{parse_i64, signed_from_str};
use crate::permissions::{Permission, holds};
use crate::response::{Refusal, bare_refusal, is_bare_refusal, missing_permission, missing_permission_text, no_permission_title, refusal, refuses};
use crate::moderation::records::{timestamp_tag, user_tag};
use crate::text::{decimal_text, push_i64, push_str};

verus! {

/// A giveaway: its message and channel, what is given away, an optional
/// description, how many win, when it ends (seconds since the Unix epoch)
/// and the role needed to enter, if any.
#[derive(Debug)]
pub struct Giveaway {
    pub id: i64,
    pub channel_id: i64,
    pub prize: String,
    pub description: Option<String>,
    pub winners: i32,
    pub ends_at: i64,
    pub role_restriction: Option<i64>,
}

/// The subcommands of `/giveaway`.
#[derive(Clone, Copy, Debug, PartialEq, Eq, Structural)]
pub enum GiveawaySub {
    New,
    Reroll,
    End,
    Delete,
}

/// The subcommand of this name, if any.
pub open spec fn giveaway_sub(name: Seq<char>) -> Option<GiveawaySub> {
    if name == "new"@ {
        Some(GiveawaySub::New)
    } else if name == "reroll"@ {
        Some(GiveawaySub::Reroll)
    } else if name == "end"@ {
        Some(GiveawaySub::End)
    } else if name == "delete"@ {
        Some(GiveawaySub::Delete)
    } else {
        None
    }
}

/// The permission each subcommand needs.
pub open spec fn sub_permission(s: GiveawaySub) -> Permission {
    match s {
        GiveawaySub::New => Permission::GiveawayCreate,
        GiveawaySub::Reroll => Permission::GiveawayReroll,
        GiveawaySub::End => Permission::GiveawayEnd,
        GiveawaySub::Delete => Permission::GiveawayDelete,
    }
}

/// The first of the given option names that names a subcommand.
pub open spec fn first_sub(names: Seq<Seq<char>>) -> Option<GiveawaySub>
    decreases names.len(),
{
    if names.len() == 0 {
        None
    } else {
        match giveaway_sub(names[0]) {
            Some(s) => Some(s),
            None => first_sub(names.skip(1)),
        }
    }
}

/// The views of some strings.
pub open spec fn views(v: Seq<String>) -> Seq<Seq<char>> {
    v.map_values(|s: String| s@)
}

/// Starts, rerolls, ends and deletes giveaways.
#[derive(Debug)]
pub struct GiveawayCommand;

/// The smallest and largest number of winners.
pub open spec fn winners_outcome(winners: Option<i64>, r: Result<i32, Refusal>) -> bool {
    let w = match winners { Some(w) => w, None => 1 };
    if w < 1 {
        refuses(r, "Not enough winners"@, "You must have at least one winner"@)
    } else if w > 50 {
        refuses(r, "Too many winners"@, "You can only have a maximum of 50 winners"@)
    } else {
        r == Ok::<i32, Refusal>(w as i32)
    }
}

fn check_winners(winners: Option<i64>) -> (r: Result<i32, Refusal>)
    ensures
        winners_outcome(winners, r),
{
    let w = match winners {
        Some(w) => w,
        None => 1,
    };
    if w < 1 {
        Err(refusal("Not enough winners", "You must have at least one winner"))
    } else if w > 50 {
        Err(refusal("Too many winners", "You can only have a maximum of 50 winners"))
    } else {
        Ok(w as i32)
    }
}

/// A checked request for a new giveaway.
#[derive(Debug)]
pub struct NewGiveaway {
    pub winners: i32,
    pub prize: String,
    pub duration: String,
}

/// The refusal when a giveaway id cannot be read.
pub open spec fn bad_id(r: Result<i64, Refusal>) -> bool {
    refuses(r, "Could not get giveaway ID"@, "Please notify the developer of this issue"@)
}

/// What checking a reroll gives: the giveaway id, which must be given as
/// a whole number, then the winners as `winners_outcome` says.
pub open spec fn reroll_outcome(id: Option<Seq<char>>, winners: Option<i64>, r: Result<(i64, i32), Refusal>) -> bool {
    match id {
        None => refuses(r, "Could not get giveaway ID"@, "Please notify the developer of this issue"@),
        Some(t) => match signed_from_str(t, i64::MIN as int, i64::MAX as int) {
            None => refuses(r, "Could not get giveaway ID"@, "Please notify the developer of this issue"@),
            Some(g) => {
                let w = match r { Ok(p) => Ok::<i32, Refusal>(p.1), Err(e) => Err(e) };
                winners_outcome(winners, w) && (r matches Ok(p) ==> p.0 == g)
            },
        },
    }
}

impl GiveawayCommand {
    /// The command's name.
    pub fn name(&self) -> (r: &'static str)
        ensures
            r@ == "giveaway"@,
    {
        "giveaway"
    }

    /// Picks the subcommand among the options given, the first that names
    /// one, and refuses it when `held` lacks its permission, or when no
    /// option names one.
    pub fn route(&self, options: &Vec<String>, held: &Vec<Permission>) -> (r: Result<GiveawaySub, Refusal>)
        ensures
            match first_sub(views(options@)) {
                None => refuses(r, "Invalid command"@, "You must specify a subcommand to use this command!"@),
                Some(s) => if held@.contains(sub_permission(s)) {
                    r == Ok::<GiveawaySub, Refusal>(s)
                } else {
                    refuses(r, no_permission_title(), missing_permission_text(sub_permission(s)))
                },
            },
    {
        let mut i: usize = 0;
        assert(views(options@).skip(0) =~= views(options@));
        while i < options.len()
            invariant
                i <= options.len(),
                first_sub(views(options@)) == first_sub(views(options@).skip(i as int)),
            decreases options.len() - i,
        {
            let ghost rest = views(options@).skip(i as int);
            assert(rest[0] == options@[i as int]@);
            assert(rest.skip(1) =~= views(options@).skip(i + 1));
            let name = options[i].as_str();
            let sub = if crate::text::str_eq(name, "new") {
                Some(GiveawaySub::New)
            } else if crate::text::str_eq(name, "reroll") {
                Some(GiveawaySub::Reroll)
            } else if crate::text::str_eq(name, "end") {
                Some(GiveawaySub::End)
            } else if crate::text::str_eq(name, "delete") {
                Some(GiveawaySub::Delete)
            } else {
                None
            };
            match sub {
                Some(s) => {
                    let p = match s {
                        GiveawaySub::New => Permission::GiveawayCreate,
                        GiveawaySub::Reroll => Permission::GiveawayReroll,
                        GiveawaySub::End => Permission::GiveawayEnd,
                        GiveawaySub::Delete => Permission::GiveawayDelete,
                    };
                    if holds(held, p) {
                        return Ok(s);
                    } else {
                        return Err(missing_permission(p));
                    }
                },
                None => {},
            }
            i += 1;
        }
        assert(views(options@).skip(i as int).len() == 0);
        Err(refusal("Invalid command", "You must specify a subcommand to use this command!"))
    }

    /// Checks a new giveaway: the winners (1 by default) must number 1 to
    /// 50, then a prize and a duration must be given.
    pub fn check_new(&self, winners: Option<i64>, prize: Option<String>, duration: Option<String>)
        -> (r: Result<NewGiveaway, Refusal>)
        ensures
            ({
                let w = match r { Ok(n) => Ok::<i32, Refusal>(n.winners), Err(e) => Err(e) };
                let wr = match winners { Some(x) => x, None => 1 };
                &&& !(1 <= wr <= 50) ==> winners_outcome(winners, w)
                &&& 1 <= wr <= 50 && prize is None ==> refuses(r, "No prize provided"@,
                    "Please provide a prize to giveaway"@)
                &&& 1 <= wr <= 50 && prize is Some && duration is None ==> refuses(r,
                    "No duration provided"@, "Please provide a duration for the giveaway"@)
                &&& 1 <= wr <= 50 && prize is Some && duration is Some ==> (r matches Ok(n)
                    && n.winners == wr && n.prize@ == prize->0@ && n.duration@ == duration->0@)
            }),
    {
        let w = match check_winners(winners) {
            Err(e) => return Err(e),
            Ok(w) => w,
        };
        let prize = match prize {
            None => return Err(refusal("No prize provided", "Please provide a prize to giveaway")),
            Some(p) => p,
        };
        match duration {
            None => Err(refusal("No duration provided", "Please provide a duration for the giveaway")),
            Some(d) => Ok(NewGiveaway { winners: w, prize, duration: d }),
        }
    }

    /// Reads the giveaway id typed for `end` and `delete`.
    pub fn read_id(&self, id: Option<String>) -> (r: Result<i64, Refusal>)
        ensures
            match id {
                None => bad_id(r),
                Some(t) => match signed_from_str(t@, i64::MIN as int, i64::MAX as int) {
                    Some(v) => r == Ok::<i64, Refusal>(v as i64),
                    None => bad_id(r),
                },
            },
    {
        match id {
            None => Err(refusal("Could not get giveaway ID", "Please notify the developer of this issue")),
            Some(t) => match parse_i64(t.as_str()) {
                Some(v) => Ok(v),
                None => Err(refusal("Could not get giveaway ID", "Please notify the developer of this issue")),
            },
        }
    }

    /// Checks a reroll: the giveaway id (the message id, typed as text)
    /// must be given and be a whole number, then the winners (1 by
    /// default) must number 1 to 50.
    pub fn check_reroll(&self, id: Option<String>, winners: Option<i64>) -> (r: Result<(i64, i32), Refusal>)
        ensures
            reroll_outcome(match id { Some(t) => Some(t@), None => None }, winners, r),
    {
        let id = match id {
            None => None,
            Some(t) => parse_i64(t.as_str()),
        };
        match id {
            None => Err(refusal("Could not get giveaway ID", "Please notify the developer of this issue")),
            Some(g) => match check_winners(winners) {
                Err(e) => Err(e),
                Ok(w) => Ok((g, w)),
            },
        }
    }
}

/// The title of a giveaway's message.
pub open spec fn giveaway_title(prize: Seq<char>) -> Seq<char> {
    prize + " giveaway"@
}

/// The body of a running giveaway's message.
pub open spec fn giveaway_body(description: Option<Seq<char>>, winners: int, entries: int, ends_at: int) -> Seq<char> {
    let tail = "Winners: "@ + decimal_text(winners) + "\nEntries: "@ + decimal_text(entries)
        + "\n\nGiveaway ends at "@ + timestamp_tag(ends_at);
    match description {
        Some(d) => d + "\n\n"@ + tail,
        None => tail,
    }
}

/// The text of an optional string.
pub open spec fn text_of(o: Option<String>) -> Option<Seq<char>> {
    match o {
        Some(s) => Some(s@),
        None => None,
    }
}

/// The title and body of a running giveaway's message with `entries`
/// entries; see `giveaway_title` and `giveaway_body`.
pub fn giveaway_message(prize: &str, description: &Option<String>, winners: i32, entries: i64, ends_at: i64)
    -> (r: (String, String))
    ensures
        r.0@ == giveaway_title(prize@),
        r.1@ == giveaway_body(match description { Some(d) => Some(d@), None => None }, winners as int,
            entries as int, ends_at as int),
{
    let mut title = String::new();
    push_str(&mut title, prize);
    push_str(&mut title, " giveaway");
    let mut body = String::new();
    match description {
        Some(d) => {
            push_str(&mut body, d.as_str());
            push_str(&mut body, "\n\n");
        },
        None => {},
    }
    let ghost head = body@;
    push_str(&mut body, "Winners: ");
    push_i64(&mut body, winners as i64);
    push_str(&mut body, "\nEntries: ");
    push_i64(&mut body, entries);
    push_str(&mut body, "\n\nGiveaway ends at <t:");
    push_i64(&mut body, ends_at);
    push_str(&mut body, ":F>");
    proof {
        reveal_strlit("\n\nGiveaway ends at <t:");
        reveal_strlit("\n\nGiveaway ends at ");
        reveal_strlit("<t:");
    }
    assert(title@ =~= giveaway_title(prize@));
    assert(body@ =~= giveaway_body(match description { Some(d) => Some(d@), None => None }, winners as int,
        entries as int, ends_at as int));
    (title, body)
}

/// What entering a giveaway gives: members without the required role, and
/// those already entered, are refused (with a title only).
pub open spec fn entry_outcome(restriction: Option<i64>, member_roles: Seq<i64>, already_entered: bool,
    r: Result<(), Refusal>) -> bool {
    match restriction {
        Some(role) if !member_roles.contains(role) => r matches Err(e) && is_bare_refusal(e,
            "You do not have permission to enter this giveaway"@),
        _ => if already_entered {
            r matches Err(e) && is_bare_refusal(e, "You've already entered this giveaway"@)
        } else {
            r is Ok
        },
    }
}

/// Checks an attempt to enter a giveaway; see `entry_outcome`.
pub fn check_entry(restriction: Option<i64>, member_roles: &Vec<i64>, already_entered: bool) -> (r: Result<(), Refusal>)
    ensures
        entry_outcome(restriction, member_roles@, already_entered, r),
{
    match restriction {
        Some(role) => {
            let mut i: usize = 0;
            let mut found = false;
            while i < member_roles.len()
                invariant
                    i <= member_roles.len(),
                    found == exists|j: int| 0 <= j < i && member_roles@[j] == role,
                decreases member_roles.len() - i,
            {
                if member_roles[i] == role {
                    found = true;
                }
                i += 1;
            }
            if !found {
                assert(!member_roles@.contains(role));
                return Err(bare_refusal("You do not have permission to enter this giveaway"));
            }
            assert(member_roles@.contains(role)) by {
                let j = choose|j: int| 0 <= j < i && member_roles@[j] == role;
                assert(member_roles@[j] == role);
            }
        },
        None => {},
    }
    if already_entered {
        Err(bare_refusal("You've already entered this giveaway"))
    } else {
        Ok(())
    }
}

/// Whether `picked` holds the members of `from` at the distinct positions
/// `idx`, in that order.
pub open spec fn picks_from(idx: Seq<int>, picked: Seq<i64>, from: Seq<i64>) -> bool {
    &&& idx.len() == picked.len()
    &&& idx.no_duplicates()
    &&& forall|k: int| 0 <= k < idx.len() ==> 0 <= #[trigger] idx[k] < from.len() && picked[k] == from[idx[k]]
}

/// The entrants of a giveaway after `user` tried to enter: `user` is
/// added exactly when the attempt was accepted.
pub open spec fn entrants_after(entries: Seq<i64>, user: i64, accepted: bool) -> Seq<i64> {
    if accepted {
        entries.push(user)
    } else {
        entries
    }
}

/// `user` tries to enter a giveaway whose entrants are `entries`: the
/// attempt is checked (see `entry_outcome`) and, where it is accepted,
/// `user` is added.
pub fn enter_giveaway(entries: &mut Vec<i64>, restriction: Option<i64>, member_roles: &Vec<i64>, user: i64)
    -> (r: Result<(), Refusal>)
    ensures
        entry_outcome(restriction, member_roles@, old(entries)@.contains(user), r),
        final(entries)@ == entrants_after(old(entries)@, user, r is Ok),
{
    let mut i: usize = 0;
    let mut entered = false;
    while i < entries.len()
        invariant
            i <= entries.len(),
            entered == exists|j: int| 0 <= j < i && entries@[j] == user,
        decreases entries.len() - i,
    {
        if entries[i] == user {
            entered = true;
        }
        i += 1;
    }
    proof {
        if entered {
            let j = choose|j: int| 0 <= j < i && entries@[j] == user;
            assert(entries@[j] == user);
        }
    }
    let r = check_entry(restriction, member_roles, entered);
    if r.is_ok() {
        entries.push(user);
    }
    r
}

/// Nobody holds two entries in a giveaway: an accepted attempt adds one
/// entry, for a user who held none.
pub proof fn law_one_entry_per_user(restriction: Option<i64>, member_roles: Seq<i64>, entries: Seq<i64>,
    user: i64, r: Result<(), Refusal>)
    requires
        entries.no_duplicates(),
        entry_outcome(restriction, member_roles, entries.contains(user), r),
    ensures
        entrants_after(entries, user, r is Ok).no_duplicates(),
        r is Ok ==> entrants_after(entries, user, r is Ok).len() == entries.len() + 1,
{
    if r is Ok {
        let after = entries.push(user);
        assert(!entries.contains(user));
        assert forall|a: int, b: int| 0 <= a < b < after.len() implies after[a] != after[b] by {
            if b == entries.len() {
                assert(after[a] == entries[a]);
            } else {
                assert(after[a] == entries[a] && after[b] == entries[b]);
            }
        }
    }
}

/// Draws `amount` of `entries` at random with
/// `rand::seq::SliceRandom::choose_multiple` and the thread's generator.
/// As its documentation and source show, it returns `min(amount, len)`
/// entries at distinct positions; which ones, and their order, depend on
/// chance and are not stated.
#[verifier::external_body]
fn choose_entries(entries: &Vec<i64>, amount: usize) -> (r: Vec<i64>)
    ensures
        r.len() == if amount < entries.len() { amount as int } else { entries.len() as int },
        exists|idx: Seq<int>| picks_from(idx, r@, entries@),
{
    rand::seq::SliceRandom::choose_multiple(entries.as_slice(), &mut rand::thread_rng(), amount).cloned().collect()
}

/// Draws the winners of a giveaway: everyone who entered when there are
/// no more of them than winners, otherwise `winners` of them at random,
/// each at most once.
pub fn pick_winners(entries: &Vec<i64>, winners: i32) -> (r: Vec<i64>)
    requires
        winners >= 0,
    ensures
        entries.len() <= winners ==> r@ == entries@,
        entries.len() > winners ==> r.len() == winners && exists|idx: Seq<int>| picks_from(idx, r@, entries@),
{
    let w = winners as usize;
    if entries.len() > w {
        choose_entries(entries, w)
    } else {
        let mut r: Vec<i64> = Vec::new();
        let mut i: usize = 0;
        while i < entries.len()
            invariant
                i <= entries.len(),
                r@ == entries@.subrange(0, i as int),
            decreases entries.len() - i,
        {
            r.push(entries[i]);
            i += 1;
            assert(r@ =~= entries@.subrange(0, i as int));
        }
        assert(entries@.subrange(0, entries.len() as int) =~= entries@);
        r
    }
}

/// The winners of a draw are people who entered, and nobody wins twice
/// when nobody entered twice.
pub proof fn law_winners_entered(idx: Seq<int>, picked: Seq<i64>, from: Seq<i64>)
    requires
        picks_from(idx, picked, from),
    ensures
        forall|k: int| 0 <= k < picked.len() ==> from.contains(#[trigger] picked[k]),
        from.no_duplicates() ==> picked.no_duplicates(),
{
    assert forall|k: int| 0 <= k < picked.len() implies from.contains(#[trigger] picked[k]) by {
        assert(from[idx[k]] == picked[k]);
    }
    if from.no_duplicates() {
        assert forall|a: int, b: int| 0 <= a < b < picked.len() implies picked[a] != picked[b] by {
            assert(idx[a] != idx[b]);
            assert(picked[a] == from[idx[a]] && picked[b] == from[idx[b]]);
        }
    }
}

/// Mentions of `ids`, joined by `sep`.
pub open spec fn joined_mentions(ids: Seq<i64>, sep: Seq<char>) -> Seq<char>
    decreases ids.len(),
{
    if ids.len() == 0 {
        Seq::empty()
    } else if ids.len() == 1 {
        user_tag(ids[0] as int)
    } else {
        joined_mentions(ids.drop_last(), sep) + sep + user_tag(ids.last() as int)
    }
}

/// The message naming the winners when a giveaway ends.
pub open spec fn congratulations(ids: Seq<i64>) -> Seq<char> {
    "Congratulations to "@ + joined_mentions(ids, ", "@) + " for winning the giveaway!"@
}

/// The body of an ended giveaway's message.
pub open spec fn ended_body(has_winners: bool) -> Seq<char> {
    if has_winners {
        "The giveaway is now over, congratulations to the winners!"@
    } else {
        "No one won the giveaway."@
    }
}

fn push_mentions(s: &mut String, ids: &Vec<i64>, sep: &str)
    ensures
        final(s)@ == old(s)@ + joined_mentions(ids@, sep@),
{
    let mut i: usize = 0;
    let ghost start = s@;
    while i < ids.len()
        invariant
            i <= ids.len(),
            s@ == start + joined_mentions(ids@.subrange(0, i as int), sep@),
        decreases ids.len() - i,
    {
        let ghost next = ids@.subrange(0, i + 1);
        assert(next.drop_last() =~= ids@.subrange(0, i as int));
        if i > 0 {
            push_str(s, sep);
        }
        push_str(s, "<@");
        push_i64(s, ids[i]);
        push_str(s, ">");
        i += 1;
        assert(s@ =~= start + joined_mentions(ids@.subrange(0, i as int), sep@));
    }
    assert(ids@.subrange(0, ids.len() as int) =~= ids@);
}

/// The body of an ended giveaway's message; see `ended_body`.
pub fn ended_message(has_winners: bool) -> (r: String)
    ensures
        r@ == ended_body(has_winners),
{
    let mut s = String::new();
    if has_winners {
        push_str(&mut s, "The giveaway is now over, congratulations to the winners!");
    } else {
        push_str(&mut s, "No one won the giveaway.");
    }
    assert(s@ =~= ended_body(has_winners));
    s
}

/// The message naming the winners; see `congratulations`.
pub fn congratulate(winners: &Vec<i64>) -> (r: String)
    ensures
        r@ == congratulations(winners@),
{
    let mut s = String::new();
    push_str(&mut s, "Congratulations to ");
    push_mentions(&mut s, winners, ", ");
    push_str(&mut s, " for winning the giveaway!");
    assert(s@ =~= congratulations(winners@));
    s
}

/// What ending a giveaway does, in order.
#[derive(Debug)]
pub enum EndTask {
    /// Edit the giveaway's message to this title and body, without its
    /// button.
    ShowEnded { title: String, body: String },
    /// Reply to the giveaway's message with this text.
    Congratulate(String),
    /// Delete the giveaway.
    Delete,
}

/// The work of ending a giveaway for `prize` with these winners: the
/// message is shown ended, the winners are congratulated where there are
/// any, and the giveaway is deleted.
pub fn end_tasks(prize: &str, winners: &Vec<i64>) -> (r: Vec<EndTask>)
    ensures
        r@.len() == if winners@.len() > 0 { 3int } else { 2int },
        r@[0] matches EndTask::ShowEnded { title, body } && title@ == giveaway_title(prize@) && body@
            == ended_body(winners@.len() > 0),
        winners@.len() > 0 ==> (r@[1] matches EndTask::Congratulate(t) && t@ == congratulations(winners@)),
        r@.last() is Delete,
{
    let mut title = String::new();
    push_str(&mut title, prize);
    push_str(&mut title, " giveaway");
    assert(title@ =~= giveaway_title(prize@));
    let body = ended_message(winners.len() > 0);
    let mut r: Vec<EndTask> = Vec::new();
    r.push(EndTask::ShowEnded { title, body });
    if winners.len() > 0 {
        r.push(EndTask::Congratulate(congratulate(winners)));
    }
    r.push(EndTask::Delete);
    r
}

/// The message naming the winners of a reroll: each entry's mention is
/// wrapped in `<@` and `>` a second time, and the mentions are joined by
/// commas.
pub open spec fn reroll_mentions(ids: Seq<i64>) -> Seq<char>
    decreases ids.len(),
{
    if ids.len() == 0 {
        Seq::empty()
    } else if ids.len() == 1 {
        "<@"@ + user_tag(ids[0] as int) + ">"@
    } else {
        reroll_mentions(ids.drop_last()) + ","@ + "<@"@ + user_tag(ids.last() as int) + ">"@
    }
}

/// The reply to a reroll; see `reroll_mentions`.
pub fn reroll_message(winners: &Vec<i64>) -> (r: String)
    ensures
        r@ == "Congratulations to "@ + reroll_mentions(winners@) + " for winning the giveaway!"@,
{
    let mut s = String::new();
    push_str(&mut s, "Congratulations to ");
    let ghost start = s@;
    let mut i: usize = 0;
    while i < winners.len()
        invariant
            i <= winners.len(),
            s@ == start + reroll_mentions(winners@.subrange(0, i as int)),
        decreases winners.len() - i,
    {
        let ghost next = winners@.subrange(0, i + 1);
        assert(next.drop_last() =~= winners@.subrange(0, i as int));
        if i > 0 {
            push_str(&mut s, ",");
        }
        push_str(&mut s, "<@<@");
        push_i64(&mut s, winners[i]);
        push_str(&mut s, ">>");
        proof {
            reveal_strlit("<@<@");
            reveal_strlit("<@");
            reveal_strlit(">>");
            reveal_strlit(">");
        }
        i += 1;
        assert(s@ =~= start + reroll_mentions(winners@.subrange(0, i as int)));
    }
    assert(winners@.subrange(0, winners.len() as int) =~= winners@);
    push_str(&mut s, " for winning the giveaway!");
    s
}

/// How long entries are taken: the seconds from `now` until the giveaway
/// ends, read as an unsigned number (a giveaway already over gives a very
/// long wait, as the unsigned reading of a negative number).
pub fn entry_window(ends_at: i64, now: i64) -> (r: u64)
    requires
        i64::MIN <= ends_at - now <= i64::MAX,
    ensures
        r == if ends_at - now >= 0 { ends_at - now } else { ends_at - now + 0x1_0000_0000_0000_0000 },
{
    let d: i64 = ends_at - now;
    if d >= 0 {
        d as u64
    } else {
        let m: u64 = (-(d + 1)) as u64;
        u64::MAX - m
    }
}

/// Any number of winners from 1 to 50 is accepted as it is, and 1 when
/// none is given; fewer than 1 is refused as "Not enough winners", more
/// than 50 as "Too many winners".
pub proof fn law_winners_accepted_up_to_fifty(winners: Option<i64>, r: Result<i32, Refusal>)
    requires
        winners_outcome(winners, r),
    ensures
        match winners {
            None => r == Ok::<i32, Refusal>(1),
            Some(w) => {
                &&& 1 <= w <= 50 ==> r == Ok::<i32, Refusal>(w as i32)
                &&& w > 50 ==> (r matches Err(e) && e.title@ == "Too many winners"@)
                &&& w < 1 ==> (r matches Err(e) && e.title@ == "Not enough winners"@)
            },
        },
{
}

/// A reroll of a giveaway named by its id accepts any number of winners
/// from 1 to 50 and keeps the id; without a number it draws one winner.
pub proof fn law_reroll_accepts_winners(id: Seq<char>, g: int, winners: Option<i64>, r: Result<(i64, i32), Refusal>)
    requires
        signed_from_str(id, i64::MIN as int, i64::MAX as int) == Some(g),
        reroll_outcome(Some(id), winners, r),
    ensures
        match winners {
            None => r == Ok::<(i64, i32), Refusal>((g as i64, 1)),
            Some(w) => 1 <= w <= 50 ==> r == Ok::<(i64, i32), Refusal>((g as i64, w as i32)),
        },
{
}

} // verus!
