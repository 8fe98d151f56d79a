//! Global kills: the bot's staff can stop a guild or a user from using
//! the bot, bring them back and look at their state.

use vstd::prelude::*;
use crate::numbers::{parse_i64, signed_from_str};
use crate::response::{Refusal, is_bare_refusal, refusal, refuses};
use crate::moderation::records::user_tag;
use crate::text::{decimal_text, push_i64, push_str, str_eq};

verus! {

/// Stops features, guilds and users from using the bot.
#[derive(Debug)]
pub struct GlobalCommand;

/// What can be killed.
#[derive(Clone, Copy, Debug, PartialEq, Eq, Structural)]
pub enum KillTarget {
    Guild(i64),
    User(i64),
}

/// The parts of `/global`.
#[derive(Clone, Copy, Debug, PartialEq, Eq, Structural)]
pub enum GlobalGroup {
    Feature,
    Guild,
    User,
}

/// The actions on a kill target.
#[derive(Clone, Copy, Debug, PartialEq, Eq, Structural)]
pub enum KillAction {
    Kill,
    Revive,
    Status,
}

/// The part of `/global` an option names.
pub open spec fn global_group(name: Seq<char>) -> Option<GlobalGroup> {
    if name == "feature"@ {
        Some(GlobalGroup::Feature)
    } else if name == "guild"@ {
        Some(GlobalGroup::Guild)
    } else if name == "user"@ {
        Some(GlobalGroup::User)
    } else {
        None
    }
}

/// The first of the option names that names a part of `/global`.
pub open spec fn first_group(names: Seq<Seq<char>>) -> Option<GlobalGroup>
    decreases names.len(),
{
    if names.len() == 0 {
        None
    } else {
        match global_group(names[0]) {
            Some(g) => Some(g),
            None => first_group(names.skip(1)),
        }
    }
}

/// The views of some strings.
pub open spec fn views(v: Seq<String>) -> Seq<Seq<char>> {
    v.map_values(|s: String| s@)
}

/// The refusal when an option of `/global` is missing or unknown.
pub open spec fn bad_option<T>(r: Result<T, Refusal>) -> bool {
    refuses(r, "Invalid command option"@, "The command option you provided is invalid"@)
}

/// How a kill target is named in replies: a guild's id in backticks, a
/// user's mention.
pub open spec fn target_text(t: KillTarget) -> Seq<char> {
    match t {
        KillTarget::Guild(g) => "`"@ + decimal_text(g as int) + "`"@,
        KillTarget::User(u) => user_tag(u as int),
    }
}

/// `Guild` or `User`.
pub open spec fn target_word(t: KillTarget) -> Seq<char> {
    match t {
        KillTarget::Guild(_) => "Guild"@,
        KillTarget::User(_) => "User"@,
    }
}

/// The id of a kill target.
pub open spec fn target_id(t: KillTarget) -> i64 {
    match t {
        KillTarget::Guild(g) => g,
        KillTarget::User(u) => u,
    }
}

/// A change to the kills: `by` kills `id`, or `id` is revived.
#[derive(Clone, Copy, Debug, PartialEq, Eq, Structural)]
pub enum KillWrite {
    Insert { id: i64, by: i64 },
    Delete { id: i64 },
}

/// The kills of one kind (guilds or users) after `w`: who killed each.
pub open spec fn apply_kill(kills: Map<i64, i64>, w: KillWrite) -> Map<i64, i64> {
    match w {
        KillWrite::Insert { id, by } => kills.insert(id, by),
        KillWrite::Delete { id } => kills.remove(id),
    }
}

/// What a kill gives: a target already killed is refused (with a title
/// only); otherwise it is recorded as killed by `by`.
pub open spec fn kill_outcome(t: KillTarget, killed_by: Option<i64>, by: i64, r: Result<KillWrite, Refusal>) -> bool {
    match killed_by {
        Some(_) => r matches Err(e) && is_bare_refusal(e, target_word(t) + " is already killed"@),
        None => r == Ok::<KillWrite, Refusal>(KillWrite::Insert { id: target_id(t), by }),
    }
}

/// What a revival gives: a target not killed is refused (with a title
/// only); otherwise its kill is removed.
pub open spec fn revive_outcome(t: KillTarget, killed_by: Option<i64>, r: Result<KillWrite, Refusal>) -> bool {
    match killed_by {
        None => r matches Err(e) && is_bare_refusal(e, target_word(t) + " is already active"@),
        Some(_) => r == Ok::<KillWrite, Refusal>(KillWrite::Delete { id: target_id(t) }),
    }
}

/// What the status of a target shows: whether it is active, who killed
/// it, and the colour.
#[derive(Debug)]
pub struct KillStatus {
    pub active: String,
    pub killed_by: String,
    pub colour: u32,
}

fn word_text(t: KillTarget) -> (r: String)
    ensures
        r@ == target_word(t),
{
    let mut s = String::new();
    match t {
        KillTarget::Guild(_) => push_str(&mut s, "Guild"),
        KillTarget::User(_) => push_str(&mut s, "User"),
    }
    assert(s@ =~= target_word(t));
    s
}

impl GlobalCommand {
    /// The command's name.
    pub fn name(&self) -> (r: &'static str)
        ensures
            r@ == "global"@,
    {
        "global"
    }

    /// Only holders of the kill role, `role`, may use the command.
    pub fn check_role(&self, has_role: bool, role: u64) -> (r: Result<(), Refusal>)
        ensures
            has_role ==> r is Ok,
            !has_role ==> refuses(r, "You do not have permission to do this!"@,
                "Glboal kills can only be performed by people with the <@&"@ + decimal_text(role as int)
                    + "> role."@),
    {
        if has_role {
            Ok(())
        } else {
            let mut d = String::new();
            push_str(&mut d, "Glboal kills can only be performed by people with the <@&");
            crate::text::push_decimal(&mut d, role);
            push_str(&mut d, "> role.");
            let mut t = String::new();
            push_str(&mut t, "You do not have permission to do this!");
            assert(t@ =~= "You do not have permission to do this!"@);
            assert(d@ =~= "Glboal kills can only be performed by people with the <@&"@ + decimal_text(role as int)
                + "> role."@);
            Err(Refusal { title: t, detail: Some(d) })
        }
    }

    /// The part of the command used: the first option naming one, or a
    /// refusal when none does.
    pub fn route(&self, options: &Vec<String>) -> (r: Result<GlobalGroup, Refusal>)
        ensures
            match first_group(views(options@)) {
                Some(g) => r == Ok::<GlobalGroup, Refusal>(g),
                None => refuses(r, "Invalid command"@, "You must specify a subcommand to use this command."@),
            },
    {
        let mut i: usize = 0;
        assert(views(options@).skip(0) =~= views(options@));
        while i < options.len()
            invariant
                i <= options.len(),
                first_group(views(options@)) == first_group(views(options@).skip(i as int)),
            decreases options.len() - i,
        {
            let ghost rest = views(options@).skip(i as int);
            assert(rest[0] == options@[i as int]@);
            assert(rest.skip(1) =~= views(options@).skip(i + 1));
            let name = options[i].as_str();
            if str_eq(name, "feature") {
                return Ok(GlobalGroup::Feature);
            } else if str_eq(name, "guild") {
                return Ok(GlobalGroup::Guild);
            } else if str_eq(name, "user") {
                return Ok(GlobalGroup::User);
            }
            i += 1;
        }
        assert(views(options@).skip(i as int).len() == 0);
        Err(refusal("Invalid command", "You must specify a subcommand to use this command."))
    }

    /// Reads the guild id option: it must be given, and be an integer.
    pub fn read_guild(&self, guild: Option<String>) -> (r: Result<i64, Refusal>)
        ensures
            match guild {
                None => bad_option(r),
                Some(t) => match signed_from_str(t@, i64::MIN as int, i64::MAX as int) {
                    Some(v) => r == Ok::<i64, Refusal>(v as i64),
                    None => refuses(r, "Invalid ID"@, "The ID you provided was not a valid integer"@),
                },
            },
    {
        match guild {
            None => Err(refusal("Invalid command option", "The command option you provided is invalid")),
            Some(t) => match parse_i64(t.as_str()) {
                Some(v) => Ok(v),
                None => Err(refusal("Invalid ID", "The ID you provided was not a valid integer")),
            },
        }
    }

    /// The action asked for on a guild or user: the name of the
    /// subcommand, or a refusal when there is none or it is unknown.
    pub fn read_action(&self, sub: Option<String>) -> (r: Result<KillAction, Refusal>)
        ensures
            match sub {
                Some(s) => if s@ == "kill"@ {
                    r == Ok::<KillAction, Refusal>(KillAction::Kill)
                } else if s@ == "revive"@ {
                    r == Ok::<KillAction, Refusal>(KillAction::Revive)
                } else if s@ == "status"@ {
                    r == Ok::<KillAction, Refusal>(KillAction::Status)
                } else {
                    bad_option(r)
                },
                None => bad_option(r),
            },
    {
        match sub {
            Some(s) => if str_eq(s.as_str(), "kill") {
                Ok(KillAction::Kill)
            } else if str_eq(s.as_str(), "revive") {
                Ok(KillAction::Revive)
            } else if str_eq(s.as_str(), "status") {
                Ok(KillAction::Status)
            } else {
                Err(refusal("Invalid command option", "The command option you provided is invalid"))
            },
            None => Err(refusal("Invalid command option", "The command option you provided is invalid")),
        }
    }

    /// Kills `t` on behalf of `by`, given who killed it already, if
    /// anyone; see `kill_outcome`.
    pub fn kill(&self, t: KillTarget, killed_by: Option<i64>, by: i64) -> (r: Result<KillWrite, Refusal>)
        ensures
            kill_outcome(t, killed_by, by, r),
    {
        match killed_by {
            Some(_) => {
                let mut s = word_text(t);
                push_str(&mut s, " is already killed");
                assert(s@ =~= target_word(t) + " is already killed"@);
                Err(Refusal { title: s, detail: None })
            },
            None => Ok(KillWrite::Insert {
                id: match t {
                    KillTarget::Guild(g) => g,
                    KillTarget::User(u) => u,
                },
                by,
            }),
        }
    }

    /// Revives `t`, given who killed it, if anyone; see `revive_outcome`.
    pub fn revive(&self, t: KillTarget, killed_by: Option<i64>) -> (r: Result<KillWrite, Refusal>)
        ensures
            revive_outcome(t, killed_by, r),
    {
        match killed_by {
            None => {
                let mut s = word_text(t);
                push_str(&mut s, " is already active");
                assert(s@ =~= target_word(t) + " is already active"@);
                Err(Refusal { title: s, detail: None })
            },
            Some(_) => Ok(KillWrite::Delete {
                id: match t {
                    KillTarget::Guild(g) => g,
                    KillTarget::User(u) => u,
                },
            }),
        }
    }

    /// The status of a target: `✅` and `N/A` in green when active,
    /// `❌` and the killer's mention in red when killed.
    pub fn status(&self, killed_by: Option<i64>) -> (r: KillStatus)
        ensures
            killed_by is None ==> r.active@ == "✅"@ && r.killed_by@ == "N/A"@ && r.colour == 0x00ff00,
            killed_by matches Some(k) ==> r.active@ == "❌"@ && r.killed_by@ == user_tag(k as int)
                && r.colour == 0xff0000,
    {
        match killed_by {
            None => {
                let mut a = String::new();
                push_str(&mut a, "✅");
                let mut k = String::new();
                push_str(&mut k, "N/A");
                assert(a@ =~= "✅"@);
                assert(k@ =~= "N/A"@);
                KillStatus { active: a, killed_by: k, colour: 0x00ff00 }
            },
            Some(by) => {
                let mut a = String::new();
                push_str(&mut a, "❌");
                assert(a@ =~= "❌"@);
                KillStatus { active: a, killed_by: crate::moderation::records::user_mention(by), colour: 0xff0000 }
            },
        }
    }

    /// The reply after an action on `t`: `` `1234` has been killed ``,
    /// `<@5678> has been revived`, `Viewing <@5678>`.
    pub fn describe(&self, t: KillTarget, action: KillAction) -> (r: String)
        ensures
            r@ == match action {
                KillAction::Kill => target_text(t) + " has been killed"@,
                KillAction::Revive => target_text(t) + " has been revived"@,
                KillAction::Status => "Viewing "@ + target_text(t),
            },
    {
        let mut s = String::new();
        match action {
            KillAction::Status => push_str(&mut s, "Viewing "),
            _ => {},
        }
        let ghost head = s@;
        match t {
            KillTarget::Guild(g) => {
                push_str(&mut s, "`");
                push_i64(&mut s, g);
                push_str(&mut s, "`");
            },
            KillTarget::User(u) => {
                push_str(&mut s, "<@");
                push_i64(&mut s, u);
                push_str(&mut s, ">");
            },
        }
        assert(s@ =~= head + target_text(t));
        match action {
            KillAction::Kill => push_str(&mut s, " has been killed"),
            KillAction::Revive => push_str(&mut s, " has been revived"),
            KillAction::Status => {},
        }
        proof {
            reveal_strlit("Viewing ");
        }
        s
    }
}

/// Killing something active and then reviving it leaves the kills as they
/// were; killing something already killed, or reviving something active,
/// is refused.
pub proof fn law_kill_then_revive(kills: Map<i64, i64>, t: KillTarget, by: i64,
    r1: Result<KillWrite, Refusal>, r2: Result<KillWrite, Refusal>)
    requires
        !kills.dom().contains(target_id(t)),
        kill_outcome(t, None, by, r1),
        revive_outcome(t, Some(by), r2),
    ensures
        r1 matches Ok(w1) && r2 matches Ok(w2) && apply_kill(apply_kill(kills, w1), w2) == kills,
{
    assert(apply_kill(apply_kill(kills, KillWrite::Insert { id: target_id(t), by }), KillWrite::Delete {
        id: target_id(t) }) =~= kills);
}

/// Whatever the kills are, a kill makes the target killed by its author,
/// and a revival makes it active.
pub proof fn law_kill_and_revive_effect(kills: Map<i64, i64>, t: KillTarget, by: i64,
    r1: Result<KillWrite, Refusal>, r2: Result<KillWrite, Refusal>)
    requires
        kill_outcome(t, kills.get(target_id(t)), by, r1),
        revive_outcome(t, kills.get(target_id(t)), r2),
    ensures
        kills.dom().contains(target_id(t)) <==> r1 is Err,
        !kills.dom().contains(target_id(t)) <==> r2 is Err,
        r1 matches Ok(w) ==> apply_kill(kills, w).get(target_id(t)) == Some(by),
        r2 matches Ok(w) ==> !apply_kill(kills, w).dom().contains(target_id(t)),
{
}

} // verus!
