//! The levelling commands: `/xp` to set, reset or add to someone's XP,
//! and `/rank`, `/leaderboard` and `/level`.

use vstd::prelude::*;
use crate::permissions::{Permission, holds};
use crate::response::{Refusal, missing_permission, missing_permission_text, no_permission_title, refusal, refuses};
use crate::moderation::records::user_tag;
use crate::text::{decimal_text, push_decimal, push_i64, push_str, str_eq};

verus! {

/// Sets, resets or adds to someone's XP.
#[derive(Debug)]
pub struct XPCommand;

/// Shows the server's leaderboard.
#[derive(Debug)]
pub struct LeaderboardCommand;

/// Announced but does nothing yet.
#[derive(Debug)]
pub struct LevelCommand;

/// Shows the invoker's level and rank.
#[derive(Debug)]
pub struct RankCommand;

/// The subcommands of `/xp`.
#[derive(Clone, Copy, Debug, PartialEq, Eq, Structural)]
pub enum XpSub {
    AddXp,
    ResetXp,
    SetXp,
}

/// The subcommand an option names.
pub open spec fn xp_sub(name: Seq<char>) -> Option<XpSub> {
    if name == "add"@ {
        Some(XpSub::AddXp)
    } else if name == "reset"@ {
        Some(XpSub::ResetXp)
    } else if name == "set"@ {
        Some(XpSub::SetXp)
    } else {
        None
    }
}

/// The first option naming a subcommand.
pub open spec fn first_xp_sub(names: Seq<Seq<char>>) -> Option<XpSub>
    decreases names.len(),
{
    if names.len() == 0 {
        None
    } else {
        match xp_sub(names[0]) {
            Some(s) => Some(s),
            None => first_xp_sub(names.skip(1)),
        }
    }
}

/// The views of some strings.
pub open spec fn views(v: Seq<String>) -> Seq<Seq<char>> {
    v.map_values(|s: String| s@)
}

/// The explanation when no user is given.
pub open spec fn no_user_text(s: XpSub) -> Seq<char> {
    match s {
        XpSub::ResetXp => "Please provide a user to reset XP for"@,
        _ => "Please provide a user to add XP to"@,
    }
}

impl XPCommand {
    /// The command's name.
    pub fn name(&self) -> (r: &'static str)
        ensures
            r@ == "xp"@,
    {
        "xp"
    }

    /// Checks the `xp.edit` permission, then picks the subcommand: the
    /// first option naming one, or a refusal when none does.
    pub fn route(&self, held: &Vec<Permission>, options: &Vec<String>) -> (r: Result<XpSub, Refusal>)
        ensures
            !held@.contains(Permission::XPEdit) ==> refuses(r, no_permission_title(), missing_permission_text(Permission::XPEdit)),
            held@.contains(Permission::XPEdit) ==> match first_xp_sub(views(options@)) {
                Some(s) => r == Ok::<XpSub, Refusal>(s),
                None => refuses(r, "Invalid command"@, "You must specify a subcommand to use this command!"@),
            },
    {
        if !holds(held, Permission::XPEdit) {
            return Err(missing_permission(Permission::XPEdit));
        }
        let mut i: usize = 0;
        assert(views(options@).skip(0) =~= views(options@));
        while i < options.len()
            invariant
                held@.contains(Permission::XPEdit),
                i <= options.len(),
                first_xp_sub(views(options@)) == first_xp_sub(views(options@).skip(i as int)),
            decreases options.len() - i,
        {
            let ghost rest = views(options@).skip(i as int);
            assert(rest[0] == options@[i as int]@);
            assert(rest.skip(1) =~= views(options@).skip(i + 1));
            let name = options[i].as_str();
            if str_eq(name, "add") {
                return Ok(XpSub::AddXp);
            } else if str_eq(name, "reset") {
                return Ok(XpSub::ResetXp);
            } else if str_eq(name, "set") {
                return Ok(XpSub::SetXp);
            }
            i += 1;
        }
        assert(views(options@).skip(i as int).len() == 0);
        Err(refusal("Invalid command", "You must specify a subcommand to use this command!"))
    }

    /// The member whose XP changes: refused when none is given.
    pub fn check_user(&self, sub: XpSub, user: Option<u64>) -> (r: Result<u64, Refusal>)
        ensures
            match user {
                Some(u) => r == Ok::<u64, Refusal>(u),
                None => refuses(r, "No user provided"@, no_user_text(sub)),
            },
    {
        match user {
            Some(u) => Ok(u),
            None => match sub {
                XpSub::ResetXp => Err(refusal("No user provided", "Please provide a user to reset XP for")),
                _ => Err(refusal("No user provided", "Please provide a user to add XP to")),
            },
        }
    }

    /// The XP amount to add or set: refused when none is given.
    pub fn check_xp(&self, xp: Option<i64>) -> (r: Result<i64, Refusal>)
        ensures
            match xp {
                Some(x) => r == Ok::<i64, Refusal>(x),
                None => refuses(r, "No XP provided"@, "Please provide a XP amount to add"@),
            },
    {
        match xp {
            Some(x) => Ok(x),
            None => Err(refusal("No XP provided", "Please provide a XP amount to add")),
        }
    }

    /// The log entry (description and footer) and the reply after
    /// `moderator` changed the XP of `user`, by `xp` for `add`, to `xp`
    /// for `set`, to nothing for `reset`.
    pub fn messages(&self, sub: XpSub, moderator: u64, user: u64, xp: i64) -> (r: (String, String, String))
        ensures
            sub == XpSub::AddXp ==> r.0@ == user_tag(moderator as int) + " gave "@ + user_tag(user as int) + " "@
                + decimal_text(xp as int) + " XP"@
                && r.1@ == "User "@ + decimal_text(moderator as int) + " gave user "@ + decimal_text(user as int)
                + " "@ + decimal_text(xp as int) + " XP"@
                && r.2@ == user_tag(user as int) + " has been given "@ + decimal_text(xp as int) + "XP"@,
            sub == XpSub::SetXp ==> r.0@ == user_tag(moderator as int) + " set "@ + user_tag(user as int) + " XP to "@
                + decimal_text(xp as int)
                && r.1@ == "User "@ + decimal_text(moderator as int) + " set user "@ + decimal_text(user as int)
                + " XP to "@ + decimal_text(xp as int)
                && r.2@ == user_tag(user as int) + "'s XP has been set to "@ + decimal_text(xp as int) + "XP"@,
            sub == XpSub::ResetXp ==> r.0@ == user_tag(moderator as int) + " reset "@ + user_tag(user as int) + "'s XP"@
                && r.1@ == "User "@ + decimal_text(moderator as int) + " reset XP for user "@ + decimal_text(user as int)
                && r.2@ == user_tag(user as int) + " has been reset to 0XP"@,
    {
        let m = crate::levelling::mention(moderator);
        let u = crate::levelling::mention(user);
        let mut d = String::new();
        let mut f = String::new();
        let mut reply = String::new();
        push_str(&mut d, m.as_str());
        push_str(&mut f, "User ");
        push_decimal(&mut f, moderator);
        push_str(&mut reply, u.as_str());
        match sub {
            XpSub::AddXp => {
                push_str(&mut d, " gave ");
                push_str(&mut d, u.as_str());
                push_str(&mut d, " ");
                push_i64(&mut d, xp);
                push_str(&mut d, " XP");
                push_str(&mut f, " gave user ");
                push_decimal(&mut f, user);
                push_str(&mut f, " ");
                push_i64(&mut f, xp);
                push_str(&mut f, " XP");
                push_str(&mut reply, " has been given ");
                push_i64(&mut reply, xp);
                push_str(&mut reply, "XP");
            },
            XpSub::SetXp => {
                push_str(&mut d, " set ");
                push_str(&mut d, u.as_str());
                push_str(&mut d, " XP to ");
                push_i64(&mut d, xp);
                push_str(&mut f, " set user ");
                push_decimal(&mut f, user);
                push_str(&mut f, " XP to ");
                push_i64(&mut f, xp);
                push_str(&mut reply, "'s XP has been set to ");
                push_i64(&mut reply, xp);
                push_str(&mut reply, "XP");
            },
            XpSub::ResetXp => {
                push_str(&mut d, " reset ");
                push_str(&mut d, u.as_str());
                push_str(&mut d, "'s XP");
                push_str(&mut f, " reset XP for user ");
                push_decimal(&mut f, user);
                push_str(&mut reply, " has been reset to 0XP");
            },
        }
        proof {
            reveal_strlit("<@");
            reveal_strlit(">");
        }
        assert(m@ =~= user_tag(moderator as int));
        assert(u@ =~= user_tag(user as int));
        (d, f, reply)
    }
}

impl LeaderboardCommand {
    /// The command's name.
    pub fn name(&self) -> (r: &'static str)
        ensures
            r@ == "leaderboard"@,
    {
        "leaderboard"
    }

    /// The leaderboard is only shown in a server.
    pub fn check(&self, guild: Option<u64>) -> (r: Result<u64, Refusal>)
        ensures
            match guild {
                Some(g) => r == Ok::<u64, Refusal>(g),
                None => refuses(r, "Unavailable command"@, "Please run this command in a server"@),
            },
    {
        match guild {
            Some(g) => Ok(g),
            None => Err(refusal("Unavailable command", "Please run this command in a server")),
        }
    }
}

impl LevelCommand {
    /// The command's name.
    pub fn name(&self) -> (r: &'static str)
        ensures
            r@ == "level"@,
    {
        "level"
    }

    /// The command does nothing and succeeds.
    pub fn router(&self) -> (r: Result<(), Refusal>)
        ensures
            r is Ok,
    {
        Ok(())
    }
}

impl RankCommand {
    /// The command's name.
    pub fn name(&self) -> (r: &'static str)
        ensures
            r@ == "rank"@,
    {
        "rank"
    }
}

/// The levelling commands, by name.
pub fn get_level_commands() -> (r: Vec<&'static str>)
    ensures
        r@.len() == 4,
        r@[0]@ == "leaderboard"@,
        r@[1]@ == "level"@,
        r@[2]@ == "rank"@,
        r@[3]@ == "xp"@,
{
    vec![LeaderboardCommand.name(), LevelCommand.name(), RankCommand.name(), XPCommand.name()]
}

} // verus!
