//! The commands the bot registers with Discord: their names,
//! descriptions and options.

use vstd::prelude::*;
use crate::text::{decimal_text, push_i64, push_str};
use crate::permissions::Permission;
use crate::response::{Refusal, is_bare_refusal};
use crate::global::GlobalCommand;
use crate::giveaway::GiveawayCommand;
use crate::config::ConfigCommand;
use crate::levels::{LeaderboardCommand, LevelCommand, RankCommand, XPCommand};
use crate::permission_panel::PermissionsCommand;
use crate::moderation::{KickCommand, MuteCommand, StrikeCommand};
use crate::moderation::purge::PurgeCommand;
use crate::moderation::search::SearchCommand;
use crate::moderation::changes::{DurationCommand, ExpireCommand, ReasonCommand, RemoveCommand, UnbanCommand,
    UnmuteCommand};

verus! {

/// The kinds of command option.
#[derive(Clone, Copy, Debug, PartialEq, Eq, Structural)]
pub enum OptionKind {
    SubCommand,
    SubCommandGroup,
    String,
    Integer,
    Boolean,
    User,
    Role,
}

/// An option of a command as registered: its kind, name, description,
/// whether it must be given, the fixed choices it offers (label and
/// value) and, for subcommands and groups, the options under it.
#[derive(Debug)]
pub struct OptionSpec {
    pub kind: OptionKind,
    pub name: String,
    pub description: String,
    pub required: bool,
    pub choices: Vec<(String, String)>,
    pub options: Vec<OptionSpec>,
}

/// A command as registered: name, description, whether it may be used in
/// direct messages (when said) and options.
#[derive(Debug)]
pub struct CommandSpec {
    pub name: String,
    pub description: String,
    pub dm_permission: Option<bool>,
    pub options: Vec<OptionSpec>,
}

/// An option as plain values.
pub struct OptionModel {
    pub kind: OptionKind,
    pub name: Seq<char>,
    pub description: Seq<char>,
    pub required: bool,
    pub choices: Seq<(Seq<char>, Seq<char>)>,
    pub options: Seq<OptionModel>,
}

/// A command as plain values.
pub struct CommandModel {
    pub name: Seq<char>,
    pub description: Seq<char>,
    pub dm_permission: Option<bool>,
    pub options: Seq<OptionModel>,
}

/// The plain values of an option.
pub open spec fn option_model(o: OptionSpec) -> OptionModel
    decreases o, 1int,
{
    OptionModel {
        kind: o.kind,
        name: o.name@,
        description: o.description@,
        required: o.required,
        choices: o.choices@.map_values(|c: (String, String)| (c.0@, c.1@)),
        options: option_models(o.options@),
    }
}

/// The plain values of some options.
pub open spec fn option_models(s: Seq<OptionSpec>) -> Seq<OptionModel>
    decreases s, 0int,
{
    Seq::new(s.len(), |i: int| if 0 <= i < s.len() { option_model(s[i]) } else { arbitrary() })
}

/// The plain values of a command.
pub open spec fn command_model(c: CommandSpec) -> CommandModel {
    CommandModel {
        name: c.name@,
        description: c.description@,
        dm_permission: c.dm_permission,
        options: option_models(c.options@),
    }
}

/// A string holding `t`.
pub fn text(t: &str) -> (r: String)
    ensures
        r@ == t@,
{
    let mut s = String::new();
    push_str(&mut s, t);
    assert(s@ =~= t@);
    s
}

/// An option with these values.
pub fn option(kind: OptionKind, name: &str, description: &str, required: bool, choices: Vec<(String, String)>,
    options: Vec<OptionSpec>) -> (r: OptionSpec)
    ensures
        option_model(r) == (OptionModel {
            kind,
            name: name@,
            description: description@,
            required,
            choices: choices@.map_values(|c: (String, String)| (c.0@, c.1@)),
            options: option_models(options@),
        }),
{
    OptionSpec { kind, name: text(name), description: text(description), required, choices, options }
}

/// A command with these values.
pub fn command(name: &str, description: &str, dm_permission: Option<bool>, options: Vec<OptionSpec>) -> (r: CommandSpec)
    ensures
        command_model(r) == (CommandModel {
            name: name@,
            description: description@,
            dm_permission,
            options: option_models(options@),
        }),
{
    CommandSpec { name: text(name), description: text(description), dm_permission, options }
}



/// Shows facts about the bot.
#[derive(Debug)]
pub struct InfoCommand;

/// Shows where the privacy policy is.
#[derive(Debug)]
pub struct PrivacyCommand;

/// Always fails; it exercises the error path.
#[derive(Debug)]
pub struct FailCommand;

/// One part of a written duration: `value` followed by `name`, with an
/// `s` after it where `plural` and `value` is above one; nothing for a
/// zero value.
pub open spec fn time_part(value: int, name: Seq<char>, plural: bool) -> Seq<char> {
    if value <= 0 {
        Seq::empty()
    } else {
        decimal_text(value) + name + if plural && value > 1 {
            "s"@
        } else {
            Seq::empty()
        }
    }
}

/// The parts that are not empty, in order, joined by single spaces.
pub open spec fn joined_parts(parts: Seq<Seq<char>>) -> Seq<char>
    decreases parts.len(),
{
    if parts.len() == 0 {
        Seq::empty()
    } else {
        let rest = joined_parts(parts.drop_last());
        let last = parts.last();
        if last.len() == 0 {
            rest
        } else if rest.len() == 0 {
            last
        } else {
            rest + " "@ + last
        }
    }
}

/// What `humantime::format_duration` writes for a duration of `secs`
/// seconds and `nanos` (below a second) nanoseconds: `0s` for nothing;
/// otherwise years of 365.25 days, months of 30.44 days (2,630,016
/// seconds), days, hours, minutes, seconds, milliseconds, microseconds and
/// nanoseconds, each left out when zero.
pub open spec fn humantime_text(secs: u64, nanos: u32) -> Seq<char> {
    if secs == 0 && nanos == 0 {
        "0s"@
    } else {
        let s = secs as int;
        let n = nanos as int;
        let ydays = s % 31_557_600;
        let mdays = ydays % 2_630_016;
        let day_secs = mdays % 86400;
        joined_parts(
            seq![
                time_part(s / 31_557_600, "year"@, true),
                time_part(ydays / 2_630_016, "month"@, true),
                time_part(mdays / 86400, "day"@, true),
                time_part(day_secs / 3600, "h"@, false),
                time_part(day_secs % 3600 / 60, "m"@, false),
                time_part(day_secs % 60, "s"@, false),
                time_part(n / 1_000_000, "ms"@, false),
                time_part(n / 1000 % 1000, "us"@, false),
                time_part(n % 1000, "ns"@, false),
            ],
        )
    }
}

/// Writes a duration the way `humantime::format_duration` displays it
/// (such as `2h 37m` or `32ms`), as `humantime_text` states: its
/// `Display` splits the seconds and nanoseconds into those parts and
/// writes each that is not zero. The nanoseconds must stay below a
/// second, so that `Duration::new` carries nothing into the seconds.
#[verifier::external_body]
fn format_duration(secs: u64, nanos: u32) -> (r: String)
    requires
        nanos < 1_000_000_000,
    ensures
        r@ == humantime_text(secs, nanos),
{
    humantime::format_duration(std::time::Duration::new(secs, nanos)).to_string()
}

/// The three fields of `/info`.
#[derive(Debug)]
pub struct InfoFields {
    pub network: String,
    pub information: String,
    pub meta: String,
}

/// How a latency is shown: written by humantime, or `Pending` before the
/// first heartbeat.
pub open spec fn latency_text(latency: Option<(u64, u32)>) -> Seq<char> {
    match latency {
        Some((s, n)) => humantime_text(s, n),
        None => "Pending"@,
    }
}

impl InfoCommand {
    /// The command's name.
    pub fn name(&self) -> (r: &'static str)
        ensures
            r@ == "info"@,
    {
        "info"
    }

    /// The command needs no permission.
    pub fn required_permission(&self) -> (r: Option<Permission>)
        ensures
            r is None,
    {
        None
    }

    /// The fields of the reply: the shard and its latency; how many
    /// guilds, actions and giveaways there are; the version and how long
    /// the bot has run (seconds and nanoseconds, each below a second as a
    /// `std::time::Duration` holds them).
    pub fn fields(&self, shard: u32, latency: Option<(u64, u32)>, guilds: i64, actions: i64, giveaways: i64,
        version: &str, uptime: (u64, u32)) -> (r: InfoFields)
        requires
            latency matches Some((_, n)) ==> n < 1_000_000_000,
            uptime.1 < 1_000_000_000,
        ensures
            r.network@ == "Shard ID "@ + decimal_text(shard as int) + "\nLatency: "@ + latency_text(latency),
            r.information@ == "Serving "@ + decimal_text(guilds as int) + " guilds\nHandled "@
                + decimal_text(actions as int) + " actions\nRunning "@ + decimal_text(giveaways as int) + " giveaways"@,
            r.meta@ == "Version: "@ + version@ + "\nUptime: "@ + humantime_text(uptime.0, uptime.1),
    {
        let mut network = String::new();
        push_str(&mut network, "Shard ID ");
        crate::text::push_decimal(&mut network, shard as u64);
        push_str(&mut network, "\nLatency: ");
        match latency {
            Some((s, n)) => {
                let t = format_duration(s, n);
                push_str(&mut network, t.as_str());
            },
            None => push_str(&mut network, "Pending"),
        }
        let mut information = String::new();
        push_str(&mut information, "Serving ");
        push_i64(&mut information, guilds);
        push_str(&mut information, " guilds\nHandled ");
        push_i64(&mut information, actions);
        push_str(&mut information, " actions\nRunning ");
        push_i64(&mut information, giveaways);
        push_str(&mut information, " giveaways");
        let mut meta = String::new();
        push_str(&mut meta, "Version: ");
        push_str(&mut meta, version);
        push_str(&mut meta, "\nUptime: ");
        let u = format_duration(uptime.0, uptime.1);
        push_str(&mut meta, u.as_str());
        assert(network@ =~= "Shard ID "@ + decimal_text(shard as int) + "\nLatency: "@ + latency_text(latency));
        assert(information@ =~= "Serving "@ + decimal_text(guilds as int) + " guilds\nHandled "@
            + decimal_text(actions as int) + " actions\nRunning "@ + decimal_text(giveaways as int) + " giveaways"@);
        assert(meta@ =~= "Version: "@ + version@ + "\nUptime: "@ + humantime_text(uptime.0, uptime.1));
        InfoFields { network, information, meta }
    }
}

impl PrivacyCommand {
    /// The command's name.
    pub fn name(&self) -> (r: &'static str)
        ensures
            r@ == "privacy"@,
    {
        "privacy"
    }

    /// The command needs no permission.
    pub fn required_permission(&self) -> (r: Option<Permission>)
        ensures
            r is None,
    {
        None
    }

    /// The reply: where the privacy policy is.
    pub fn policy(&self) -> (r: String)
        ensures
            r@ == "You can view Reaper's Privacy Policy [here](https://github.com/GenericNerd/reaper/blob/development/PRIVACY.md)."@,
    {
        text("You can view Reaper's Privacy Policy [here](https://github.com/GenericNerd/reaper/blob/development/PRIVACY.md).")
    }
}

impl FailCommand {
    /// The command's name.
    pub fn name(&self) -> (r: &'static str)
        ensures
            r@ == "fail"@,
    {
        "fail"
    }

    /// The command needs no permission.
    pub fn required_permission(&self) -> (r: Option<Permission>)
        ensures
            r is None,
    {
        None
    }

    /// The command always fails, with a title only.
    pub fn router(&self) -> (r: Result<(), Refusal>)
        ensures
            r matches Err(e) && is_bare_refusal(e, "Failed on purpose"@),
    {
        Err(crate::response::bare_refusal("Failed on purpose"))
    }
}

/// The commands the bot answers, by name: privacy, info and config.
pub fn get_commands_available() -> (r: Vec<&'static str>)
    ensures
        r@.len() == 3,
        r@[0]@ == "privacy"@,
        r@[1]@ == "info"@,
        r@[2]@ == "config"@,
{
    vec![PrivacyCommand.name(), InfoCommand.name(), ConfigCommand.name()]
}

/// The moderation commands, by name.
pub fn get_moderation_commands() -> (r: Vec<&'static str>)
    ensures
        r@.len() == 10,
        r@[0]@ == "duration"@,
        r@[1]@ == "expire"@,
        r@[2]@ == "kick"@,
        r@[3]@ == "mute"@,
        r@[4]@ == "reason"@,
        r@[5]@ == "remove"@,
        r@[6]@ == "search"@,
        r@[7]@ == "strike"@,
        r@[8]@ == "unban"@,
        r@[9]@ == "unmute"@,
{
    vec![DurationCommand.name(), ExpireCommand.name(), KickCommand.name(), MuteCommand.name(), ReasonCommand.name(),
        RemoveCommand.name(), SearchCommand.name(), StrikeCommand.name(), UnbanCommand.name(), UnmuteCommand.name()]
}

/// The commands of the bot's staff, by name.
pub fn get_kill_commands() -> (r: Vec<&'static str>)
    ensures
        r@.len() == 1,
        r@[0]@ == "global"@,
{
    vec![GlobalCommand.name()]
}

/// What `/config` registers.
pub open spec fn config_model() -> CommandModel {
    CommandModel {
        name: "config"@,
        description: "Configure Reaper for this server"@,
        dm_permission: Some(false),
        options: seq![
            OptionModel { kind: OptionKind::String, name: "category"@, description: "Pick a category to configure"@, required: false, choices: seq![("Moderation"@, "moderation"@), ("Logging"@, "logging"@), ("Levelling"@, "xp"@), ("Role Recovery"@, "role_recovery"@)], options: Seq::empty() },
        ],
    }
}

impl ConfigCommand {
    /// The command as registered; see `config_model`.
    pub fn register(&self) -> (r: CommandSpec)
        ensures
            command_model(r) == config_model(),
    {
        let o1_subs: Vec<OptionSpec> = Vec::new();
        assert(option_models(o1_subs@) =~= Seq::<OptionModel>::empty());
        let o1_choices: Vec<(String, String)> = vec![(text("Moderation"), text("moderation")), (text("Logging"), text("logging")), (text("Levelling"), text("xp")), (text("Role Recovery"), text("role_recovery"))];
        assert(o1_choices@.map_values(|c: (String, String)| (c.0@, c.1@)) =~= seq![("Moderation"@, "moderation"@), ("Logging"@, "logging"@), ("Levelling"@, "xp"@), ("Role Recovery"@, "role_recovery"@)]);
        let o1 = option(OptionKind::String, "category", "Pick a category to configure", false, o1_choices, o1_subs);
        let ghost m1 = option_model(o1);
        assert(m1 == OptionModel { kind: OptionKind::String, name: "category"@, description: "Pick a category to configure"@, required: false, choices: seq![("Moderation"@, "moderation"@), ("Logging"@, "logging"@), ("Levelling"@, "xp"@), ("Role Recovery"@, "role_recovery"@)], options: Seq::empty() });
        let top = vec![o1];
        assert(option_models(top@) =~= seq![m1]);
        let r = command("config", "Configure Reaper for this server", Some(false), top);
        assert(command_model(r) =~= config_model());
        r
    }
}

/// What `/global` registers.
pub open spec fn global_model() -> CommandModel {
    CommandModel {
        name: "global"@,
        description: "Globally kill a feature, guild, or user from using Reaper"@,
        dm_permission: Some(false),
        options: seq![
            OptionModel { kind: OptionKind::SubCommandGroup, name: "feature"@, description: "Kill a feature"@, required: false, choices: Seq::empty(), options: seq![
                OptionModel { kind: OptionKind::SubCommand, name: "kill"@, description: "Globally kill a feature"@, required: false, choices: Seq::empty(), options: seq![
                    OptionModel { kind: OptionKind::String, name: "feature"@, description: "The feature to globally kill"@, required: true, choices: Seq::empty(), options: Seq::empty() },
                ] },
                OptionModel { kind: OptionKind::SubCommand, name: "revive"@, description: "Revive a feature"@, required: false, choices: Seq::empty(), options: seq![
                    OptionModel { kind: OptionKind::String, name: "feature"@, description: "The feature to revive"@, required: true, choices: Seq::empty(), options: Seq::empty() },
                ] },
                OptionModel { kind: OptionKind::SubCommand, name: "status"@, description: "Check the status of a feature"@, required: false, choices: Seq::empty(), options: seq![
                    OptionModel { kind: OptionKind::String, name: "feature"@, description: "The feature to check the status of"@, required: true, choices: Seq::empty(), options: Seq::empty() },
                ] },
            ] },
            OptionModel { kind: OptionKind::SubCommandGroup, name: "guild"@, description: "Kill a guild"@, required: false, choices: Seq::empty(), options: seq![
                OptionModel { kind: OptionKind::SubCommand, name: "kill"@, description: "Globally kill a guild"@, required: false, choices: Seq::empty(), options: seq![
                    OptionModel { kind: OptionKind::String, name: "guild"@, description: "The guild to globally kill"@, required: true, choices: Seq::empty(), options: Seq::empty() },
                ] },
                OptionModel { kind: OptionKind::SubCommand, name: "revive"@, description: "Revive a guild"@, required: false, choices: Seq::empty(), options: seq![
                    OptionModel { kind: OptionKind::String, name: "guild"@, description: "The guild to revive"@, required: true, choices: Seq::empty(), options: Seq::empty() },
                ] },
                OptionModel { kind: OptionKind::SubCommand, name: "status"@, description: "Check the status of a guild"@, required: false, choices: Seq::empty(), options: seq![
                    OptionModel { kind: OptionKind::String, name: "guild"@, description: "The guild to check the status of"@, required: true, choices: Seq::empty(), options: Seq::empty() },
                ] },
            ] },
            OptionModel { kind: OptionKind::SubCommandGroup, name: "user"@, description: "Kill a user"@, required: false, choices: Seq::empty(), options: seq![
                OptionModel { kind: OptionKind::SubCommand, name: "kill"@, description: "Globally kill a user"@, required: false, choices: Seq::empty(), options: seq![
                    OptionModel { kind: OptionKind::User, name: "user"@, description: "The user to globally kill"@, required: true, choices: Seq::empty(), options: Seq::empty() },
                ] },
                OptionModel { kind: OptionKind::SubCommand, name: "revive"@, description: "Revive a user"@, required: false, choices: Seq::empty(), options: seq![
                    OptionModel { kind: OptionKind::User, name: "user"@, description: "The user to revive"@, required: true, choices: Seq::empty(), options: Seq::empty() },
                ] },
                OptionModel { kind: OptionKind::SubCommand, name: "status"@, description: "Check the status of a user"@, required: false, choices: Seq::empty(), options: seq![
                    OptionModel { kind: OptionKind::User, name: "user"@, description: "The user to check the status of"@, required: true, choices: Seq::empty(), options: Seq::empty() },
                ] },
            ] },
        ],
    }
}

impl GlobalCommand {
    /// The command as registered; see `global_model`.
    pub fn register(&self) -> (r: CommandSpec)
        ensures
            command_model(r) == global_model(),
    {
        let o1_subs: Vec<OptionSpec> = Vec::new();
        assert(option_models(o1_subs@) =~= Seq::<OptionModel>::empty());
        let o1_choices: Vec<(String, String)> = Vec::new();
        assert(o1_choices@.map_values(|c: (String, String)| (c.0@, c.1@)) =~= Seq::<(Seq<char>, Seq<char>)>::empty());
        let o1 = option(OptionKind::String, "feature", "The feature to globally kill", true, o1_choices, o1_subs);
        let ghost m1 = option_model(o1);
        assert(m1 == OptionModel { kind: OptionKind::String, name: "feature"@, description: "The feature to globally kill"@, required: true, choices: Seq::empty(), options: Seq::empty() });
        let o2_subs = vec![o1];
        assert(option_models(o2_subs@) =~= seq![m1]);
        let o2_choices: Vec<(String, String)> = Vec::new();
        assert(o2_choices@.map_values(|c: (String, String)| (c.0@, c.1@)) =~= Seq::<(Seq<char>, Seq<char>)>::empty());
        let o2 = option(OptionKind::SubCommand, "kill", "Globally kill a feature", false, o2_choices, o2_subs);
        let ghost m2 = option_model(o2);
        assert(m2 == OptionModel { kind: OptionKind::SubCommand, name: "kill"@, description: "Globally kill a feature"@, required: false, choices: Seq::empty(), options: seq![
    OptionModel { kind: OptionKind::String, name: "feature"@, description: "The feature to globally kill"@, required: true, choices: Seq::empty(), options: Seq::empty() },
] });
        let o3_subs: Vec<OptionSpec> = Vec::new();
        assert(option_models(o3_subs@) =~= Seq::<OptionModel>::empty());
        let o3_choices: Vec<(String, String)> = Vec::new();
        assert(o3_choices@.map_values(|c: (String, String)| (c.0@, c.1@)) =~= Seq::<(Seq<char>, Seq<char>)>::empty());
        let o3 = option(OptionKind::String, "feature", "The feature to revive", true, o3_choices, o3_subs);
        let ghost m3 = option_model(o3);
        assert(m3 == OptionModel { kind: OptionKind::String, name: "feature"@, description: "The feature to revive"@, required: true, choices: Seq::empty(), options: Seq::empty() });
        let o4_subs = vec![o3];
        assert(option_models(o4_subs@) =~= seq![m3]);
        let o4_choices: Vec<(String, String)> = Vec::new();
        assert(o4_choices@.map_values(|c: (String, String)| (c.0@, c.1@)) =~= Seq::<(Seq<char>, Seq<char>)>::empty());
        let o4 = option(OptionKind::SubCommand, "revive", "Revive a feature", false, o4_choices, o4_subs);
        let ghost m4 = option_model(o4);
        assert(m4 == OptionModel { kind: OptionKind::SubCommand, name: "revive"@, description: "Revive a feature"@, required: false, choices: Seq::empty(), options: seq![
    OptionModel { kind: OptionKind::String, name: "feature"@, description: "The feature to revive"@, required: true, choices: Seq::empty(), options: Seq::empty() },
] });
        let o5_subs: Vec<OptionSpec> = Vec::new();
        assert(option_models(o5_subs@) =~= Seq::<OptionModel>::empty());
        let o5_choices: Vec<(String, String)> = Vec::new();
        assert(o5_choices@.map_values(|c: (String, String)| (c.0@, c.1@)) =~= Seq::<(Seq<char>, Seq<char>)>::empty());
        let o5 = option(OptionKind::String, "feature", "The feature to check the status of", true, o5_choices, o5_subs);
        let ghost m5 = option_model(o5);
        assert(m5 == OptionModel { kind: OptionKind::String, name: "feature"@, description: "The feature to check the status of"@, required: true, choices: Seq::empty(), options: Seq::empty() });
        let o6_subs = vec![o5];
        assert(option_models(o6_subs@) =~= seq![m5]);
        let o6_choices: Vec<(String, String)> = Vec::new();
        assert(o6_choices@.map_values(|c: (String, String)| (c.0@, c.1@)) =~= Seq::<(Seq<char>, Seq<char>)>::empty());
        let o6 = option(OptionKind::SubCommand, "status", "Check the status of a feature", false, o6_choices, o6_subs);
        let ghost m6 = option_model(o6);
        assert(m6 == OptionModel { kind: OptionKind::SubCommand, name: "status"@, description: "Check the status of a feature"@, required: false, choices: Seq::empty(), options: seq![
    OptionModel { kind: OptionKind::String, name: "feature"@, description: "The feature to check the status of"@, required: true, choices: Seq::empty(), options: Seq::empty() },
] });
        let o7_subs = vec![o2, o4, o6];
        assert(option_models(o7_subs@) =~= seq![m2, m4, m6]);
        let o7_choices: Vec<(String, String)> = Vec::new();
        assert(o7_choices@.map_values(|c: (String, String)| (c.0@, c.1@)) =~= Seq::<(Seq<char>, Seq<char>)>::empty());
        let o7 = option(OptionKind::SubCommandGroup, "feature", "Kill a feature", false, o7_choices, o7_subs);
        let ghost m7 = option_model(o7);
        assert(m7 == OptionModel { kind: OptionKind::SubCommandGroup, name: "feature"@, description: "Kill a feature"@, required: false, choices: Seq::empty(), options: seq![
    OptionModel { kind: OptionKind::SubCommand, name: "kill"@, description: "Globally kill a feature"@, required: false, choices: Seq::empty(), options: seq![
        OptionModel { kind: OptionKind::String, name: "feature"@, description: "The feature to globally kill"@, required: true, choices: Seq::empty(), options: Seq::empty() },
    ] },
    OptionModel { kind: OptionKind::SubCommand, name: "revive"@, description: "Revive a feature"@, required: false, choices: Seq::empty(), options: seq![
        OptionModel { kind: OptionKind::String, name: "feature"@, description: "The feature to revive"@, required: true, choices: Seq::empty(), options: Seq::empty() },
    ] },
    OptionModel { kind: OptionKind::SubCommand, name: "status"@, description: "Check the status of a feature"@, required: false, choices: Seq::empty(), options: seq![
        OptionModel { kind: OptionKind::String, name: "feature"@, description: "The feature to check the status of"@, required: true, choices: Seq::empty(), options: Seq::empty() },
    ] },
] });
        let o8_subs: Vec<OptionSpec> = Vec::new();
        assert(option_models(o8_subs@) =~= Seq::<OptionModel>::empty());
        let o8_choices: Vec<(String, String)> = Vec::new();
        assert(o8_choices@.map_values(|c: (String, String)| (c.0@, c.1@)) =~= Seq::<(Seq<char>, Seq<char>)>::empty());
        let o8 = option(OptionKind::String, "guild", "The guild to globally kill", true, o8_choices, o8_subs);
        let ghost m8 = option_model(o8);
        assert(m8 == OptionModel { kind: OptionKind::String, name: "guild"@, description: "The guild to globally kill"@, required: true, choices: Seq::empty(), options: Seq::empty() });
        let o9_subs = vec![o8];
        assert(option_models(o9_subs@) =~= seq![m8]);
        let o9_choices: Vec<(String, String)> = Vec::new();
        assert(o9_choices@.map_values(|c: (String, String)| (c.0@, c.1@)) =~= Seq::<(Seq<char>, Seq<char>)>::empty());
        let o9 = option(OptionKind::SubCommand, "kill", "Globally kill a guild", false, o9_choices, o9_subs);
        let ghost m9 = option_model(o9);
        assert(m9 == OptionModel { kind: OptionKind::SubCommand, name: "kill"@, description: "Globally kill a guild"@, required: false, choices: Seq::empty(), options: seq![
    OptionModel { kind: OptionKind::String, name: "guild"@, description: "The guild to globally kill"@, required: true, choices: Seq::empty(), options: Seq::empty() },
] });
        let o10_subs: Vec<OptionSpec> = Vec::new();
        assert(option_models(o10_subs@) =~= Seq::<OptionModel>::empty());
        let o10_choices: Vec<(String, String)> = Vec::new();
        assert(o10_choices@.map_values(|c: (String, String)| (c.0@, c.1@)) =~= Seq::<(Seq<char>, Seq<char>)>::empty());
        let o10 = option(OptionKind::String, "guild", "The guild to revive", true, o10_choices, o10_subs);
        let ghost m10 = option_model(o10);
        assert(m10 == OptionModel { kind: OptionKind::String, name: "guild"@, description: "The guild to revive"@, required: true, choices: Seq::empty(), options: Seq::empty() });
        let o11_subs = vec![o10];
        assert(option_models(o11_subs@) =~= seq![m10]);
        let o11_choices: Vec<(String, String)> = Vec::new();
        assert(o11_choices@.map_values(|c: (String, String)| (c.0@, c.1@)) =~= Seq::<(Seq<char>, Seq<char>)>::empty());
        let o11 = option(OptionKind::SubCommand, "revive", "Revive a guild", false, o11_choices, o11_subs);
        let ghost m11 = option_model(o11);
        assert(m11 == OptionModel { kind: OptionKind::SubCommand, name: "revive"@, description: "Revive a guild"@, required: false, choices: Seq::empty(), options: seq![
    OptionModel { kind: OptionKind::String, name: "guild"@, description: "The guild to revive"@, required: true, choices: Seq::empty(), options: Seq::empty() },
] });
        let o12_subs: Vec<OptionSpec> = Vec::new();
        assert(option_models(o12_subs@) =~= Seq::<OptionModel>::empty());
        let o12_choices: Vec<(String, String)> = Vec::new();
        assert(o12_choices@.map_values(|c: (String, String)| (c.0@, c.1@)) =~= Seq::<(Seq<char>, Seq<char>)>::empty());
        let o12 = option(OptionKind::String, "guild", "The guild to check the status of", true, o12_choices, o12_subs);
        let ghost m12 = option_model(o12);
        assert(m12 == OptionModel { kind: OptionKind::String, name: "guild"@, description: "The guild to check the status of"@, required: true, choices: Seq::empty(), options: Seq::empty() });
        let o13_subs = vec![o12];
        assert(option_models(o13_subs@) =~= seq![m12]);
        let o13_choices: Vec<(String, String)> = Vec::new();
        assert(o13_choices@.map_values(|c: (String, String)| (c.0@, c.1@)) =~= Seq::<(Seq<char>, Seq<char>)>::empty());
        let o13 = option(OptionKind::SubCommand, "status", "Check the status of a guild", false, o13_choices, o13_subs);
        let ghost m13 = option_model(o13);
        assert(m13 == OptionModel { kind: OptionKind::SubCommand, name: "status"@, description: "Check the status of a guild"@, required: false, choices: Seq::empty(), options: seq![
    OptionModel { kind: OptionKind::String, name: "guild"@, description: "The guild to check the status of"@, required: true, choices: Seq::empty(), options: Seq::empty() },
] });
        let o14_subs = vec![o9, o11, o13];
        assert(option_models(o14_subs@) =~= seq![m9, m11, m13]);
        let o14_choices: Vec<(String, String)> = Vec::new();
        assert(o14_choices@.map_values(|c: (String, String)| (c.0@, c.1@)) =~= Seq::<(Seq<char>, Seq<char>)>::empty());
        let o14 = option(OptionKind::SubCommandGroup, "guild", "Kill a guild", false, o14_choices, o14_subs);
        let ghost m14 = option_model(o14);
        assert(m14 == OptionModel { kind: OptionKind::SubCommandGroup, name: "guild"@, description: "Kill a guild"@, required: false, choices: Seq::empty(), options: seq![
    OptionModel { kind: OptionKind::SubCommand, name: "kill"@, description: "Globally kill a guild"@, required: false, choices: Seq::empty(), options: seq![
        OptionModel { kind: OptionKind::String, name: "guild"@, description: "The guild to globally kill"@, required: true, choices: Seq::empty(), options: Seq::empty() },
    ] },
    OptionModel { kind: OptionKind::SubCommand, name: "revive"@, description: "Revive a guild"@, required: false, choices: Seq::empty(), options: seq![
        OptionModel { kind: OptionKind::String, name: "guild"@, description: "The guild to revive"@, required: true, choices: Seq::empty(), options: Seq::empty() },
    ] },
    OptionModel { kind: OptionKind::SubCommand, name: "status"@, description: "Check the status of a guild"@, required: false, choices: Seq::empty(), options: seq![
        OptionModel { kind: OptionKind::String, name: "guild"@, description: "The guild to check the status of"@, required: true, choices: Seq::empty(), options: Seq::empty() },
    ] },
] });
        let o15_subs: Vec<OptionSpec> = Vec::new();
        assert(option_models(o15_subs@) =~= Seq::<OptionModel>::empty());
        let o15_choices: Vec<(String, String)> = Vec::new();
        assert(o15_choices@.map_values(|c: (String, String)| (c.0@, c.1@)) =~= Seq::<(Seq<char>, Seq<char>)>::empty());
        let o15 = option(OptionKind::User, "user", "The user to globally kill", true, o15_choices, o15_subs);
        let ghost m15 = option_model(o15);
        assert(m15 == OptionModel { kind: OptionKind::User, name: "user"@, description: "The user to globally kill"@, required: true, choices: Seq::empty(), options: Seq::empty() });
        let o16_subs = vec![o15];
        assert(option_models(o16_subs@) =~= seq![m15]);
        let o16_choices: Vec<(String, String)> = Vec::new();
        assert(o16_choices@.map_values(|c: (String, String)| (c.0@, c.1@)) =~= Seq::<(Seq<char>, Seq<char>)>::empty());
        let o16 = option(OptionKind::SubCommand, "kill", "Globally kill a user", false, o16_choices, o16_subs);
        let ghost m16 = option_model(o16);
        assert(m16 == OptionModel { kind: OptionKind::SubCommand, name: "kill"@, description: "Globally kill a user"@, required: false, choices: Seq::empty(), options: seq![
    OptionModel { kind: OptionKind::User, name: "user"@, description: "The user to globally kill"@, required: true, choices: Seq::empty(), options: Seq::empty() },
] });
        let o17_subs: Vec<OptionSpec> = Vec::new();
        assert(option_models(o17_subs@) =~= Seq::<OptionModel>::empty());
        let o17_choices: Vec<(String, String)> = Vec::new();
        assert(o17_choices@.map_values(|c: (String, String)| (c.0@, c.1@)) =~= Seq::<(Seq<char>, Seq<char>)>::empty());
        let o17 = option(OptionKind::User, "user", "The user to revive", true, o17_choices, o17_subs);
        let ghost m17 = option_model(o17);
        assert(m17 == OptionModel { kind: OptionKind::User, name: "user"@, description: "The user to revive"@, required: true, choices: Seq::empty(), options: Seq::empty() });
        let o18_subs = vec![o17];
        assert(option_models(o18_subs@) =~= seq![m17]);
        let o18_choices: Vec<(String, String)> = Vec::new();
        assert(o18_choices@.map_values(|c: (String, String)| (c.0@, c.1@)) =~= Seq::<(Seq<char>, Seq<char>)>::empty());
        let o18 = option(OptionKind::SubCommand, "revive", "Revive a user", false, o18_choices, o18_subs);
        let ghost m18 = option_model(o18);
        assert(m18 == OptionModel { kind: OptionKind::SubCommand, name: "revive"@, description: "Revive a user"@, required: false, choices: Seq::empty(), options: seq![
    OptionModel { kind: OptionKind::User, name: "user"@, description: "The user to revive"@, required: true, choices: Seq::empty(), options: Seq::empty() },
] });
        let o19_subs: Vec<OptionSpec> = Vec::new();
        assert(option_models(o19_subs@) =~= Seq::<OptionModel>::empty());
        let o19_choices: Vec<(String, String)> = Vec::new();
        assert(o19_choices@.map_values(|c: (String, String)| (c.0@, c.1@)) =~= Seq::<(Seq<char>, Seq<char>)>::empty());
        let o19 = option(OptionKind::User, "user", "The user to check the status of", true, o19_choices, o19_subs);
        let ghost m19 = option_model(o19);
        assert(m19 == OptionModel { kind: OptionKind::User, name: "user"@, description: "The user to check the status of"@, required: true, choices: Seq::empty(), options: Seq::empty() });
        let o20_subs = vec![o19];
        assert(option_models(o20_subs@) =~= seq![m19]);
        let o20_choices: Vec<(String, String)> = Vec::new();
        assert(o20_choices@.map_values(|c: (String, String)| (c.0@, c.1@)) =~= Seq::<(Seq<char>, Seq<char>)>::empty());
        let o20 = option(OptionKind::SubCommand, "status", "Check the status of a user", false, o20_choices, o20_subs);
        let ghost m20 = option_model(o20);
        assert(m20 == OptionModel { kind: OptionKind::SubCommand, name: "status"@, description: "Check the status of a user"@, required: false, choices: Seq::empty(), options: seq![
    OptionModel { kind: OptionKind::User, name: "user"@, description: "The user to check the status of"@, required: true, choices: Seq::empty(), options: Seq::empty() },
] });
        let o21_subs = vec![o16, o18, o20];
        assert(option_models(o21_subs@) =~= seq![m16, m18, m20]);
        let o21_choices: Vec<(String, String)> = Vec::new();
        assert(o21_choices@.map_values(|c: (String, String)| (c.0@, c.1@)) =~= Seq::<(Seq<char>, Seq<char>)>::empty());
        let o21 = option(OptionKind::SubCommandGroup, "user", "Kill a user", false, o21_choices, o21_subs);
        let ghost m21 = option_model(o21);
        assert(m21 == OptionModel { kind: OptionKind::SubCommandGroup, name: "user"@, description: "Kill a user"@, required: false, choices: Seq::empty(), options: seq![
    OptionModel { kind: OptionKind::SubCommand, name: "kill"@, description: "Globally kill a user"@, required: false, choices: Seq::empty(), options: seq![
        OptionModel { kind: OptionKind::User, name: "user"@, description: "The user to globally kill"@, required: true, choices: Seq::empty(), options: Seq::empty() },
    ] },
    OptionModel { kind: OptionKind::SubCommand, name: "revive"@, description: "Revive a user"@, required: false, choices: Seq::empty(), options: seq![
        OptionModel { kind: OptionKind::User, name: "user"@, description: "The user to revive"@, required: true, choices: Seq::empty(), options: Seq::empty() },
    ] },
    OptionModel { kind: OptionKind::SubCommand, name: "status"@, description: "Check the status of a user"@, required: false, choices: Seq::empty(), options: seq![
        OptionModel { kind: OptionKind::User, name: "user"@, description: "The user to check the status of"@, required: true, choices: Seq::empty(), options: Seq::empty() },
    ] },
] });
        let top = vec![o7, o14, o21];
        assert(option_models(top@) =~= seq![m7, m14, m21]);
        let r = command("global", "Globally kill a feature, guild, or user from using Reaper", Some(false), top);
        assert(command_model(r) =~= global_model());
        r
    }
}

/// What `/giveaway` registers.
pub open spec fn giveaway_model() -> CommandModel {
    CommandModel {
        name: "giveaway"@,
        description: "Giveaway commands"@,
        dm_permission: Some(false),
        options: seq![
            OptionModel { kind: OptionKind::SubCommand, name: "new"@, description: "Start a new giveaway"@, required: false, choices: Seq::empty(), options: seq![
                OptionModel { kind: OptionKind::String, name: "prize"@, description: "The prize for the giveaway"@, required: true, choices: Seq::empty(), options: Seq::empty() },
                OptionModel { kind: OptionKind::String, name: "duration"@, description: "The duration of the giveaway"@, required: true, choices: Seq::empty(), options: Seq::empty() },
                OptionModel { kind: OptionKind::Integer, name: "winners"@, description: "The number of winners for the giveaway (default: 1)"@, required: false, choices: Seq::empty(), options: Seq::empty() },
                OptionModel { kind: OptionKind::Role, name: "role"@, description: "The role to require to enter the giveaway"@, required: false, choices: Seq::empty(), options: Seq::empty() },
                OptionModel { kind: OptionKind::String, name: "description"@, description: "The description for the giveaway"@, required: false, choices: Seq::empty(), options: Seq::empty() },
            ] },
            OptionModel { kind: OptionKind::SubCommand, name: "reroll"@, description: "Reroll a giveaway"@, required: false, choices: Seq::empty(), options: seq![
                OptionModel { kind: OptionKind::String, name: "id"@, description: "The message ID of the giveaway to reroll"@, required: true, choices: Seq::empty(), options: Seq::empty() },
                OptionModel { kind: OptionKind::Integer, name: "winners"@, description: "The number of winners for the giveaway (default: 1)"@, required: false, choices: Seq::empty(), options: Seq::empty() },
            ] },
            OptionModel { kind: OptionKind::SubCommand, name: "end"@, description: "End a giveaway"@, required: false, choices: Seq::empty(), options: seq![
                OptionModel { kind: OptionKind::String, name: "id"@, description: "The message ID of the giveaway to delete"@, required: true, choices: Seq::empty(), options: Seq::empty() },
            ] },
            OptionModel { kind: OptionKind::SubCommand, name: "delete"@, description: "Delete a giveaway"@, required: false, choices: Seq::empty(), options: seq![
                OptionModel { kind: OptionKind::String, name: "id"@, description: "The message ID of the giveaway to delete"@, required: true, choices: Seq::empty(), options: Seq::empty() },
            ] },
        ],
    }
}

impl GiveawayCommand {
    /// The command as registered; see `giveaway_model`.
    pub fn register(&self) -> (r: CommandSpec)
        ensures
            command_model(r) == giveaway_model(),
    {
        let o1_subs: Vec<OptionSpec> = Vec::new();
        assert(option_models(o1_subs@) =~= Seq::<OptionModel>::empty());
        let o1_choices: Vec<(String, String)> = Vec::new();
        assert(o1_choices@.map_values(|c: (String, String)| (c.0@, c.1@)) =~= Seq::<(Seq<char>, Seq<char>)>::empty());
        let o1 = option(OptionKind::String, "prize", "The prize for the giveaway", true, o1_choices, o1_subs);
        let ghost m1 = option_model(o1);
        assert(m1 == OptionModel { kind: OptionKind::String, name: "prize"@, description: "The prize for the giveaway"@, required: true, choices: Seq::empty(), options: Seq::empty() });
        let o2_subs: Vec<OptionSpec> = Vec::new();
        assert(option_models(o2_subs@) =~= Seq::<OptionModel>::empty());
        let o2_choices: Vec<(String, String)> = Vec::new();
        assert(o2_choices@.map_values(|c: (String, String)| (c.0@, c.1@)) =~= Seq::<(Seq<char>, Seq<char>)>::empty());
        let o2 = option(OptionKind::String, "duration", "The duration of the giveaway", true, o2_choices, o2_subs);
        let ghost m2 = option_model(o2);
        assert(m2 == OptionModel { kind: OptionKind::String, name: "duration"@, description: "The duration of the giveaway"@, required: true, choices: Seq::empty(), options: Seq::empty() });
        let o3_subs: Vec<OptionSpec> = Vec::new();
        assert(option_models(o3_subs@) =~= Seq::<OptionModel>::empty());
        let o3_choices: Vec<(String, String)> = Vec::new();
        assert(o3_choices@.map_values(|c: (String, String)| (c.0@, c.1@)) =~= Seq::<(Seq<char>, Seq<char>)>::empty());
        let o3 = option(OptionKind::Integer, "winners", "The number of winners for the giveaway (default: 1)", false, o3_choices, o3_subs);
        let ghost m3 = option_model(o3);
        assert(m3 == OptionModel { kind: OptionKind::Integer, name: "winners"@, description: "The number of winners for the giveaway (default: 1)"@, required: false, choices: Seq::empty(), options: Seq::empty() });
        let o4_subs: Vec<OptionSpec> = Vec::new();
        assert(option_models(o4_subs@) =~= Seq::<OptionModel>::empty());
        let o4_choices: Vec<(String, String)> = Vec::new();
        assert(o4_choices@.map_values(|c: (String, String)| (c.0@, c.1@)) =~= Seq::<(Seq<char>, Seq<char>)>::empty());
        let o4 = option(OptionKind::Role, "role", "The role to require to enter the giveaway", false, o4_choices, o4_subs);
        let ghost m4 = option_model(o4);
        assert(m4 == OptionModel { kind: OptionKind::Role, name: "role"@, description: "The role to require to enter the giveaway"@, required: false, choices: Seq::empty(), options: Seq::empty() });
        let o5_subs: Vec<OptionSpec> = Vec::new();
        assert(option_models(o5_subs@) =~= Seq::<OptionModel>::empty());
        let o5_choices: Vec<(String, String)> = Vec::new();
        assert(o5_choices@.map_values(|c: (String, String)| (c.0@, c.1@)) =~= Seq::<(Seq<char>, Seq<char>)>::empty());
        let o5 = option(OptionKind::String, "description", "The description for the giveaway", false, o5_choices, o5_subs);
        let ghost m5 = option_model(o5);
        assert(m5 == OptionModel { kind: OptionKind::String, name: "description"@, description: "The description for the giveaway"@, required: false, choices: Seq::empty(), options: Seq::empty() });
        let o6_subs = vec![o1, o2, o3, o4, o5];
        assert(option_models(o6_subs@) =~= seq![m1, m2, m3, m4, m5]);
        let o6_choices: Vec<(String, String)> = Vec::new();
        assert(o6_choices@.map_values(|c: (String, String)| (c.0@, c.1@)) =~= Seq::<(Seq<char>, Seq<char>)>::empty());
        let o6 = option(OptionKind::SubCommand, "new", "Start a new giveaway", false, o6_choices, o6_subs);
        let ghost m6 = option_model(o6);
        assert(m6 == OptionModel { kind: OptionKind::SubCommand, name: "new"@, description: "Start a new giveaway"@, required: false, choices: Seq::empty(), options: seq![
    OptionModel { kind: OptionKind::String, name: "prize"@, description: "The prize for the giveaway"@, required: true, choices: Seq::empty(), options: Seq::empty() },
    OptionModel { kind: OptionKind::String, name: "duration"@, description: "The duration of the giveaway"@, required: true, choices: Seq::empty(), options: Seq::empty() },
    OptionModel { kind: OptionKind::Integer, name: "winners"@, description: "The number of winners for the giveaway (default: 1)"@, required: false, choices: Seq::empty(), options: Seq::empty() },
    OptionModel { kind: OptionKind::Role, name: "role"@, description: "The role to require to enter the giveaway"@, required: false, choices: Seq::empty(), options: Seq::empty() },
    OptionModel { kind: OptionKind::String, name: "description"@, description: "The description for the giveaway"@, required: false, choices: Seq::empty(), options: Seq::empty() },
] });
        let o7_subs: Vec<OptionSpec> = Vec::new();
        assert(option_models(o7_subs@) =~= Seq::<OptionModel>::empty());
        let o7_choices: Vec<(String, String)> = Vec::new();
        assert(o7_choices@.map_values(|c: (String, String)| (c.0@, c.1@)) =~= Seq::<(Seq<char>, Seq<char>)>::empty());
        let o7 = option(OptionKind::String, "id", "The message ID of the giveaway to reroll", true, o7_choices, o7_subs);
        let ghost m7 = option_model(o7);
        assert(m7 == OptionModel { kind: OptionKind::String, name: "id"@, description: "The message ID of the giveaway to reroll"@, required: true, choices: Seq::empty(), options: Seq::empty() });
        let o8_subs: Vec<OptionSpec> = Vec::new();
        assert(option_models(o8_subs@) =~= Seq::<OptionModel>::empty());
        let o8_choices: Vec<(String, String)> = Vec::new();
        assert(o8_choices@.map_values(|c: (String, String)| (c.0@, c.1@)) =~= Seq::<(Seq<char>, Seq<char>)>::empty());
        let o8 = option(OptionKind::Integer, "winners", "The number of winners for the giveaway (default: 1)", false, o8_choices, o8_subs);
        let ghost m8 = option_model(o8);
        assert(m8 == OptionModel { kind: OptionKind::Integer, name: "winners"@, description: "The number of winners for the giveaway (default: 1)"@, required: false, choices: Seq::empty(), options: Seq::empty() });
        let o9_subs = vec![o7, o8];
        assert(option_models(o9_subs@) =~= seq![m7, m8]);
        let o9_choices: Vec<(String, String)> = Vec::new();
        assert(o9_choices@.map_values(|c: (String, String)| (c.0@, c.1@)) =~= Seq::<(Seq<char>, Seq<char>)>::empty());
        let o9 = option(OptionKind::SubCommand, "reroll", "Reroll a giveaway", false, o9_choices, o9_subs);
        let ghost m9 = option_model(o9);
        assert(m9 == OptionModel { kind: OptionKind::SubCommand, name: "reroll"@, description: "Reroll a giveaway"@, required: false, choices: Seq::empty(), options: seq![
    OptionModel { kind: OptionKind::String, name: "id"@, description: "The message ID of the giveaway to reroll"@, required: true, choices: Seq::empty(), options: Seq::empty() },
    OptionModel { kind: OptionKind::Integer, name: "winners"@, description: "The number of winners for the giveaway (default: 1)"@, required: false, choices: Seq::empty(), options: Seq::empty() },
] });
        let o10_subs: Vec<OptionSpec> = Vec::new();
        assert(option_models(o10_subs@) =~= Seq::<OptionModel>::empty());
        let o10_choices: Vec<(String, String)> = Vec::new();
        assert(o10_choices@.map_values(|c: (String, String)| (c.0@, c.1@)) =~= Seq::<(Seq<char>, Seq<char>)>::empty());
        let o10 = option(OptionKind::String, "id", "The message ID of the giveaway to delete", true, o10_choices, o10_subs);
        let ghost m10 = option_model(o10);
        assert(m10 == OptionModel { kind: OptionKind::String, name: "id"@, description: "The message ID of the giveaway to delete"@, required: true, choices: Seq::empty(), options: Seq::empty() });
        let o11_subs = vec![o10];
        assert(option_models(o11_subs@) =~= seq![m10]);
        let o11_choices: Vec<(String, String)> = Vec::new();
        assert(o11_choices@.map_values(|c: (String, String)| (c.0@, c.1@)) =~= Seq::<(Seq<char>, Seq<char>)>::empty());
        let o11 = option(OptionKind::SubCommand, "end", "End a giveaway", false, o11_choices, o11_subs);
        let ghost m11 = option_model(o11);
        assert(m11 == OptionModel { kind: OptionKind::SubCommand, name: "end"@, description: "End a giveaway"@, required: false, choices: Seq::empty(), options: seq![
    OptionModel { kind: OptionKind::String, name: "id"@, description: "The message ID of the giveaway to delete"@, required: true, choices: Seq::empty(), options: Seq::empty() },
] });
        let o12_subs: Vec<OptionSpec> = Vec::new();
        assert(option_models(o12_subs@) =~= Seq::<OptionModel>::empty());
        let o12_choices: Vec<(String, String)> = Vec::new();
        assert(o12_choices@.map_values(|c: (String, String)| (c.0@, c.1@)) =~= Seq::<(Seq<char>, Seq<char>)>::empty());
        let o12 = option(OptionKind::String, "id", "The message ID of the giveaway to delete", true, o12_choices, o12_subs);
        let ghost m12 = option_model(o12);
        assert(m12 == OptionModel { kind: OptionKind::String, name: "id"@, description: "The message ID of the giveaway to delete"@, required: true, choices: Seq::empty(), options: Seq::empty() });
        let o13_subs = vec![o12];
        assert(option_models(o13_subs@) =~= seq![m12]);
        let o13_choices: Vec<(String, String)> = Vec::new();
        assert(o13_choices@.map_values(|c: (String, String)| (c.0@, c.1@)) =~= Seq::<(Seq<char>, Seq<char>)>::empty());
        let o13 = option(OptionKind::SubCommand, "delete", "Delete a giveaway", false, o13_choices, o13_subs);
        let ghost m13 = option_model(o13);
        assert(m13 == OptionModel { kind: OptionKind::SubCommand, name: "delete"@, description: "Delete a giveaway"@, required: false, choices: Seq::empty(), options: seq![
    OptionModel { kind: OptionKind::String, name: "id"@, description: "The message ID of the giveaway to delete"@, required: true, choices: Seq::empty(), options: Seq::empty() },
] });
        let top = vec![o6, o9, o11, o13];
        assert(option_models(top@) =~= seq![m6, m9, m11, m13]);
        let r = command("giveaway", "Giveaway commands", Some(false), top);
        assert(command_model(r) =~= giveaway_model());
        r
    }
}

/// What `/strike` registers.
pub open spec fn strike_model() -> CommandModel {
    CommandModel {
        name: "strike"@,
        description: "Strike a user in the server, effectively warning them"@,
        dm_permission: Some(false),
        options: seq![
            OptionModel { kind: OptionKind::User, name: "user"@, description: "The user to strike"@, required: true, choices: Seq::empty(), options: Seq::empty() },
            OptionModel { kind: OptionKind::String, name: "reason"@, description: "The reason for the strike"@, required: true, choices: Seq::empty(), options: Seq::empty() },
            OptionModel { kind: OptionKind::String, name: "duration"@, description: "The duration of the strike"@, required: false, choices: Seq::empty(), options: Seq::empty() },
        ],
    }
}

impl StrikeCommand {
    /// The command as registered; see `strike_model`.
    pub fn register(&self) -> (r: CommandSpec)
        ensures
            command_model(r) == strike_model(),
    {
        let o1_subs: Vec<OptionSpec> = Vec::new();
        assert(option_models(o1_subs@) =~= Seq::<OptionModel>::empty());
        let o1_choices: Vec<(String, String)> = Vec::new();
        assert(o1_choices@.map_values(|c: (String, String)| (c.0@, c.1@)) =~= Seq::<(Seq<char>, Seq<char>)>::empty());
        let o1 = option(OptionKind::User, "user", "The user to strike", true, o1_choices, o1_subs);
        let ghost m1 = option_model(o1);
        assert(m1 == OptionModel { kind: OptionKind::User, name: "user"@, description: "The user to strike"@, required: true, choices: Seq::empty(), options: Seq::empty() });
        let o2_subs: Vec<OptionSpec> = Vec::new();
        assert(option_models(o2_subs@) =~= Seq::<OptionModel>::empty());
        let o2_choices: Vec<(String, String)> = Vec::new();
        assert(o2_choices@.map_values(|c: (String, String)| (c.0@, c.1@)) =~= Seq::<(Seq<char>, Seq<char>)>::empty());
        let o2 = option(OptionKind::String, "reason", "The reason for the strike", true, o2_choices, o2_subs);
        let ghost m2 = option_model(o2);
        assert(m2 == OptionModel { kind: OptionKind::String, name: "reason"@, description: "The reason for the strike"@, required: true, choices: Seq::empty(), options: Seq::empty() });
        let o3_subs: Vec<OptionSpec> = Vec::new();
        assert(option_models(o3_subs@) =~= Seq::<OptionModel>::empty());
        let o3_choices: Vec<(String, String)> = Vec::new();
        assert(o3_choices@.map_values(|c: (String, String)| (c.0@, c.1@)) =~= Seq::<(Seq<char>, Seq<char>)>::empty());
        let o3 = option(OptionKind::String, "duration", "The duration of the strike", false, o3_choices, o3_subs);
        let ghost m3 = option_model(o3);
        assert(m3 == OptionModel { kind: OptionKind::String, name: "duration"@, description: "The duration of the strike"@, required: false, choices: Seq::empty(), options: Seq::empty() });
        let top = vec![o1, o2, o3];
        assert(option_models(top@) =~= seq![m1, m2, m3]);
        let r = command("strike", "Strike a user in the server, effectively warning them", Some(false), top);
        assert(command_model(r) =~= strike_model());
        r
    }
}

/// What `/kick` registers.
pub open spec fn kick_model() -> CommandModel {
    CommandModel {
        name: "kick"@,
        description: "Kick a user from the server"@,
        dm_permission: Some(false),
        options: seq![
            OptionModel { kind: OptionKind::User, name: "user"@, description: "The user to kick"@, required: true, choices: Seq::empty(), options: Seq::empty() },
            OptionModel { kind: OptionKind::String, name: "reason"@, description: "The reason for the kick"@, required: true, choices: Seq::empty(), options: Seq::empty() },
        ],
    }
}

impl KickCommand {
    /// The command as registered; see `kick_model`.
    pub fn register(&self) -> (r: CommandSpec)
        ensures
            command_model(r) == kick_model(),
    {
        let o1_subs: Vec<OptionSpec> = Vec::new();
        assert(option_models(o1_subs@) =~= Seq::<OptionModel>::empty());
        let o1_choices: Vec<(String, String)> = Vec::new();
        assert(o1_choices@.map_values(|c: (String, String)| (c.0@, c.1@)) =~= Seq::<(Seq<char>, Seq<char>)>::empty());
        let o1 = option(OptionKind::User, "user", "The user to kick", true, o1_choices, o1_subs);
        let ghost m1 = option_model(o1);
        assert(m1 == OptionModel { kind: OptionKind::User, name: "user"@, description: "The user to kick"@, required: true, choices: Seq::empty(), options: Seq::empty() });
        let o2_subs: Vec<OptionSpec> = Vec::new();
        assert(option_models(o2_subs@) =~= Seq::<OptionModel>::empty());
        let o2_choices: Vec<(String, String)> = Vec::new();
        assert(o2_choices@.map_values(|c: (String, String)| (c.0@, c.1@)) =~= Seq::<(Seq<char>, Seq<char>)>::empty());
        let o2 = option(OptionKind::String, "reason", "The reason for the kick", true, o2_choices, o2_subs);
        let ghost m2 = option_model(o2);
        assert(m2 == OptionModel { kind: OptionKind::String, name: "reason"@, description: "The reason for the kick"@, required: true, choices: Seq::empty(), options: Seq::empty() });
        let top = vec![o1, o2];
        assert(option_models(top@) =~= seq![m1, m2]);
        let r = command("kick", "Kick a user from the server", Some(false), top);
        assert(command_model(r) =~= kick_model());
        r
    }
}

/// What `/mute` registers.
pub open spec fn mute_model() -> CommandModel {
    CommandModel {
        name: "mute"@,
        description: "Mute a user from the server"@,
        dm_permission: Some(false),
        options: seq![
            OptionModel { kind: OptionKind::User, name: "user"@, description: "The user to mute"@, required: true, choices: Seq::empty(), options: Seq::empty() },
            OptionModel { kind: OptionKind::String, name: "reason"@, description: "The reason for the mute"@, required: true, choices: Seq::empty(), options: Seq::empty() },
            OptionModel { kind: OptionKind::String, name: "duration"@, description: "The duration of the mute"@, required: true, choices: Seq::empty(), options: Seq::empty() },
        ],
    }
}

impl MuteCommand {
    /// The command as registered; see `mute_model`.
    pub fn register(&self) -> (r: CommandSpec)
        ensures
            command_model(r) == mute_model(),
    {
        let o1_subs: Vec<OptionSpec> = Vec::new();
        assert(option_models(o1_subs@) =~= Seq::<OptionModel>::empty());
        let o1_choices: Vec<(String, String)> = Vec::new();
        assert(o1_choices@.map_values(|c: (String, String)| (c.0@, c.1@)) =~= Seq::<(Seq<char>, Seq<char>)>::empty());
        let o1 = option(OptionKind::User, "user", "The user to mute", true, o1_choices, o1_subs);
        let ghost m1 = option_model(o1);
        assert(m1 == OptionModel { kind: OptionKind::User, name: "user"@, description: "The user to mute"@, required: true, choices: Seq::empty(), options: Seq::empty() });
        let o2_subs: Vec<OptionSpec> = Vec::new();
        assert(option_models(o2_subs@) =~= Seq::<OptionModel>::empty());
        let o2_choices: Vec<(String, String)> = Vec::new();
        assert(o2_choices@.map_values(|c: (String, String)| (c.0@, c.1@)) =~= Seq::<(Seq<char>, Seq<char>)>::empty());
        let o2 = option(OptionKind::String, "reason", "The reason for the mute", true, o2_choices, o2_subs);
        let ghost m2 = option_model(o2);
        assert(m2 == OptionModel { kind: OptionKind::String, name: "reason"@, description: "The reason for the mute"@, required: true, choices: Seq::empty(), options: Seq::empty() });
        let o3_subs: Vec<OptionSpec> = Vec::new();
        assert(option_models(o3_subs@) =~= Seq::<OptionModel>::empty());
        let o3_choices: Vec<(String, String)> = Vec::new();
        assert(o3_choices@.map_values(|c: (String, String)| (c.0@, c.1@)) =~= Seq::<(Seq<char>, Seq<char>)>::empty());
        let o3 = option(OptionKind::String, "duration", "The duration of the mute", true, o3_choices, o3_subs);
        let ghost m3 = option_model(o3);
        assert(m3 == OptionModel { kind: OptionKind::String, name: "duration"@, description: "The duration of the mute"@, required: true, choices: Seq::empty(), options: Seq::empty() });
        let top = vec![o1, o2, o3];
        assert(option_models(top@) =~= seq![m1, m2, m3]);
        let r = command("mute", "Mute a user from the server", Some(false), top);
        assert(command_model(r) =~= mute_model());
        r
    }
}

/// What `/purge` registers.
pub open spec fn purge_model() -> CommandModel {
    CommandModel {
        name: "purge"@,
        description: "Purge multiple messages from a channel"@,
        dm_permission: Some(false),
        options: seq![
            OptionModel { kind: OptionKind::Integer, name: "count"@, description: "The amount of messages to delete"@, required: false, choices: Seq::empty(), options: Seq::empty() },
            OptionModel { kind: OptionKind::User, name: "author"@, description: "Specify a user to delete messages from"@, required: false, choices: Seq::empty(), options: Seq::empty() },
        ],
    }
}

impl PurgeCommand {
    /// The command as registered; see `purge_model`.
    pub fn register(&self) -> (r: CommandSpec)
        ensures
            command_model(r) == purge_model(),
    {
        let o1_subs: Vec<OptionSpec> = Vec::new();
        assert(option_models(o1_subs@) =~= Seq::<OptionModel>::empty());
        let o1_choices: Vec<(String, String)> = Vec::new();
        assert(o1_choices@.map_values(|c: (String, String)| (c.0@, c.1@)) =~= Seq::<(Seq<char>, Seq<char>)>::empty());
        let o1 = option(OptionKind::Integer, "count", "The amount of messages to delete", false, o1_choices, o1_subs);
        let ghost m1 = option_model(o1);
        assert(m1 == OptionModel { kind: OptionKind::Integer, name: "count"@, description: "The amount of messages to delete"@, required: false, choices: Seq::empty(), options: Seq::empty() });
        let o2_subs: Vec<OptionSpec> = Vec::new();
        assert(option_models(o2_subs@) =~= Seq::<OptionModel>::empty());
        let o2_choices: Vec<(String, String)> = Vec::new();
        assert(o2_choices@.map_values(|c: (String, String)| (c.0@, c.1@)) =~= Seq::<(Seq<char>, Seq<char>)>::empty());
        let o2 = option(OptionKind::User, "author", "Specify a user to delete messages from", false, o2_choices, o2_subs);
        let ghost m2 = option_model(o2);
        assert(m2 == OptionModel { kind: OptionKind::User, name: "author"@, description: "Specify a user to delete messages from"@, required: false, choices: Seq::empty(), options: Seq::empty() });
        let top = vec![o1, o2];
        assert(option_models(top@) =~= seq![m1, m2]);
        let r = command("purge", "Purge multiple messages from a channel", Some(false), top);
        assert(command_model(r) =~= purge_model());
        r
    }
}

/// What `/search` registers.
pub open spec fn search_model() -> CommandModel {
    CommandModel {
        name: "search"@,
        description: "Searches for moderation history"@,
        dm_permission: Some(false),
        options: seq![
            OptionModel { kind: OptionKind::User, name: "user"@, description: "The user to search"@, required: false, choices: Seq::empty(), options: Seq::empty() },
            OptionModel { kind: OptionKind::Boolean, name: "expired"@, description: "Whether to include expired actions"@, required: false, choices: Seq::empty(), options: Seq::empty() },
        ],
    }
}

impl SearchCommand {
    /// The command as registered; see `search_model`.
    pub fn register(&self) -> (r: CommandSpec)
        ensures
            command_model(r) == search_model(),
    {
        let o1_subs: Vec<OptionSpec> = Vec::new();
        assert(option_models(o1_subs@) =~= Seq::<OptionModel>::empty());
        let o1_choices: Vec<(String, String)> = Vec::new();
        assert(o1_choices@.map_values(|c: (String, String)| (c.0@, c.1@)) =~= Seq::<(Seq<char>, Seq<char>)>::empty());
        let o1 = option(OptionKind::User, "user", "The user to search", false, o1_choices, o1_subs);
        let ghost m1 = option_model(o1);
        assert(m1 == OptionModel { kind: OptionKind::User, name: "user"@, description: "The user to search"@, required: false, choices: Seq::empty(), options: Seq::empty() });
        let o2_subs: Vec<OptionSpec> = Vec::new();
        assert(option_models(o2_subs@) =~= Seq::<OptionModel>::empty());
        let o2_choices: Vec<(String, String)> = Vec::new();
        assert(o2_choices@.map_values(|c: (String, String)| (c.0@, c.1@)) =~= Seq::<(Seq<char>, Seq<char>)>::empty());
        let o2 = option(OptionKind::Boolean, "expired", "Whether to include expired actions", false, o2_choices, o2_subs);
        let ghost m2 = option_model(o2);
        assert(m2 == OptionModel { kind: OptionKind::Boolean, name: "expired"@, description: "Whether to include expired actions"@, required: false, choices: Seq::empty(), options: Seq::empty() });
        let top = vec![o1, o2];
        assert(option_models(top@) =~= seq![m1, m2]);
        let r = command("search", "Searches for moderation history", Some(false), top);
        assert(command_model(r) =~= search_model());
        r
    }
}

/// What `/duration` registers.
pub open spec fn duration_model() -> CommandModel {
    CommandModel {
        name: "duration"@,
        description: "Change the duration of a specified action"@,
        dm_permission: Some(false),
        options: seq![
            OptionModel { kind: OptionKind::String, name: "duration"@, description: "The new duration for this action"@, required: true, choices: Seq::empty(), options: Seq::empty() },
            OptionModel { kind: OptionKind::String, name: "uuid"@, description: "The UUID of the action"@, required: false, choices: Seq::empty(), options: Seq::empty() },
        ],
    }
}

impl DurationCommand {
    /// The command as registered; see `duration_model`.
    pub fn register(&self) -> (r: CommandSpec)
        ensures
            command_model(r) == duration_model(),
    {
        let o1_subs: Vec<OptionSpec> = Vec::new();
        assert(option_models(o1_subs@) =~= Seq::<OptionModel>::empty());
        let o1_choices: Vec<(String, String)> = Vec::new();
        assert(o1_choices@.map_values(|c: (String, String)| (c.0@, c.1@)) =~= Seq::<(Seq<char>, Seq<char>)>::empty());
        let o1 = option(OptionKind::String, "duration", "The new duration for this action", true, o1_choices, o1_subs);
        let ghost m1 = option_model(o1);
        assert(m1 == OptionModel { kind: OptionKind::String, name: "duration"@, description: "The new duration for this action"@, required: true, choices: Seq::empty(), options: Seq::empty() });
        let o2_subs: Vec<OptionSpec> = Vec::new();
        assert(option_models(o2_subs@) =~= Seq::<OptionModel>::empty());
        let o2_choices: Vec<(String, String)> = Vec::new();
        assert(o2_choices@.map_values(|c: (String, String)| (c.0@, c.1@)) =~= Seq::<(Seq<char>, Seq<char>)>::empty());
        let o2 = option(OptionKind::String, "uuid", "The UUID of the action", false, o2_choices, o2_subs);
        let ghost m2 = option_model(o2);
        assert(m2 == OptionModel { kind: OptionKind::String, name: "uuid"@, description: "The UUID of the action"@, required: false, choices: Seq::empty(), options: Seq::empty() });
        let top = vec![o1, o2];
        assert(option_models(top@) =~= seq![m1, m2]);
        let r = command("duration", "Change the duration of a specified action", Some(false), top);
        assert(command_model(r) =~= duration_model());
        r
    }
}

/// What `/expire` registers.
pub open spec fn expire_model() -> CommandModel {
    CommandModel {
        name: "expire"@,
        description: "Expire an action"@,
        dm_permission: Some(false),
        options: seq![
            OptionModel { kind: OptionKind::String, name: "uuid"@, description: "The UUID of the action"@, required: true, choices: Seq::empty(), options: Seq::empty() },
        ],
    }
}

impl ExpireCommand {
    /// The command as registered; see `expire_model`.
    pub fn register(&self) -> (r: CommandSpec)
        ensures
            command_model(r) == expire_model(),
    {
        let o1_subs: Vec<OptionSpec> = Vec::new();
        assert(option_models(o1_subs@) =~= Seq::<OptionModel>::empty());
        let o1_choices: Vec<(String, String)> = Vec::new();
        assert(o1_choices@.map_values(|c: (String, String)| (c.0@, c.1@)) =~= Seq::<(Seq<char>, Seq<char>)>::empty());
        let o1 = option(OptionKind::String, "uuid", "The UUID of the action", true, o1_choices, o1_subs);
        let ghost m1 = option_model(o1);
        assert(m1 == OptionModel { kind: OptionKind::String, name: "uuid"@, description: "The UUID of the action"@, required: true, choices: Seq::empty(), options: Seq::empty() });
        let top = vec![o1];
        assert(option_models(top@) =~= seq![m1]);
        let r = command("expire", "Expire an action", Some(false), top);
        assert(command_model(r) =~= expire_model());
        r
    }
}

/// What `/reason` registers.
pub open spec fn reason_model() -> CommandModel {
    CommandModel {
        name: "reason"@,
        description: "Change the reason of a specified action"@,
        dm_permission: Some(false),
        options: seq![
            OptionModel { kind: OptionKind::String, name: "uuid"@, description: "The UUID of the action"@, required: true, choices: Seq::empty(), options: Seq::empty() },
            OptionModel { kind: OptionKind::String, name: "reason"@, description: "The new reason for this action"@, required: true, choices: Seq::empty(), options: Seq::empty() },
        ],
    }
}

impl ReasonCommand {
    /// The command as registered; see `reason_model`.
    pub fn register(&self) -> (r: CommandSpec)
        ensures
            command_model(r) == reason_model(),
    {
        let o1_subs: Vec<OptionSpec> = Vec::new();
        assert(option_models(o1_subs@) =~= Seq::<OptionModel>::empty());
        let o1_choices: Vec<(String, String)> = Vec::new();
        assert(o1_choices@.map_values(|c: (String, String)| (c.0@, c.1@)) =~= Seq::<(Seq<char>, Seq<char>)>::empty());
        let o1 = option(OptionKind::String, "uuid", "The UUID of the action", true, o1_choices, o1_subs);
        let ghost m1 = option_model(o1);
        assert(m1 == OptionModel { kind: OptionKind::String, name: "uuid"@, description: "The UUID of the action"@, required: true, choices: Seq::empty(), options: Seq::empty() });
        let o2_subs: Vec<OptionSpec> = Vec::new();
        assert(option_models(o2_subs@) =~= Seq::<OptionModel>::empty());
        let o2_choices: Vec<(String, String)> = Vec::new();
        assert(o2_choices@.map_values(|c: (String, String)| (c.0@, c.1@)) =~= Seq::<(Seq<char>, Seq<char>)>::empty());
        let o2 = option(OptionKind::String, "reason", "The new reason for this action", true, o2_choices, o2_subs);
        let ghost m2 = option_model(o2);
        assert(m2 == OptionModel { kind: OptionKind::String, name: "reason"@, description: "The new reason for this action"@, required: true, choices: Seq::empty(), options: Seq::empty() });
        let top = vec![o1, o2];
        assert(option_models(top@) =~= seq![m1, m2]);
        let r = command("reason", "Change the reason of a specified action", Some(false), top);
        assert(command_model(r) =~= reason_model());
        r
    }
}

/// What `/remove` registers.
pub open spec fn remove_model() -> CommandModel {
    CommandModel {
        name: "remove"@,
        description: "Remove an action"@,
        dm_permission: Some(false),
        options: seq![
            OptionModel { kind: OptionKind::String, name: "uuid"@, description: "The UUID of the action"@, required: true, choices: Seq::empty(), options: Seq::empty() },
        ],
    }
}

impl RemoveCommand {
    /// The command as registered; see `remove_model`.
    pub fn register(&self) -> (r: CommandSpec)
        ensures
            command_model(r) == remove_model(),
    {
        let o1_subs: Vec<OptionSpec> = Vec::new();
        assert(option_models(o1_subs@) =~= Seq::<OptionModel>::empty());
        let o1_choices: Vec<(String, String)> = Vec::new();
        assert(o1_choices@.map_values(|c: (String, String)| (c.0@, c.1@)) =~= Seq::<(Seq<char>, Seq<char>)>::empty());
        let o1 = option(OptionKind::String, "uuid", "The UUID of the action", true, o1_choices, o1_subs);
        let ghost m1 = option_model(o1);
        assert(m1 == OptionModel { kind: OptionKind::String, name: "uuid"@, description: "The UUID of the action"@, required: true, choices: Seq::empty(), options: Seq::empty() });
        let top = vec![o1];
        assert(option_models(top@) =~= seq![m1]);
        let r = command("remove", "Remove an action", Some(false), top);
        assert(command_model(r) =~= remove_model());
        r
    }
}

/// What `/unban` registers.
pub open spec fn unban_model() -> CommandModel {
    CommandModel {
        name: "unban"@,
        description: "Unban a user from the server"@,
        dm_permission: Some(false),
        options: seq![
            OptionModel { kind: OptionKind::User, name: "user"@, description: "The user to unban"@, required: true, choices: Seq::empty(), options: Seq::empty() },
        ],
    }
}

impl UnbanCommand {
    /// The command as registered; see `unban_model`.
    pub fn register(&self) -> (r: CommandSpec)
        ensures
            command_model(r) == unban_model(),
    {
        let o1_subs: Vec<OptionSpec> = Vec::new();
        assert(option_models(o1_subs@) =~= Seq::<OptionModel>::empty());
        let o1_choices: Vec<(String, String)> = Vec::new();
        assert(o1_choices@.map_values(|c: (String, String)| (c.0@, c.1@)) =~= Seq::<(Seq<char>, Seq<char>)>::empty());
        let o1 = option(OptionKind::User, "user", "The user to unban", true, o1_choices, o1_subs);
        let ghost m1 = option_model(o1);
        assert(m1 == OptionModel { kind: OptionKind::User, name: "user"@, description: "The user to unban"@, required: true, choices: Seq::empty(), options: Seq::empty() });
        let top = vec![o1];
        assert(option_models(top@) =~= seq![m1]);
        let r = command("unban", "Unban a user from the server", Some(false), top);
        assert(command_model(r) =~= unban_model());
        r
    }
}

/// What `/unmute` registers.
pub open spec fn unmute_model() -> CommandModel {
    CommandModel {
        name: "unmute"@,
        description: "Unmute a user from the server"@,
        dm_permission: Some(false),
        options: seq![
            OptionModel { kind: OptionKind::User, name: "user"@, description: "The user to unmute"@, required: true, choices: Seq::empty(), options: Seq::empty() },
        ],
    }
}

impl UnmuteCommand {
    /// The command as registered; see `unmute_model`.
    pub fn register(&self) -> (r: CommandSpec)
        ensures
            command_model(r) == unmute_model(),
    {
        let o1_subs: Vec<OptionSpec> = Vec::new();
        assert(option_models(o1_subs@) =~= Seq::<OptionModel>::empty());
        let o1_choices: Vec<(String, String)> = Vec::new();
        assert(o1_choices@.map_values(|c: (String, String)| (c.0@, c.1@)) =~= Seq::<(Seq<char>, Seq<char>)>::empty());
        let o1 = option(OptionKind::User, "user", "The user to unmute", true, o1_choices, o1_subs);
        let ghost m1 = option_model(o1);
        assert(m1 == OptionModel { kind: OptionKind::User, name: "user"@, description: "The user to unmute"@, required: true, choices: Seq::empty(), options: Seq::empty() });
        let top = vec![o1];
        assert(option_models(top@) =~= seq![m1]);
        let r = command("unmute", "Unmute a user from the server", Some(false), top);
        assert(command_model(r) =~= unmute_model());
        r
    }
}

/// What `/permissions` registers.
pub open spec fn permissions_model() -> CommandModel {
    CommandModel {
        name: "permissions"@,
        description: "View and modify permissions for users and roles"@,
        dm_permission: Some(false),
        options: seq![
            OptionModel { kind: OptionKind::SubCommand, name: "user"@, description: "View and modify permissions for users"@, required: false, choices: Seq::empty(), options: seq![
                OptionModel { kind: OptionKind::User, name: "user"@, description: "The user to view or modify permissions for"@, required: true, choices: Seq::empty(), options: Seq::empty() },
            ] },
            OptionModel { kind: OptionKind::SubCommand, name: "role"@, description: "View and modify permissions for roles"@, required: false, choices: Seq::empty(), options: seq![
                OptionModel { kind: OptionKind::Role, name: "role"@, description: "The role to view or modify permissions for"@, required: true, choices: Seq::empty(), options: Seq::empty() },
            ] },
        ],
    }
}

impl PermissionsCommand {
    /// The command as registered; see `permissions_model`.
    pub fn register(&self) -> (r: CommandSpec)
        ensures
            command_model(r) == permissions_model(),
    {
        let o1_subs: Vec<OptionSpec> = Vec::new();
        assert(option_models(o1_subs@) =~= Seq::<OptionModel>::empty());
        let o1_choices: Vec<(String, String)> = Vec::new();
        assert(o1_choices@.map_values(|c: (String, String)| (c.0@, c.1@)) =~= Seq::<(Seq<char>, Seq<char>)>::empty());
        let o1 = option(OptionKind::User, "user", "The user to view or modify permissions for", true, o1_choices, o1_subs);
        let ghost m1 = option_model(o1);
        assert(m1 == OptionModel { kind: OptionKind::User, name: "user"@, description: "The user to view or modify permissions for"@, required: true, choices: Seq::empty(), options: Seq::empty() });
        let o2_subs = vec![o1];
        assert(option_models(o2_subs@) =~= seq![m1]);
        let o2_choices: Vec<(String, String)> = Vec::new();
        assert(o2_choices@.map_values(|c: (String, String)| (c.0@, c.1@)) =~= Seq::<(Seq<char>, Seq<char>)>::empty());
        let o2 = option(OptionKind::SubCommand, "user", "View and modify permissions for users", false, o2_choices, o2_subs);
        let ghost m2 = option_model(o2);
        assert(m2 == OptionModel { kind: OptionKind::SubCommand, name: "user"@, description: "View and modify permissions for users"@, required: false, choices: Seq::empty(), options: seq![
    OptionModel { kind: OptionKind::User, name: "user"@, description: "The user to view or modify permissions for"@, required: true, choices: Seq::empty(), options: Seq::empty() },
] });
        let o3_subs: Vec<OptionSpec> = Vec::new();
        assert(option_models(o3_subs@) =~= Seq::<OptionModel>::empty());
        let o3_choices: Vec<(String, String)> = Vec::new();
        assert(o3_choices@.map_values(|c: (String, String)| (c.0@, c.1@)) =~= Seq::<(Seq<char>, Seq<char>)>::empty());
        let o3 = option(OptionKind::Role, "role", "The role to view or modify permissions for", true, o3_choices, o3_subs);
        let ghost m3 = option_model(o3);
        assert(m3 == OptionModel { kind: OptionKind::Role, name: "role"@, description: "The role to view or modify permissions for"@, required: true, choices: Seq::empty(), options: Seq::empty() });
        let o4_subs = vec![o3];
        assert(option_models(o4_subs@) =~= seq![m3]);
        let o4_choices: Vec<(String, String)> = Vec::new();
        assert(o4_choices@.map_values(|c: (String, String)| (c.0@, c.1@)) =~= Seq::<(Seq<char>, Seq<char>)>::empty());
        let o4 = option(OptionKind::SubCommand, "role", "View and modify permissions for roles", false, o4_choices, o4_subs);
        let ghost m4 = option_model(o4);
        assert(m4 == OptionModel { kind: OptionKind::SubCommand, name: "role"@, description: "View and modify permissions for roles"@, required: false, choices: Seq::empty(), options: seq![
    OptionModel { kind: OptionKind::Role, name: "role"@, description: "The role to view or modify permissions for"@, required: true, choices: Seq::empty(), options: Seq::empty() },
] });
        let top = vec![o2, o4];
        assert(option_models(top@) =~= seq![m2, m4]);
        let r = command("permissions", "View and modify permissions for users and roles", Some(false), top);
        assert(command_model(r) =~= permissions_model());
        r
    }
}

/// What `/leaderboard` registers.
pub open spec fn leaderboard_model() -> CommandModel {
    CommandModel {
        name: "leaderboard"@,
        description: "View the leaderboard for this server"@,
        dm_permission: Some(false),
        options: Seq::empty(),
    }
}

impl LeaderboardCommand {
    /// The command as registered; see `leaderboard_model`.
    pub fn register(&self) -> (r: CommandSpec)
        ensures
            command_model(r) == leaderboard_model(),
    {
        let top: Vec<OptionSpec> = Vec::new();
        assert(option_models(top@) =~= Seq::<OptionModel>::empty());
        let r = command("leaderboard", "View the leaderboard for this server", Some(false), top);
        assert(command_model(r) =~= leaderboard_model());
        r
    }
}

/// What `/level` registers.
pub open spec fn level_model() -> CommandModel {
    CommandModel {
        name: "level"@,
        description: "Set, reset or add to someone's level"@,
        dm_permission: Some(false),
        options: Seq::empty(),
    }
}

impl LevelCommand {
    /// The command as registered; see `level_model`.
    pub fn register(&self) -> (r: CommandSpec)
        ensures
            command_model(r) == level_model(),
    {
        let top: Vec<OptionSpec> = Vec::new();
        assert(option_models(top@) =~= Seq::<OptionModel>::empty());
        let r = command("level", "Set, reset or add to someone's level", Some(false), top);
        assert(command_model(r) =~= level_model());
        r
    }
}

/// What `/rank` registers.
pub open spec fn rank_model() -> CommandModel {
    CommandModel {
        name: "rank"@,
        description: "Get your current level and rank in the server"@,
        dm_permission: Some(false),
        options: Seq::empty(),
    }
}

impl RankCommand {
    /// The command as registered; see `rank_model`.
    pub fn register(&self) -> (r: CommandSpec)
        ensures
            command_model(r) == rank_model(),
    {
        let top: Vec<OptionSpec> = Vec::new();
        assert(option_models(top@) =~= Seq::<OptionModel>::empty());
        let r = command("rank", "Get your current level and rank in the server", Some(false), top);
        assert(command_model(r) =~= rank_model());
        r
    }
}

/// What `/xp` registers.
pub open spec fn xp_model() -> CommandModel {
    CommandModel {
        name: "xp"@,
        description: "Set, reset, or add to someone's XP"@,
        dm_permission: Some(false),
        options: seq![
            OptionModel { kind: OptionKind::SubCommand, name: "set"@, description: "Set someone's XP"@, required: false, choices: Seq::empty(), options: seq![
                OptionModel { kind: OptionKind::User, name: "user"@, description: "The user who's XP to set"@, required: true, choices: Seq::empty(), options: Seq::empty() },
                OptionModel { kind: OptionKind::Integer, name: "xp"@, description: "The XP to set"@, required: true, choices: Seq::empty(), options: Seq::empty() },
            ] },
            OptionModel { kind: OptionKind::SubCommand, name: "reset"@, description: "Reset someone's XP"@, required: false, choices: Seq::empty(), options: seq![
                OptionModel { kind: OptionKind::User, name: "user"@, description: "The user who's XP to reset"@, required: true, choices: Seq::empty(), options: Seq::empty() },
            ] },
            OptionModel { kind: OptionKind::SubCommand, name: "add"@, description: "Add to someone's XP"@, required: false, choices: Seq::empty(), options: seq![
                OptionModel { kind: OptionKind::User, name: "user"@, description: "The user who's XP to add to"@, required: true, choices: Seq::empty(), options: Seq::empty() },
                OptionModel { kind: OptionKind::Integer, name: "xp"@, description: "The XP to add"@, required: true, choices: Seq::empty(), options: Seq::empty() },
            ] },
        ],
    }
}

impl XPCommand {
    /// The command as registered; see `xp_model`.
    pub fn register(&self) -> (r: CommandSpec)
        ensures
            command_model(r) == xp_model(),
    {
        let o1_subs: Vec<OptionSpec> = Vec::new();
        assert(option_models(o1_subs@) =~= Seq::<OptionModel>::empty());
        let o1_choices: Vec<(String, String)> = Vec::new();
        assert(o1_choices@.map_values(|c: (String, String)| (c.0@, c.1@)) =~= Seq::<(Seq<char>, Seq<char>)>::empty());
        let o1 = option(OptionKind::User, "user", "The user who's XP to set", true, o1_choices, o1_subs);
        let ghost m1 = option_model(o1);
        assert(m1 == OptionModel { kind: OptionKind::User, name: "user"@, description: "The user who's XP to set"@, required: true, choices: Seq::empty(), options: Seq::empty() });
        let o2_subs: Vec<OptionSpec> = Vec::new();
        assert(option_models(o2_subs@) =~= Seq::<OptionModel>::empty());
        let o2_choices: Vec<(String, String)> = Vec::new();
        assert(o2_choices@.map_values(|c: (String, String)| (c.0@, c.1@)) =~= Seq::<(Seq<char>, Seq<char>)>::empty());
        let o2 = option(OptionKind::Integer, "xp", "The XP to set", true, o2_choices, o2_subs);
        let ghost m2 = option_model(o2);
        assert(m2 == OptionModel { kind: OptionKind::Integer, name: "xp"@, description: "The XP to set"@, required: true, choices: Seq::empty(), options: Seq::empty() });
        let o3_subs = vec![o1, o2];
        assert(option_models(o3_subs@) =~= seq![m1, m2]);
        let o3_choices: Vec<(String, String)> = Vec::new();
        assert(o3_choices@.map_values(|c: (String, String)| (c.0@, c.1@)) =~= Seq::<(Seq<char>, Seq<char>)>::empty());
        let o3 = option(OptionKind::SubCommand, "set", "Set someone's XP", false, o3_choices, o3_subs);
        let ghost m3 = option_model(o3);
        assert(m3 == OptionModel { kind: OptionKind::SubCommand, name: "set"@, description: "Set someone's XP"@, required: false, choices: Seq::empty(), options: seq![
    OptionModel { kind: OptionKind::User, name: "user"@, description: "The user who's XP to set"@, required: true, choices: Seq::empty(), options: Seq::empty() },
    OptionModel { kind: OptionKind::Integer, name: "xp"@, description: "The XP to set"@, required: true, choices: Seq::empty(), options: Seq::empty() },
] });
        let o4_subs: Vec<OptionSpec> = Vec::new();
        assert(option_models(o4_subs@) =~= Seq::<OptionModel>::empty());
        let o4_choices: Vec<(String, String)> = Vec::new();
        assert(o4_choices@.map_values(|c: (String, String)| (c.0@, c.1@)) =~= Seq::<(Seq<char>, Seq<char>)>::empty());
        let o4 = option(OptionKind::User, "user", "The user who's XP to reset", true, o4_choices, o4_subs);
        let ghost m4 = option_model(o4);
        assert(m4 == OptionModel { kind: OptionKind::User, name: "user"@, description: "The user who's XP to reset"@, required: true, choices: Seq::empty(), options: Seq::empty() });
        let o5_subs = vec![o4];
        assert(option_models(o5_subs@) =~= seq![m4]);
        let o5_choices: Vec<(String, String)> = Vec::new();
        assert(o5_choices@.map_values(|c: (String, String)| (c.0@, c.1@)) =~= Seq::<(Seq<char>, Seq<char>)>::empty());
        let o5 = option(OptionKind::SubCommand, "reset", "Reset someone's XP", false, o5_choices, o5_subs);
        let ghost m5 = option_model(o5);
        assert(m5 == OptionModel { kind: OptionKind::SubCommand, name: "reset"@, description: "Reset someone's XP"@, required: false, choices: Seq::empty(), options: seq![
    OptionModel { kind: OptionKind::User, name: "user"@, description: "The user who's XP to reset"@, required: true, choices: Seq::empty(), options: Seq::empty() },
] });
        let o6_subs: Vec<OptionSpec> = Vec::new();
        assert(option_models(o6_subs@) =~= Seq::<OptionModel>::empty());
        let o6_choices: Vec<(String, String)> = Vec::new();
        assert(o6_choices@.map_values(|c: (String, String)| (c.0@, c.1@)) =~= Seq::<(Seq<char>, Seq<char>)>::empty());
        let o6 = option(OptionKind::User, "user", "The user who's XP to add to", true, o6_choices, o6_subs);
        let ghost m6 = option_model(o6);
        assert(m6 == OptionModel { kind: OptionKind::User, name: "user"@, description: "The user who's XP to add to"@, required: true, choices: Seq::empty(), options: Seq::empty() });
        let o7_subs: Vec<OptionSpec> = Vec::new();
        assert(option_models(o7_subs@) =~= Seq::<OptionModel>::empty());
        let o7_choices: Vec<(String, String)> = Vec::new();
        assert(o7_choices@.map_values(|c: (String, String)| (c.0@, c.1@)) =~= Seq::<(Seq<char>, Seq<char>)>::empty());
        let o7 = option(OptionKind::Integer, "xp", "The XP to add", true, o7_choices, o7_subs);
        let ghost m7 = option_model(o7);
        assert(m7 == OptionModel { kind: OptionKind::Integer, name: "xp"@, description: "The XP to add"@, required: true, choices: Seq::empty(), options: Seq::empty() });
        let o8_subs = vec![o6, o7];
        assert(option_models(o8_subs@) =~= seq![m6, m7]);
        let o8_choices: Vec<(String, String)> = Vec::new();
        assert(o8_choices@.map_values(|c: (String, String)| (c.0@, c.1@)) =~= Seq::<(Seq<char>, Seq<char>)>::empty());
        let o8 = option(OptionKind::SubCommand, "add", "Add to someone's XP", false, o8_choices, o8_subs);
        let ghost m8 = option_model(o8);
        assert(m8 == OptionModel { kind: OptionKind::SubCommand, name: "add"@, description: "Add to someone's XP"@, required: false, choices: Seq::empty(), options: seq![
    OptionModel { kind: OptionKind::User, name: "user"@, description: "The user who's XP to add to"@, required: true, choices: Seq::empty(), options: Seq::empty() },
    OptionModel { kind: OptionKind::Integer, name: "xp"@, description: "The XP to add"@, required: true, choices: Seq::empty(), options: Seq::empty() },
] });
        let top = vec![o3, o5, o8];
        assert(option_models(top@) =~= seq![m3, m5, m8]);
        let r = command("xp", "Set, reset, or add to someone's XP", Some(false), top);
        assert(command_model(r) =~= xp_model());
        r
    }
}

/// What `/info` registers.
pub open spec fn info_model() -> CommandModel {
    CommandModel {
        name: "info"@,
        description: "Get information about the bot"@,
        dm_permission: None,
        options: Seq::empty(),
    }
}

impl InfoCommand {
    /// The command as registered; see `info_model`.
    pub fn register(&self) -> (r: CommandSpec)
        ensures
            command_model(r) == info_model(),
    {
        let top: Vec<OptionSpec> = Vec::new();
        assert(option_models(top@) =~= Seq::<OptionModel>::empty());
        let r = command("info", "Get information about the bot", None, top);
        assert(command_model(r) =~= info_model());
        r
    }
}

/// What `/privacy` registers.
pub open spec fn privacy_model() -> CommandModel {
    CommandModel {
        name: "privacy"@,
        description: "Get Reaper's Privacy Policy"@,
        dm_permission: None,
        options: Seq::empty(),
    }
}

impl PrivacyCommand {
    /// The command as registered; see `privacy_model`.
    pub fn register(&self) -> (r: CommandSpec)
        ensures
            command_model(r) == privacy_model(),
    {
        let top: Vec<OptionSpec> = Vec::new();
        assert(option_models(top@) =~= Seq::<OptionModel>::empty());
        let r = command("privacy", "Get Reaper's Privacy Policy", None, top);
        assert(command_model(r) =~= privacy_model());
        r
    }
}

/// What `/fail` registers.
pub open spec fn fail_model() -> CommandModel {
    CommandModel {
        name: "fail"@,
        description: "A command that always fails"@,
        dm_permission: None,
        options: Seq::empty(),
    }
}

impl FailCommand {
    /// The command as registered; see `fail_model`.
    pub fn register(&self) -> (r: CommandSpec)
        ensures
            command_model(r) == fail_model(),
    {
        let top: Vec<OptionSpec> = Vec::new();
        assert(option_models(top@) =~= Seq::<OptionModel>::empty());
        let r = command("fail", "A command that always fails", None, top);
        assert(command_model(r) =~= fail_model());
        r
    }
}

} // verus!
