//! The `/config` wizard: a run of stages, each asking one question. A
//! stage answers with the number of following stages to skip (`Ok(None)`
//! moves on to the next one) or with an error, and lists the settings it
//! writes.

use vstd::prelude::*;
use crate::numbers::{parse_i32, signed_from_str};

pub mod logging;
pub mod moderation;
pub mod role_recovery;
pub mod xp;

verus! {

/// What went wrong in a stage; each has the title and explanation the
/// user is shown.
#[derive(Clone, Copy, Debug, PartialEq, Eq, Structural)]
pub enum ConfigIssue {
    InvalidOption,
    TimedOut,
    InvalidMinimumXp,
    InvalidXp,
    InvalidCooldown,
    InvalidMaxLevel,
    InvalidMultiplierCap,
    InvalidMessage,
    InvalidDuration,
    InvalidStrikeCount,
    DuplicateStrikeCount,
    StrikeCountTooLow,
    InvalidEscalation,
    NoChannelSelected,
    NoRoleSelected,
    ChannelAlreadyAdded,
    ChannelBoosted,
    ChannelNotAdded,
    RoleAlreadyAdded,
    RoleBoosted,
    RoleNotAdded,
}

impl ConfigIssue {
    /// The title of the error message.
    pub open spec fn spec_title(self) -> Seq<char> {
        match self {
            ConfigIssue::InvalidOption => "Invalid option"@,
            ConfigIssue::TimedOut => "Time out"@,
            ConfigIssue::InvalidMinimumXp => "Invalid minimum XP"@,
            ConfigIssue::InvalidXp => "Invalid XP"@,
            ConfigIssue::InvalidCooldown => "Invalid cooldown"@,
            ConfigIssue::InvalidMaxLevel => "Invalid max level"@,
            ConfigIssue::InvalidMultiplierCap => "Invalid multiplier cap"@,
            ConfigIssue::InvalidMessage => "Invalid message"@,
            ConfigIssue::InvalidDuration => "Invalid duration"@,
            ConfigIssue::InvalidStrikeCount => "Invalid strike count"@,
            ConfigIssue::DuplicateStrikeCount => "Invalid strike count"@,
            ConfigIssue::StrikeCountTooLow => "Invalid strike count"@,
            ConfigIssue::InvalidEscalation => "Invalid escalation"@,
            ConfigIssue::NoChannelSelected => "No channel selected"@,
            ConfigIssue::NoRoleSelected => "No role selected"@,
            ConfigIssue::ChannelAlreadyAdded => "Cannot add channel"@,
            ConfigIssue::ChannelBoosted => "Cannot add channel"@,
            ConfigIssue::ChannelNotAdded => "Cannot remove channel"@,
            ConfigIssue::RoleAlreadyAdded => "Cannot add role"@,
            ConfigIssue::RoleBoosted => "Cannot add role"@,
            ConfigIssue::RoleNotAdded => "Cannot remove role"@,
        }
    }

    /// The title of the error message; see `spec_title`.
    pub fn title(&self) -> (r: &'static str)
        ensures
            r@ == self.spec_title(),
    {
        match self {
            ConfigIssue::InvalidOption => "Invalid option",
            ConfigIssue::TimedOut => "Time out",
            ConfigIssue::InvalidMinimumXp => "Invalid minimum XP",
            ConfigIssue::InvalidXp => "Invalid XP",
            ConfigIssue::InvalidCooldown => "Invalid cooldown",
            ConfigIssue::InvalidMaxLevel => "Invalid max level",
            ConfigIssue::InvalidMultiplierCap => "Invalid multiplier cap",
            ConfigIssue::InvalidMessage => "Invalid message",
            ConfigIssue::InvalidDuration => "Invalid duration",
            ConfigIssue::InvalidStrikeCount => "Invalid strike count",
            ConfigIssue::DuplicateStrikeCount => "Invalid strike count",
            ConfigIssue::StrikeCountTooLow => "Invalid strike count",
            ConfigIssue::InvalidEscalation => "Invalid escalation",
            ConfigIssue::NoChannelSelected => "No channel selected",
            ConfigIssue::NoRoleSelected => "No role selected",
            ConfigIssue::ChannelAlreadyAdded => "Cannot add channel",
            ConfigIssue::ChannelBoosted => "Cannot add channel",
            ConfigIssue::ChannelNotAdded => "Cannot remove channel",
            ConfigIssue::RoleAlreadyAdded => "Cannot add role",
            ConfigIssue::RoleBoosted => "Cannot add role",
            ConfigIssue::RoleNotAdded => "Cannot remove role",
        }
    }

    /// The explanation under the title.
    pub open spec fn spec_detail(self) -> Seq<char> {
        match self {
            ConfigIssue::InvalidOption => "Please select a valid option."@,
            ConfigIssue::TimedOut => "We didn't get a response in time. Please try again."@,
            ConfigIssue::InvalidMinimumXp => "Please enter a valid minimum XP."@,
            ConfigIssue::InvalidXp => "Please enter a valid XP."@,
            ConfigIssue::InvalidCooldown => "Please enter a valid cooldown."@,
            ConfigIssue::InvalidMaxLevel => "Please enter a valid max level."@,
            ConfigIssue::InvalidMultiplierCap => "Please enter a valid multiplier cap."@,
            ConfigIssue::InvalidMessage => "Please enter a valid message."@,
            ConfigIssue::InvalidDuration => "Please enter a valid duration."@,
            ConfigIssue::InvalidStrikeCount => "Please enter a valid strike count."@,
            ConfigIssue::DuplicateStrikeCount => "You cannot enter a duplicate strike count."@,
            ConfigIssue::StrikeCountTooLow => "You cannot enter a strike count below 0."@,
            ConfigIssue::InvalidEscalation => "Please select a valid escalation."@,
            ConfigIssue::NoChannelSelected => "Please select a channel."@,
            ConfigIssue::NoRoleSelected => "Please select a role."@,
            ConfigIssue::ChannelAlreadyAdded => "This channel is already added, you cannot add it again."@,
            ConfigIssue::ChannelBoosted => "This channel is currently boosted, you cannot blacklist a boosted channel."@,
            ConfigIssue::ChannelNotAdded => "This channel is not added, you cannot remove it."@,
            ConfigIssue::RoleAlreadyAdded => "This role is already added, you cannot add it again."@,
            ConfigIssue::RoleBoosted => "This role is currently boosted, you cannot blacklist a boosted role."@,
            ConfigIssue::RoleNotAdded => "This role is not added, you cannot remove it."@,
        }
    }

    /// The explanation under the title; see `spec_detail`.
    pub fn detail(&self) -> (r: &'static str)
        ensures
            r@ == self.spec_detail(),
    {
        match self {
            ConfigIssue::InvalidOption => "Please select a valid option.",
            ConfigIssue::TimedOut => "We didn't get a response in time. Please try again.",
            ConfigIssue::InvalidMinimumXp => "Please enter a valid minimum XP.",
            ConfigIssue::InvalidXp => "Please enter a valid XP.",
            ConfigIssue::InvalidCooldown => "Please enter a valid cooldown.",
            ConfigIssue::InvalidMaxLevel => "Please enter a valid max level.",
            ConfigIssue::InvalidMultiplierCap => "Please enter a valid multiplier cap.",
            ConfigIssue::InvalidMessage => "Please enter a valid message.",
            ConfigIssue::InvalidDuration => "Please enter a valid duration.",
            ConfigIssue::InvalidStrikeCount => "Please enter a valid strike count.",
            ConfigIssue::DuplicateStrikeCount => "You cannot enter a duplicate strike count.",
            ConfigIssue::StrikeCountTooLow => "You cannot enter a strike count below 0.",
            ConfigIssue::InvalidEscalation => "Please select a valid escalation.",
            ConfigIssue::NoChannelSelected => "Please select a channel.",
            ConfigIssue::NoRoleSelected => "Please select a role.",
            ConfigIssue::ChannelAlreadyAdded => "This channel is already added, you cannot add it again.",
            ConfigIssue::ChannelBoosted => "This channel is currently boosted, you cannot blacklist a boosted channel.",
            ConfigIssue::ChannelNotAdded => "This channel is not added, you cannot remove it.",
            ConfigIssue::RoleAlreadyAdded => "This role is already added, you cannot add it again.",
            ConfigIssue::RoleBoosted => "This role is currently boosted, you cannot blacklist a boosted role.",
            ConfigIssue::RoleNotAdded => "This role is not added, you cannot remove it.",
        }
    }
}

/// A stage's failure, and how many stages the wizard skips because of it
/// (`Some(100)` ends the wizard).
#[derive(Clone, Copy, Debug, PartialEq, Eq, Structural)]
pub struct ConfigError {
    pub error: ConfigIssue,
    pub stages_to_skip: Option<usize>,
}

/// A failure that leaves the wizard where it is.
pub open spec fn issue(i: ConfigIssue) -> ConfigError {
    ConfigError { error: i, stages_to_skip: None }
}

/// The answer to a choice the stage does not offer.
pub fn invalid_option() -> (r: ConfigError)
    ensures
        r == issue(ConfigIssue::InvalidOption),
{
    ConfigError { error: ConfigIssue::InvalidOption, stages_to_skip: None }
}

/// The answer when no choice came in time: the wizard ends.
pub open spec fn spec_timed_out() -> ConfigError {
    ConfigError { error: ConfigIssue::TimedOut, stages_to_skip: Some(100) }
}

/// The answer when no choice came in time; see `spec_timed_out`.
pub fn timed_out() -> (r: ConfigError)
    ensures
        r == spec_timed_out(),
{
    ConfigError { error: ConfigIssue::TimedOut, stages_to_skip: Some(100) }
}

/// A setting the wizard writes.
#[derive(Clone, Debug, PartialEq, Eq)]
pub enum ConfigWrite {
    LogVoice(bool),
    LogMessages(bool),
    LogActions(bool),
    LogVoiceChannel(i64),
    LogMessageChannel(i64),
    LogActionChannel(i64),
    /// One channel for every log; clears the per-kind channels.
    SingleLogChannel(i64),
    /// Clears the single log channel.
    ClearSingleLogChannel,
    DefaultStrikeDuration(String),
    MuteRole(i64),
    RoleRecovery(bool),
    /// Creates the server's levelling settings.
    CreateXpConfiguration,
    /// Random XP per message: sets the minimum and clears the fixed amount.
    MinXp(i32),
    MaxXp(i32),
    /// A fixed XP per message: clears the minimum and maximum.
    FixedXp(i32),
    MessageCooldown(i32),
    MaxLevel(Option<i32>),
    StackRewards(bool),
    /// `false` also clears the multiplier cap.
    StackMultipliers(bool),
    MultiplierCap(Option<i32>),
    ResetLevelOnLeave(bool),
    /// Creates the server's level-up message settings.
    CreateLevelUpSettings,
    LevelUpEnabled(bool),
    /// `true` also clears the level-up channel.
    LevelUpDirectMessage(bool),
    LevelUpChannel(Option<i64>),
    LevelUpMessage(String),
}

/// What a stage does once it has its answer: the settings it writes, in
/// order, and its result.
#[derive(Debug)]
pub struct StageStep {
    pub writes: Vec<ConfigWrite>,
    pub result: Result<Option<usize>, ConfigError>,
}

/// A step that writes nothing.
pub fn step(result: Result<Option<usize>, ConfigError>) -> (r: StageStep)
    ensures
        r.writes@ == Seq::<ConfigWrite>::empty(),
        r.result == result,
{
    let writes: Vec<ConfigWrite> = Vec::new();
    assert(writes@ =~= Seq::<ConfigWrite>::empty());
    StageStep { writes, result }
}

/// A step that writes one setting.
pub fn step_writing(write: ConfigWrite, result: Result<Option<usize>, ConfigError>) -> (r: StageStep)
    ensures
        r.writes@ == seq![write],
        r.result == result,
{
    let mut writes = Vec::new();
    writes.push(write);
    StageStep { writes, result }
}


/// What a stage with a form does after a click.
#[derive(Debug)]
pub enum FormStageStep {
    /// The form is shown.
    AskForm,
    /// The stage ends with this step.
    Done(StageStep),
}

/// Whether a click step ends the stage with these writes and result.
pub open spec fn ends_with_step(r: FormStageStep, writes: Seq<ConfigWrite>, result: Result<Option<usize>, ConfigError>) -> bool {
    match r {
        FormStageStep::Done(s) => s.writes@ == writes && s.result == result,
        _ => false,
    }
}

/// A whole number in `i32` of at least `min`, as typed into a form.
pub open spec fn number_at_least(t: Seq<char>, min: int) -> Option<i32> {
    match signed_from_str(t, i32::MIN as int, i32::MAX as int) {
        Some(v) => if v >= min { Some(v as i32) } else { None },
        None => None,
    }
}

/// Reads a whole number of at least `min` from a form field.
pub fn read_number(t: &String, min: i32) -> (r: Option<i32>)
    ensures
        r == number_at_least(t@, min as int),
{
    match parse_i32(t.as_str()) {
        Some(v) => if v >= min { Some(v) } else { None },
        None => None,
    }
}

/// Opens the configuration wizard.
#[derive(Debug)]
pub struct ConfigCommand;

/// Where the wizard starts.
#[derive(Clone, Copy, Debug, PartialEq, Eq, Structural)]
pub enum ConfigStart {
    /// The moderation questions, from the beginning.
    ModerationEnter,
    /// The last moderation question.
    ModerationFooter,
    /// The logging categories, none chosen yet.
    LoggingCategories,
    /// The levelling question between random and fixed XP.
    XpRandomOrSet,
    /// The role recovery question.
    RoleRecovery,
}

/// Where the wizard starts for the category chosen: moderation,
/// logging, levelling and role recovery (the four categories the command
/// offers) each have their place; any other category, and no category,
/// start from the beginning.
pub open spec fn config_start(category: Option<Seq<char>>) -> ConfigStart {
    match category {
        Some(c) => if c == "moderation"@ {
            ConfigStart::ModerationFooter
        } else if c == "logging"@ {
            ConfigStart::LoggingCategories
        } else if c == "xp"@ {
            ConfigStart::XpRandomOrSet
        } else if c == "role_recovery"@ {
            ConfigStart::RoleRecovery
        } else {
            ConfigStart::ModerationEnter
        },
        None => ConfigStart::ModerationEnter,
    }
}

impl ConfigCommand {
    /// The command's name.
    pub fn name(&self) -> (r: &'static str)
        ensures
            r@ == "config"@,
    {
        "config"
    }

    /// The permission the command needs.
    pub fn required_permission(&self) -> (r: Option<crate::permissions::Permission>)
        ensures
            r == Some(crate::permissions::Permission::ConfigEdit),
    {
        Some(crate::permissions::Permission::ConfigEdit)
    }

    /// Where the wizard starts (see `config_start`), and whether only the
    /// chosen category is configured (when one was chosen).
    pub fn start(&self, category: &Option<String>) -> (r: (ConfigStart, bool))
        ensures
            r.0 == config_start(match category { Some(c) => Some(c@), None => None }),
            r.1 == category.is_some(),
    {
        match category {
            Some(c) => {
                let c = c.as_str();
                let start = if crate::text::str_eq(c, "moderation") {
                    ConfigStart::ModerationFooter
                } else if crate::text::str_eq(c, "logging") {
                    ConfigStart::LoggingCategories
                } else if crate::text::str_eq(c, "xp") {
                    ConfigStart::XpRandomOrSet
                } else if crate::text::str_eq(c, "role_recovery") {
                    ConfigStart::RoleRecovery
                } else {
                    ConfigStart::ModerationEnter
                };
                (start, true)
            },
            None => (ConfigStart::ModerationEnter, false),
        }
    }
}

} // verus!
