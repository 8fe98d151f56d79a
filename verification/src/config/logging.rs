//! The logging stages of the wizard.

use vstd::prelude::*;
use crate::interaction::{ComponentData, Interaction};
use crate::text::str_eq;
use super::{ConfigError, ConfigIssue, ConfigWrite, StageStep, invalid_option, issue, spec_timed_out,
    step, step_writing, timed_out};

verus! {

/// How a stage that asks for a log channel answers: `Some(..)` for the
/// stage's menu, `cancel` moves on (skipping `cancel_skip` stages, when
/// some), anything else is refused.
pub open spec fn channel_stage_answer(
    reply: Option<Interaction>,
    menu: Seq<char>,
    cancel_skip: Option<usize>,
    chosen: spec_fn(i64) -> ConfigWrite,
    chosen_result: Result<Option<usize>, ConfigError>,
    writes: Seq<ConfigWrite>,
    result: Result<Option<usize>, ConfigError>,
) -> bool {
    match reply {
        None => writes.len() == 0 && result == Err::<Option<usize>, ConfigError>(spec_timed_out()),
        Some(i) => if i.custom_id@ == menu {
            match i.data {
                ComponentData::ChannelSelect(cs) => writes == seq![chosen(cs@[0])] && result == chosen_result,
                _ => writes.len() == 0 && result == Err::<Option<usize>, ConfigError>(issue(ConfigIssue::InvalidOption)),
            }
        } else if i.custom_id@ == "cancel"@ {
            writes.len() == 0 && result == Ok::<Option<usize>, ConfigError>(cancel_skip)
        } else {
            writes.len() == 0 && result == Err::<Option<usize>, ConfigError>(issue(ConfigIssue::InvalidOption))
        },
    }
}

/// The channel menu holds at least one channel whenever it is the answer.
pub open spec fn menu_has_channel(reply: Option<Interaction>, menu: Seq<char>) -> bool {
    match reply {
        Some(i) => i.custom_id@ == menu ==> match i.data {
            ComponentData::ChannelSelect(cs) => cs@.len() > 0,
            _ => true,
        },
        None => true,
    }
}

fn channel_answer(reply: Option<&Interaction>, menu: &str, cancel_skip: Option<usize>, kind: u8, chosen_result: Result<Option<usize>, ConfigError>) -> (r: StageStep)
    requires
        kind < 4,
        menu_has_channel(match reply { Some(i) => Some(*i), None => None }, menu@),
    ensures
        channel_stage_answer(
            match reply { Some(i) => Some(*i), None => None },
            menu@,
            cancel_skip,
            |c: i64| if kind == 0 {
                ConfigWrite::LogVoiceChannel(c)
            } else if kind == 1 {
                ConfigWrite::LogMessageChannel(c)
            } else if kind == 2 {
                ConfigWrite::LogActionChannel(c)
            } else {
                ConfigWrite::SingleLogChannel(c)
            },
            chosen_result,
            r.writes@,
            r.result,
        ),
{
    match reply {
        None => step(Err(timed_out())),
        Some(i) => {
            if str_eq(i.custom_id.as_str(), menu) {
                match &i.data {
                    ComponentData::ChannelSelect(cs) => {
                        let c = cs[0];
                        let w = if kind == 0 {
                            ConfigWrite::LogVoiceChannel(c)
                        } else if kind == 1 {
                            ConfigWrite::LogMessageChannel(c)
                        } else if kind == 2 {
                            ConfigWrite::LogActionChannel(c)
                        } else {
                            ConfigWrite::SingleLogChannel(c)
                        };
                        step_writing(w, chosen_result)
                    },
                    _ => step(Err(invalid_option())),
                }
            } else if str_eq(i.custom_id.as_str(), "cancel") {
                step(Ok(cancel_skip))
            } else {
                step(Err(invalid_option()))
            }
        },
    }
}

/// How a yes/no stage answers: `yes` and `no` lead to `on_yes` and
/// `on_no`, anything else is refused.
pub open spec fn yes_no_answer(
    reply: Option<Seq<char>>,
    on_yes: (Seq<ConfigWrite>, Result<Option<usize>, ConfigError>),
    on_no: (Seq<ConfigWrite>, Result<Option<usize>, ConfigError>),
    writes: Seq<ConfigWrite>,
    result: Result<Option<usize>, ConfigError>,
) -> bool {
    match reply {
        None => writes.len() == 0 && result == Err::<Option<usize>, ConfigError>(spec_timed_out()),
        Some(id) => if id == "yes"@ {
            (writes, result) == on_yes
        } else if id == "no"@ {
            (writes, result) == on_no
        } else {
            writes.len() == 0 && result == Err::<Option<usize>, ConfigError>(issue(ConfigIssue::InvalidOption))
        },
    }
}

/// The id of the component clicked, if any.
pub open spec fn clicked(reply: Option<&Interaction>) -> Option<Seq<char>> {
    match reply {
        Some(i) => Some(i.custom_id@),
        None => None,
    }
}

/// A reply as a plain value.
pub open spec fn reply_of(reply: Option<&Interaction>) -> Option<Interaction> {
    match reply {
        Some(i) => Some(*i),
        None => None,
    }
}

/// Asks for the channel voice events are logged to.
#[derive(Debug)]
pub struct LoggingChannelMultipleVoice;

impl LoggingChannelMultipleVoice {
    /// Without voice logging the stage asks nothing and moves on.
    pub fn skips_question(&self, log_voice: bool) -> (r: Option<Result<Option<usize>, ConfigError>>)
        ensures
            r == if log_voice { None } else { Some(Ok::<Option<usize>, ConfigError>(None)) },
    {
        if !log_voice { Some(Ok(None)) } else { None }
    }

    /// The answer to the question (`None`: no answer in time).
    pub fn answer(&self, reply: Option<&Interaction>) -> (r: StageStep)
        requires
            menu_has_channel(reply_of(reply), "log_voice_channel"@),
        ensures
            channel_stage_answer(reply_of(reply), "log_voice_channel"@, None,
                |c: i64| ConfigWrite::LogVoiceChannel(c), Ok(None), r.writes@, r.result),
    {
        channel_answer(reply, "log_voice_channel", None, 0, Ok(None))
    }
}

/// Asks for the channel message edits and deletions are logged to.
#[derive(Debug)]
pub struct LoggingChannelMultipleMessages;

impl LoggingChannelMultipleMessages {
    /// Without message logging the stage asks nothing and moves on.
    pub fn skips_question(&self, log_messages: bool) -> (r: Option<Result<Option<usize>, ConfigError>>)
        ensures
            r == if log_messages { None } else { Some(Ok::<Option<usize>, ConfigError>(None)) },
    {
        if !log_messages { Some(Ok(None)) } else { None }
    }

    /// The answer to the question; `cancel` skips two stages.
    pub fn answer(&self, reply: Option<&Interaction>) -> (r: StageStep)
        requires
            menu_has_channel(reply_of(reply), "log_message_channel"@),
        ensures
            channel_stage_answer(reply_of(reply), "log_message_channel"@, Some(2),
                |c: i64| ConfigWrite::LogMessageChannel(c), Ok(None), r.writes@, r.result),
    {
        channel_answer(reply, "log_message_channel", Some(2), 1, Ok(None))
    }
}

/// Asks for the channel moderation actions are logged to. It first clears
/// the single log channel.
#[derive(Debug)]
pub struct LoggingChannelMultipleActions;

impl LoggingChannelMultipleActions {
    /// What the stage writes before asking: the single log channel is
    /// cleared.
    pub fn on_enter(&self) -> (r: ConfigWrite)
        ensures
            r == ConfigWrite::ClearSingleLogChannel,
    {
        ConfigWrite::ClearSingleLogChannel
    }

    /// Without action logging the stage asks nothing and moves on.
    pub fn skips_question(&self, log_actions: bool) -> (r: Option<Result<Option<usize>, ConfigError>>)
        ensures
            r == if log_actions { None } else { Some(Ok::<Option<usize>, ConfigError>(None)) },
    {
        if !log_actions { Some(Ok(None)) } else { None }
    }

    /// The answer to the question; `cancel` skips three stages.
    pub fn answer(&self, reply: Option<&Interaction>) -> (r: StageStep)
        requires
            menu_has_channel(reply_of(reply), "log_action_channel"@),
        ensures
            channel_stage_answer(reply_of(reply), "log_action_channel"@, Some(3),
                |c: i64| ConfigWrite::LogActionChannel(c), Ok(None), r.writes@, r.result),
    {
        channel_answer(reply, "log_action_channel", Some(3), 2, Ok(None))
    }
}

/// Asks for the one channel every log goes to.
#[derive(Debug)]
pub struct LoggingChannelSingle;

impl LoggingChannelSingle {
    /// The answer to the question: a channel, or `cancel`, skips the four
    /// per-kind stages.
    pub fn answer(&self, reply: Option<&Interaction>) -> (r: StageStep)
        requires
            menu_has_channel(reply_of(reply), "log_channel"@),
        ensures
            channel_stage_answer(reply_of(reply), "log_channel"@, Some(4),
                |c: i64| ConfigWrite::SingleLogChannel(c), Ok(Some(4)), r.writes@, r.result),
    {
        channel_answer(reply, "log_channel", Some(4), 3, Ok(Some(4)))
    }
}

/// Asks whether logs go to one channel or to one per kind.
#[derive(Debug)]
pub struct LoggingChannelEnter;

impl LoggingChannelEnter {
    /// When nothing is logged the channel stages are skipped unasked.
    pub fn skips_question(&self, log_actions: bool, log_messages: bool, log_voice: bool) -> (r: Option<Result<Option<usize>, ConfigError>>)
        ensures
            r == if !log_actions && !log_messages && !log_voice {
                Some(Ok::<Option<usize>, ConfigError>(Some(4)))
            } else {
                None
            },
    {
        if !log_actions && !log_messages && !log_voice { Some(Ok(Some(4))) } else { None }
    }

    /// `one` moves on to the single channel, `multiple` skips to the
    /// per-kind channels.
    pub fn answer(&self, reply: Option<&Interaction>) -> (r: StageStep)
        ensures
            r.writes@.len() == 0,
            r.result == match clicked(reply) {
                None => Err(spec_timed_out()),
                Some(id) => if id == "one"@ {
                    Ok(None)
                } else if id == "multiple"@ {
                    Ok(Some(2usize))
                } else {
                    Err(issue(ConfigIssue::InvalidOption))
                },
            },
    {
        match reply {
            None => step(Err(timed_out())),
            Some(i) => if str_eq(i.custom_id.as_str(), "one") {
                step(Ok(None))
            } else if str_eq(i.custom_id.as_str(), "multiple") {
                step(Ok(Some(2)))
            } else {
                step(Err(invalid_option()))
            },
        }
    }
}

fn yes_no(reply: Option<&Interaction>, on_yes: StageStep, on_no: StageStep) -> (r: StageStep)
    ensures
        yes_no_answer(clicked(reply), (on_yes.writes@, on_yes.result), (on_no.writes@, on_no.result), r.writes@, r.result),
{
    match reply {
        None => step(Err(timed_out())),
        Some(i) => if str_eq(i.custom_id.as_str(), "yes") {
            on_yes
        } else if str_eq(i.custom_id.as_str(), "no") {
            on_no
        } else {
            step(Err(invalid_option()))
        },
    }
}

/// Asks whether voice channel joins, leaves and moves are logged.
#[derive(Debug)]
pub struct LoggingLogVoice;

impl LoggingLogVoice {
    /// `yes`/`no` switch voice logging on/off and move on.
    pub fn answer(&self, reply: Option<&Interaction>) -> (r: StageStep)
        ensures
            yes_no_answer(clicked(reply), (seq![ConfigWrite::LogVoice(true)], Ok(None)),
                (seq![ConfigWrite::LogVoice(false)], Ok(None)), r.writes@, r.result),
    {
        yes_no(reply, step_writing(ConfigWrite::LogVoice(true), Ok(None)), step_writing(ConfigWrite::LogVoice(false), Ok(None)))
    }
}

/// Asks whether message edits and deletions are logged.
#[derive(Debug)]
pub struct LoggingLogMessages;

impl LoggingLogMessages {
    /// `yes`/`no` switch message logging on/off and move on.
    pub fn answer(&self, reply: Option<&Interaction>) -> (r: StageStep)
        ensures
            yes_no_answer(clicked(reply), (seq![ConfigWrite::LogMessages(true)], Ok(None)),
                (seq![ConfigWrite::LogMessages(false)], Ok(None)), r.writes@, r.result),
    {
        yes_no(reply, step_writing(ConfigWrite::LogMessages(true), Ok(None)), step_writing(ConfigWrite::LogMessages(false), Ok(None)))
    }
}

/// Asks whether moderation actions are logged.
#[derive(Debug)]
pub struct LoggingLogActions;

impl LoggingLogActions {
    /// `yes`/`no` switch action logging on/off and move on.
    pub fn answer(&self, reply: Option<&Interaction>) -> (r: StageStep)
        ensures
            yes_no_answer(clicked(reply), (seq![ConfigWrite::LogActions(true)], Ok(None)),
                (seq![ConfigWrite::LogActions(false)], Ok(None)), r.writes@, r.result),
    {
        yes_no(reply, step_writing(ConfigWrite::LogActions(true), Ok(None)), step_writing(ConfigWrite::LogActions(false), Ok(None)))
    }
}

/// Asks whether to configure logging at all.
#[derive(Debug)]
pub struct LoggingEnter;

impl LoggingEnter {
    /// `yes` moves on, `no` skips the nine logging stages.
    pub fn answer(&self, reply: Option<&Interaction>) -> (r: StageStep)
        ensures
            yes_no_answer(clicked(reply), (Seq::empty(), Ok(None)), (Seq::empty(), Ok(Some(9usize))), r.writes@, r.result),
    {
        yes_no(reply, step(Ok(None)), step(Ok(Some(9))))
    }
}

} // verus!
