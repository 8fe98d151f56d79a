//! Where the bot logs what happens in a server.

use vstd::prelude::*;
use crate::text::str_eq;

verus! {

/// The kinds of event the bot logs.
#[derive(Clone, Copy, Debug, PartialEq, Eq, Structural)]
pub enum LogType {
    Action,
    Message,
    Voice,
}

/// A server's logging settings.
#[derive(Debug)]
pub struct LoggingConfig {
    pub log_actions: bool,
    pub log_messages: bool,
    pub log_voice: bool,
    pub log_channel: Option<i64>,
    pub log_action_channel: Option<i64>,
    pub log_message_channel: Option<i64>,
    pub log_voice_channel: Option<i64>,
}

/// A global switch that turns a feature off everywhere while active.
#[derive(Debug)]
pub struct FeatureFlag {
    pub feature: String,
    pub active: bool,
}

/// Whether the first flag named `name` is active, or `None` when no flag
/// has that name.
pub open spec fn flag_state(flags: Seq<FeatureFlag>, name: Seq<char>) -> Option<bool>
    decreases flags.len(),
{
    if flags.len() == 0 {
        None
    } else if flags[0].feature@ == name {
        Some(flags[0].active)
    } else {
        flag_state(flags.skip(1), name)
    }
}

/// The name of the switch for one kind of log.
pub open spec fn log_flag_name(t: LogType) -> Seq<char> {
    match t {
        LogType::Action => "logging.action"@,
        LogType::Message => "logging.message"@,
        LogType::Voice => "logging.voice"@,
    }
}

/// Whether the server logs this kind of event.
pub open spec fn logs(config: LoggingConfig, t: LogType) -> bool {
    match t {
        LogType::Action => config.log_actions,
        LogType::Message => config.log_messages,
        LogType::Voice => config.log_voice,
    }
}

/// The channel for one kind of log when no single channel is set.
pub open spec fn typed_channel(config: LoggingConfig, t: LogType) -> Option<i64> {
    match t {
        LogType::Action => config.log_action_channel,
        LogType::Message => config.log_message_channel,
        LogType::Voice => config.log_voice_channel,
    }
}

/// The channel an event of kind `t` is logged to: none while logging, or
/// this kind of log, is switched off globally or the server does not log
/// it; otherwise the server's single log channel if set, else the
/// channel for this kind.
pub open spec fn log_channel_for(flags: Seq<FeatureFlag>, config: LoggingConfig, t: LogType) -> Option<i64> {
    if flag_state(flags, "logging"@) == Some(true) {
        None
    } else if flag_state(flags, log_flag_name(t)) == Some(true) || !logs(config, t) {
        None
    } else if config.log_channel.is_some() {
        config.log_channel
    } else {
        typed_channel(config, t)
    }
}

fn flag_active(flags: &Vec<FeatureFlag>, name: &str) -> (r: Option<bool>)
    ensures
        r == flag_state(flags@, name@),
{
    let mut i: usize = 0;
    assert(flags@.skip(0) =~= flags@);
    while i < flags.len()
        invariant
            i <= flags.len(),
            flag_state(flags@, name@) == flag_state(flags@.skip(i as int), name@),
        decreases flags.len() - i,
    {
        assert(flags@.skip(i as int)[0] == flags@[i as int]);
        assert(flags@.skip(i as int).skip(1) =~= flags@.skip(i + 1));
        if str_eq(flags[i].feature.as_str(), name) {
            return Some(flags[i].active);
        }
        i += 1;
    }
    None
}

/// The channel to log an event of kind `log_type` to; see
/// `log_channel_for`. The switches `logging` and, unless it is active,
/// the one for this kind must be among `flags`.
pub fn get_log_channel(flags: &Vec<FeatureFlag>, logging_configuration: &LoggingConfig, log_type: &LogType) -> (r: Option<i64>)
    requires
        flag_state(flags@, "logging"@).is_some(),
        flag_state(flags@, "logging"@) == Some(false) ==> flag_state(flags@, log_flag_name(*log_type)).is_some(),
    ensures
        r == log_channel_for(flags@, *logging_configuration, *log_type),
{
    assert(flags@.skip(0) =~= flags@);
    if flag_active(flags, "logging").unwrap() {
        return None;
    }
    let (name, wanted) = match log_type {
        LogType::Action => ("logging.action", logging_configuration.log_actions),
        LogType::Message => ("logging.message", logging_configuration.log_messages),
        LogType::Voice => ("logging.voice", logging_configuration.log_voice),
    };
    if flag_active(flags, name).unwrap() || !wanted {
        return None;
    }
    if logging_configuration.log_channel.is_some() {
        logging_configuration.log_channel
    } else {
        match log_type {
            LogType::Action => logging_configuration.log_action_channel,
            LogType::Message => logging_configuration.log_message_channel,
            LogType::Voice => logging_configuration.log_voice_channel,
        }
    }
}


/// While logging is switched off globally nothing is logged; otherwise a
/// server's single log channel, when set, takes every kind of log it
/// records and is not switched off.
pub proof fn law_log_channel(flags: Seq<FeatureFlag>, config: LoggingConfig, t: LogType)
    ensures
        flag_state(flags, "logging"@) == Some(true) ==> log_channel_for(flags, config, t) is None,
        !logs(config, t) ==> log_channel_for(flags, config, t) is None,
        flag_state(flags, "logging"@) != Some(true) && flag_state(flags, log_flag_name(t)) != Some(true)
            && logs(config, t) && config.log_channel is Some ==> log_channel_for(flags, config, t) == config.log_channel,
{
}

} // verus!
