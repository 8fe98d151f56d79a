//! The level-up message stages of the wizard.

use vstd::prelude::*;
use crate::interaction::{ComponentData, Interaction};
use crate::text::str_eq;
use crate::config::{ConfigError, ConfigIssue, ConfigWrite, FormStageStep, StageStep, ends_with_step,
    invalid_option, issue, spec_timed_out, step, step_writing, timed_out};
use crate::config::logging::{clicked, reply_of};

verus! {

/// Asks whether to send level-up messages.
#[derive(Debug)]
pub struct LevelUpEnable;

impl LevelUpEnable {
    /// The answer to the stage's buttons (`None`: no click in time).
    pub fn on_click(&self, reply: Option<&Interaction>) -> (r: FormStageStep)
        ensures
            match clicked(reply) {
                None => ends_with_step(r, Seq::empty(), Err(spec_timed_out())),
                Some(id) => if id == "skip"@ {
                    ends_with_step(r, Seq::empty(), Ok(Some(4usize)))
                } else if id == "enable"@ {
                    ends_with_step(r, seq![ConfigWrite::LevelUpEnabled(true)], Ok(None))
                } else if id == "disable"@ {
                    ends_with_step(r, seq![ConfigWrite::LevelUpEnabled(false)], Ok(Some(4usize)))
                } else {
                    ends_with_step(r, Seq::empty(), Err(issue(ConfigIssue::InvalidOption)))
                },
            },
    {
        match reply {
            None => FormStageStep::Done(step(Err(timed_out()))),
            Some(i) => if str_eq(i.custom_id.as_str(), "skip") {
                FormStageStep::Done(step(Ok(Some(4))))
            } else if str_eq(i.custom_id.as_str(), "enable") {
                FormStageStep::Done(step_writing(ConfigWrite::LevelUpEnabled(true), Ok(None)))
            } else if str_eq(i.custom_id.as_str(), "disable") {
                FormStageStep::Done(step_writing(ConfigWrite::LevelUpEnabled(false), Ok(Some(4))))
            } else {
                FormStageStep::Done(step(Err(invalid_option())))
            },
        }
    }

    /// A server without level-up settings gets them and the stage starts
    /// over.
    pub fn skips_question(&self, has_settings: bool) -> (r: Option<StageStep>)
        ensures
            has_settings ==> r.is_none(),
            !has_settings ==> (r matches Some(s) && s.writes@ == seq![ConfigWrite::CreateLevelUpSettings]
                && s.result == Ok::<Option<usize>, ConfigError>(Some(0))),
    {
        if has_settings {
            None
        } else {
            Some(step_writing(ConfigWrite::CreateLevelUpSettings, Ok(Some(0))))
        }
    }
}

/// Asks whether level-up messages go to members privately; if so the channel stage is skipped.
#[derive(Debug)]
pub struct LevelUpDm;

impl LevelUpDm {
    /// The answer to the stage's buttons (`None`: no click in time).
    pub fn on_click(&self, reply: Option<&Interaction>) -> (r: FormStageStep)
        ensures
            match clicked(reply) {
                None => ends_with_step(r, Seq::empty(), Err(spec_timed_out())),
                Some(id) => if id == "enable"@ {
                    ends_with_step(r, seq![ConfigWrite::LevelUpDirectMessage(true)], Ok(Some(2usize)))
                } else if id == "disable"@ {
                    ends_with_step(r, seq![ConfigWrite::LevelUpDirectMessage(false)], Ok(None))
                } else {
                    ends_with_step(r, Seq::empty(), Err(issue(ConfigIssue::InvalidOption)))
                },
            },
    {
        match reply {
            None => FormStageStep::Done(step(Err(timed_out()))),
            Some(i) => if str_eq(i.custom_id.as_str(), "enable") {
                FormStageStep::Done(step_writing(ConfigWrite::LevelUpDirectMessage(true), Ok(Some(2))))
            } else if str_eq(i.custom_id.as_str(), "disable") {
                FormStageStep::Done(step_writing(ConfigWrite::LevelUpDirectMessage(false), Ok(None)))
            } else {
                FormStageStep::Done(step(Err(invalid_option())))
            },
        }
    }
}

/// Asks where level-up messages are sent.
#[derive(Debug)]
pub struct LevelUpChannel;

impl LevelUpChannel {
    /// `user` sends them where the member spoke; a channel picked in the
    /// menu sends them there; anything else is refused.
    pub fn answer(&self, reply: Option<&Interaction>) -> (r: StageStep)
        requires
            match reply_of(reply) {
                Some(i) => i.custom_id@ == "level_up_channel"@ ==> match i.data {
                    ComponentData::ChannelSelect(cs) => cs@.len() > 0,
                    _ => true,
                },
                None => true,
            },
        ensures
            match reply_of(reply) {
                None => r.writes@.len() == 0 && r.result == Err::<Option<usize>, ConfigError>(spec_timed_out()),
                Some(i) => if i.custom_id@ == "user"@ {
                    r.writes@ == seq![ConfigWrite::LevelUpChannel(None)] && r.result == Ok::<Option<usize>, ConfigError>(None)
                } else if i.custom_id@ == "level_up_channel"@ {
                    match i.data {
                        ComponentData::ChannelSelect(cs) => r.writes@ == seq![ConfigWrite::LevelUpChannel(Some(cs@[0]))]
                            && r.result == Ok::<Option<usize>, ConfigError>(None),
                        _ => r.writes@.len() == 0 && r.result == Err::<Option<usize>, ConfigError>(issue(ConfigIssue::InvalidOption)),
                    }
                } else {
                    r.writes@.len() == 0 && r.result == Err::<Option<usize>, ConfigError>(issue(ConfigIssue::InvalidOption))
                },
            },
    {
        match reply {
            None => step(Err(timed_out())),
            Some(i) => if str_eq(i.custom_id.as_str(), "user") {
                step_writing(ConfigWrite::LevelUpChannel(None), Ok(None))
            } else if str_eq(i.custom_id.as_str(), "level_up_channel") {
                match &i.data {
                    ComponentData::ChannelSelect(cs) => step_writing(ConfigWrite::LevelUpChannel(Some(cs[0])), Ok(None)),
                    _ => step(Err(invalid_option())),
                }
            } else {
                step(Err(invalid_option()))
            },
        }
    }
}

/// Asks for the text of level-up messages.
#[derive(Debug)]
pub struct LevelUpMessage;

impl LevelUpMessage {
    /// The answer to the stage's buttons (`None`: no click in time).
    pub fn on_click(&self, reply: Option<&Interaction>) -> (r: FormStageStep)
        ensures
            match clicked(reply) {
                None => ends_with_step(r, Seq::empty(), Err(spec_timed_out())),
                Some(id) => if id == "change"@ {
                    r is AskForm
                } else if id == "skip"@ {
                    ends_with_step(r, Seq::empty(), Ok(None))
                } else {
                    ends_with_step(r, Seq::empty(), Err(issue(ConfigIssue::InvalidOption)))
                },
            },
    {
        match reply {
            None => FormStageStep::Done(step(Err(timed_out()))),
            Some(i) => if str_eq(i.custom_id.as_str(), "change") {
                FormStageStep::AskForm
            } else if str_eq(i.custom_id.as_str(), "skip") {
                FormStageStep::Done(step(Ok(None)))
            } else {
                FormStageStep::Done(step(Err(invalid_option())))
            },
        }
    }

    /// The form's answer (`None`: not sent in time; `Some(None)`: the field
    /// is no text input, which stores nothing): an empty text is refused,
    /// any other is stored.
    pub fn on_form(&self, field: Option<Option<String>>) -> (r: StageStep)
        ensures
            match field {
                None => r.writes@.len() == 0 && r.result == Err::<Option<usize>, ConfigError>(spec_timed_out()),
                Some(None) => r.writes@.len() == 0 && r.result == Ok::<Option<usize>, ConfigError>(None),
                Some(Some(t)) => if t@.len() == 0 {
                    r.writes@.len() == 0 && r.result == Err::<Option<usize>, ConfigError>(issue(ConfigIssue::InvalidMessage))
                } else {
                    r.writes@ == seq![ConfigWrite::LevelUpMessage(t)] && r.result == Ok::<Option<usize>, ConfigError>(None)
                },
            },
    {
        match field {
            None => step(Err(timed_out())),
            Some(None) => step(Ok(None)),
            Some(Some(t)) => if t.unicode_len() == 0 {
                step(Err(ConfigError { error: ConfigIssue::InvalidMessage, stages_to_skip: None }))
            } else {
                step_writing(ConfigWrite::LevelUpMessage(t), Ok(None))
            },
        }
    }
}

} // verus!
