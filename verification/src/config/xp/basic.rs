//! The basic levelling stages of the wizard.

use vstd::prelude::*;
use crate::interaction::Interaction;
use crate::text::str_eq;
use crate::config::{ConfigError, ConfigIssue, ConfigWrite, FormStageStep, StageStep, ends_with_step,
    invalid_option, issue, number_at_least, read_number, spec_timed_out, step, step_writing, timed_out};
use crate::config::logging::{clicked, yes_no_answer};

verus! {

/// Asks how long after a message a member must wait to earn XP again.
#[derive(Debug)]
pub struct XPMessageCooldown;

impl XPMessageCooldown {
    /// The answer to the stage's buttons (`None`: no click in time).
    pub fn on_click(&self, reply: Option<&Interaction>) -> (r: FormStageStep)
        ensures
            match clicked(reply) {
                None => ends_with_step(r, Seq::empty(), Err(spec_timed_out())),
                Some(id) => if id == "skip"@ {
                    ends_with_step(r, Seq::empty(), Ok(None))
                } else if id == "change"@ {
                    r is AskForm
                } else {
                    ends_with_step(r, Seq::empty(), Err(issue(ConfigIssue::InvalidOption)))
                },
            },
    {
        match reply {
            None => FormStageStep::Done(step(Err(timed_out()))),
            Some(i) => if str_eq(i.custom_id.as_str(), "skip") {
                FormStageStep::Done(step(Ok(None)))
            } else if str_eq(i.custom_id.as_str(), "change") {
                FormStageStep::AskForm
            } else {
                FormStageStep::Done(step(Err(invalid_option())))
            },
        }
    }

    /// The form's answer (`None`: not sent in time; `Some(None)`: the field
    /// is no text input, which stores nothing): a cooldown of at least one second is stored.
    pub fn on_form(&self, field: Option<Option<String>>) -> (r: StageStep)
        ensures
            match field {
                None => r.writes@.len() == 0 && r.result == Err::<Option<usize>, ConfigError>(spec_timed_out()),
                Some(None) => r.writes@.len() == 0 && r.result == Ok::<Option<usize>, ConfigError>(None),
                Some(Some(t)) => match number_at_least(t@, 1) {
                    Some(v) => r.writes@ == seq![ConfigWrite::MessageCooldown(v)] && r.result == Ok::<Option<usize>, ConfigError>(None),
                    None => r.writes@.len() == 0 && r.result == Err::<Option<usize>, ConfigError>(issue(ConfigIssue::InvalidCooldown)),
                },
            },
    {
        match field {
            None => step(Err(timed_out())),
            Some(None) => step(Ok(None)),
            Some(Some(t)) => match read_number(&t, 1) {
                Some(v) => step_writing(ConfigWrite::MessageCooldown(v), Ok(None)),
                None => step(Err(ConfigError { error: ConfigIssue::InvalidCooldown, stages_to_skip: None })),
            },
        }
    }
}

/// Asks for the highest level members can reach.
#[derive(Debug)]
pub struct XPMaxLevelEnable;

impl XPMaxLevelEnable {
    /// The answer to the stage's buttons (`None`: no click in time).
    pub fn on_click(&self, reply: Option<&Interaction>) -> (r: FormStageStep)
        ensures
            match clicked(reply) {
                None => ends_with_step(r, Seq::empty(), Err(spec_timed_out())),
                Some(id) => if id == "skip"@ {
                    ends_with_step(r, Seq::empty(), Ok(None))
                } else if id == "enable"@ {
                    r is AskForm
                } else if id == "disable"@ {
                    ends_with_step(r, seq![ConfigWrite::MaxLevel(None)], Ok(None))
                } else {
                    ends_with_step(r, Seq::empty(), Err(issue(ConfigIssue::InvalidOption)))
                },
            },
    {
        match reply {
            None => FormStageStep::Done(step(Err(timed_out()))),
            Some(i) => if str_eq(i.custom_id.as_str(), "skip") {
                FormStageStep::Done(step(Ok(None)))
            } else if str_eq(i.custom_id.as_str(), "enable") {
                FormStageStep::AskForm
            } else if str_eq(i.custom_id.as_str(), "disable") {
                FormStageStep::Done(step_writing(ConfigWrite::MaxLevel(None), Ok(None)))
            } else {
                FormStageStep::Done(step(Err(invalid_option())))
            },
        }
    }

    /// The form's answer (`None`: not sent in time; `Some(None)`: the field
    /// is no text input, which stores nothing): a maximum level of at least 1 is stored.
    pub fn on_form(&self, field: Option<Option<String>>) -> (r: StageStep)
        ensures
            match field {
                None => r.writes@.len() == 0 && r.result == Err::<Option<usize>, ConfigError>(spec_timed_out()),
                Some(None) => r.writes@.len() == 0 && r.result == Ok::<Option<usize>, ConfigError>(None),
                Some(Some(t)) => match number_at_least(t@, 1) {
                    Some(v) => r.writes@ == seq![ConfigWrite::MaxLevel(Some(v))] && r.result == Ok::<Option<usize>, ConfigError>(None),
                    None => r.writes@.len() == 0 && r.result == Err::<Option<usize>, ConfigError>(issue(ConfigIssue::InvalidMaxLevel)),
                },
            },
    {
        match field {
            None => step(Err(timed_out())),
            Some(None) => step(Ok(None)),
            Some(Some(t)) => match read_number(&t, 1) {
                Some(v) => step_writing(ConfigWrite::MaxLevel(Some(v)), Ok(None)),
                None => step(Err(ConfigError { error: ConfigIssue::InvalidMaxLevel, stages_to_skip: None })),
            },
        }
    }
}

/// Asks whether members keep the rewards of lower levels.
#[derive(Debug)]
pub struct XPStackRewards;

impl XPStackRewards {
    /// The answer to the stage's buttons (`None`: no click in time).
    pub fn on_click(&self, reply: Option<&Interaction>) -> (r: FormStageStep)
        ensures
            match clicked(reply) {
                None => ends_with_step(r, Seq::empty(), Err(spec_timed_out())),
                Some(id) => if id == "skip"@ {
                    ends_with_step(r, Seq::empty(), Ok(None))
                } else if id == "enable"@ {
                    ends_with_step(r, seq![ConfigWrite::StackRewards(true)], Ok(None))
                } else if id == "disable"@ {
                    ends_with_step(r, seq![ConfigWrite::StackRewards(false)], Ok(None))
                } else {
                    ends_with_step(r, Seq::empty(), Err(issue(ConfigIssue::InvalidOption)))
                },
            },
    {
        match reply {
            None => FormStageStep::Done(step(Err(timed_out()))),
            Some(i) => if str_eq(i.custom_id.as_str(), "skip") {
                FormStageStep::Done(step(Ok(None)))
            } else if str_eq(i.custom_id.as_str(), "enable") {
                FormStageStep::Done(step_writing(ConfigWrite::StackRewards(true), Ok(None)))
            } else if str_eq(i.custom_id.as_str(), "disable") {
                FormStageStep::Done(step_writing(ConfigWrite::StackRewards(false), Ok(None)))
            } else {
                FormStageStep::Done(step(Err(invalid_option())))
            },
        }
    }
}

/// Asks whether XP multipliers add up; without stacking the multiplier cap stage is skipped.
#[derive(Debug)]
pub struct XPStackMultipliers;

impl XPStackMultipliers {
    /// The answer to the stage's buttons (`None`: no click in time).
    pub fn on_click(&self, reply: Option<&Interaction>) -> (r: FormStageStep)
        ensures
            match clicked(reply) {
                None => ends_with_step(r, Seq::empty(), Err(spec_timed_out())),
                Some(id) => if id == "skip"@ {
                    ends_with_step(r, Seq::empty(), Ok(Some(2usize)))
                } else if id == "enable"@ {
                    ends_with_step(r, seq![ConfigWrite::StackMultipliers(true)], Ok(None))
                } else if id == "disable"@ {
                    ends_with_step(r, seq![ConfigWrite::StackMultipliers(false)], Ok(Some(2usize)))
                } else {
                    ends_with_step(r, Seq::empty(), Err(issue(ConfigIssue::InvalidOption)))
                },
            },
    {
        match reply {
            None => FormStageStep::Done(step(Err(timed_out()))),
            Some(i) => if str_eq(i.custom_id.as_str(), "skip") {
                FormStageStep::Done(step(Ok(Some(2))))
            } else if str_eq(i.custom_id.as_str(), "enable") {
                FormStageStep::Done(step_writing(ConfigWrite::StackMultipliers(true), Ok(None)))
            } else if str_eq(i.custom_id.as_str(), "disable") {
                FormStageStep::Done(step_writing(ConfigWrite::StackMultipliers(false), Ok(Some(2))))
            } else {
                FormStageStep::Done(step(Err(invalid_option())))
            },
        }
    }
}

/// Asks for the largest multiplier stacking can reach.
#[derive(Debug)]
pub struct XPMultiplierCap;

impl XPMultiplierCap {
    /// The answer to the stage's buttons (`None`: no click in time).
    pub fn on_click(&self, reply: Option<&Interaction>) -> (r: FormStageStep)
        ensures
            match clicked(reply) {
                None => ends_with_step(r, Seq::empty(), Err(spec_timed_out())),
                Some(id) => if id == "skip"@ {
                    ends_with_step(r, Seq::empty(), Ok(None))
                } else if id == "enable"@ {
                    r is AskForm
                } else if id == "disable"@ {
                    ends_with_step(r, seq![ConfigWrite::MultiplierCap(None)], Ok(Some(2usize)))
                } else {
                    ends_with_step(r, Seq::empty(), Err(issue(ConfigIssue::InvalidOption)))
                },
            },
    {
        match reply {
            None => FormStageStep::Done(step(Err(timed_out()))),
            Some(i) => if str_eq(i.custom_id.as_str(), "skip") {
                FormStageStep::Done(step(Ok(None)))
            } else if str_eq(i.custom_id.as_str(), "enable") {
                FormStageStep::AskForm
            } else if str_eq(i.custom_id.as_str(), "disable") {
                FormStageStep::Done(step_writing(ConfigWrite::MultiplierCap(None), Ok(Some(2))))
            } else {
                FormStageStep::Done(step(Err(invalid_option())))
            },
        }
    }

    /// The form's answer (`None`: not sent in time; `Some(None)`: the field
    /// is no text input, which stores nothing): a cap of at least 0 is stored.
    pub fn on_form(&self, field: Option<Option<String>>) -> (r: StageStep)
        ensures
            match field {
                None => r.writes@.len() == 0 && r.result == Err::<Option<usize>, ConfigError>(spec_timed_out()),
                Some(None) => r.writes@.len() == 0 && r.result == Ok::<Option<usize>, ConfigError>(None),
                Some(Some(t)) => match number_at_least(t@, 0) {
                    Some(v) => r.writes@ == seq![ConfigWrite::MultiplierCap(Some(v))] && r.result == Ok::<Option<usize>, ConfigError>(None),
                    None => r.writes@.len() == 0 && r.result == Err::<Option<usize>, ConfigError>(issue(ConfigIssue::InvalidMultiplierCap)),
                },
            },
    {
        match field {
            None => step(Err(timed_out())),
            Some(None) => step(Ok(None)),
            Some(Some(t)) => match read_number(&t, 0) {
                Some(v) => step_writing(ConfigWrite::MultiplierCap(Some(v)), Ok(None)),
                None => step(Err(ConfigError { error: ConfigIssue::InvalidMultiplierCap, stages_to_skip: None })),
            },
        }
    }
}

/// Asks whether members lose their XP when they leave.
#[derive(Debug)]
pub struct XPResetLevelOnLeave;

impl XPResetLevelOnLeave {
    /// The answer to the stage's buttons (`None`: no click in time).
    pub fn on_click(&self, reply: Option<&Interaction>) -> (r: FormStageStep)
        ensures
            match clicked(reply) {
                None => ends_with_step(r, Seq::empty(), Err(spec_timed_out())),
                Some(id) => if id == "skip"@ {
                    ends_with_step(r, Seq::empty(), Ok(None))
                } else if id == "enable"@ {
                    ends_with_step(r, seq![ConfigWrite::ResetLevelOnLeave(true)], Ok(None))
                } else if id == "disable"@ {
                    ends_with_step(r, seq![ConfigWrite::ResetLevelOnLeave(false)], Ok(None))
                } else {
                    ends_with_step(r, Seq::empty(), Err(issue(ConfigIssue::InvalidOption)))
                },
            },
    {
        match reply {
            None => FormStageStep::Done(step(Err(timed_out()))),
            Some(i) => if str_eq(i.custom_id.as_str(), "skip") {
                FormStageStep::Done(step(Ok(None)))
            } else if str_eq(i.custom_id.as_str(), "enable") {
                FormStageStep::Done(step_writing(ConfigWrite::ResetLevelOnLeave(true), Ok(None)))
            } else if str_eq(i.custom_id.as_str(), "disable") {
                FormStageStep::Done(step_writing(ConfigWrite::ResetLevelOnLeave(false), Ok(None)))
            } else {
                FormStageStep::Done(step(Err(invalid_option())))
            },
        }
    }
}

/// Asks whether to configure levelling at all.
#[derive(Debug)]
pub struct XPEnter;

impl XPEnter {
    /// `yes` moves on, creating the server's levelling settings when it has
    /// none; `no` skips the 22 levelling stages.
    pub fn answer(&self, reply: Option<&Interaction>, has_configuration: bool) -> (r: StageStep)
        ensures
            yes_no_answer(
                clicked(reply),
                (if has_configuration { Seq::empty() } else { seq![ConfigWrite::CreateXpConfiguration] }, Ok(None)),
                (Seq::empty(), Ok(Some(22usize))),
                r.writes@,
                r.result,
            ),
    {
        match reply {
            None => step(Err(timed_out())),
            Some(i) => if str_eq(i.custom_id.as_str(), "yes") {
                if has_configuration {
                    step(Ok(None))
                } else {
                    step_writing(ConfigWrite::CreateXpConfiguration, Ok(None))
                }
            } else if str_eq(i.custom_id.as_str(), "no") {
                step(Ok(Some(22)))
            } else {
                step(Err(invalid_option()))
            },
        }
    }
}

/// What the XP amount stage does after a click.
#[derive(Debug)]
pub enum XpAmountStep {
    /// The form asking for a minimum and a maximum is shown.
    AskRange,
    /// The form asking for one amount is shown.
    AskFixed,
    /// The stage ends with this step.
    Done(StageStep),
}

/// Whether an XP amount step ends the stage with these writes and result.
pub open spec fn amount_step_is(r: XpAmountStep, writes: Seq<ConfigWrite>, result: Result<Option<usize>, ConfigError>) -> bool {
    match r {
        XpAmountStep::Done(s) => s.writes@ == writes && s.result == result,
        _ => false,
    }
}

/// The writes and result of the range form after its minimum field.
pub open spec fn range_form_result(min_field: Option<String>, max_field: Option<String>) -> (Seq<ConfigWrite>, Result<Option<usize>, ConfigError>) {
    let min_writes: Option<Seq<ConfigWrite>> = match min_field {
        Some(t) => match number_at_least(t@, 0) {
            Some(v) => Some(seq![ConfigWrite::MinXp(v)]),
            None => None,
        },
        None => Some(Seq::empty()),
    };
    match min_writes {
        None => (Seq::empty(), Err(issue(ConfigIssue::InvalidMinimumXp))),
        Some(w) => match max_field {
            Some(t) => match number_at_least(t@, 0) {
                Some(v) => (w.push(ConfigWrite::MaxXp(v)), Ok(None)),
                None => (w, Err(issue(ConfigIssue::InvalidMinimumXp))),
            },
            None => (w, Ok(None)),
        },
    }
}

/// Asks whether members earn a fixed or a random amount of XP per
/// message.
#[derive(Debug)]
pub struct XPSetOrRandom;

impl XPSetOrRandom {
    /// A server without levelling settings gets them and the stage starts
    /// over.
    pub fn skips_question(&self, has_configuration: bool) -> (r: Option<StageStep>)
        ensures
            has_configuration ==> r.is_none(),
            !has_configuration ==> (r matches Some(s) && s.writes@ == seq![ConfigWrite::CreateXpConfiguration]
                && s.result == Ok::<Option<usize>, ConfigError>(Some(0))),
    {
        if has_configuration {
            None
        } else {
            Some(step_writing(ConfigWrite::CreateXpConfiguration, Ok(Some(0))))
        }
    }

    /// `random` and `specific` show their forms, `skip` moves on.
    pub fn on_click(&self, reply: Option<&Interaction>) -> (r: XpAmountStep)
        ensures
            match clicked(reply) {
                None => amount_step_is(r, Seq::empty(), Err(spec_timed_out())),
                Some(id) => if id == "random"@ {
                    r is AskRange
                } else if id == "specific"@ {
                    r is AskFixed
                } else if id == "skip"@ {
                    amount_step_is(r, Seq::empty(), Ok(None))
                } else {
                    amount_step_is(r, Seq::empty(), Err(issue(ConfigIssue::InvalidOption)))
                },
            },
    {
        match reply {
            None => XpAmountStep::Done(step(Err(timed_out()))),
            Some(i) => if str_eq(i.custom_id.as_str(), "random") {
                XpAmountStep::AskRange
            } else if str_eq(i.custom_id.as_str(), "specific") {
                XpAmountStep::AskFixed
            } else if str_eq(i.custom_id.as_str(), "skip") {
                XpAmountStep::Done(step(Ok(None)))
            } else {
                XpAmountStep::Done(step(Err(invalid_option())))
            },
        }
    }

    /// The range form (`None`: not sent in time). Each field that is a text
    /// input must hold a number of at least 0; the minimum is stored before
    /// the maximum is read, so a bad maximum leaves the minimum stored.
    pub fn on_range_form(&self, fields: Option<(Option<String>, Option<String>)>) -> (r: StageStep)
        ensures
            match fields {
                None => r.writes@.len() == 0 && r.result == Err::<Option<usize>, ConfigError>(spec_timed_out()),
                Some((mf, xf)) => (r.writes@, r.result) == range_form_result(mf, xf),
            },
    {
        let (mf, xf) = match fields {
            None => return step(Err(timed_out())),
            Some(f) => f,
        };
        let mut writes: Vec<ConfigWrite> = Vec::new();
        match &mf {
            Some(t) => match read_number(t, 0) {
                Some(v) => writes.push(ConfigWrite::MinXp(v)),
                None => return step(Err(ConfigError { error: ConfigIssue::InvalidMinimumXp, stages_to_skip: None })),
            },
            None => {},
        }
        let ghost w = writes@;
        let result = match &xf {
            Some(t) => match read_number(t, 0) {
                Some(v) => {
                    writes.push(ConfigWrite::MaxXp(v));
                    Ok(None)
                },
                None => Err(ConfigError { error: ConfigIssue::InvalidMinimumXp, stages_to_skip: None }),
            },
            None => Ok(None),
        };
        proof {
            match mf {
                Some(t) => {},
                None => assert(w =~= Seq::<ConfigWrite>::empty()),
            }
        }
        StageStep { writes, result }
    }

    /// The fixed amount form (`None`: not sent in time): an amount of at
    /// least 0 is stored; a field that is no text input stores nothing.
    pub fn on_fixed_form(&self, field: Option<Option<String>>) -> (r: StageStep)
        ensures
            match field {
                None => r.writes@.len() == 0 && r.result == Err::<Option<usize>, ConfigError>(spec_timed_out()),
                Some(None) => r.writes@.len() == 0 && r.result == Ok::<Option<usize>, ConfigError>(None),
                Some(Some(t)) => match number_at_least(t@, 0) {
                    Some(v) => r.writes@ == seq![ConfigWrite::FixedXp(v)] && r.result == Ok::<Option<usize>, ConfigError>(None),
                    None => r.writes@.len() == 0 && r.result == Err::<Option<usize>, ConfigError>(issue(ConfigIssue::InvalidXp)),
                },
            },
    {
        match field {
            None => step(Err(timed_out())),
            Some(None) => step(Ok(None)),
            Some(Some(t)) => match read_number(&t, 0) {
                Some(v) => step_writing(ConfigWrite::FixedXp(v), Ok(None)),
                None => step(Err(ConfigError { error: ConfigIssue::InvalidXp, stages_to_skip: None })),
            },
        }
    }
}

} // verus!
