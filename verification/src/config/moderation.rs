//! The moderation stages of the wizard: strike escalations, the default
//! strike duration and the mute role.

use vstd::prelude::*;
use vstd::string::*;
use crate::actions::{ActionEscalation, ActionType};
use crate::duration::{Duration, DurationUnits, law_number_then_unit, units_from_text};
use crate::interaction::{ComponentData, Interaction};
use crate::numbers::{all_digits, digits_value, parse_i64, parse_usize, signed_from_str, unsigned_from_str};
use crate::text::{decimal_text, push_decimal, push_str, str_eq, u64_to_string};
use super::{ConfigError, ConfigIssue, ConfigWrite, FormStageStep, StageStep, invalid_option, issue,
    spec_timed_out, step, step_writing, timed_out};
use super::logging::{clicked, reply_of, yes_no_answer};

verus! {

/// Whether `s` ends with `suffix`.
pub open spec fn ends_with(s: Seq<char>, suffix: Seq<char>) -> bool {
    s.len() >= suffix.len() && s.subrange(s.len() - suffix.len(), s.len() as int) == suffix
}

/// The English ordinal suffix the `ordinal` crate gives a number, read off
/// its decimal digits: `st` after a final 1, `nd` after a final 2, `rd`
/// after a final 3 (except after 11, 12 and 13), `th` otherwise.
pub open spec fn ordinal_suffix_of(n: int) -> Seq<char> {
    let s = decimal_text(n);
    if ends_with(s, seq!['1']) && !ends_with(s, seq!['1', '1']) {
        "st"@
    } else if ends_with(s, seq!['2']) && !ends_with(s, seq!['1', '2']) {
        "nd"@
    } else if ends_with(s, seq!['3']) && !ends_with(s, seq!['1', '3']) {
        "rd"@
    } else {
        "th"@
    }
}

/// The suffix of `n` as an ordinal, from `ordinal::Ordinal(n).suffix()`,
/// which tests the last characters of `n.to_string()` as
/// `ordinal_suffix_of` states.
#[verifier::external_body]
fn ordinal_suffix(n: usize) -> (r: &'static str)
    ensures
        r@ == ordinal_suffix_of(n as int),
{
    ordinal::Ordinal(n).suffix()
}

/// The heading of the escalation at 1-based `position`: such as
/// `2nd escalation`.
pub open spec fn escalation_heading(position: int) -> Seq<char> {
    decimal_text(position) + ordinal_suffix_of(position) + " escalation"@
}

/// The heading of the escalation at 1-based `position`.
pub fn escalation_label(position: usize) -> (r: String)
    ensures
        r@ == escalation_heading(position as int),
{
    let mut s = String::new();
    push_decimal(&mut s, position as u64);
    s.append(ordinal_suffix(position));
    s.append(" escalation");
    assert(s@ =~= escalation_heading(position as int));
    s
}

/// An escalation as plain values.
pub open spec fn escalation_view(e: ActionEscalation) -> (i64, ActionType, Option<Seq<char>>) {
    (e.strike_count, e.action_type, match e.action_duration {
        Some(d) => Some(d@),
        None => None,
    })
}

/// The escalations as plain values.
pub open spec fn escalations_view(s: Seq<ActionEscalation>) -> Seq<(i64, ActionType, Option<Seq<char>>)> {
    s.map_values(|e: ActionEscalation| escalation_view(e))
}

/// Whether some escalation already uses `count` strikes.
pub open spec fn count_taken(s: Seq<ActionEscalation>, count: int) -> bool {
    exists|i: int| 0 <= i < s.len() && s[i].strike_count == count
}

/// The strike count typed into the first field of the escalation form
/// (`None`: that field is no text input): a whole number above zero that
/// no escalation uses yet.
pub open spec fn strike_count_check(field: Option<Seq<char>>, existing: Seq<ActionEscalation>) -> Result<i64, ConfigIssue> {
    match field {
        None => Err(ConfigIssue::InvalidOption),
        Some(t) => match signed_from_str(t, i64::MIN as int, i64::MAX as int) {
            None => Err(ConfigIssue::InvalidStrikeCount),
            Some(v) => if v > 0 {
                if count_taken(existing, v) {
                    Err(ConfigIssue::DuplicateStrikeCount)
                } else {
                    Ok(v as i64)
                }
            } else {
                Err(ConfigIssue::StrikeCountTooLow)
            },
        },
    }
}

/// A duration text reaches a moment after now: it parses and is not
/// empty of time.
pub open spec fn is_future_duration(t: Seq<char>) -> bool {
    match units_from_text(t) {
        Some(u) => u != DurationUnits::zero(),
        None => false,
    }
}

/// The duration typed into the second field of the escalation form: kicks
/// take none; otherwise an empty field means "indefinitely", and any other
/// text must reach past now.
pub open spec fn escalation_duration_check(action: ActionType, field: Option<Seq<char>>) -> Result<Option<Seq<char>>, ConfigIssue> {
    if action == ActionType::Kick {
        Ok(None)
    } else {
        match field {
            None => Err(ConfigIssue::InvalidOption),
            Some(t) => if t.len() == 0 {
                Ok(None)
            } else if is_future_duration(t) {
                Ok(Some(t))
            } else {
                Err(ConfigIssue::InvalidDuration)
            },
        }
    }
}

/// Whether a duration text reaches past now; see `is_future_duration`.
pub fn future_duration(text: &String) -> (r: bool)
    ensures
        r == is_future_duration(text@),
{
    match Duration::try_new(text.clone()) {
        Some(d) => !d.is_permanent(),
        None => false,
    }
}

/// A field of a submitted form: its text, or `None` when it is no text
/// input.
pub open spec fn field_text(f: Option<String>) -> Option<Seq<char>> {
    match f {
        Some(s) => Some(s@),
        None => None,
    }
}

/// What the escalation editor does next.
#[derive(Debug)]
pub enum EscalationStep {
    /// The list changed or stayed; it is shown again.
    Redraw,
    /// The form for a new escalation of this kind is shown: it asks for a
    /// strike count and, unless the action is a kick, a duration (required
    /// for a mute).
    AskDetails { action: ActionType },
    /// The stage ends with `result`; when `save` is set the escalations as
    /// they stand are stored first.
    Finish { save: bool, result: Result<Option<usize>, ConfigError> },
}

/// The finishing step of the escalation editor.
pub open spec fn finishes(s: EscalationStep, save: bool, result: Result<Option<usize>, ConfigError>) -> bool {
    match s {
        EscalationStep::Finish { save: sv, result: rs } => sv == save && rs == result,
        _ => false,
    }
}

/// The first string picked in a menu answer.
pub open spec fn first_pick(i: Interaction) -> Option<Seq<char>> {
    match i.data {
        ComponentData::StringSelect(vs) => if vs@.len() > 0 { Some(vs@[0]@) } else { None },
        _ => None,
    }
}

/// What the form for a new escalation of kind `action` does to the list
/// `before`, giving `after`: `None` for a form not sent in time. The
/// strike count is checked first, then the duration (a kick's second
/// field is not read); an accepted form adds one escalation at the end.
pub open spec fn details_outcome(before: Seq<ActionEscalation>, action: ActionType, fields: Option<Seq<Option<String>>>,
    after: Seq<ActionEscalation>, r: EscalationStep) -> bool {
    match fields {
        None => after == before && finishes(r, true, Err(spec_timed_out())),
        Some(f) => match strike_count_check(field_text(f[0]), before) {
            Err(e) => after == before && finishes(r, true, Err(issue(e))),
            Ok(count) => match escalation_duration_check(action, if action == ActionType::Kick { None } else { field_text(f[1]) }) {
                Err(e) => after == before && finishes(r, true, Err(issue(e))),
                Ok(d) => r is Redraw && after.len() == before.len() + 1 && after.drop_last() == before
                    && escalation_view(after.last()) == (count, action, d),
            },
        },
    }
}

/// The escalations of a server, being edited.
#[derive(Debug)]
pub struct ModerationEscalations {
    pub escalations: Vec<ActionEscalation>,
}

impl ModerationEscalations {
    /// The menu offers adding an escalation while there are fewer than 15.
    pub fn can_add(&self) -> (r: bool)
        ensures
            r == (self.escalations@.len() < 15),
    {
        self.escalations.len() < 15
    }

    /// Handles a click in the editor. A menu answer carries at least one
    /// pick; for `add_escalation` it names an action, for
    /// `remove_escalation` a number is a position in the list.
    pub fn on_click(&mut self, i: &Interaction) -> (r: EscalationStep)
        requires
            i.custom_id@ == "add_escalation"@ ==> match i.data {
                ComponentData::StringSelect(vs) => vs@.len() > 0 && exists|a: ActionType| a.spec_name() == vs@[0]@,
                _ => true,
            },
            i.custom_id@ == "remove_escalation"@ ==> match i.data {
                ComponentData::StringSelect(vs) => vs@.len() > 0 && match unsigned_from_str(vs@[0]@, usize::MAX as nat) {
                    Some(v) => v < old(self).escalations@.len(),
                    None => true,
                },
                _ => true,
            },
        ensures
            if i.custom_id@ == "add_escalation"@ {
                final(self).escalations@ == old(self).escalations@ && match i.data {
                    ComponentData::StringSelect(vs) => match r {
                        EscalationStep::AskDetails { action } => action.spec_name() == vs@[0]@,
                        _ => false,
                    },
                    _ => finishes(r, true, Err(issue(ConfigIssue::InvalidOption))),
                }
            } else if i.custom_id@ == "remove_escalation"@ {
                match i.data {
                    ComponentData::StringSelect(vs) => match unsigned_from_str(vs@[0]@, usize::MAX as nat) {
                        Some(v) => r is Redraw && final(self).escalations@ == old(self).escalations@.remove(v as int),
                        None => final(self).escalations@ == old(self).escalations@ && finishes(r, true, Err(issue(ConfigIssue::InvalidEscalation))),
                    },
                    _ => final(self).escalations@ == old(self).escalations@ && finishes(r, true, Err(issue(ConfigIssue::InvalidOption))),
                }
            } else if i.custom_id@ == "done"@ {
                final(self).escalations@ == old(self).escalations@ && finishes(r, true, Ok(None))
            } else if i.custom_id@ == "revert"@ {
                final(self).escalations@ == old(self).escalations@ && finishes(r, false, Ok(Some(0)))
            } else {
                final(self).escalations@ == old(self).escalations@ && finishes(r, true, Err(issue(ConfigIssue::InvalidOption)))
            },
            counts_distinct(old(self).escalations@) ==> counts_distinct(final(self).escalations@),
    {
        let id = i.custom_id.as_str();
        if str_eq(id, "add_escalation") {
            match &i.data {
                ComponentData::StringSelect(vs) => {
                    match ActionType::from_name(vs[0].as_str()) {
                        Some(action) => EscalationStep::AskDetails { action },
                        None => {
                            proof {
                                let a = choose|a: ActionType| a.spec_name() == vs@[0]@;
                                assert(a.spec_name() == vs@[0]@);
                            }
                            EscalationStep::Redraw
                        },
                    }
                },
                _ => EscalationStep::Finish { save: true, result: Err(invalid_option()) },
            }
        } else if str_eq(id, "remove_escalation") {
            match &i.data {
                ComponentData::StringSelect(vs) => {
                    match parse_usize(vs[0].as_str()) {
                        Some(index) => {
                            proof {
                                if counts_distinct(self.escalations@) {
                                    lemma_removal_keeps_counts_distinct(self.escalations@, index as int);
                                }
                            }
                            self.escalations.remove(index);
                            EscalationStep::Redraw
                        },
                        None => EscalationStep::Finish {
                            save: true,
                            result: Err(ConfigError { error: ConfigIssue::InvalidEscalation, stages_to_skip: None }),
                        },
                    }
                },
                _ => EscalationStep::Finish { save: true, result: Err(invalid_option()) },
            }
        } else if str_eq(id, "done") {
            EscalationStep::Finish { save: true, result: Ok(None) }
        } else if str_eq(id, "revert") {
            EscalationStep::Finish { save: false, result: Ok(Some(0)) }
        } else {
            EscalationStep::Finish { save: true, result: Err(invalid_option()) }
        }
    }

    /// Handles the form for a new escalation of kind `action`. `None`: the
    /// form was not sent in time. A sent form has the fields it asked for.
    #[verifier::loop_isolation(false)]
    pub fn on_details(&mut self, action: ActionType, fields: Option<&Vec<Option<String>>>) -> (r: EscalationStep)
        requires
            match fields {
                Some(f) => f@.len() >= 1 && (action != ActionType::Kick ==> f@.len() >= 2),
                None => true,
            },
        ensures
            details_outcome(old(self).escalations@, action, match fields { Some(f) => Some(f@), None => None },
                final(self).escalations@, r),
            counts_distinct(old(self).escalations@) ==> counts_distinct(final(self).escalations@),
    {
        let f = match fields {
            None => return EscalationStep::Finish { save: true, result: Err(timed_out()) },
            Some(f) => f,
        };
        let count: i64 = match &f[0] {
            None => return EscalationStep::Finish { save: true, result: Err(invalid_option()) },
            Some(text) => match parse_i64(text.as_str()) {
                None => return EscalationStep::Finish {
                    save: true,
                    result: Err(ConfigError { error: ConfigIssue::InvalidStrikeCount, stages_to_skip: None }),
                },
                Some(v) => {
                    if v > 0 {
                        let mut k: usize = 0;
                        while k < self.escalations.len()
                            invariant
                                k <= self.escalations@.len(),
                                forall|j: int| 0 <= j < k ==> self.escalations@[j].strike_count != v,
                            decreases self.escalations.len() - k,
                        {
                            if self.escalations[k].strike_count == v {
                                assert(self.escalations@[k as int].strike_count == v);
                                return EscalationStep::Finish {
                                    save: true,
                                    result: Err(ConfigError { error: ConfigIssue::DuplicateStrikeCount, stages_to_skip: None }),
                                };
                            }
                            k += 1;
                        }
                        v
                    } else {
                        return EscalationStep::Finish {
                            save: true,
                            result: Err(ConfigError { error: ConfigIssue::StrikeCountTooLow, stages_to_skip: None }),
                        };
                    }
                },
            },
        };
        let duration: Option<String> = if action == ActionType::Kick {
            None
        } else {
            match &f[1] {
                None => return EscalationStep::Finish { save: true, result: Err(invalid_option()) },
                Some(text) => {
                    if text.unicode_len() == 0 {
                        None
                    } else if future_duration(text) {
                        Some(text.clone())
                    } else {
                        return EscalationStep::Finish {
                            save: true,
                            result: Err(ConfigError { error: ConfigIssue::InvalidDuration, stages_to_skip: None }),
                        };
                    }
                },
            }
        };
        let ghost before = self.escalations@;
        self.escalations.push(ActionEscalation { strike_count: count, action_type: action, action_duration: duration });
        assert(self.escalations@.drop_last() =~= before);
        proof {
            if counts_distinct(before) {
                let after = self.escalations@;
                assert forall|a: int, b: int| 0 <= a < b < after.len() implies
                    (#[trigger] after[a]).strike_count != (#[trigger] after[b]).strike_count by {
                    if b == before.len() {
                        assert(after[a] == before[a]);
                    } else {
                        assert(after[a] == before[a] && after[b] == before[b]);
                    }
                }
            }
        }
        EscalationStep::Redraw
    }

    /// When the editor gets no click for five minutes the stage ends
    /// without storing anything.
    pub fn on_silence(&self) -> (r: Result<Option<usize>, ConfigError>)
        ensures
            r == Ok::<Option<usize>, ConfigError>(None),
    {
        Ok(None)
    }
}


/// The text under an escalation's heading: such as
/// `At **3** strikes, Reaper will **mute** the user for **1d**.`
pub open spec fn escalation_text(count: i64, action: ActionType, duration: Option<Seq<char>>) -> Seq<char> {
    "At **"@ + decimal_text(count as int) + "** strikes, Reaper will **"@ + action.spec_name()
        + "** the user "@ + match duration {
        Some(d) => "for **"@ + d + "**"@,
        None => "**indefinitely**"@,
    } + "."@
}

/// The text under an escalation's heading; see `escalation_text`.
pub fn escalation_description(e: &ActionEscalation) -> (r: String)
    ensures
        r@ == escalation_text(e.strike_count, e.action_type, escalation_view(*e).2),
{
    let mut s = String::new();
    s.append("At **");
    crate::text::push_i64(&mut s, e.strike_count);
    s.append("** strikes, Reaper will **");
    s.append(e.action_type.name());
    s.append("** the user ");
    match &e.action_duration {
        Some(d) => {
            s.append("for **");
            s.append(d.as_str());
            s.append("**");
        },
        None => {
            s.append("**indefinitely**");
        },
    }
    s.append(".");
    assert(s@ =~= escalation_text(e.strike_count, e.action_type, escalation_view(*e).2));
    s
}

/// The label of the menu entry that removes the escalation at 1-based
/// `position`: such as `Remove 2nd escalation`.
pub fn removal_label(position: usize) -> (r: String)
    ensures
        r@ == "Remove "@ + escalation_heading(position as int),
{
    let mut s = String::new();
    s.append("Remove ");
    let heading = escalation_label(position);
    s.append(heading.as_str());
    s
}

/// The title of the moderation stages.
pub open spec fn moderation_title() -> Seq<char> {
    "Configuration - Moderation"@
}

/// The text above the escalations in their editor.
pub open spec fn escalations_intro() -> Seq<char> {
    "You can now configure your strike escalations. These are actions that will happen when a user reaches a certain amount of strikes."@
}

/// The entries of the menu that adds an escalation, as (label, value).
pub open spec fn add_menu_options() -> Seq<(Seq<char>, Seq<char>)> {
    seq![
        ("Add a mute escalation"@, "mute"@),
        ("Add a kick escalation"@, "kick"@),
        ("Add a ban escalation"@, "ban"@),
    ]
}

/// A pair of texts as plain values.
pub open spec fn texts_view(p: (String, String)) -> (Seq<char>, Seq<char>) {
    (p.0@, p.1@)
}

/// The message of the escalation editor. Below the menus it always has
/// the buttons `done` ("Done") and `revert` ("Revert").
#[derive(Debug)]
pub struct EscalationMessage {
    pub title: String,
    pub description: String,
    /// The entries of the `add_escalation` menu, as (label, value), where
    /// that menu is shown.
    pub add_menu: Option<Vec<(String, String)>>,
    /// The entries of the `remove_escalation` menu, as (label, value),
    /// where that menu is shown.
    pub remove_menu: Option<Vec<(String, String)>>,
    /// One field per escalation, as (name, text).
    pub fields: Vec<(String, String)>,
}

/// Whether `m` is the editor's message for the escalations `es`: the add
/// menu while there are fewer than 15, the remove menu (one entry per
/// escalation, valued by its 0-based position) while there are any, and
/// one field per escalation, in order.
pub open spec fn shows_escalations(m: EscalationMessage, es: Seq<ActionEscalation>) -> bool {
    &&& m.title@ == moderation_title()
    &&& m.description@ == escalations_intro()
    &&& m.add_menu is Some <==> es.len() < 15
    &&& m.add_menu matches Some(o) ==> o@.map_values(|p: (String, String)| texts_view(p))
        == add_menu_options()
    &&& m.remove_menu is Some <==> es.len() > 0
    &&& m.remove_menu matches Some(o) ==> o@.len() == es.len() && forall|i: int|
        0 <= i < es.len() ==> texts_view(#[trigger] o@[i]) == ("Remove "@ + escalation_heading(
            i + 1,
        ), decimal_text(i))
    &&& m.fields@.len() == es.len()
    &&& forall|i: int|
        0 <= i < es.len() ==> texts_view(#[trigger] m.fields@[i]) == (escalation_heading(i + 1),
            escalation_text(es[i].strike_count, es[i].action_type, escalation_view(es[i]).2))
}

fn texts(a: &str, b: &str) -> (r: (String, String))
    ensures
        texts_view(r) == (a@, b@),
{
    let mut x = String::new();
    push_str(&mut x, a);
    let mut y = String::new();
    push_str(&mut y, b);
    assert(x@ =~= a@);
    assert(y@ =~= b@);
    (x, y)
}

impl ModerationEscalations {
    /// The editor's message for `escalations`; see `shows_escalations`.
    pub fn generate_message(escalations: &Vec<ActionEscalation>) -> (r: EscalationMessage)
        ensures
            shows_escalations(r, escalations@),
    {
        proof {
            reveal_strlit("Add a mute escalation");
            reveal_strlit("mute");
            reveal_strlit("Add a kick escalation");
            reveal_strlit("kick");
            reveal_strlit("Add a ban escalation");
            reveal_strlit("ban");
        }
        let add_menu = if escalations.len() < 15 {
            let o = vec![
                texts("Add a mute escalation", "mute"),
                texts("Add a kick escalation", "kick"),
                texts("Add a ban escalation", "ban"),
            ];
            assert(o@.map_values(|p: (String, String)| texts_view(p)) =~= add_menu_options());
            Some(o)
        } else {
            None
        };
        let mut remove: Vec<(String, String)> = Vec::new();
        let mut fields: Vec<(String, String)> = Vec::new();
        let mut i: usize = 0;
        while i < escalations.len()
            invariant
                i <= escalations.len(),
                remove@.len() == i,
                fields@.len() == i,
                forall|j: int|
                    0 <= j < i ==> texts_view(#[trigger] remove@[j]) == ("Remove "@
                        + escalation_heading(j + 1), decimal_text(j)),
                forall|j: int|
                    0 <= j < i ==> texts_view(#[trigger] fields@[j]) == (escalation_heading(j + 1),
                        escalation_text(
                        escalations@[j].strike_count,
                        escalations@[j].action_type,
                        escalation_view(escalations@[j]).2,
                    )),
            decreases escalations.len() - i,
        {
            let label = removal_label(i + 1);
            let value = u64_to_string(i as u64);
            remove.push((label, value));
            let name = escalation_label(i + 1);
            let text = escalation_description(&escalations[i]);
            fields.push((name, text));
            i += 1;
        }
        let remove_menu = if escalations.len() > 0 {
            Some(remove)
        } else {
            None
        };
        let (title, description) = texts(
            "Configuration - Moderation",
            "You can now configure your strike escalations. These are actions that will happen when a user reaches a certain amount of strikes.",
        );
        EscalationMessage { title, description, add_menu, remove_menu, fields }
    }
}

/// Asks for the duration strikes last when a moderator gives none.
#[derive(Debug)]
pub struct ModerationDefaultStrikeDuration;

impl ModerationDefaultStrikeDuration {
    /// `skip` moves on, `change` shows the form, anything else is refused.
    pub fn on_click(&self, reply: Option<&Interaction>) -> (r: FormStageStep)
        ensures
            match clicked(reply) {
                None => match r {
                    FormStageStep::Done(s) => s.writes@.len() == 0 && s.result == Err::<Option<usize>, ConfigError>(spec_timed_out()),
                    _ => false,
                },
                Some(id) => if id == "skip"@ {
                    match r {
                        FormStageStep::Done(s) => s.writes@.len() == 0 && s.result == Ok::<Option<usize>, ConfigError>(None),
                        _ => false,
                    }
                } else if id == "change"@ {
                    r is AskForm
                } else {
                    match r {
                        FormStageStep::Done(s) => s.writes@.len() == 0 && s.result == Err::<Option<usize>, ConfigError>(issue(ConfigIssue::InvalidOption)),
                        _ => false,
                    }
                },
            },
    {
        match reply {
            None => FormStageStep::Done(step(Err(timed_out()))),
            Some(i) => if str_eq(i.custom_id.as_str(), "skip") {
                FormStageStep::Done(step(Ok(None)))
            } else if str_eq(i.custom_id.as_str(), "change") {
                FormStageStep::AskForm
            } else {
                FormStageStep::Done(step(Err(invalid_option())))
            },
        }
    }

    /// The form's answer (`None`: not sent in time): a duration that
    /// reaches past now is stored; an empty or past one is refused.
    pub fn on_form(&self, field: Option<Option<String>>) -> (r: StageStep)
        ensures
            match field {
                None => r.writes@.len() == 0 && r.result == Err::<Option<usize>, ConfigError>(spec_timed_out()),
                Some(None) => r.writes@.len() == 0 && r.result == Err::<Option<usize>, ConfigError>(issue(ConfigIssue::InvalidOption)),
                Some(Some(t)) => if t@.len() > 0 && is_future_duration(t@) {
                    r.writes@.len() == 1 && r.writes@[0] == ConfigWrite::DefaultStrikeDuration(t) && r.result == Ok::<Option<usize>, ConfigError>(None)
                } else {
                    r.writes@.len() == 0 && r.result == Err::<Option<usize>, ConfigError>(issue(ConfigIssue::InvalidDuration))
                },
            },
    {
        match field {
            None => step(Err(timed_out())),
            Some(None) => step(Err(invalid_option())),
            Some(Some(t)) => {
                if t.unicode_len() == 0 || !future_duration(&t) {
                    step(Err(ConfigError { error: ConfigIssue::InvalidDuration, stages_to_skip: None }))
                } else {
                    step_writing(ConfigWrite::DefaultStrikeDuration(t), Ok(None))
                }
            },
        }
    }
}

/// Asks for the role used to mute users.
#[derive(Debug)]
pub struct ModerationMuteRole;

impl ModerationMuteRole {
    /// `skip` moves on; a role picked in the menu is stored (an empty pick
    /// is refused); anything else is refused.
    pub fn answer(&self, reply: Option<&Interaction>) -> (r: StageStep)
        ensures
            match reply_of(reply) {
                None => r.writes@.len() == 0 && r.result == Err::<Option<usize>, ConfigError>(spec_timed_out()),
                Some(i) => if i.custom_id@ == "skip"@ {
                    r.writes@.len() == 0 && r.result == Ok::<Option<usize>, ConfigError>(None)
                } else if i.custom_id@ == "mute_role"@ {
                    match i.data {
                        ComponentData::RoleSelect(rs) => if rs@.len() > 0 {
                            r.writes@ == seq![ConfigWrite::MuteRole(rs@[0])] && r.result == Ok::<Option<usize>, ConfigError>(None)
                        } else {
                            r.writes@.len() == 0 && r.result == Err::<Option<usize>, ConfigError>(issue(ConfigIssue::NoRoleSelected))
                        },
                        _ => r.writes@.len() == 0 && r.result == Err::<Option<usize>, ConfigError>(issue(ConfigIssue::InvalidOption)),
                    }
                } else {
                    r.writes@.len() == 0 && r.result == Err::<Option<usize>, ConfigError>(issue(ConfigIssue::InvalidOption))
                },
            },
    {
        match reply {
            None => step(Err(timed_out())),
            Some(i) => if str_eq(i.custom_id.as_str(), "skip") {
                step(Ok(None))
            } else if str_eq(i.custom_id.as_str(), "mute_role") {
                match &i.data {
                    ComponentData::RoleSelect(rs) => if rs.len() > 0 {
                        step_writing(ConfigWrite::MuteRole(rs[0]), Ok(None))
                    } else {
                        step(Err(ConfigError { error: ConfigIssue::NoRoleSelected, stages_to_skip: None }))
                    },
                    _ => step(Err(invalid_option())),
                }
            } else {
                step(Err(invalid_option()))
            },
        }
    }
}

/// Asks whether to configure moderation at all.
#[derive(Debug)]
pub struct ModerationEnter;

impl ModerationEnter {
    /// `yes` moves on, `no` skips the four moderation stages.
    pub fn answer(&self, reply: Option<&Interaction>) -> (r: StageStep)
        ensures
            yes_no_answer(clicked(reply), (Seq::empty(), Ok(None)), (Seq::empty(), Ok(Some(4usize))), r.writes@, r.result),
    {
        match reply {
            None => step(Err(timed_out())),
            Some(i) => if str_eq(i.custom_id.as_str(), "yes") {
                step(Ok(None))
            } else if str_eq(i.custom_id.as_str(), "no") {
                step(Ok(Some(4)))
            } else {
                step(Err(invalid_option()))
            },
        }
    }
}


/// Whether every escalation needs a positive number of strikes and no two
/// need the same number.
pub open spec fn counts_valid(s: Seq<ActionEscalation>) -> bool {
    &&& forall|i: int| 0 <= i < s.len() ==> (#[trigger] s[i]).strike_count > 0
    &&& counts_distinct(s)
}

/// No two escalations use the same strike count.
pub open spec fn counts_distinct(s: Seq<ActionEscalation>) -> bool {
    forall|i: int, j: int| 0 <= i < j < s.len() ==> (#[trigger] s[i]).strike_count != (#[trigger] s[j]).strike_count
}

/// Adding an escalation whose strike count passed the form's check, or
/// removing one, keeps the counts distinct, whatever the counts were
/// otherwise.
pub proof fn law_escalation_counts_stay_distinct(before: Seq<ActionEscalation>, field: Option<Seq<char>>,
    added: ActionEscalation, removed_at: int)
    requires
        counts_distinct(before),
        strike_count_check(field, before) == Ok::<i64, ConfigIssue>(added.strike_count),
    ensures
        counts_distinct(before.push(added)),
        0 <= removed_at < before.len() ==> counts_distinct(before.remove(removed_at)),
{
    let after = before.push(added);
    assert(!count_taken(before, added.strike_count as int));
    assert forall|i: int, j: int| 0 <= i < j < after.len() implies
        (#[trigger] after[i]).strike_count != (#[trigger] after[j]).strike_count by {
        if j == before.len() {
            assert(after[i] == before[i]);
            if before[i].strike_count == added.strike_count {
                assert(count_taken(before, added.strike_count as int));
            }
        } else {
            assert(after[i] == before[i] && after[j] == before[j]);
        }
    }
    if 0 <= removed_at < before.len() {
        lemma_removal_keeps_counts_distinct(before, removed_at);
    }
}

proof fn lemma_removal_keeps_counts_distinct(before: Seq<ActionEscalation>, removed_at: int)
    requires
        counts_distinct(before),
        0 <= removed_at < before.len(),
    ensures
        counts_distinct(before.remove(removed_at)),
{
    let r = before.remove(removed_at);
    assert forall|i: int, j: int| 0 <= i < j < r.len() implies
        (#[trigger] r[i]).strike_count != (#[trigger] r[j]).strike_count by {
        let i2 = if i < removed_at { i } else { i + 1 };
        let j2 = if j < removed_at { j } else { j + 1 };
        assert(r[i] == before[i2] && r[j] == before[j2]);
    }
}

/// Adding an escalation whose strike count passed the form's check, or
/// removing one, keeps every count positive and distinct.
pub proof fn law_escalation_counts_stay_valid(before: Seq<ActionEscalation>, field: Option<Seq<char>>,
    added: ActionEscalation, removed_at: int)
    requires
        counts_valid(before),
        strike_count_check(field, before) == Ok::<i64, ConfigIssue>(added.strike_count),
    ensures
        counts_valid(before.push(added)),
        0 <= removed_at < before.len() ==> counts_valid(before.remove(removed_at)),
{
    law_escalation_counts_stay_distinct(before, field, added, removed_at);
    let after = before.push(added);
    assert forall|i: int| 0 <= i < after.len() implies (#[trigger] after[i]).strike_count > 0 by {
        if i < before.len() {
            assert(after[i] == before[i]);
        }
    }
    if 0 <= removed_at < before.len() {
        let r = before.remove(removed_at);
        assert forall|i: int| 0 <= i < r.len() implies (#[trigger] r[i]).strike_count > 0 by {
            let i2 = if i < removed_at { i } else { i + 1 };
            assert(r[i] == before[i2]);
        }
    }
}

/// Only a kick drops the duration typed for an escalation: a mute or a ban
/// keeps any text that reaches past now, an empty field means
/// "indefinitely" (no duration), and other text is refused. A kick takes
/// no duration, whatever was typed.
pub proof fn law_only_kicks_drop_the_duration(action: ActionType, field: Option<Seq<char>>)
    ensures
        action == ActionType::Kick ==> escalation_duration_check(action, field) == Ok::<Option<Seq<char>>, ConfigIssue>(None),
        action != ActionType::Kick ==> match field {
            None => escalation_duration_check(action, field) == Err::<Option<Seq<char>>, ConfigIssue>(ConfigIssue::InvalidOption),
            Some(t) => {
                &&& t.len() == 0 ==> escalation_duration_check(action, field) == Ok::<Option<Seq<char>>, ConfigIssue>(None)
                &&& t.len() > 0 && is_future_duration(t) ==> escalation_duration_check(action, field)
                    == Ok::<Option<Seq<char>>, ConfigIssue>(Some(t))
                &&& t.len() > 0 && !is_future_duration(t) ==> escalation_duration_check(action, field)
                    == Err::<Option<Seq<char>>, ConfigIssue>(ConfigIssue::InvalidDuration)
            },
        },
{
}

/// A ban or a mute added with a duration that reaches past now is stored
/// with that duration: for `n` days typed as `n` and `d`, the duration
/// is kept as typed.
pub proof fn law_timed_escalations_keep_days(action: ActionType, ds: Seq<char>)
    requires
        action == ActionType::Ban || action == ActionType::Mute,
        ds.len() > 0,
        all_digits(ds),
        0 < digits_value(ds) <= u64::MAX,
    ensures
        escalation_duration_check(action, Some(ds + seq!['d'])) == Ok::<Option<Seq<char>>, ConfigIssue>(
            Some(ds + seq!['d']),
        ),
{
    law_number_then_unit(ds);
    let u = DurationUnits { days: digits_value(ds) as u64, ..DurationUnits::zero() };
    assert(u.days != 0);
    assert(u != DurationUnits::zero());
    assert((ds + seq!['d']).len() > 0);
}

/// Adding a timed ban or mute keeps its duration: when the strike count is
/// accepted and the second field holds text that reaches past now, the
/// escalation added last has that count, that action and exactly that
/// text as its duration. A kick is added without a duration.
pub proof fn law_added_escalation_keeps_its_duration(before: Seq<ActionEscalation>, action: ActionType,
    f: Seq<Option<String>>, after: Seq<ActionEscalation>, r: EscalationStep, count: i64)
    requires
        f.len() >= 2,
        details_outcome(before, action, Some(f), after, r),
        strike_count_check(field_text(f[0]), before) == Ok::<i64, ConfigIssue>(count),
    ensures
        action == ActionType::Kick ==> r is Redraw && after.len() == before.len() + 1 && after.last().strike_count == count
            && after.last().action_type == action && after.last().action_duration is None,
        action != ActionType::Kick ==> match f[1] {
            Some(t) => t@.len() > 0 && is_future_duration(t@) ==> (r is Redraw && after.len() == before.len() + 1
                && after.drop_last() == before && after.last().strike_count == count && after.last().action_type == action
                && (after.last().action_duration matches Some(d) && d@ == t@)),
            None => after == before,
        },
{
    law_only_kicks_drop_the_duration(action, if action == ActionType::Kick { None } else { field_text(f[1]) });
}

} // verus!
