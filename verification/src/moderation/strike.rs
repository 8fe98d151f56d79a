//! Striking a member: how long the strike lasts, and what a server's
//! escalations do when the member reaches a number of strikes.

use vstd::prelude::*;
use crate::actions::{ActionEscalation, ActionType};
use crate::duration::{Duration, units_from_text};
use crate::moderation::records::Action;
use crate::response::{Refusal, refusal, refuses};
use crate::text::{decimal_text, push_i64, push_str};

verus! {

/// The title when no duration can be found for a strike.
pub open spec fn no_duration_title() -> Seq<char> {
    "No duration was provided"@
}

/// The explanation when no duration can be found for a strike.
pub open spec fn no_duration_text() -> Seq<char> {
    "A duration was not provided and this server has not configured a default strike duration"@
}

/// What choosing a strike's duration gives: a given duration is used, no
/// end at all when it is permanent; without one the server's default
/// strike duration is read, and a server without one refuses the strike.
pub open spec fn strike_duration_outcome(given: Option<Duration>, default_text: Option<Seq<char>>,
    r: Result<Option<Duration>, Refusal>) -> bool {
    match given {
        Some(d) => if d.spec_is_permanent() {
            r matches Ok(x) && x is None
        } else {
            r matches Ok(Some(x)) && x == d
        },
        None => match default_text {
            None => refuses(r, no_duration_title(), no_duration_text()),
            Some(t) => r matches Ok(Some(x)) && Some(x.units()) == units_from_text(t) && x.string@ == t,
        },
    }
}

/// The text of an optional string.
pub open spec fn text_of(o: Option<String>) -> Option<Seq<char>> {
    match o {
        Some(s) => Some(s@),
        None => None,
    }
}

/// Chooses a strike's duration; see `strike_duration_outcome`. A stored
/// default must be readable (see `resolve_strike_duration`).
pub fn strike_duration(given: Option<Duration>, default_text: Option<String>) -> (r: Result<Option<Duration>, Refusal>)
    requires
        given is None && default_text is Some ==> units_from_text(default_text->0@) is Some,
    ensures
        strike_duration_outcome(given, text_of(default_text), r),
{
    match given {
        Some(d) => if d.is_permanent() {
            Ok(None)
        } else {
            Ok(Some(d))
        },
        None => match default_text {
            None => Err(refusal("No duration was provided",
                "A duration was not provided and this server has not configured a default strike duration")),
            Some(t) => Ok(Some(Duration::new(t))),
        },
    }
}

/// Chooses a strike's duration as `strike_duration` does, or `None` when
/// the server's stored default has a number too large to read.
pub fn resolve_strike_duration(given: Option<Duration>, default_text: Option<String>)
    -> (r: Option<Result<Option<Duration>, Refusal>>)
    ensures
        match r {
            Some(res) => strike_duration_outcome(given, text_of(default_text), res),
            None => given is None && default_text is Some && units_from_text(default_text->0@) is None,
        },
{
    if given.is_none() {
        match default_text {
            Some(t) => match Duration::try_new(t) {
                None => None,
                Some(d) => Some(Ok(Some(d))),
            },
            None => Some(strike_duration(given, None)),
        }
    } else {
        Some(strike_duration(given, default_text))
    }
}

/// The position of the first escalation set for `count` strikes.
pub open spec fn escalation_at(es: Seq<ActionEscalation>, count: int) -> Option<int>
    decreases es.len(),
{
    if es.len() == 0 {
        None
    } else {
        match escalation_at(es.drop_last(), count) {
            Some(i) => Some(i),
            None => if es.last().strike_count == count { Some(es.len() - 1) } else { None },
        }
    }
}

proof fn lemma_escalation_at(es: Seq<ActionEscalation>, count: int)
    ensures
        match escalation_at(es, count) {
            Some(i) => 0 <= i < es.len() && es[i].strike_count == count
                && forall|j: int| 0 <= j < i ==> es[j].strike_count != count,
            None => forall|j: int| 0 <= j < es.len() ==> es[j].strike_count != count,
        },
    decreases es.len(),
{
    if es.len() > 0 {
        let t = es.drop_last();
        lemma_escalation_at(t, count);
        assert forall|j: int| 0 <= j < t.len() implies t[j] == es[j] by {}
    }
}

/// The escalation a new strike sets off: the first one set for one more
/// strike than the member has active.
pub fn find_escalation(es: &Vec<ActionEscalation>, active_strikes: usize) -> (r: Option<usize>)
    requires
        active_strikes < i64::MAX,
    ensures
        match r {
            Some(i) => escalation_at(es@, active_strikes + 1) == Some(i as int),
            None => escalation_at(es@, active_strikes + 1) is None,
        },
{
    let count: i64 = (active_strikes as i64) + 1;
    let mut i: usize = 0;
    proof {
        lemma_escalation_at(es@, count as int);
    }
    while i < es.len()
        invariant
            i <= es.len(),
            count == active_strikes + 1,
            forall|j: int| 0 <= j < i ==> es@[j].strike_count != count,
            match escalation_at(es@, count as int) {
                Some(k) => 0 <= k < es.len() && es@[k].strike_count == count
                    && forall|j: int| 0 <= j < k ==> es@[j].strike_count != count,
                None => forall|j: int| 0 <= j < es.len() ==> es@[j].strike_count != count,
            },
        decreases es.len() - i,
    {
        if es[i].strike_count == count {
            return Some(i);
        }
        i += 1;
    }
    None
}

/// What an escalation does to the member, with the reason recorded.
#[derive(Debug)]
pub enum EscalationPlan {
    Kick { reason: String },
    Mute { reason: String, duration: String },
    Ban { reason: String, ban_duration: Option<String> },
}

/// The reason recorded for an escalation at `count` strikes.
pub open spec fn escalation_reason(count: int) -> Seq<char> {
    "Strike escalation (reached "@ + decimal_text(count) + " strikes)"@
}

/// What carrying out an escalation gives: a kick, a mute for the set
/// duration or a ban (for the set duration, if any), each with the
/// reason `escalation_reason`; an escalation to a strike, or to a mute
/// without a duration, is refused.
pub open spec fn escalation_outcome(e: ActionEscalation, r: Result<EscalationPlan, Refusal>) -> bool {
    let why = escalation_reason(e.strike_count as int);
    match e.action_type {
        ActionType::Strike => refuses(r, "Strike escalation action type is strike!"@,
            "This should not happen, please contact a developer."@),
        ActionType::Kick => r matches Ok(EscalationPlan::Kick { reason }) && reason@ == why,
        ActionType::Mute => match e.action_duration {
            None => refuses(r, "Strike escalation mute did not provide a duration"@,
                "This should not happen, please contact a developer."@),
            Some(d) => r matches Ok(EscalationPlan::Mute { reason, duration }) && reason@ == why
                && duration@ == d@,
        },
        ActionType::Ban => r matches Ok(EscalationPlan::Ban { reason, ban_duration }) && reason@ == why
            && text_of(ban_duration) == text_of(e.action_duration),
    }
}

/// The plan for an escalation; see `escalation_outcome`.
pub fn escalation_plan(e: ActionEscalation) -> (r: Result<EscalationPlan, Refusal>)
    ensures
        escalation_outcome(e, r),
{
    let mut reason = String::new();
    push_str(&mut reason, "Strike escalation (reached ");
    push_i64(&mut reason, e.strike_count);
    push_str(&mut reason, " strikes)");
    assert(reason@ =~= escalation_reason(e.strike_count as int));
    match e.action_type {
        ActionType::Strike => Err(refusal("Strike escalation action type is strike!",
            "This should not happen, please contact a developer.")),
        ActionType::Kick => Ok(EscalationPlan::Kick { reason }),
        ActionType::Mute => match e.action_duration {
            None => Err(refusal("Strike escalation mute did not provide a duration",
                "This should not happen, please contact a developer.")),
            Some(duration) => Ok(EscalationPlan::Mute { reason, duration }),
        },
        ActionType::Ban => Ok(EscalationPlan::Ban { reason, ban_duration: e.action_duration }),
    }
}

/// A piece of work in striking a member, in the order it is done.
#[derive(Debug)]
pub enum StrikeTask {
    /// Carry out an escalation on the member.
    Escalate(EscalationPlan),
    /// Store the strike.
    Store,
    /// Post the strike to the action log channel, if the server has one,
    /// and tell the member by direct message.
    Announce,
}

/// What striking a member does, in order, given the server's escalations
/// and the member's active strikes: the escalation the new strike sets off
/// (see `escalation_at`) is carried out first, then the strike is stored,
/// then announced. An escalation that cannot be carried out (see
/// `escalation_outcome`) refuses the strike before anything is done.
pub open spec fn strike_tasks_outcome(es: Seq<ActionEscalation>, active_strikes: int,
    r: Result<Vec<StrikeTask>, Refusal>) -> bool {
    match escalation_at(es, active_strikes + 1) {
        None => r matches Ok(ts) && ts@.len() == 2 && ts@[0] is Store && ts@[1] is Announce,
        Some(i) => match r {
            Ok(ts) => ts@.len() == 3 && ts@[1] is Store && ts@[2] is Announce && match ts@[0] {
                StrikeTask::Escalate(p) => escalation_outcome(es[i], Ok(p)),
                _ => false,
            },
            Err(e) => escalation_outcome(es[i], Err(e)),
        },
    }
}

/// The work of striking a member; see `strike_tasks_outcome`. The active
/// strikes are only needed where the server has escalations.
pub fn strike_tasks(es: &Vec<ActionEscalation>, active_strikes: usize) -> (r: Result<Vec<StrikeTask>, Refusal>)
    requires
        active_strikes < i64::MAX,
    ensures
        strike_tasks_outcome(es@, active_strikes as int, r),
{
    let mut tasks: Vec<StrikeTask> = Vec::new();
    if es.len() > 0 {
        match find_escalation(es, active_strikes) {
            Some(i) => {
                proof {
                    lemma_escalation_at(es@, active_strikes + 1);
                }
                let duration = match &es[i].action_duration {
                    Some(d) => Some(d.clone()),
                    None => None,
                };
                let e = ActionEscalation {
                    strike_count: es[i].strike_count,
                    action_type: es[i].action_type,
                    action_duration: duration,
                };
                assert(text_of(e.action_duration) == text_of(es@[i as int].action_duration));
                match escalation_plan(e) {
                    Ok(p) => tasks.push(StrikeTask::Escalate(p)),
                    Err(refused) => {
                        return Err(refused);
                    },
                }
            },
            None => {},
        }
    } else {
        assert(escalation_at(es@, active_strikes + 1) is None);
    }
    tasks.push(StrikeTask::Store);
    tasks.push(StrikeTask::Announce);
    Ok(tasks)
}

/// The outcome of a strike once its work is done: `escalated` is what
/// carrying out the escalation gave (`None` where there was none), and
/// the strike records the escalation only where it succeeded.
pub fn strike_action(strike: Action, escalated: Option<Result<Action, Refusal>>, dm_notified: bool) -> (r: StrikeAction)
    ensures
        r.strike == strike,
        r.dm_notified == dm_notified,
        r.escalation == match escalated {
            Some(Ok(a)) => Some(a),
            _ => None::<Action>,
        },
{
    let escalation = match escalated {
        Some(Ok(a)) => Some(a),
        _ => None,
    };
    StrikeAction { strike, escalation, dm_notified }
}

/// The outcome of a strike: the strike itself, the escalation it set off,
/// if one was carried out, and whether the member was told.
#[derive(Debug)]
pub struct StrikeAction {
    pub strike: Action,
    pub escalation: Option<Action>,
    pub dm_notified: bool,
}

/// What resolving the mute role gives: the configured role, or a refusal
/// when the server has no moderation settings or no mute role.
pub open spec fn mute_role_outcome(config: Option<Option<i64>>, r: Result<i64, Refusal>) -> bool {
    match config {
        None => refuses(r, "Could not find a moderation configuration!"@,
            "Please contact your server administrator to configure the server moderation"@),
        Some(None) => refuses(r, "Could not find mute role!"@,
            "Please contact your server administrator to configure a mute role"@),
        Some(Some(id)) => r == Ok::<i64, Refusal>(id),
    }
}

/// The role that mutes, from the server's moderation settings (`None`
/// when it has none) and their mute role; see `mute_role_outcome`.
pub fn mute_role(config: Option<Option<i64>>) -> (r: Result<i64, Refusal>)
    ensures
        mute_role_outcome(config, r),
{
    match config {
        None => Err(refusal("Could not find a moderation configuration!",
            "Please contact your server administrator to configure the server moderation")),
        Some(None) => Err(refusal("Could not find mute role!",
            "Please contact your server administrator to configure a mute role")),
        Some(Some(id)) => Ok(id),
    }
}

} // verus!
