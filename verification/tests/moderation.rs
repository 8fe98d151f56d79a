use reaper::actions::{ActionEscalation, ActionType};
use reaper::duration::Duration;
use reaper::moderation::changes::{
    action_id, DurationCommand, ExpireCommand, ReasonCommand, RemoveCommand, UnbanCommand, UnmuteCommand,
};
use reaper::moderation::purge::{cutoff_snowflake, deletion_of, purge_log, purge_reply_text, FetchedMessage, PurgeCommand, PurgeDeletion};
use reaper::moderation::records::{action_reply, expiry_field, timestamp_text, Action};
use reaper::moderation::search::{SearchCommand, SearchPage, SearchStep};
use reaper::moderation::strike::{
    escalation_plan, find_escalation, mute_role, resolve_strike_duration, strike_action, strike_duration, strike_tasks,
    EscalationPlan, StrikeTask,
};
use reaper::response::Refusal;
use reaper::moderation::{check_rank, KickCommand, MuteCommand, StrikeCommand};
use reaper::permissions::Permission;
use reaper::interaction::{ComponentData, Interaction};

const NO_PERMISSION: &str = "You do not have permission to do this!";

#[test]
fn strike_checks_in_order() {
    let s = StrikeCommand;
    let e = s.check(&vec![], 1, Some(2), Some("spam".to_string())).unwrap_err();
    assert_eq!(e.title, NO_PERMISSION);
    assert_eq!(e.detail.unwrap(), "You are missing the `moderation.strike` permission. If you believe this is a mistake, please contact your server administrators.");
    let e = s.check(&vec![Permission::ModerationStrike], 1, None, Some("spam".to_string())).unwrap_err();
    assert_eq!(e.title, "No member found!");
    let e = s.check(&vec![Permission::ModerationStrike], 1, Some(1), Some("spam".to_string())).unwrap_err();
    assert_eq!(e.title, "You cannot strike yourself!");
    assert_eq!(e.detail.unwrap(), "You cannot strike yourself, that would be silly.");
    let e = s.check(&vec![Permission::ModerationStrike], 1, Some(2), None).unwrap_err();
    assert_eq!(e.title, "No reason provided!");
    assert_eq!(e.detail.unwrap(), "Please provide a reason for the strike.");
    let ok = s.check(&vec![Permission::ModerationStrike], 1, Some(2), Some("spam".to_string())).unwrap();
    assert_eq!((ok.user, ok.reason.as_str()), (2, "spam"));
    assert_eq!(s.name(), "strike");
}

#[test]
fn kick_rank_checks() {
    let k = KickCommand;
    let e = k.check_ranks(5, 9, 5).unwrap_err();
    assert_eq!(e.title, "You cannot kick this user!");
    assert_eq!(e.detail.unwrap(), "You cannot kick a user with a role equal to or higher than yours.");
    let e = k.check_ranks(9, 5, 5).unwrap_err();
    assert_eq!(e.title, "Reaper cannot kick this user!");
    assert!(k.check_ranks(9, 9, 5).is_ok());
    assert!(check_rank(ActionType::Mute, 3, 2).is_ok());
    assert_eq!(check_rank(ActionType::Mute, 2, 2).unwrap_err().title, "You cannot mute this user!");
}

#[test]
fn mute_needs_a_duration() {
    let m = MuteCommand;
    let e = m.check(&vec![Permission::ModerationMute], 1, Some(2), Some("r".to_string()), None).unwrap_err();
    assert_eq!(e.title, "Invalid or no duration provided");
    let ok = m.check(&vec![Permission::ModerationMute], 1, Some(2), Some("r".to_string()), Some("1h".to_string())).unwrap();
    assert_eq!(ok.duration, "1h");
    assert_eq!(ok.target.user, 2);
    // Another moderation permission does not do.
    let e = m.check(&vec![Permission::ModerationStrike], 1, Some(2), Some("r".to_string()), Some("1h".to_string())).unwrap_err();
    assert!(e.detail.unwrap().contains("moderation.mute"));
}

#[test]
fn strike_duration_choice() {
    let given = Duration::new("2d".to_string());
    let r = strike_duration(Some(given), None).unwrap().unwrap();
    assert_eq!(r.days, 2);
    let permanent = Duration::new("".to_string());
    assert!(strike_duration(Some(permanent), None).unwrap().is_none());
    let from_default = strike_duration(None, Some("3h".to_string())).unwrap().unwrap();
    assert_eq!(from_default.hours, 3);
    let e = strike_duration(None, None).unwrap_err();
    assert_eq!(e.title, "No duration was provided");
    assert!(resolve_strike_duration(None, Some("99999999999999999999999h".to_string())).is_none());
    assert!(resolve_strike_duration(None, Some("1h".to_string())).unwrap().is_ok());
}

#[test]
fn escalation_for_the_next_strike() {
    let es = vec![
        ActionEscalation { strike_count: 2, action_type: ActionType::Mute, action_duration: Some("1h".to_string()) },
        ActionEscalation { strike_count: 3, action_type: ActionType::Kick, action_duration: None },
        ActionEscalation { strike_count: 3, action_type: ActionType::Ban, action_duration: None },
    ];
    assert_eq!(find_escalation(&es, 1), Some(0));
    assert_eq!(find_escalation(&es, 2), Some(1));
    assert_eq!(find_escalation(&es, 0), None);
    assert_eq!(find_escalation(&es, 5), None);
}

#[test]
fn escalation_plans() {
    let kick = escalation_plan(ActionEscalation { strike_count: 3, action_type: ActionType::Kick, action_duration: None });
    match kick.ok().unwrap() {
        EscalationPlan::Kick { reason } => assert_eq!(reason, "Strike escalation (reached 3 strikes)"),
        _ => panic!("expected a kick"),
    }
    let mute = escalation_plan(ActionEscalation { strike_count: 2, action_type: ActionType::Mute, action_duration: Some("1h".to_string()) });
    match mute.ok().unwrap() {
        EscalationPlan::Mute { reason, duration } => {
            assert_eq!(reason, "Strike escalation (reached 2 strikes)");
            assert_eq!(duration, "1h");
        }
        _ => panic!("expected a mute"),
    }
    let bad = escalation_plan(ActionEscalation { strike_count: 2, action_type: ActionType::Mute, action_duration: None });
    assert_eq!(bad.err().unwrap().title, "Strike escalation mute did not provide a duration");
    let strike = escalation_plan(ActionEscalation { strike_count: 2, action_type: ActionType::Strike, action_duration: None });
    assert_eq!(strike.err().unwrap().title, "Strike escalation action type is strike!");
    let ban = escalation_plan(ActionEscalation { strike_count: 4, action_type: ActionType::Ban, action_duration: Some("7d".to_string()) });
    match ban.ok().unwrap() {
        EscalationPlan::Ban { ban_duration, .. } => assert_eq!(ban_duration.unwrap(), "7d"),
        _ => panic!("expected a ban"),
    }
}

#[test]
fn mute_role_resolution() {
    assert_eq!(mute_role(Some(Some(77))).ok(), Some(77));
    assert_eq!(mute_role(Some(None)).err().unwrap().title, "Could not find mute role!");
    assert_eq!(mute_role(None).err().unwrap().title, "Could not find a moderation configuration!");
}

#[test]
fn action_texts() {
    assert_eq!(timestamp_text(1700000000), "<t:1700000000:F>");
    assert_eq!(expiry_field(None), "Never");
    assert_eq!(expiry_field(Some(5)), "<t:5:F>");
    assert_eq!(action_reply(ActionType::Strike, 12, true), "<@12> was issued a strike");
    assert_eq!(action_reply(ActionType::Kick, 12, false), "<@12> was kicked\n*<@12> could not be notified*");
    assert_eq!(action_reply(ActionType::Mute, 3, true), "<@3> has been muted");
}

#[test]
fn purge_targets_and_rounds() {
    let p = PurgeCommand.start(None, None);
    assert_eq!((p.target, p.rounds), (100, 2));
    let p = PurgeCommand.start(Some(5000), Some(9));
    assert_eq!((p.target, p.rounds, p.author), (1000, 10, Some(9)));
    let p = PurgeCommand.start(Some(250), None);
    assert_eq!((p.target, p.rounds), (250, 3));
    let p = PurgeCommand.start(Some(-50), None);
    assert_eq!((p.target, p.rounds), (-50, 1));
    let p = PurgeCommand.start(Some(-150), None);
    assert_eq!(p.rounds, 0);
    assert!(!p.goes_on());
}

#[test]
fn purge_round_bookkeeping() {
    let mut p = PurgeCommand.start(Some(150), None);
    assert_eq!(p.target, 150);
    let mut q = PurgeCommand.start(Some(120), Some(4));
    assert_eq!(q.limit(), 100);
    let messages = vec![
        FetchedMessage { id: 1, author: 4, bot: false },
        FetchedMessage { id: 2, author: 5, bot: false },
        FetchedMessage { id: 3, author: 4, bot: true },
        FetchedMessage { id: 4, author: 4, bot: false },
    ];
    let ids = q.select(&messages);
    assert_eq!(ids, vec![1, 4]);
    q.finish_round(100, ids.len());
    assert_eq!(q.deleted, 2);
    assert!(!q.stopped);
    assert_eq!(q.limit(), 100);
    q.finish_round(30, 0);
    assert!(q.stopped);
    assert!(!q.goes_on());
    p.stopped = true;
    assert!(!p.goes_on());
    let all = PurgeCommand.start(None, None).select(&messages);
    assert_eq!(all, vec![1, 2, 4]);
}

#[test]
fn purge_deletion_modes_and_texts() {
    assert!(matches!(deletion_of(vec![7]), PurgeDeletion::Single(7)));
    assert!(matches!(deletion_of(vec![]), PurgeDeletion::Bulk(v) if v.is_empty()));
    assert!(matches!(deletion_of(vec![1, 2]), PurgeDeletion::Bulk(v) if v == vec![1, 2]));
    assert_eq!(purge_reply_text(12, None), "`12` messages have been purged");
    assert_eq!(purge_reply_text(3, Some(8)), "`3` messages posted by <@8> have been purged");
    let (d, f) = purge_log(1, 5, Some(2), 99);
    assert_eq!(d, "<@1> has purged `5` messages from <#99>");
    assert_eq!(f, "Moderator 1 purged 5 messages from 2");
    let (d, f) = purge_log(1, 5, None, 99);
    assert_eq!(d, "<@1> has purged `5` messages");
    assert_eq!(f, "Moderator 1 purged 5 messages");
}

#[test]
fn purge_cutoff_is_the_snowflake_of_two_weeks_ago() {
    let now: u64 = 1_700_000_000;
    let expected = ((now - 14 * 24 * 60 * 60) * 1000 - 1420070400000) << 22;
    assert_eq!(cutoff_snowflake(now), expected);
}

fn action(kind: ActionType, active: bool) -> Action {
    Action {
        id: "uuid-1".to_string(),
        action_type: kind,
        user_id: 5,
        moderator_id: 6,
        guild_id: 7,
        reason: "spam".to_string(),
        active,
        created_at: 100,
        expiry: None,
    }
}

#[test]
fn search_permissions_and_pages() {
    let s = SearchCommand;
    assert_eq!(s.required(true, false), Permission::ModerationSearchSelf);
    assert_eq!(s.required(true, true), Permission::ModerationSearchSelfExpired);
    assert_eq!(s.required(false, false), Permission::ModerationSearchOthers);
    assert_eq!(s.required(false, true), Permission::ModerationSearchOthersExpired);
    assert_eq!(s.target(1, None), 1);
    assert_eq!(s.target(1, Some(2)), 2);
    assert!(s.check(1, 2, true, &vec![Permission::ModerationSearchOthers]).unwrap_err().detail.unwrap().contains("moderation.search.others.expired"));
    assert!(s.check(1, 2, true, &vec![Permission::ModerationSearchOthersExpired]).is_ok());
    assert!(s.check(1, 1, false, &vec![Permission::ModerationSearchSelf]).is_ok());
    assert!(s.check(1, 1, false, &vec![]).unwrap_err().detail.unwrap().contains("moderation.search.self"));
    match s.page("ann", 5, &vec![], 1, false) {
        SearchPage::Empty { title, description } => {
            assert_eq!(title, "ann's history");
            assert_eq!(description, "No actions found");
        }
        _ => panic!("expected an empty page"),
    }
    let actions = vec![action(ActionType::Strike, true), action(ActionType::Ban, false)];
    match s.page("ann", 5, &actions, 3, false) {
        SearchPage::Empty { description, .. } => assert_eq!(description, "Invalid page"),
        _ => panic!("expected an empty page"),
    }
    match s.page("ann", 5, &actions, 2, true) {
        SearchPage::Shown(p) => {
            assert_eq!(p.title, "ann's history");
            assert_eq!(p.description, "<@5>");
            assert_eq!(p.kind, "Ban (Expired)");
            assert_eq!(p.moderator, "<@6>");
            assert_eq!(p.issued, "<t:100:F>");
            assert_eq!(p.expires, "Never");
            assert_eq!(p.colour, 0xba2f1e);
            assert_eq!(p.position, "Page 2/2");
            assert!(!p.previous_disabled);
            assert!(p.next_disabled);
        }
        _ => panic!("expected a page"),
    }
    match s.page("ann", 5, &actions, 1, false) {
        SearchPage::Shown(p) => {
            assert_eq!(p.title, "ann's active history");
            assert_eq!(p.kind, "Strike ");
            assert_eq!(p.colour, 0xeb966d);
        }
        _ => panic!("expected a page"),
    }
}

#[test]
fn purge_needs_its_permission() {
    assert_eq!(PurgeCommand.required_permission(), Permission::ModerationPurge);
    let e = PurgeCommand.check(&vec![Permission::ModerationSearchSelf]).unwrap_err();
    assert_eq!(e.title, NO_PERMISSION);
    assert!(e.detail.unwrap().contains("`moderation.purge`"));
    assert!(PurgeCommand.check(&vec![Permission::ModerationPurge]).is_ok());
}

#[test]
fn search_navigation() {
    let s = SearchCommand;
    let next = Interaction { custom_id: "next".to_string(), data: ComponentData::Button };
    let prev = Interaction { custom_id: "previous".to_string(), data: ComponentData::Button };
    assert!(matches!(s.on_click(&next, 1, 1, 1, false, &vec![], 1, 3), SearchStep::Moved(2)));
    assert!(matches!(s.on_click(&next, 1, 1, 1, false, &vec![], 3, 3), SearchStep::Unchanged));
    assert!(matches!(s.on_click(&prev, 1, 1, 1, false, &vec![], 1, 3), SearchStep::Unchanged));
    assert!(matches!(s.on_click(&prev, 1, 1, 1, false, &vec![], 2, 3), SearchStep::Moved(1)));
    let uuid = Interaction { custom_id: "uuid".to_string(), data: ComponentData::Button };
    assert!(matches!(s.on_click(&uuid, 1, 1, 1, false, &vec![], 2, 3), SearchStep::ShowId(1)));
    assert!(matches!(s.on_click(&next, 9, 1, 1, false, &vec![], 1, 3), SearchStep::Refused(_)));
    let others = vec![Permission::ModerationSearchOthers];
    assert!(matches!(s.on_click(&next, 9, 1, 1, false, &others, 1, 3), SearchStep::Moved(2)));
    // The clicker is the member searched: the permission on oneself counts.
    assert!(matches!(s.on_click(&next, 1, 2, 1, false, &others, 1, 3), SearchStep::Refused(_)));
    let own = vec![Permission::ModerationSearchSelf];
    assert!(matches!(s.on_click(&next, 1, 2, 1, false, &own, 1, 3), SearchStep::Moved(2)));
    let menu = Interaction { custom_id: "next".to_string(), data: ComponentData::Other };
    assert!(matches!(s.on_click(&menu, 1, 1, 1, false, &vec![], 1, 3), SearchStep::Ignored));
}

#[test]
fn change_commands() {
    let e = DurationCommand.check(&vec![Permission::ModerationDuration], None).unwrap_err();
    assert_eq!(e.title, "Duration not provided!");
    assert_eq!(DurationCommand.check(&vec![Permission::ModerationDuration], Some("1d".to_string())).ok().unwrap(), "1d");
    let (reply, log, footer) = DurationCommand.messages("abc", 10);
    assert_eq!(reply, "The duration of action `abc` has been updated to <t:10:F>");
    assert_eq!(log, "The duration of action `abc` will now expire on <t:10:F>");
    assert_eq!(footer, "Duration updated | UUID: abc");
    assert_eq!(ExpireCommand.check(&vec![Permission::ModerationExpire], None).unwrap_err().title, "UUID not provided!");
    assert_eq!(ExpireCommand.messages("x").0, "The action with ID `x` has been manually expired");
    assert_eq!(ReasonCommand.messages("x", "spam").0, "The reason of action `x` has been updated to spam");
    assert!(RemoveCommand.check(&vec![], None).unwrap_err().detail.unwrap().contains("moderation.reason"));
    // Removing needs `moderation.remove`, though its refusal names `moderation.reason`.
    assert!(RemoveCommand.check(&vec![Permission::ModerationReason], Some("x".to_string())).is_err());
    assert_eq!(RemoveCommand.check(&vec![Permission::ModerationRemove], Some("x".to_string())).ok().unwrap(), "x");
    assert_eq!(ReasonCommand.check(&vec![Permission::ModerationReason], Some("r".to_string())).ok().unwrap(), "r");
    assert!(UnmuteCommand.check(&vec![Permission::ModerationUnban], Some(4)).unwrap_err().detail.unwrap().contains("moderation.unmute"));
    assert_eq!(UnmuteCommand.check(&vec![Permission::ModerationUnmute], Some(4)).ok(), Some(4));
    assert_eq!(RemoveCommand.messages("x").1, "Action removed | UUID: x");
    assert_eq!(action_id(None, Some("recent".to_string())).ok().unwrap(), "recent");
    assert_eq!(action_id(Some("given".to_string()), Some("recent".to_string())).ok().unwrap(), "given");
    assert_eq!(action_id(None, None).unwrap_err().title, "Could not find most recent action");
}

#[test]
fn lifting_commands() {
    assert_eq!(UnbanCommand.check(&vec![Permission::ModerationUnban], None).unwrap_err().title, "User not provided!");
    assert_eq!(UnbanCommand.check(&vec![Permission::ModerationUnban], Some(4)).ok(), Some(4));
    assert_eq!(UnbanCommand.audit_reason("mod", 3), "Unban by mod (3)");
    assert_eq!(UnmuteCommand.audit_reason("mod", 3), "Unmute by mod (3)");
    let (reply, footer) = UnmuteCommand.messages(8);
    assert_eq!(reply, "<@8> has been unmuted");
    assert_eq!(footer, "User 8 unmuted");
    assert_eq!(UnbanCommand.messages(8).0, "<@8> has been unbanned");
    assert_eq!(UnbanCommand.failed().title, "Could not unban user");
}

#[test]
fn strike_escalates_before_storing() {
    let es = vec![
        ActionEscalation { strike_count: 2, action_type: ActionType::Kick, action_duration: None },
        ActionEscalation { strike_count: 3, action_type: ActionType::Ban, action_duration: Some("7d".to_string()) },
    ];
    let tasks = strike_tasks(&es, 1).unwrap();
    assert_eq!(tasks.len(), 3);
    match &tasks[0] {
        StrikeTask::Escalate(EscalationPlan::Kick { reason }) => assert_eq!(reason, "Strike escalation (reached 2 strikes)"),
        other => panic!("unexpected {:?}", other),
    }
    assert!(matches!(tasks[1], StrikeTask::Store));
    assert!(matches!(tasks[2], StrikeTask::Announce));
    // No escalation at this count, and none at all: store and announce.
    let tasks = strike_tasks(&es, 5).unwrap();
    assert!(matches!(tasks.as_slice(), [StrikeTask::Store, StrikeTask::Announce]));
    let tasks = strike_tasks(&vec![], 1).unwrap();
    assert!(matches!(tasks.as_slice(), [StrikeTask::Store, StrikeTask::Announce]));
    // An escalation to a strike refuses the whole strike.
    let bad = vec![ActionEscalation { strike_count: 1, action_type: ActionType::Strike, action_duration: None }];
    let e = strike_tasks(&bad, 0).unwrap_err();
    assert_eq!(e.title, "Strike escalation action type is strike!");
}

#[test]
fn strike_records_only_a_successful_escalation() {
    let done = strike_action(action(ActionType::Strike, true), Some(Ok(action(ActionType::Kick, true))), true);
    assert_eq!(done.escalation.map(|a| a.action_type), Some(ActionType::Kick));
    assert!(done.dm_notified);
    let failed = strike_action(
        action(ActionType::Strike, true),
        Some(Err(Refusal { title: "failed".to_string(), detail: None })),
        false,
    );
    assert!(failed.escalation.is_none());
    assert!(!failed.dm_notified);
    let none = strike_action(action(ActionType::Strike, true), None, true);
    assert!(none.escalation.is_none());
    assert_eq!(none.strike.action_type, ActionType::Strike);
}

#[test]
fn unmute_ends_only_this_servers_mutes() {
    let mut mine = action(ActionType::Mute, true);
    mine.user_id = 5;
    mine.guild_id = 7;
    let mut elsewhere = action(ActionType::Mute, true);
    elsewhere.guild_id = 8;
    let mut other_user = action(ActionType::Mute, true);
    other_user.user_id = 6;
    let strike = action(ActionType::Strike, true);
    let after = UnmuteCommand.end_mutes(vec![mine, elsewhere, other_user, strike], 7, 5);
    let active: Vec<bool> = after.iter().map(|a| a.active).collect();
    assert_eq!(active, vec![false, true, true, true]);
    assert_eq!(after[1].guild_id, 8);
    assert_eq!(after[0].reason, "spam");
}
