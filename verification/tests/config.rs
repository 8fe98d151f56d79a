use reaper::actions::{ActionEscalation, ActionType};
use reaper::config::moderation::{escalation_description, escalation_label, removal_label, EscalationStep, ModerationEscalations};
use reaper::response::{ReplyMode, ReplyState};
use reaper::config::xp::basic::XPMessageCooldown;
use reaper::config::xp::channel_blacklist::{
    BlacklistEditor, BlacklistKind, BlacklistStep, ChannelBlacklistEnter, ChannelBlacklistManage, EditMode,
};
use reaper::config::xp::rewards::{LevelReward, ManageRewards, RewardsEnter};
use reaper::config::xp::role_blacklist::{RoleBlacklistEnter, RoleBlacklistManage};
use reaper::config::{ConfigCommand, ConfigIssue, ConfigStart, ConfigWrite, FormStageStep};
use reaper::interaction::{ComponentData, Interaction};

fn click(id: &str) -> Interaction {
    Interaction { custom_id: id.to_string(), data: ComponentData::Button }
}

fn pick_channel(c: i64) -> Interaction {
    Interaction { custom_id: "pick_channel".to_string(), data: ComponentData::ChannelSelect(vec![c]) }
}

#[test]
fn config_issue_texts() {
    assert_eq!(ConfigIssue::InvalidOption.title(), "Invalid option");
    assert_eq!(ConfigIssue::InvalidOption.detail(), "Please select a valid option.");
    assert_eq!(ConfigIssue::TimedOut.detail(), "We didn't get a response in time. Please try again.");
    assert_eq!(ConfigIssue::ChannelBoosted.detail(), "This channel is currently boosted, you cannot blacklist a boosted channel.");
}

#[test]
fn config_start_by_category() {
    let c = ConfigCommand;
    assert_eq!(c.start(&Some("moderation".to_string())), (ConfigStart::ModerationFooter, true));
    assert_eq!(c.start(&Some("logging".to_string())), (ConfigStart::LoggingCategories, true));
    assert_eq!(c.start(&Some("xp".to_string())), (ConfigStart::XpRandomOrSet, true));
    assert_eq!(c.start(&Some("role_recovery".to_string())), (ConfigStart::RoleRecovery, true));
    assert_eq!(c.start(&Some("other".to_string())), (ConfigStart::ModerationEnter, true));
    assert_eq!(c.start(&None), (ConfigStart::ModerationEnter, false));
    assert_eq!(c.name(), "config");
}

#[test]
fn blacklist_enter_answers() {
    let r = ChannelBlacklistEnter.answer(Some(&click("skip")));
    assert_eq!(r, Ok(Some(2)));
    assert_eq!(RoleBlacklistEnter.answer(Some(&click("yes"))), Ok(None));
    let bad = ChannelBlacklistEnter.answer(Some(&click("maybe"))).unwrap_err();
    assert_eq!(bad.error, ConfigIssue::InvalidOption);
    let late = ChannelBlacklistEnter.answer(None).unwrap_err();
    assert_eq!(late.error, ConfigIssue::TimedOut);
    assert_eq!(late.stages_to_skip, Some(100));
}

#[test]
fn rewards_enter_answers() {
    assert_eq!(RewardsEnter.answer(Some(&click("no"))), Ok(Some(2)));
    assert_eq!(RewardsEnter.answer(Some(&click("skip"))), Ok(Some(2)));
    assert_eq!(RewardsEnter.answer(Some(&click("yes"))), Ok(None));
}

#[test]
fn blacklist_pages() {
    assert_eq!(ChannelBlacklistManage::max_pages(0), 1);
    assert_eq!(ChannelBlacklistManage::max_pages(25), 1);
    assert_eq!(ChannelBlacklistManage::max_pages(26), 2);
    assert_eq!(RoleBlacklistManage::max_pages(50), 2);
    assert_eq!(RoleBlacklistManage::max_pages(51), 3);
}

#[test]
fn blacklist_view_lists_entries() {
    let v = ChannelBlacklistManage::generate_display_message(&vec![1, 2], 0, false);
    assert_eq!(v.title, "Blacklisted Channels - Page 1/1");
    assert_eq!(v.description.unwrap(), "The following channels are currently blacklisted:\n\n<#1>\n<#2>");
    assert!(v.previous_disabled);
    assert!(v.next_disabled);
    assert!(!v.remove_disabled);
    let r = RoleBlacklistManage::generate_display_message(&vec![], 0, true);
    assert_eq!(r.title, "Blacklisted Roles - Page 1/1");
    assert!(r.description.is_none());
    assert!(r.editing);
    assert!(r.remove_disabled);
    let many: Vec<i64> = (1..=30).collect();
    let p2 = RoleBlacklistManage::generate_display_message(&many, 1, false);
    assert_eq!(p2.title, "Blacklisted Roles - Page 2/2");
    assert!(p2.description.unwrap().ends_with("<@&26>\n<@&27>\n<@&28>\n<@&29>\n<@&30>"));
}

#[test]
fn blacklist_add_then_remove_restores() {
    let mut e = BlacklistEditor::new(BlacklistKind::Channel, vec![5]);
    assert!(matches!(e.on_click(&click("add"), false), BlacklistStep::Redraw { acknowledge: false }));
    assert_eq!(e.mode, Some(EditMode::Add));
    assert!(matches!(e.on_click(&pick_channel(7), false), BlacklistStep::Redraw { acknowledge: true }));
    assert_eq!(e.entries, vec![5, 7]);
    assert_eq!(e.mode, None);
    e.on_click(&click("remove"), false);
    e.on_click(&pick_channel(7), false);
    assert_eq!(e.entries, vec![5]);
}

#[test]
fn blacklist_refusals() {
    let mut e = BlacklistEditor::new(BlacklistKind::Channel, vec![5]);
    e.on_click(&click("add"), false);
    match e.on_click(&pick_channel(5), false) {
        BlacklistStep::Finish { save, result, .. } => {
            assert!(save);
            assert_eq!(result.unwrap_err().error, ConfigIssue::ChannelAlreadyAdded);
        }
        _ => panic!("expected the stage to end"),
    }
    let mut b = BlacklistEditor::new(BlacklistKind::Channel, vec![]);
    b.on_click(&click("add"), false);
    match b.on_click(&pick_channel(9), true) {
        BlacklistStep::Finish { result, .. } => assert_eq!(result.unwrap_err().error, ConfigIssue::ChannelBoosted),
        _ => panic!("expected the stage to end"),
    }
    let mut n = BlacklistEditor::new(BlacklistKind::Channel, vec![]);
    match n.on_click(&pick_channel(9), false) {
        BlacklistStep::Finish { result, .. } => assert_eq!(result.unwrap_err().error, ConfigIssue::InvalidOption),
        _ => panic!("expected the stage to end"),
    }
    let mut m = BlacklistEditor::new(BlacklistKind::Channel, vec![1]);
    m.on_click(&click("remove"), false);
    match m.on_click(&pick_channel(2), false) {
        BlacklistStep::Finish { acknowledge, result, .. } => {
            assert!(acknowledge);
            assert_eq!(result.unwrap_err().error, ConfigIssue::ChannelNotAdded);
        }
        _ => panic!("expected the stage to end"),
    }
}

#[test]
fn blacklist_paging_and_finishing() {
    let many: Vec<i64> = (1..=30).collect();
    let mut e = BlacklistEditor::new(BlacklistKind::Role, many);
    e.on_click(&click("next"), false);
    assert_eq!(e.page, 1);
    e.on_click(&click("next"), false);
    assert_eq!(e.page, 1);
    e.on_click(&click("previous"), false);
    e.on_click(&click("previous"), false);
    assert_eq!(e.page, 0);
    assert!(matches!(e.on_click(&click("done"), false), BlacklistStep::Finish { save: true, result: Ok(None), .. }));
    assert!(matches!(e.on_click(&click("revert"), false), BlacklistStep::Finish { save: false, result: Ok(Some(0)), .. }));
    assert_eq!(e.on_silence(), Ok(None));
}

#[test]
fn rewards_grouped_by_level() {
    let rewards = vec![
        LevelReward { role: 1, level: 5 },
        LevelReward { role: 2, level: 10 },
        LevelReward { role: 3, level: 5 },
    ];
    let v = ManageRewards::generate_display_message(&rewards, 0, false);
    assert_eq!(v.title, "Level Rewards - Page 1/1");
    assert_eq!(v.fields.len(), 2);
    assert_eq!(v.fields[0].name, "Level 5");
    assert_eq!(v.fields[0].value, "<@&1>\n<@&3>");
    assert_eq!(v.fields[1].name, "Level 10");
    assert_eq!(v.fields[1].value, "<@&2>");
    let empty = ManageRewards::generate_display_message(&vec![], 0, false);
    assert_eq!(empty.title, "Level Rewards - Page 1/0");
    assert!(empty.fields.is_empty());
    assert!(!empty.next_disabled);
}

#[test]
fn message_cooldown_form() {
    let s = XPMessageCooldown;
    let r = s.on_form(Some(Some("30".to_string())));
    assert_eq!(r.writes, vec![ConfigWrite::MessageCooldown(30)]);
    assert_eq!(r.result, Ok(None));
    let bad = s.on_form(Some(Some("0".to_string())));
    assert!(bad.writes.is_empty());
    assert_eq!(bad.result.unwrap_err().error, ConfigIssue::InvalidCooldown);
    assert!(matches!(s.on_click(Some(&click("change"))), FormStageStep::AskForm));
}

#[test]
fn escalations_refuse_duplicate_counts() {
    let mut m = ModerationEscalations {
        escalations: vec![ActionEscalation { strike_count: 3, action_type: ActionType::Mute, action_duration: Some("1h".to_string()) }],
    };
    let dup = m.on_details(ActionType::Kick, Some(&vec![Some("3".to_string())]));
    match dup {
        EscalationStep::Finish { result, .. } => assert_eq!(result.unwrap_err().error, ConfigIssue::DuplicateStrikeCount),
        _ => panic!("expected the stage to end"),
    }
    assert!(matches!(m.on_details(ActionType::Kick, Some(&vec![Some("4".to_string())])), EscalationStep::Redraw));
    assert_eq!(m.escalations.len(), 2);
    assert_eq!(m.escalations[1].strike_count, 4);
    let low = m.on_details(ActionType::Kick, Some(&vec![Some("0".to_string())]));
    match low {
        EscalationStep::Finish { result, .. } => assert_eq!(result.unwrap_err().error, ConfigIssue::StrikeCountTooLow),
        _ => panic!("expected the stage to end"),
    }
    assert!(m.can_add());
}

#[test]
fn escalation_labels() {
    assert_eq!(escalation_label(1), "1st escalation");
    assert_eq!(escalation_label(2), "2nd escalation");
    assert_eq!(escalation_label(3), "3rd escalation");
    assert_eq!(escalation_label(4), "4th escalation");
    assert_eq!(escalation_label(11), "11th escalation");
    assert_eq!(escalation_label(12), "12th escalation");
    assert_eq!(escalation_label(21), "21st escalation");
    assert_eq!(removal_label(2), "Remove 2nd escalation");
    let e = ActionEscalation { strike_count: 3, action_type: ActionType::Mute, action_duration: Some("1d".to_string()) };
    assert_eq!(escalation_description(&e), "At **3** strikes, Reaper will **mute** the user for **1d**.");
    let k = ActionEscalation { strike_count: 5, action_type: ActionType::Kick, action_duration: None };
    assert_eq!(escalation_description(&k), "At **5** strikes, Reaper will **kick** the user **indefinitely**.");
}

#[test]
fn escalation_editor_message() {
    let none = ModerationEscalations::generate_message(&vec![]);
    assert_eq!(none.title, "Configuration - Moderation");
    assert!(none.description.starts_with("You can now configure your strike escalations."));
    let add = none.add_menu.unwrap();
    let add: Vec<(&str, &str)> = add.iter().map(|(a, b)| (a.as_str(), b.as_str())).collect();
    assert_eq!(add, vec![("Add a mute escalation", "mute"), ("Add a kick escalation", "kick"), ("Add a ban escalation", "ban")]);
    assert!(none.remove_menu.is_none());
    assert!(none.fields.is_empty());
    let es = vec![
        ActionEscalation { strike_count: 3, action_type: ActionType::Mute, action_duration: Some("1d".to_string()) },
        ActionEscalation { strike_count: 5, action_type: ActionType::Ban, action_duration: None },
    ];
    let m = ModerationEscalations::generate_message(&es);
    let remove = m.remove_menu.unwrap();
    assert_eq!(remove[0], ("Remove 1st escalation".to_string(), "0".to_string()));
    assert_eq!(remove[1], ("Remove 2nd escalation".to_string(), "1".to_string()));
    assert_eq!(m.fields[0], ("1st escalation".to_string(), "At **3** strikes, Reaper will **mute** the user for **1d**.".to_string()));
    assert_eq!(m.fields[1], ("2nd escalation".to_string(), "At **5** strikes, Reaper will **ban** the user **indefinitely**.".to_string()));
    let full: Vec<ActionEscalation> = (1..=15)
        .map(|n| ActionEscalation { strike_count: n, action_type: ActionType::Kick, action_duration: None })
        .collect();
    let m = ModerationEscalations::generate_message(&full);
    assert!(m.add_menu.is_none());
    assert_eq!(m.remove_menu.unwrap().len(), 15);
}

#[test]
fn reply_state_stays_answered() {
    let mut s = ReplyState::new();
    assert_eq!(s.mode(true), ReplyMode::Create { ephemeral: true });
    s.after_send(false);
    assert!(!s.answered);
    s.after_send(true);
    assert!(s.answered);
    assert_eq!(s.mode(true), ReplyMode::Edit);
    s.after_send(false);
    assert!(s.answered);
}
