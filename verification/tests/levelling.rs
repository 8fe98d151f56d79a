use reaper::levelling::{
    level_for_xp, level_progress, level_up_delivery, number_to_string, render_level_up_message, reward_changes,
    reward_roles_held, xp_added, xp_for_level, xp_set, LevelUpSettings, LevelUpTarget, Reward,
};
use reaper::rank_card::{default_avatar_index, rank_card};

#[test]
fn level_zero_starts_at_zero_xp() {
    assert_eq!(xp_for_level(0), 0);
    assert_eq!(level_for_xp(0), 0);
}

#[test]
fn level_thresholds_follow_the_formula() {
    assert_eq!(xp_for_level(1), 75);
    assert_eq!(xp_for_level(2), 250);
    assert_eq!(xp_for_level(10), 5250);
    assert_eq!(level_for_xp(74), 0);
    assert_eq!(level_for_xp(75), 1);
    assert_eq!(level_for_xp(249), 1);
    assert_eq!(level_for_xp(250), 2);
    assert_eq!(level_for_xp(5250), 10);
    assert_eq!(level_for_xp(5249), 9);
}

#[test]
fn negative_xp_levels() {
    assert_eq!(level_for_xp(-1), -1);
    assert_eq!(level_for_xp(-3), -1);
    assert_eq!(level_for_xp(-4), 0);
    assert_eq!(level_for_xp(-1000), 0);
}

#[test]
fn level_for_xp_agrees_with_the_float_formula() {
    for xp in 0..20000i64 {
        let expected = ((-25.0 + f64::sqrt((625 + 200 * xp) as f64)) / 100.0).floor() as i64;
        assert_eq!(level_for_xp(xp), expected, "xp {}", xp);
    }
}

#[test]
fn progress_within_a_level() {
    let p = level_progress(100);
    assert_eq!(p.level, 1);
    assert_eq!(p.xp_into_level, 25);
    assert_eq!(p.xp_for_next, 175);
}

#[test]
fn adding_xp_reports_level_change() {
    let c = xp_added(70, 10);
    assert_eq!(c.old_level, 0);
    assert_eq!(c.new_level, 1);
    assert_eq!(c.new_xp, 80);
    assert!(c.changes_level());
    let d = xp_added(80, 10);
    assert!(!d.changes_level());
}

#[test]
fn setting_xp_reports_levels() {
    let c = xp_set(300, 10);
    assert_eq!(c.old_level, 2);
    assert_eq!(c.new_level, 0);
    assert_eq!(c.new_xp, 10);
}

#[test]
fn adding_xp_never_lowers_the_level() {
    for current in [0i64, 74, 75, 1000, 123456] {
        for added in [0i64, 1, 100, 5000] {
            let c = xp_added(current, added);
            assert!(c.old_level <= c.new_level);
        }
    }
}

#[test]
fn small_numbers_are_written_in_full() {
    assert_eq!(number_to_string(999), "999");
    assert_eq!(number_to_string(0), "0");
    assert_eq!(number_to_string(-5), "-5");
}

#[test]
fn large_numbers_are_compacted() {
    let s = number_to_string(1500);
    assert_ne!(s, "1500");
    assert!(s.contains('K'), "{}", s);
    let m = number_to_string(2_500_000);
    assert!(m.contains('M'), "{}", m);
}

#[test]
fn stacked_rewards_give_every_role_up_to_the_level() {
    let rewards = vec![Reward { level: 1, role: 10 }, Reward { level: 5, role: 50 }, Reward { level: 10, role: 100 }];
    let r = reward_changes(true, &rewards, &vec![], 5).unwrap();
    assert_eq!(r.0, Vec::<u64>::new());
    assert_eq!(r.1, vec![10, 50]);
}

#[test]
fn unstacked_rewards_keep_only_the_best() {
    let rewards = vec![Reward { level: 1, role: 10 }, Reward { level: 5, role: 50 }];
    let r = reward_changes(false, &rewards, &vec![10, 7], 6).unwrap();
    assert_eq!(r.0, vec![10]);
    assert_eq!(r.1, vec![50]);
}

#[test]
fn no_rewards_no_changes() {
    assert!(reward_changes(true, &vec![], &vec![1, 2], 3).is_none());
    let rewards = vec![Reward { level: 1, role: 10 }];
    assert!(reward_changes(true, &rewards, &vec![10], 3).is_none());
}

#[test]
fn reset_takes_every_reward_role_held() {
    let rewards = vec![Reward { level: 1, role: 10 }, Reward { level: 5, role: 50 }];
    assert_eq!(reward_roles_held(&rewards, &vec![50, 3, 10]), vec![10, 50]);
}

#[test]
fn level_up_message_placeholders() {
    let m = render_level_up_message("GG {user.mention}, {user.name} reached {user.level}!", "ann", 42, 7);
    assert_eq!(m, "GG <@42>, ann reached 7!");
    assert_eq!(render_level_up_message("plain", "ann", 1, 2), "plain");
}

#[test]
fn level_up_delivery_rules() {
    let mut s = LevelUpSettings { enabled: true, message: Some("hi".to_string()), dm_message: false, channel: Some(9) };
    assert_eq!(level_up_delivery(&Some(s), 3), Some(LevelUpTarget::Channel(9)));
    s = LevelUpSettings { enabled: true, message: Some("hi".to_string()), dm_message: true, channel: Some(9) };
    assert_eq!(level_up_delivery(&Some(s), 3), Some(LevelUpTarget::DirectMessage));
    s = LevelUpSettings { enabled: true, message: Some("hi".to_string()), dm_message: false, channel: None };
    assert_eq!(level_up_delivery(&Some(s), 3), Some(LevelUpTarget::SummoningChannel));
    s = LevelUpSettings { enabled: false, message: Some("hi".to_string()), dm_message: false, channel: None };
    assert_eq!(level_up_delivery(&Some(s), 3), None);
    s = LevelUpSettings { enabled: true, message: None, dm_message: false, channel: None };
    assert_eq!(level_up_delivery(&Some(s), 3), None);
    s = LevelUpSettings { enabled: true, message: Some("hi".to_string()), dm_message: false, channel: None };
    assert_eq!(level_up_delivery(&Some(s), 0), None);
    assert_eq!(level_up_delivery(&None, 3), None);
}

#[test]
fn rank_card_texts() {
    let c = rank_card(42, Some("abc".to_string()), 100, 3);
    assert_eq!(c.avatar_url, "https://cdn.discordapp.com/avatars/42/abc.png?size=1024");
    assert_eq!(c.file_name, "42_abc.png");
    assert_eq!(c.level_text, "Level: 1");
    assert_eq!(c.rank_text, "Rank: 3");
    assert_eq!(c.xp_text, "XP: 25/175");
    assert_eq!(c.progress, (25, 175));
}

#[test]
fn default_avatar_follows_the_id() {
    let id: i64 = 175928847299117063;
    assert_eq!(default_avatar_index(id), (id >> 22) % 6);
    assert_eq!(default_avatar_index(-5), (-5i64 >> 22) % 6);
    let c = rank_card(id, None, 0, 1);
    assert_eq!(c.avatar_hash, ((id >> 22) % 6).to_string());
}

#[test]
fn applying_reward_changes_leaves_the_earned_roles() {
    let rewards = vec![Reward { level: 1, role: 10 }, Reward { level: 5, role: 50 }, Reward { level: 9, role: 90 }];
    let member = vec![90u64, 3, 10];
    for stack in [true, false] {
        let (remove, add) = reward_changes(stack, &rewards, &member, 6).unwrap();
        let mut after: Vec<u64> = member.iter().copied().filter(|r| !remove.contains(r)).collect();
        after.extend(add.iter().copied());
        assert!(after.contains(&3));
        assert!(after.contains(&50));
        assert!(!after.contains(&90));
        assert_eq!(after.contains(&10), stack);
    }
}

#[test]
fn each_xp_reaches_one_level_and_more_xp_never_less() {
    let mut previous = level_for_xp(0);
    for xp in 1..3000i64 {
        let level = level_for_xp(xp);
        assert!(level >= previous);
        assert!(xp_for_level(level) <= xp && xp < xp_for_level(level + 1));
        previous = level;
    }
    for level in 1..50i64 {
        assert_eq!(level_for_xp(xp_for_level(level)), level);
        assert_eq!(level_for_xp(xp_for_level(level) - 1), level - 1);
    }
}

#[test]
fn levels_at_the_edge_of_the_range() {
    let most = (i64::MAX - 625) / 200;
    assert_eq!(level_for_xp(most), 30370004);
    assert!(xp_for_level(30370004) <= most && most < xp_for_level(30370005));
    assert_eq!(xp_for_level(400_000_000), 8_000_000_010_000_000_000);
    assert_eq!(xp_for_level(-400_000_000), 7_999_999_990_000_000_000);
}
