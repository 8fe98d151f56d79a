use reaper::giveaway::{
    check_entry, congratulate, end_tasks, enter_giveaway, EndTask, ended_message, entry_window, giveaway_message, pick_winners, reroll_message,
    GiveawayCommand, GiveawaySub,
};
use reaper::permissions::Permission;

#[test]
fn giveaway_routing() {
    let g = GiveawayCommand;
    let held = vec![Permission::GiveawayCreate];
    assert_eq!(g.route(&vec!["new".to_string()], &held).ok(), Some(GiveawaySub::New));
    let e = g.route(&vec!["end".to_string()], &held).unwrap_err();
    assert_eq!(e.title, "You do not have permission to do this!");
    assert!(e.detail.unwrap().contains("giveaway.end"));
    assert_eq!(g.route(&vec!["other".to_string()], &held).unwrap_err().title, "Invalid command");
}

#[test]
fn new_giveaway_checks() {
    let g = GiveawayCommand;
    assert_eq!(g.check_new(Some(0), Some("p".to_string()), Some("1d".to_string())).err().unwrap().title, "Not enough winners");
    assert_eq!(g.check_new(Some(51), Some("p".to_string()), Some("1d".to_string())).err().unwrap().title, "Too many winners");
    assert_eq!(g.check_new(None, None, Some("1d".to_string())).err().unwrap().title, "No prize provided");
    assert_eq!(g.check_new(None, Some("p".to_string()), None).err().unwrap().title, "No duration provided");
    let ok = g.check_new(None, Some("p".to_string()), Some("1d".to_string())).ok().unwrap();
    assert_eq!((ok.winners, ok.prize.as_str(), ok.duration.as_str()), (1, "p", "1d"));
    assert_eq!(g.read_id(Some("123".to_string())).ok(), Some(123));
    assert_eq!(g.read_id(Some("abc".to_string())).err().unwrap().title, "Could not get giveaway ID");
    assert_eq!(g.read_id(None).err().unwrap().title, "Could not get giveaway ID");
    assert_eq!(g.check_reroll(Some("5".to_string()), Some(3)).ok(), Some((5, 3)));
    assert_eq!(g.check_reroll(Some("1178293029378302023".to_string()), None).ok(), Some((1178293029378302023, 1)));
    assert!(g.check_reroll(None, Some(3)).is_err());
    assert_eq!(g.check_reroll(Some("abc".to_string()), Some(3)).err().unwrap().title, "Could not get giveaway ID");
    assert_eq!(g.check_reroll(Some("5".to_string()), Some(60)).err().unwrap().title, "Too many winners");
}

#[test]
fn giveaway_messages() {
    let (t, b) = giveaway_message("Nitro", &None, 2, 5, 1000);
    assert_eq!(t, "Nitro giveaway");
    assert_eq!(b, "Winners: 2\nEntries: 5\n\nGiveaway ends at <t:1000:F>");
    let (_, b) = giveaway_message("Nitro", &Some("Be nice".to_string()), 1, 0, 9);
    assert_eq!(b, "Be nice\n\nWinners: 1\nEntries: 0\n\nGiveaway ends at <t:9:F>");
    assert_eq!(ended_message(false), "No one won the giveaway.");
    assert_eq!(ended_message(true), "The giveaway is now over, congratulations to the winners!");
    assert_eq!(congratulate(&vec![1, 2]), "Congratulations to <@1>, <@2> for winning the giveaway!");
    assert_eq!(reroll_message(&vec![1, 2]), "Congratulations to <@<@1>>,<@<@2>> for winning the giveaway!");
}

#[test]
fn entries() {
    assert!(check_entry(None, &vec![], false).is_ok());
    assert_eq!(check_entry(Some(3), &vec![1, 2], false).err().unwrap().title, "You do not have permission to enter this giveaway");
    assert!(check_entry(Some(3), &vec![1, 3], false).is_ok());
    let e = check_entry(Some(3), &vec![3], true).err().unwrap();
    assert_eq!(e.title, "You've already entered this giveaway");
    assert!(e.detail.is_none());
    assert_eq!(entry_window(100, 40), 60);
    assert_eq!(entry_window(40, 100), u64::MAX - 59);
}

#[test]
fn winners_are_distinct_entrants() {
    let entries: Vec<i64> = (1..=20).collect();
    for _ in 0..20 {
        let w = pick_winners(&entries, 5);
        assert_eq!(w.len(), 5);
        for x in &w {
            assert!(entries.contains(x));
        }
        let mut sorted = w.clone();
        sorted.sort();
        sorted.dedup();
        assert_eq!(sorted.len(), 5);
    }
    assert_eq!(pick_winners(&vec![4, 5], 3), vec![4, 5]);
    assert_eq!(pick_winners(&vec![4, 5], 2), vec![4, 5]);
    assert!(pick_winners(&vec![], 1).is_empty());
}

#[test]
fn each_user_enters_once() {
    let mut entries = vec![1, 2];
    assert!(enter_giveaway(&mut entries, None, &vec![], 3).is_ok());
    assert_eq!(entries, vec![1, 2, 3]);
    let e = enter_giveaway(&mut entries, None, &vec![], 2).unwrap_err();
    assert_eq!(e.title, "You've already entered this giveaway");
    assert_eq!(entries, vec![1, 2, 3]);
    let e = enter_giveaway(&mut entries, Some(9), &vec![8], 4).unwrap_err();
    assert_eq!(e.title, "You do not have permission to enter this giveaway");
    assert!(enter_giveaway(&mut entries, Some(9), &vec![8, 9], 4).is_ok());
    assert_eq!(entries.len(), 4);
}

#[test]
fn ending_congratulates_only_when_someone_won() {
    let t = end_tasks("Nitro", &vec![1, 2]);
    assert_eq!(t.len(), 3);
    match &t[0] {
        EndTask::ShowEnded { title, body } => {
            assert_eq!(title, "Nitro giveaway");
            assert_eq!(body, "The giveaway is now over, congratulations to the winners!");
        },
        other => panic!("unexpected {:?}", other),
    }
    match &t[1] {
        EndTask::Congratulate(text) => assert_eq!(text, "Congratulations to <@1>, <@2> for winning the giveaway!"),
        other => panic!("unexpected {:?}", other),
    }
    assert!(matches!(t[2], EndTask::Delete));
    let t = end_tasks("Nitro", &vec![]);
    assert_eq!(t.len(), 2);
    match &t[0] {
        EndTask::ShowEnded { body, .. } => assert_eq!(body, "No one won the giveaway."),
        other => panic!("unexpected {:?}", other),
    }
    assert!(matches!(t[1], EndTask::Delete));
}
