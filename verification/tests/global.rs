use reaper::global::{GlobalCommand, GlobalGroup, KillAction, KillTarget, KillWrite};

#[test]
fn global_kills() {
    let g = GlobalCommand;
    let e = g.check_role(false, 55).unwrap_err();
    assert_eq!(e.detail.unwrap(), "Glboal kills can only be performed by people with the <@&55> role.");
    assert!(g.check_role(true, 55).is_ok());
    assert_eq!(g.route(&vec!["user".to_string()]).ok(), Some(GlobalGroup::User));
    assert_eq!(g.route(&vec![]).unwrap_err().detail.unwrap(), "You must specify a subcommand to use this command.");
    assert_eq!(g.read_guild(Some("42".to_string())).ok(), Some(42));
    assert_eq!(g.read_guild(Some("x".to_string())).unwrap_err().title, "Invalid ID");
    assert_eq!(g.read_guild(None).unwrap_err().title, "Invalid command option");
    assert_eq!(g.read_action(Some("revive".to_string())).ok(), Some(KillAction::Revive));
    assert!(g.read_action(Some("x".to_string())).is_err());
}

#[test]
fn kill_then_revive() {
    let g = GlobalCommand;
    let t = KillTarget::Guild(42);
    assert_eq!(g.kill(t, None, 7).ok(), Some(KillWrite::Insert { id: 42, by: 7 }));
    let e = g.kill(t, Some(7), 8).unwrap_err();
    assert_eq!(e.title, "Guild is already killed");
    assert!(e.detail.is_none());
    assert_eq!(g.revive(t, Some(7)).ok(), Some(KillWrite::Delete { id: 42 }));
    assert_eq!(g.revive(KillTarget::User(3), None).unwrap_err().title, "User is already active");
    assert_eq!(g.describe(t, KillAction::Kill), "`42` has been killed");
    assert_eq!(g.describe(KillTarget::User(3), KillAction::Revive), "<@3> has been revived");
    assert_eq!(g.describe(KillTarget::User(3), KillAction::Status), "Viewing <@3>");
    let s = g.status(None);
    assert_eq!((s.active.as_str(), s.killed_by.as_str(), s.colour), ("✅", "N/A", 0x00ff00));
    let s = g.status(Some(9));
    assert_eq!((s.active.as_str(), s.killed_by.as_str(), s.colour), ("❌", "<@9>", 0xff0000));
}
