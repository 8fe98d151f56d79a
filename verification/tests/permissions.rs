use reaper::commands::OptionKind;
use reaper::legacy::permissions::{route, LegacyOption, LegacyPermission, LegacyPermissionsTask};
use reaper::permission_panel::{
    inherited_permissions,
    list_all_permissions, list_role_permissions, list_user_permissions, panel_lines, panel_menu, panel_title,
    PermissionsCommand, PermissionsSub,
};
use reaper::permissions::{grant, has_permission, held_permissions, missing_notice, revoke, toggle, EditorEvent, EditorStep, Holder, Permission, PermissionEditor};

#[test]
fn names_round_trip() {
    for p in Permission::all() {
        assert_eq!(Permission::from_name(p.name()), Some(p));
    }
    assert_eq!(Permission::from_name("nonsense"), None);
    assert_eq!(Permission::all().len(), 22);
    assert_eq!(Permission::ModerationSearchSelfExpired.name(), "moderation.search.self.expired");
}

#[test]
fn toggling_twice_restores() {
    let mut ps = vec![Permission::ConfigEdit, Permission::XPEdit];
    toggle(&mut ps, Permission::ModerationKick);
    assert_eq!(ps, vec![Permission::ConfigEdit, Permission::XPEdit, Permission::ModerationKick]);
    toggle(&mut ps, Permission::ModerationKick);
    assert_eq!(ps, vec![Permission::ConfigEdit, Permission::XPEdit]);
    toggle(&mut ps, Permission::ConfigEdit);
    assert_eq!(ps, vec![Permission::XPEdit]);
    toggle(&mut ps, Permission::ConfigEdit);
    assert_eq!(ps, vec![Permission::XPEdit, Permission::ConfigEdit]);
}

#[test]
fn editor_finishes_with_the_differences() {
    let mut e = PermissionEditor::new(vec![Permission::ConfigEdit, Permission::XPEdit]);
    assert_eq!(e.step(false, false, EditorEvent::Chose(Permission::ModerationKick)), EditorStep::Refused);
    assert_eq!(e.step(true, false, EditorEvent::Chose(Permission::ModerationKick)), EditorStep::Changed);
    assert_eq!(e.step(false, true, EditorEvent::Chose(Permission::XPEdit)), EditorStep::Changed);
    assert_eq!(e.step(true, false, EditorEvent::OtherButton), EditorStep::Ignored);
    match e.step(true, false, EditorEvent::Done) {
        EditorStep::Finished { remove, add } => {
            assert_eq!(remove, vec![Permission::XPEdit]);
            assert_eq!(add, vec![Permission::ModerationKick]);
        }
        other => panic!("unexpected {:?}", other),
    }
    assert_eq!(e.refusal().title, "You do not have permission to do this");
}

#[test]
fn who_holds_a_permission() {
    let p = Permission::ModerationStrike;
    assert!(has_permission(true, false, &vec![], &vec![], p));
    assert!(has_permission(false, true, &vec![], &vec![], p));
    assert!(has_permission(false, false, &vec![p], &vec![], p));
    assert!(has_permission(false, false, &vec![], &vec![vec![], vec![Permission::XPEdit, p]], p));
    assert!(!has_permission(false, false, &vec![Permission::XPEdit], &vec![vec![Permission::ConfigEdit]], p));
    assert_eq!(missing_notice(p), "You are missing the `moderation.strike` permission");
}

#[test]
fn grant_then_revoke_restores() {
    let mut held = vec![Permission::XPEdit];
    let m = grant(Holder::User(7), &mut held, Permission::ConfigEdit);
    assert_eq!(m, "Successfully added the permission `config.edit` to <@7>");
    assert_eq!(held, vec![Permission::XPEdit, Permission::ConfigEdit]);
    let again = grant(Holder::User(7), &mut held, Permission::ConfigEdit);
    assert_eq!(again, "<@7> already has the `config.edit` permission");
    let r = revoke(Holder::User(7), &mut held, Permission::ConfigEdit);
    assert_eq!(r, "Successfully removed the permission `config.edit` from <@7>");
    assert_eq!(held, vec![Permission::XPEdit]);
    let missing = revoke(Holder::Role(9), &mut held, Permission::ConfigEdit);
    assert_eq!(missing, "<@&9> does not has the `config.edit` permission");
    let mut twice = vec![Permission::XPEdit, Permission::ConfigEdit, Permission::XPEdit];
    let r = revoke(Holder::Role(9), &mut twice, Permission::XPEdit);
    assert_eq!(r, "Successfully removed the permission `xp.edit` from the <@&9>");
    assert_eq!(twice, vec![Permission::ConfigEdit]);
}

#[test]
fn permissions_command_routing() {
    let c = PermissionsCommand;
    assert!(c.route(&vec![], &vec!["user".to_string()]).unwrap_err().detail.unwrap().contains("permissions.view"));
    assert_eq!(c.route(&vec![Permission::PermissionsView], &vec!["role".to_string()]).ok(), Some(PermissionsSub::ForRole));
    assert_eq!(c.route(&vec![Permission::PermissionsView], &vec!["x".to_string(), "user".to_string()]).ok(), Some(PermissionsSub::ForUser));
    assert_eq!(c.route(&vec![Permission::PermissionsView], &vec![]).unwrap_err().title, "Invalid command");
    assert_eq!(c.check_user(None, 5, 1).unwrap_err().title, "No member found!");
    assert_eq!(c.check_user(Some(3), 1, 1).unwrap_err().title, "You cannot change the permissions of this user!");
    assert_eq!(c.check_user(Some(3), 2, 1).ok(), Some(3));
}

#[test]
fn permission_panel() {
    let c = PermissionsCommand;
    let owner = c.open_panel(true, false, vec![], true);
    assert_eq!(owner.existing.len(), 22);
    assert!(!owner.editable);
    let plain = c.open_panel(false, false, vec![Permission::XPEdit], true);
    assert_eq!(plain.existing, vec![Permission::XPEdit]);
    assert!(plain.editable);
    assert!(!c.open_panel(false, false, vec![], false).editable);
    assert_eq!(panel_title("ann"), "ann's permissions");
    assert_eq!(panel_lines(&vec![Permission::XPEdit, Permission::ConfigEdit]), "`xp.edit`\n`config.edit`\n");
    let menu = panel_menu(&vec![Permission::XPEdit]);
    assert_eq!(menu.len(), 22);
    assert_eq!(menu[0].label, "Add config.edit");
    assert_eq!(menu[0].value, "config.edit");
    assert_eq!(menu[21].label, "Remove xp.edit");
}

#[test]
fn permission_listings() {
    assert_eq!(list_user_permissions(1, &vec![], &vec![]), "<@1> has no permissions");
    assert_eq!(list_user_permissions(1, &vec![Permission::XPEdit], &vec![]), "<@1> has the following permissions:\n`xp.edit`\n");
    assert_eq!(
        list_user_permissions(1, &vec![], &vec![(4, Permission::ConfigEdit)]),
        "<@1> has no permissions, but they have inherited these permissions from their roles:\n`config.edit` from <@&4>\n"
    );
    assert_eq!(
        list_user_permissions(1, &vec![Permission::XPEdit], &vec![(4, Permission::ConfigEdit)]),
        "<@1> has the following permissions:\n`xp.edit`\n\nThey have also inherited these permissions from their roles:\n`config.edit` from <@&4>\n"
    );
    assert_eq!(list_role_permissions(4, &vec![]), "<@&4> has no permissions");
    assert_eq!(list_role_permissions(4, &vec![Permission::XPEdit]), "<@&4> has the following permissions:\n`xp.edit`\n");
    assert!(list_all_permissions().starts_with("The following permissions are available:\n`config.edit`\n"));
}

#[test]
fn inherited_permissions_keep_one_entry_per_role() {
    let own = vec![Permission::XPEdit];
    let grants = vec![
        (1, Permission::ConfigEdit),
        (1, Permission::XPEdit),
        (2, Permission::ModerationKick),
        (1, Permission::ModerationMute),
    ];
    assert_eq!(
        inherited_permissions(&own, &grants),
        vec![(1, Permission::ModerationMute), (2, Permission::ModerationKick)]
    );
    assert!(inherited_permissions(&own, &vec![(3, Permission::XPEdit)]).is_empty());
}

#[test]
fn held_permissions_follow_has_permission() {
    assert_eq!(held_permissions(true, false, &vec![], &vec![]), Permission::all());
    assert_eq!(held_permissions(false, true, &vec![], &vec![]).len(), Permission::all().len());
    let held = held_permissions(
        false,
        false,
        &vec![Permission::XPEdit],
        &vec![vec![Permission::ModerationPurge], vec![Permission::ConfigEdit, Permission::XPEdit]],
    );
    assert_eq!(held, vec![Permission::ConfigEdit, Permission::ModerationPurge, Permission::XPEdit]);
    assert!(held_permissions(false, false, &vec![], &vec![]).is_empty());
}

fn legacy_option(kind: OptionKind, name: &str, inner: &[&str]) -> LegacyOption {
    LegacyOption {
        kind,
        name: name.to_string(),
        inner: inner.iter().map(|n| n.to_string()).collect(),
    }
}

#[test]
fn legacy_permissions_routing() {
    let all = vec![LegacyPermission::PermissionsAdd, LegacyPermission::PermissionsView, LegacyPermission::PermissionsList];
    let add = vec![legacy_option(OptionKind::SubCommand, "add", &["user", "permission"])];
    let r = route(&add, &all);
    assert_eq!(r.task, Some(LegacyPermissionsTask::AddToUser));
    assert!(r.missing.is_empty());
    let r = route(&add, &vec![LegacyPermission::PermissionsView]);
    assert_eq!(r.task, None);
    assert_eq!(r.missing, vec![LegacyPermission::PermissionsAdd]);
    // `remove` leads nowhere, the role group's `add` needs `permissions.add`.
    let opts = vec![
        legacy_option(OptionKind::SubCommand, "remove", &[]),
        legacy_option(OptionKind::SubCommandGroup, "role", &["view", "add"]),
    ];
    assert_eq!(route(&opts, &all).task, Some(LegacyPermissionsTask::AddToRole));
    let r = route(&opts, &vec![LegacyPermission::PermissionsList]);
    assert_eq!((r.task, r.missing), (None, vec![LegacyPermission::PermissionsAdd]));
    // A missing permission passes on to the next option.
    let opts = vec![
        legacy_option(OptionKind::SubCommand, "view", &[]),
        legacy_option(OptionKind::SubCommand, "list", &[]),
    ];
    let r = route(&opts, &vec![LegacyPermission::PermissionsList]);
    assert_eq!((r.task, r.missing), (Some(LegacyPermissionsTask::List), vec![LegacyPermission::PermissionsView]));
    assert_eq!(route(&vec![], &all).task, None);
}
