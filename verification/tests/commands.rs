use reaper::commands::{
    get_commands_available, get_kill_commands, get_moderation_commands, FailCommand, InfoCommand, OptionKind,
    PrivacyCommand,
};
use reaper::config::ConfigCommand;
use reaper::global::GlobalCommand;
use reaper::giveaway::GiveawayCommand;
use reaper::levels::{get_level_commands, LeaderboardCommand, LevelCommand, XPCommand, XpSub};
use reaper::moderation::StrikeCommand;
use reaper::permission_panel::PermissionsCommand;
use reaper::permissions::Permission;
use reaper::response::{reply_mode, ReplyMode};

#[test]
fn command_lists() {
    assert_eq!(get_commands_available(), vec!["privacy", "info", "config"]);
    assert_eq!(get_kill_commands(), vec!["global"]);
    assert_eq!(get_level_commands(), vec!["leaderboard", "level", "rank", "xp"]);
    assert_eq!(get_moderation_commands().len(), 10);
    assert_eq!(get_moderation_commands()[7], "strike");
}

#[test]
fn global_registration() {
    let c = GlobalCommand.register();
    assert_eq!(c.name, "global");
    assert_eq!(c.description, "Globally kill a feature, guild, or user from using Reaper");
    assert_eq!(c.dm_permission, Some(false));
    assert_eq!(c.options.len(), 3);
    let user = &c.options[2];
    assert_eq!(user.kind, OptionKind::SubCommandGroup);
    assert_eq!(user.name, "user");
    assert_eq!(user.options.len(), 3);
    let status = &user.options[2];
    assert_eq!((status.name.as_str(), status.description.as_str()), ("status", "Check the status of a user"));
    assert_eq!(status.options[0].kind, OptionKind::User);
    assert!(status.options[0].required);
    assert_eq!(status.options[0].description, "The user to check the status of");
}

#[test]
fn other_registrations() {
    let s = StrikeCommand.register();
    assert_eq!(s.options.len(), 3);
    assert_eq!(s.options[2].name, "duration");
    assert!(!s.options[2].required);
    let c = ConfigCommand.register();
    assert_eq!(c.options[0].choices.len(), 4);
    assert_eq!(c.options[0].choices[3], ("Role Recovery".to_string(), "role_recovery".to_string()));
    let g = GiveawayCommand.register();
    assert_eq!(g.options[0].options[2].kind, OptionKind::Integer);
    assert_eq!(g.options[0].options[2].description, "The number of winners for the giveaway (default: 1)");
    let i = InfoCommand.register();
    assert_eq!((i.name.as_str(), i.dm_permission), ("info", None));
    assert!(i.options.is_empty());
    let p = PermissionsCommand.register();
    assert_eq!(p.options[1].options[0].kind, OptionKind::Role);
    let x = XPCommand.register();
    assert_eq!(x.options[1].name, "reset");
    assert_eq!(LeaderboardCommand.register().description, "View the leaderboard for this server");
}

#[test]
fn small_commands() {
    assert_eq!(FailCommand.router().unwrap_err().title, "Failed on purpose");
    assert!(FailCommand.router().unwrap_err().detail.is_none());
    assert!(PrivacyCommand.policy().contains("PRIVACY.md"));
    assert_eq!(ConfigCommand.required_permission(), Some(Permission::ConfigEdit));
    assert_eq!(InfoCommand.required_permission(), None);
    assert!(LevelCommand.router().is_ok());
    assert_eq!(LeaderboardCommand.check(None).unwrap_err().title, "Unavailable command");
}

#[test]
fn info_fields() {
    let f = InfoCommand.fields(2, None, 10, 20, 3, "0.1.0", (9420, 0));
    assert_eq!(f.network, "Shard ID 2\nLatency: Pending");
    assert_eq!(f.information, "Serving 10 guilds\nHandled 20 actions\nRunning 3 giveaways");
    assert_eq!(f.meta, "Version: 0.1.0\nUptime: 2h 37m");
    let g = InfoCommand.fields(0, Some((0, 32_000_000)), 0, 0, 0, "v", (0, 0));
    assert_eq!(g.network, "Shard ID 0\nLatency: 32ms");
}

#[test]
fn info_durations_in_every_unit() {
    let f = InfoCommand.fields(0, Some((0, 1_500_000)), 0, 0, 0, "v", (31_557_600 + 2 * 86400 + 1, 5_000));
    assert_eq!(f.network, "Shard ID 0\nLatency: 1ms 500us");
    assert_eq!(f.meta, "Version: v\nUptime: 1year 2days 1s 5us");
    let g = InfoCommand.fields(0, Some((2 * 31_557_600 + 2_630_016, 7)), 0, 0, 0, "v", (0, 0));
    assert_eq!(g.network, "Shard ID 0\nLatency: 2years 1month 7ns");
    assert_eq!(g.meta, "Version: v\nUptime: 0s");
}

#[test]
fn xp_command() {
    let x = XPCommand;
    assert!(x.route(&vec![], &vec!["add".to_string()]).unwrap_err().detail.unwrap().contains("xp.edit"));
    assert_eq!(x.route(&vec![Permission::XPEdit], &vec!["set".to_string()]).ok(), Some(XpSub::SetXp));
    assert_eq!(x.route(&vec![Permission::XPEdit], &vec![]).unwrap_err().title, "Invalid command");
    assert_eq!(x.check_user(XpSub::ResetXp, None).unwrap_err().detail.unwrap(), "Please provide a user to reset XP for");
    assert_eq!(x.check_xp(None).unwrap_err().title, "No XP provided");
    let (d, f, r) = x.messages(XpSub::AddXp, 1, 2, 50);
    assert_eq!(d, "<@1> gave <@2> 50 XP");
    assert_eq!(f, "User 1 gave user 2 50 XP");
    assert_eq!(r, "<@2> has been given 50XP");
    let (d, _, r) = x.messages(XpSub::SetXp, 1, 2, 7);
    assert_eq!(d, "<@1> set <@2> XP to 7");
    assert_eq!(r, "<@2>'s XP has been set to 7XP");
    let (d, f, r) = x.messages(XpSub::ResetXp, 1, 2, 0);
    assert_eq!(d, "<@1> reset <@2>'s XP");
    assert_eq!(f, "User 1 reset XP for user 2");
    assert_eq!(r, "<@2> has been reset to 0XP");
}

#[test]
fn reply_modes() {
    assert_eq!(reply_mode(true, true), ReplyMode::Edit);
    assert_eq!(reply_mode(false, true), ReplyMode::Create { ephemeral: true });
}

#[test]
fn earlier_command_set() {
    use_legacy();
}

fn use_legacy() {
    let p = reaper::legacy::permissions::register();
    assert_eq!(p.description, "Modify and view permissions to users and roles");
    assert_eq!(p.options.len(), 5);
    assert_eq!(p.options[4].options[2].options[0].description, "The role to view the permissions of");
    assert!(!p.options[2].options[0].required);
    let b = reaper::legacy::ban::register();
    assert_eq!(b.options[2].description, "The duration to strike the user for (permanent by default)");
    assert_eq!(reaper::legacy::on_command("kick"), Some(reaper::legacy::LegacyCommand::Kick));
    assert_eq!(reaper::legacy::on_command("info"), None);
}
