//! `/permissions` in the earlier command set: its registration and how
//! it routed a request.

use vstd::prelude::*;
use crate::commands::{CommandModel, CommandSpec, OptionKind, OptionModel, OptionSpec, command, command_model, option,
    option_model, option_models};
use crate::text::str_eq;

verus! {

/// What the `/permissions` command of the earlier command set registers.
pub open spec fn permissions_model() -> CommandModel {
    CommandModel {
        name: "permissions"@,
        description: "Modify and view permissions to users and roles"@,
        dm_permission: Some(false),
        options: seq![
            OptionModel { kind: OptionKind::SubCommand, name: "add"@, description: "Add a Reaper permission to a specific user"@, required: false, choices: Seq::empty(), options: seq![
                OptionModel { kind: OptionKind::User, name: "user"@, description: "The user to add the permission to"@, required: true, choices: Seq::empty(), options: Seq::empty() },
                OptionModel { kind: OptionKind::String, name: "permission"@, description: "The permission to add to the user"@, required: true, choices: Seq::empty(), options: Seq::empty() },
            ] },
            OptionModel { kind: OptionKind::SubCommand, name: "remove"@, description: "Remove a Reaper permission from a specific user"@, required: false, choices: Seq::empty(), options: seq![
                OptionModel { kind: OptionKind::User, name: "user"@, description: "The user to remove the permission from"@, required: true, choices: Seq::empty(), options: Seq::empty() },
                OptionModel { kind: OptionKind::String, name: "permission"@, description: "The permission to remove from the user"@, required: true, choices: Seq::empty(), options: Seq::empty() },
            ] },
            OptionModel { kind: OptionKind::SubCommand, name: "view"@, description: "View the permissions to a user"@, required: false, choices: Seq::empty(), options: seq![
                OptionModel { kind: OptionKind::User, name: "user"@, description: "The user to view the permissions of"@, required: false, choices: Seq::empty(), options: Seq::empty() },
            ] },
            OptionModel { kind: OptionKind::SubCommand, name: "list"@, description: "List all available permissions"@, required: false, choices: Seq::empty(), options: Seq::empty() },
            OptionModel { kind: OptionKind::SubCommandGroup, name: "role"@, description: "Modify and view permissions to roles"@, required: false, choices: Seq::empty(), options: seq![
                OptionModel { kind: OptionKind::SubCommand, name: "add"@, description: "Add a Reaper permission to a specific role"@, required: false, choices: Seq::empty(), options: seq![
                    OptionModel { kind: OptionKind::Role, name: "role"@, description: "The role to add the permission to"@, required: true, choices: Seq::empty(), options: Seq::empty() },
                    OptionModel { kind: OptionKind::String, name: "permission"@, description: "The permission to add to the role"@, required: true, choices: Seq::empty(), options: Seq::empty() },
                ] },
                OptionModel { kind: OptionKind::SubCommand, name: "remove"@, description: "Remove a Reaper permission from a specific role"@, required: false, choices: Seq::empty(), options: seq![
                    OptionModel { kind: OptionKind::Role, name: "role"@, description: "The role to remove the permission from"@, required: true, choices: Seq::empty(), options: Seq::empty() },
                    OptionModel { kind: OptionKind::String, name: "permission"@, description: "The permission to remove from the role"@, required: true, choices: Seq::empty(), options: Seq::empty() },
                ] },
                OptionModel { kind: OptionKind::SubCommand, name: "view"@, description: "View the permissions to a role"@, required: false, choices: Seq::empty(), options: seq![
                    OptionModel { kind: OptionKind::Role, name: "role"@, description: "The role to view the permissions of"@, required: true, choices: Seq::empty(), options: Seq::empty() },
                ] },
            ] },
        ],
    }
}

/// The command as registered; see `permissions_model`.
pub fn register() -> (r: CommandSpec)
    ensures
        command_model(r) == permissions_model(),
{
    let o1_subs: Vec<OptionSpec> = Vec::new();
    assert(option_models(o1_subs@) =~= Seq::<OptionModel>::empty());
    let o1_choices: Vec<(String, String)> = Vec::new();
    assert(o1_choices@.map_values(|c: (String, String)| (c.0@, c.1@)) =~= Seq::<(Seq<char>, Seq<char>)>::empty());
    let o1 = option(OptionKind::User, "user", "The user to add the permission to", true, o1_choices, o1_subs);
    let ghost m1 = option_model(o1);
    assert(m1 == OptionModel { kind: OptionKind::User, name: "user"@, description: "The user to add the permission to"@, required: true, choices: Seq::empty(), options: Seq::empty() });
    let o2_subs: Vec<OptionSpec> = Vec::new();
    assert(option_models(o2_subs@) =~= Seq::<OptionModel>::empty());
    let o2_choices: Vec<(String, String)> = Vec::new();
    assert(o2_choices@.map_values(|c: (String, String)| (c.0@, c.1@)) =~= Seq::<(Seq<char>, Seq<char>)>::empty());
    let o2 = option(OptionKind::String, "permission", "The permission to add to the user", true, o2_choices, o2_subs);
    let ghost m2 = option_model(o2);
    assert(m2 == OptionModel { kind: OptionKind::String, name: "permission"@, description: "The permission to add to the user"@, required: true, choices: Seq::empty(), options: Seq::empty() });
    let o3_subs = vec![o1, o2];
    assert(option_models(o3_subs@) =~= seq![m1, m2]);
    let o3_choices: Vec<(String, String)> = Vec::new();
    assert(o3_choices@.map_values(|c: (String, String)| (c.0@, c.1@)) =~= Seq::<(Seq<char>, Seq<char>)>::empty());
    let o3 = option(OptionKind::SubCommand, "add", "Add a Reaper permission to a specific user", false, o3_choices, o3_subs);
    let ghost m3 = option_model(o3);
    assert(m3 == OptionModel { kind: OptionKind::SubCommand, name: "add"@, description: "Add a Reaper permission to a specific user"@, required: false, choices: Seq::empty(), options: seq![
    OptionModel { kind: OptionKind::User, name: "user"@, description: "The user to add the permission to"@, required: true, choices: Seq::empty(), options: Seq::empty() },
    OptionModel { kind: OptionKind::String, name: "permission"@, description: "The permission to add to the user"@, required: true, choices: Seq::empty(), options: Seq::empty() },
] });
    let o4_subs: Vec<OptionSpec> = Vec::new();
    assert(option_models(o4_subs@) =~= Seq::<OptionModel>::empty());
    let o4_choices: Vec<(String, String)> = Vec::new();
    assert(o4_choices@.map_values(|c: (String, String)| (c.0@, c.1@)) =~= Seq::<(Seq<char>, Seq<char>)>::empty());
    let o4 = option(OptionKind::User, "user", "The user to remove the permission from", true, o4_choices, o4_subs);
    let ghost m4 = option_model(o4);
    assert(m4 == OptionModel { kind: OptionKind::User, name: "user"@, description: "The user to remove the permission from"@, required: true, choices: Seq::empty(), options: Seq::empty() });
    let o5_subs: Vec<OptionSpec> = Vec::new();
    assert(option_models(o5_subs@) =~= Seq::<OptionModel>::empty());
    let o5_choices: Vec<(String, String)> = Vec::new();
    assert(o5_choices@.map_values(|c: (String, String)| (c.0@, c.1@)) =~= Seq::<(Seq<char>, Seq<char>)>::empty());
    let o5 = option(OptionKind::String, "permission", "The permission to remove from the user", true, o5_choices, o5_subs);
    let ghost m5 = option_model(o5);
    assert(m5 == OptionModel { kind: OptionKind::String, name: "permission"@, description: "The permission to remove from the user"@, required: true, choices: Seq::empty(), options: Seq::empty() });
    let o6_subs = vec![o4, o5];
    assert(option_models(o6_subs@) =~= seq![m4, m5]);
    let o6_choices: Vec<(String, String)> = Vec::new();
    assert(o6_choices@.map_values(|c: (String, String)| (c.0@, c.1@)) =~= Seq::<(Seq<char>, Seq<char>)>::empty());
    let o6 = option(OptionKind::SubCommand, "remove", "Remove a Reaper permission from a specific user", false, o6_choices, o6_subs);
    let ghost m6 = option_model(o6);
    assert(m6 == OptionModel { kind: OptionKind::SubCommand, name: "remove"@, description: "Remove a Reaper permission from a specific user"@, required: false, choices: Seq::empty(), options: seq![
    OptionModel { kind: OptionKind::User, name: "user"@, description: "The user to remove the permission from"@, required: true, choices: Seq::empty(), options: Seq::empty() },
    OptionModel { kind: OptionKind::String, name: "permission"@, description: "The permission to remove from the user"@, required: true, choices: Seq::empty(), options: Seq::empty() },
] });
    let o7_subs: Vec<OptionSpec> = Vec::new();
    assert(option_models(o7_subs@) =~= Seq::<OptionModel>::empty());
    let o7_choices: Vec<(String, String)> = Vec::new();
    assert(o7_choices@.map_values(|c: (String, String)| (c.0@, c.1@)) =~= Seq::<(Seq<char>, Seq<char>)>::empty());
    let o7 = option(OptionKind::User, "user", "The user to view the permissions of", false, o7_choices, o7_subs);
    let ghost m7 = option_model(o7);
    assert(m7 == OptionModel { kind: OptionKind::User, name: "user"@, description: "The user to view the permissions of"@, required: false, choices: Seq::empty(), options: Seq::empty() });
    let o8_subs = vec![o7];
    assert(option_models(o8_subs@) =~= seq![m7]);
    let o8_choices: Vec<(String, String)> = Vec::new();
    assert(o8_choices@.map_values(|c: (String, String)| (c.0@, c.1@)) =~= Seq::<(Seq<char>, Seq<char>)>::empty());
    let o8 = option(OptionKind::SubCommand, "view", "View the permissions to a user", false, o8_choices, o8_subs);
    let ghost m8 = option_model(o8);
    assert(m8 == OptionModel { kind: OptionKind::SubCommand, name: "view"@, description: "View the permissions to a user"@, required: false, choices: Seq::empty(), options: seq![
    OptionModel { kind: OptionKind::User, name: "user"@, description: "The user to view the permissions of"@, required: false, choices: Seq::empty(), options: Seq::empty() },
] });
    let o9_subs: Vec<OptionSpec> = Vec::new();
    assert(option_models(o9_subs@) =~= Seq::<OptionModel>::empty());
    let o9_choices: Vec<(String, String)> = Vec::new();
    assert(o9_choices@.map_values(|c: (String, String)| (c.0@, c.1@)) =~= Seq::<(Seq<char>, Seq<char>)>::empty());
    let o9 = option(OptionKind::SubCommand, "list", "List all available permissions", false, o9_choices, o9_subs);
    let ghost m9 = option_model(o9);
    assert(m9 == OptionModel { kind: OptionKind::SubCommand, name: "list"@, description: "List all available permissions"@, required: false, choices: Seq::empty(), options: Seq::empty() });
    let o10_subs: Vec<OptionSpec> = Vec::new();
    assert(option_models(o10_subs@) =~= Seq::<OptionModel>::empty());
    let o10_choices: Vec<(String, String)> = Vec::new();
    assert(o10_choices@.map_values(|c: (String, String)| (c.0@, c.1@)) =~= Seq::<(Seq<char>, Seq<char>)>::empty());
    let o10 = option(OptionKind::Role, "role", "The role to add the permission to", true, o10_choices, o10_subs);
    let ghost m10 = option_model(o10);
    assert(m10 == OptionModel { kind: OptionKind::Role, name: "role"@, description: "The role to add the permission to"@, required: true, choices: Seq::empty(), options: Seq::empty() });
    let o11_subs: Vec<OptionSpec> = Vec::new();
    assert(option_models(o11_subs@) =~= Seq::<OptionModel>::empty());
    let o11_choices: Vec<(String, String)> = Vec::new();
    assert(o11_choices@.map_values(|c: (String, String)| (c.0@, c.1@)) =~= Seq::<(Seq<char>, Seq<char>)>::empty());
    let o11 = option(OptionKind::String, "permission", "The permission to add to the role", true, o11_choices, o11_subs);
    let ghost m11 = option_model(o11);
    assert(m11 == OptionModel { kind: OptionKind::String, name: "permission"@, description: "The permission to add to the role"@, required: true, choices: Seq::empty(), options: Seq::empty() });
    let o12_subs = vec![o10, o11];
    assert(option_models(o12_subs@) =~= seq![m10, m11]);
    let o12_choices: Vec<(String, String)> = Vec::new();
    assert(o12_choices@.map_values(|c: (String, String)| (c.0@, c.1@)) =~= Seq::<(Seq<char>, Seq<char>)>::empty());
    let o12 = option(OptionKind::SubCommand, "add", "Add a Reaper permission to a specific role", false, o12_choices, o12_subs);
    let ghost m12 = option_model(o12);
    assert(m12 == OptionModel { kind: OptionKind::SubCommand, name: "add"@, description: "Add a Reaper permission to a specific role"@, required: false, choices: Seq::empty(), options: seq![
    OptionModel { kind: OptionKind::Role, name: "role"@, description: "The role to add the permission to"@, required: true, choices: Seq::empty(), options: Seq::empty() },
    OptionModel { kind: OptionKind::String, name: "permission"@, description: "The permission to add to the role"@, required: true, choices: Seq::empty(), options: Seq::empty() },
] });
    let o13_subs: Vec<OptionSpec> = Vec::new();
    assert(option_models(o13_subs@) =~= Seq::<OptionModel>::empty());
    let o13_choices: Vec<(String, String)> = Vec::new();
    assert(o13_choices@.map_values(|c: (String, String)| (c.0@, c.1@)) =~= Seq::<(Seq<char>, Seq<char>)>::empty());
    let o13 = option(OptionKind::Role, "role", "The role to remove the permission from", true, o13_choices, o13_subs);
    let ghost m13 = option_model(o13);
    assert(m13 == OptionModel { kind: OptionKind::Role, name: "role"@, description: "The role to remove the permission from"@, required: true, choices: Seq::empty(), options: Seq::empty() });
    let o14_subs: Vec<OptionSpec> = Vec::new();
    assert(option_models(o14_subs@) =~= Seq::<OptionModel>::empty());
    let o14_choices: Vec<(String, String)> = Vec::new();
    assert(o14_choices@.map_values(|c: (String, String)| (c.0@, c.1@)) =~= Seq::<(Seq<char>, Seq<char>)>::empty());
    let o14 = option(OptionKind::String, "permission", "The permission to remove from the role", true, o14_choices, o14_subs);
    let ghost m14 = option_model(o14);
    assert(m14 == OptionModel { kind: OptionKind::String, name: "permission"@, description: "The permission to remove from the role"@, required: true, choices: Seq::empty(), options: Seq::empty() });
    let o15_subs = vec![o13, o14];
    assert(option_models(o15_subs@) =~= seq![m13, m14]);
    let o15_choices: Vec<(String, String)> = Vec::new();
    assert(o15_choices@.map_values(|c: (String, String)| (c.0@, c.1@)) =~= Seq::<(Seq<char>, Seq<char>)>::empty());
    let o15 = option(OptionKind::SubCommand, "remove", "Remove a Reaper permission from a specific role", false, o15_choices, o15_subs);
    let ghost m15 = option_model(o15);
    assert(m15 == OptionModel { kind: OptionKind::SubCommand, name: "remove"@, description: "Remove a Reaper permission from a specific role"@, required: false, choices: Seq::empty(), options: seq![
    OptionModel { kind: OptionKind::Role, name: "role"@, description: "The role to remove the permission from"@, required: true, choices: Seq::empty(), options: Seq::empty() },
    OptionModel { kind: OptionKind::String, name: "permission"@, description: "The permission to remove from the role"@, required: true, choices: Seq::empty(), options: Seq::empty() },
] });
    let o16_subs: Vec<OptionSpec> = Vec::new();
    assert(option_models(o16_subs@) =~= Seq::<OptionModel>::empty());
    let o16_choices: Vec<(String, String)> = Vec::new();
    assert(o16_choices@.map_values(|c: (String, String)| (c.0@, c.1@)) =~= Seq::<(Seq<char>, Seq<char>)>::empty());
    let o16 = option(OptionKind::Role, "role", "The role to view the permissions of", true, o16_choices, o16_subs);
    let ghost m16 = option_model(o16);
    assert(m16 == OptionModel { kind: OptionKind::Role, name: "role"@, description: "The role to view the permissions of"@, required: true, choices: Seq::empty(), options: Seq::empty() });
    let o17_subs = vec![o16];
    assert(option_models(o17_subs@) =~= seq![m16]);
    let o17_choices: Vec<(String, String)> = Vec::new();
    assert(o17_choices@.map_values(|c: (String, String)| (c.0@, c.1@)) =~= Seq::<(Seq<char>, Seq<char>)>::empty());
    let o17 = option(OptionKind::SubCommand, "view", "View the permissions to a role", false, o17_choices, o17_subs);
    let ghost m17 = option_model(o17);
    assert(m17 == OptionModel { kind: OptionKind::SubCommand, name: "view"@, description: "View the permissions to a role"@, required: false, choices: Seq::empty(), options: seq![
    OptionModel { kind: OptionKind::Role, name: "role"@, description: "The role to view the permissions of"@, required: true, choices: Seq::empty(), options: Seq::empty() },
] });
    let o18_subs = vec![o12, o15, o17];
    assert(option_models(o18_subs@) =~= seq![m12, m15, m17]);
    let o18_choices: Vec<(String, String)> = Vec::new();
    assert(o18_choices@.map_values(|c: (String, String)| (c.0@, c.1@)) =~= Seq::<(Seq<char>, Seq<char>)>::empty());
    let o18 = option(OptionKind::SubCommandGroup, "role", "Modify and view permissions to roles", false, o18_choices, o18_subs);
    let ghost m18 = option_model(o18);
    assert(m18 == OptionModel { kind: OptionKind::SubCommandGroup, name: "role"@, description: "Modify and view permissions to roles"@, required: false, choices: Seq::empty(), options: seq![
    OptionModel { kind: OptionKind::SubCommand, name: "add"@, description: "Add a Reaper permission to a specific role"@, required: false, choices: Seq::empty(), options: seq![
        OptionModel { kind: OptionKind::Role, name: "role"@, description: "The role to add the permission to"@, required: true, choices: Seq::empty(), options: Seq::empty() },
        OptionModel { kind: OptionKind::String, name: "permission"@, description: "The permission to add to the role"@, required: true, choices: Seq::empty(), options: Seq::empty() },
    ] },
    OptionModel { kind: OptionKind::SubCommand, name: "remove"@, description: "Remove a Reaper permission from a specific role"@, required: false, choices: Seq::empty(), options: seq![
        OptionModel { kind: OptionKind::Role, name: "role"@, description: "The role to remove the permission from"@, required: true, choices: Seq::empty(), options: Seq::empty() },
        OptionModel { kind: OptionKind::String, name: "permission"@, description: "The permission to remove from the role"@, required: true, choices: Seq::empty(), options: Seq::empty() },
    ] },
    OptionModel { kind: OptionKind::SubCommand, name: "view"@, description: "View the permissions to a role"@, required: false, choices: Seq::empty(), options: seq![
        OptionModel { kind: OptionKind::Role, name: "role"@, description: "The role to view the permissions of"@, required: true, choices: Seq::empty(), options: Seq::empty() },
    ] },
] });
    let top = vec![o3, o6, o8, o9, o18];
    assert(option_models(top@) =~= seq![m3, m6, m8, m9, m18]);
    let r = command("permissions", "Modify and view permissions to users and roles", Some(false), top);
    assert(command_model(r) =~= permissions_model());
    r
}

/// The permissions the earlier `/permissions` command checked.
#[derive(Clone, Copy, Debug, PartialEq, Eq, Structural)]
pub enum LegacyPermission {
    PermissionsAdd,
    PermissionsView,
    PermissionsList,
}

/// What the earlier `/permissions` command went on to do.
#[derive(Clone, Copy, Debug, PartialEq, Eq, Structural)]
pub enum LegacyPermissionsTask {
    /// Give a permission to a user.
    AddToUser,
    /// Show a user's permissions.
    ViewUser,
    /// List every permission.
    List,
    /// Give a permission to a role.
    AddToRole,
}

/// An option of a request as the router reads it: its kind, its name and
/// the names of the options under it.
#[derive(Debug)]
pub struct LegacyOption {
    pub kind: OptionKind,
    pub name: String,
    pub inner: Vec<String>,
}

/// What the router made of a request: the task it went on to, if any, and
/// the permissions it found missing on the way, in order (each one the
/// invoker may be told of).
#[derive(Debug)]
pub struct LegacyRoute {
    pub task: Option<LegacyPermissionsTask>,
    pub missing: Vec<LegacyPermission>,
}

/// An option as plain values.
pub open spec fn legacy_option_view(o: LegacyOption) -> (OptionKind, Seq<char>, Seq<Seq<char>>) {
    (o.kind, o.name@, o.inner@.map_values(|n: String| n@))
}

/// Trying a task that needs `p`: the task where `held` has `p`, otherwise
/// no task and `p` found missing.
pub open spec fn gated(held: Seq<LegacyPermission>, p: LegacyPermission, t: LegacyPermissionsTask)
    -> (Option<LegacyPermissionsTask>, Seq<LegacyPermission>) {
    if held.contains(p) {
        (Some(t), Seq::empty())
    } else {
        (None, seq![p])
    }
}

/// Reading the subcommands of the `role` group from the first on: each
/// `add` tries giving a permission to a role; other names are passed over.
pub open spec fn group_route(names: Seq<Seq<char>>, held: Seq<LegacyPermission>)
    -> (Option<LegacyPermissionsTask>, Seq<LegacyPermission>)
    decreases names.len(),
{
    if names.len() == 0 {
        (None, Seq::empty())
    } else if names[0] == "add"@ {
        let step = gated(held, LegacyPermission::PermissionsAdd, LegacyPermissionsTask::AddToRole);
        match step.0 {
            Some(t) => step,
            None => {
                let rest = group_route(names.skip(1), held);
                (rest.0, step.1 + rest.1)
            },
        }
    } else {
        group_route(names.skip(1), held)
    }
}

/// What one option leads to: the subcommands `add`, `view` and `list`
/// need `permissions.add`, `permissions.view` and `permissions.list`; the
/// group goes by `group_route`; anything else leads nowhere. (The `remove`
/// subcommands are registered but lead nowhere.)
pub open spec fn option_route(o: (OptionKind, Seq<char>, Seq<Seq<char>>), held: Seq<LegacyPermission>)
    -> (Option<LegacyPermissionsTask>, Seq<LegacyPermission>) {
    if o.0 == OptionKind::SubCommand {
        if o.1 == "add"@ {
            gated(held, LegacyPermission::PermissionsAdd, LegacyPermissionsTask::AddToUser)
        } else if o.1 == "view"@ {
            gated(held, LegacyPermission::PermissionsView, LegacyPermissionsTask::ViewUser)
        } else if o.1 == "list"@ {
            gated(held, LegacyPermission::PermissionsList, LegacyPermissionsTask::List)
        } else {
            (None, Seq::empty())
        }
    } else if o.0 == OptionKind::SubCommandGroup {
        group_route(o.2, held)
    } else {
        (None, Seq::empty())
    }
}

/// Reading the options from the first on: the first that leads to a task
/// decides, and the permissions found missing before it are gathered.
pub open spec fn legacy_route(opts: Seq<(OptionKind, Seq<char>, Seq<Seq<char>>)>, held: Seq<LegacyPermission>)
    -> (Option<LegacyPermissionsTask>, Seq<LegacyPermission>)
    decreases opts.len(),
{
    if opts.len() == 0 {
        (None, Seq::empty())
    } else {
        let step = option_route(opts[0], held);
        match step.0 {
            Some(t) => step,
            None => {
                let rest = legacy_route(opts.skip(1), held);
                (rest.0, step.1 + rest.1)
            },
        }
    }
}

fn legacy_holds(held: &Vec<LegacyPermission>, p: LegacyPermission) -> (r: bool)
    ensures
        r == held@.contains(p),
{
    let mut i: usize = 0;
    while i < held.len()
        invariant
            i <= held.len(),
            forall|j: int| 0 <= j < i ==> held@[j] != p,
        decreases held.len() - i,
    {
        if held[i] == p {
            assert(held@[i as int] == p);
            return true;
        }
        i += 1;
    }
    false
}

fn gate(held: &Vec<LegacyPermission>, p: LegacyPermission, t: LegacyPermissionsTask, missing: &mut Vec<LegacyPermission>)
    -> (r: Option<LegacyPermissionsTask>)
    ensures
        r == gated(held@, p, t).0,
        final(missing)@ == old(missing)@ + gated(held@, p, t).1,
{
    if legacy_holds(held, p) {
        assert(old(missing)@ + Seq::<LegacyPermission>::empty() =~= old(missing)@);
        Some(t)
    } else {
        missing.push(p);
        assert(final(missing)@ =~= old(missing)@ + seq![p]);
        None
    }
}

fn route_group(names: &Vec<String>, held: &Vec<LegacyPermission>, missing: &mut Vec<LegacyPermission>)
    -> (r: Option<LegacyPermissionsTask>)
    ensures
        r == group_route(names@.map_values(|n: String| n@), held@).0,
        final(missing)@ == old(missing)@ + group_route(names@.map_values(|n: String| n@), held@).1,
{
    let ghost all = names@.map_values(|n: String| n@);
    let mut i: usize = 0;
    assert(all.skip(0) =~= all);
    assert(missing@ =~= old(missing)@ + Seq::<LegacyPermission>::empty());
    while i < names.len()
        invariant
            i <= names.len(),
            all == names@.map_values(|n: String| n@),
            group_route(all, held@).0 == group_route(all.skip(i as int), held@).0,
            old(missing)@ + group_route(all, held@).1 == missing@ + group_route(all.skip(i as int), held@).1,
        decreases names.len() - i,
    {
        let ghost rest = all.skip(i as int);
        assert(rest[0] == names@[i as int]@);
        assert(rest.skip(1) =~= all.skip(i + 1));
        let ghost before = missing@;
        if str_eq(names[i].as_str(), "add") {
            proof {
                reveal_strlit("add");
            }
            let t = gate(held, LegacyPermission::PermissionsAdd, LegacyPermissionsTask::AddToRole, missing);
            if t.is_some() {
                assert(group_route(rest, held@) == gated(held@, LegacyPermission::PermissionsAdd, LegacyPermissionsTask::AddToRole));
                return t;
            }
            assert(missing@ + group_route(all.skip(i + 1), held@).1 =~= before + group_route(rest, held@).1);
        } else {
            proof {
                reveal_strlit("add");
            }
        }
        i += 1;
    }
    assert(all.skip(i as int).len() == 0);
    assert(missing@ =~= missing@ + Seq::<LegacyPermission>::empty());
    None
}

/// Routes a request of the earlier `/permissions` command, whose invoker
/// holds `held`; see `legacy_route`.
pub fn route(options: &Vec<LegacyOption>, held: &Vec<LegacyPermission>) -> (r: LegacyRoute)
    ensures
        (r.task, r.missing@) == legacy_route(options@.map_values(|o: LegacyOption| legacy_option_view(o)), held@),
{
    let ghost all = options@.map_values(|o: LegacyOption| legacy_option_view(o));
    let mut missing: Vec<LegacyPermission> = Vec::new();
    let mut i: usize = 0;
    assert(all.skip(0) =~= all);
    assert(Seq::<LegacyPermission>::empty() + legacy_route(all, held@).1 =~= legacy_route(all, held@).1);
    while i < options.len()
        invariant
            i <= options.len(),
            all == options@.map_values(|o: LegacyOption| legacy_option_view(o)),
            legacy_route(all, held@).0 == legacy_route(all.skip(i as int), held@).0,
            legacy_route(all, held@).1 == missing@ + legacy_route(all.skip(i as int), held@).1,
        decreases options.len() - i,
    {
        let ghost rest = all.skip(i as int);
        assert(rest[0] == legacy_option_view(options@[i as int]));
        assert(rest.skip(1) =~= all.skip(i + 1));
        let ghost before = missing@;
        let o = &options[i];
        proof {
            reveal_strlit("add");
            reveal_strlit("view");
            reveal_strlit("list");
        }
        let t = match o.kind {
            OptionKind::SubCommand => {
                if str_eq(o.name.as_str(), "add") {
                    gate(held, LegacyPermission::PermissionsAdd, LegacyPermissionsTask::AddToUser, &mut missing)
                } else if str_eq(o.name.as_str(), "view") {
                    gate(held, LegacyPermission::PermissionsView, LegacyPermissionsTask::ViewUser, &mut missing)
                } else if str_eq(o.name.as_str(), "list") {
                    gate(held, LegacyPermission::PermissionsList, LegacyPermissionsTask::List, &mut missing)
                } else {
                    assert(missing@ =~= before + Seq::<LegacyPermission>::empty());
                    None
                }
            },
            OptionKind::SubCommandGroup => route_group(&o.inner, held, &mut missing),
            _ => {
                assert(missing@ =~= before + Seq::<LegacyPermission>::empty());
                None
            },
        };
        assert(t == option_route(rest[0], held@).0);
        assert(missing@ == before + option_route(rest[0], held@).1);
        if t.is_some() {
            return LegacyRoute { task: t, missing };
        }
        assert(missing@ + legacy_route(all.skip(i + 1), held@).1 =~= before + legacy_route(rest, held@).1);
        i += 1;
    }
    assert(all.skip(i as int).len() == 0);
    assert(missing@ =~= missing@ + Seq::<LegacyPermission>::empty());
    LegacyRoute { task: None, missing }
}

} // verus!
