//! The registration of `/ban` in the earlier command set.

use vstd::prelude::*;
use crate::commands::{CommandModel, CommandSpec, OptionKind, OptionModel, OptionSpec, command, command_model, option,
    option_model, option_models};

verus! {

/// What the `/ban` command of the earlier command set registers.
pub open spec fn ban_model() -> CommandModel {
    CommandModel {
        name: "ban"@,
        description: "Ban a user from the guild, either permanently or temporarily"@,
        dm_permission: Some(false),
        options: seq![
            OptionModel { kind: OptionKind::User, name: "user"@, description: "The user to ban"@, required: true, choices: Seq::empty(), options: Seq::empty() },
            OptionModel { kind: OptionKind::String, name: "reason"@, description: "The reason to ban this user"@, required: true, choices: Seq::empty(), options: Seq::empty() },
            OptionModel { kind: OptionKind::String, name: "duration"@, description: "The duration to strike the user for (permanent by default)"@, required: false, choices: Seq::empty(), options: Seq::empty() },
        ],
    }
}

/// The command as registered; see `ban_model`.
pub fn register() -> (r: CommandSpec)
    ensures
        command_model(r) == ban_model(),
{
    let o1_subs: Vec<OptionSpec> = Vec::new();
    assert(option_models(o1_subs@) =~= Seq::<OptionModel>::empty());
    let o1_choices: Vec<(String, String)> = Vec::new();
    assert(o1_choices@.map_values(|c: (String, String)| (c.0@, c.1@)) =~= Seq::<(Seq<char>, Seq<char>)>::empty());
    let o1 = option(OptionKind::User, "user", "The user to ban", true, o1_choices, o1_subs);
    let ghost m1 = option_model(o1);
    assert(m1 == OptionModel { kind: OptionKind::User, name: "user"@, description: "The user to ban"@, required: true, choices: Seq::empty(), options: Seq::empty() });
    let o2_subs: Vec<OptionSpec> = Vec::new();
    assert(option_models(o2_subs@) =~= Seq::<OptionModel>::empty());
    let o2_choices: Vec<(String, String)> = Vec::new();
    assert(o2_choices@.map_values(|c: (String, String)| (c.0@, c.1@)) =~= Seq::<(Seq<char>, Seq<char>)>::empty());
    let o2 = option(OptionKind::String, "reason", "The reason to ban this user", true, o2_choices, o2_subs);
    let ghost m2 = option_model(o2);
    assert(m2 == OptionModel { kind: OptionKind::String, name: "reason"@, description: "The reason to ban this user"@, required: true, choices: Seq::empty(), options: Seq::empty() });
    let o3_subs: Vec<OptionSpec> = Vec::new();
    assert(option_models(o3_subs@) =~= Seq::<OptionModel>::empty());
    let o3_choices: Vec<(String, String)> = Vec::new();
    assert(o3_choices@.map_values(|c: (String, String)| (c.0@, c.1@)) =~= Seq::<(Seq<char>, Seq<char>)>::empty());
    let o3 = option(OptionKind::String, "duration", "The duration to strike the user for (permanent by default)", false, o3_choices, o3_subs);
    let ghost m3 = option_model(o3);
    assert(m3 == OptionModel { kind: OptionKind::String, name: "duration"@, description: "The duration to strike the user for (permanent by default)"@, required: false, choices: Seq::empty(), options: Seq::empty() });
    let top = vec![o1, o2, o3];
    assert(option_models(top@) =~= seq![m1, m2, m3]);
    let r = command("ban", "Ban a user from the guild, either permanently or temporarily", Some(false), top);
    assert(command_model(r) =~= ban_model());
    r
}

} // verus!
