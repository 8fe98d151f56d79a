//! A user's click on one of the bot's message components, as the bot
//! reads it.

use vstd::prelude::*;

verus! {

/// What the component carried.
#[derive(Debug)]
pub enum ComponentData {
    Button,
    /// The channels picked in a channel menu.
    ChannelSelect(Vec<i64>),
    /// The roles picked in a role menu.
    RoleSelect(Vec<i64>),
    /// The values picked in a menu of strings.
    StringSelect(Vec<String>),
    /// Any other kind of component.
    Other,
}

/// One click: the id of the component and what it carried.
#[derive(Debug)]
pub struct Interaction {
    pub custom_id: String,
    pub data: ComponentData,
}

} // verus!
