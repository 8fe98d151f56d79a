//! Reaper: the decision logic of a Discord moderation, levelling and
//! giveaway bot, with the rules it applies stated as contracts.
//!
//! The library holds what the bot decides; talking to Discord and to the
//! database is left to the application around it.

pub mod text;
pub mod numbers;
pub mod duration;
pub mod permissions;
pub mod permission_panel;
pub mod options;
pub mod levelling;
pub mod logging;
pub mod config;
pub mod interaction;
pub mod actions;
pub mod response;
pub mod moderation;
pub mod giveaway;
pub mod global;
pub mod levels;
pub mod rank_card;
pub mod commands;
pub mod legacy;
