pub mod basic;
pub mod channel_blacklist;
pub mod channel_multiplier;
pub mod level_up;
pub mod rewards;
pub mod role_blacklist;
pub mod role_multiplier;
