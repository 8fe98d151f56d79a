//! The channel multiplier stages of the wizard, which ask nothing yet.

use vstd::prelude::*;
use crate::config::ConfigError;

verus! {

/// Would ask whether to configure channel multipliers; moves on at once.
#[derive(Debug)]
pub struct ChannelMultiplierEnter;

impl ChannelMultiplierEnter {
    /// The stage moves on without asking.
    pub fn answer(&self) -> (r: Result<Option<usize>, ConfigError>)
        ensures
            r == Ok::<Option<usize>, ConfigError>(None),
    {
        Ok(None)
    }
}

/// Would manage channel multipliers; moves on at once.
#[derive(Debug)]
pub struct ChannelMultiplierManage;

impl ChannelMultiplierManage {
    /// The stage moves on without asking.
    pub fn answer(&self) -> (r: Result<Option<usize>, ConfigError>)
        ensures
            r == Ok::<Option<usize>, ConfigError>(None),
    {
        Ok(None)
    }
}

} // verus!
