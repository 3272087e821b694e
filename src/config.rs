//! The rollup configuration: which protocol upgrades are active when.

use vstd::prelude::*;

use crate::channel::{FJORD_MAX_RLP_BYTES_PER_CHANNEL, MAX_RLP_BYTES_PER_CHANNEL};

verus! {

/// Activation times of the protocol upgrades the node's logic depends on.
#[derive(Clone, Copy, Debug)]
pub struct RollupConfig {
    /// When Fjord activates, if ever.
    pub fjord_time: Option<u64>,
    /// When Holocene activates, if ever.
    pub holocene_time: Option<u64>,
    /// When Interop activates, if ever.
    pub interop_time: Option<u64>,
}

/// Whether an upgrade scheduled at `at` is active at `time`.
pub open spec fn active_at(at: Option<u64>, time: u64) -> bool {
    match at {
        Some(t) => time >= t,
        None => false,
    }
}

fn is_active(at: Option<u64>, time: u64) -> (r: bool)
    ensures
        r == active_at(at, time),
{
    match at {
        Some(t) => time >= t,
        None => false,
    }
}

impl RollupConfig {
    /// Returns whether Fjord is active at `time`.
    pub fn is_fjord_active(&self, time: u64) -> (r: bool)
        ensures
            r == active_at(self.fjord_time, time),
    {
        is_active(self.fjord_time, time)
    }

    /// Returns whether Holocene is active at `time`.
    pub fn is_holocene_active(&self, time: u64) -> (r: bool)
        ensures
            r == active_at(self.holocene_time, time),
    {
        is_active(self.holocene_time, time)
    }

    /// Returns whether Interop is active at `time`.
    pub fn is_interop_active(&self, time: u64) -> (r: bool)
        ensures
            r == active_at(self.interop_time, time),
    {
        is_active(self.interop_time, time)
    }

    /// Returns the most bytes that may be read from one channel at `time`.
    pub fn max_rlp_bytes_per_channel(&self, time: u64) -> (r: u64)
        ensures
            r == if active_at(self.fjord_time, time) {
                FJORD_MAX_RLP_BYTES_PER_CHANNEL
            } else {
                MAX_RLP_BYTES_PER_CHANNEL
            },
    {
        if self.is_fjord_active(time) {
            FJORD_MAX_RLP_BYTES_PER_CHANNEL
        } else {
            MAX_RLP_BYTES_PER_CHANNEL
        }
    }
}

} // verus!
