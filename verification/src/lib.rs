//! A proof-of-work mining library: the AstroBWT hash construction, the
//! difficulty check, the shared versioned job store, the per-thread worker
//! state machine, the work-gatherer decision logic, and reward-address
//! validation.

use vstd::prelude::*;

pub mod address;
pub mod daemon_rpc;
pub mod difficulty;
pub mod gatherer;
pub mod orchestrator;
pub mod job;
pub mod miner;
pub mod pow;
pub mod rpc;

verus! {

/// Byte length of the miniblock header that workers hash.
pub const MINIBLOCK_SIZE: usize = 48;

} // verus!
