//! Agent records: autonomous-agent configurations that sessions run.

use vstd::prelude::*;

use crate::keys::Key;

verus! {

/// Approval lifecycle of an agent configuration.
#[derive(Clone, Copy, Debug, PartialEq, Eq, Structural)]
pub enum AgentStatus {
    Pending,
    Active,
    Inactive,
}

/// An agent record: its owner, its off-chain configuration reference,
/// its approval status, and the committee votes cast on it so far.
#[derive(Clone, Debug)]
pub struct Agent {
    pub agent_slot_id: u64,
    pub owner: Key,
    pub status: AgentStatus,
    pub agent_config_cid: Vec<u8>,
    pub agent_memory_cid: Option<Vec<u8>>,
    pub approved_validators: Vec<Key>,
    pub rejected_validators: Vec<Key>,
}

} // verus!
