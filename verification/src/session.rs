//! Session records, contributions, and the escrow vault.

use vstd::prelude::*;

use crate::keys::Key;

verus! {

/// Lifecycle of a session.
#[derive(Clone, Copy, Debug, PartialEq, Eq, Structural)]
pub enum SessionStatus {
    Pending,
    Active,
    Completed,
}

/// A session record: a multi-iteration unit of work funded by a pooled,
/// share-based escrow.  `total_shares` is the outstanding claims on the
/// escrow; `locked_for_tasks` is the part of the escrow reserved for work
/// in flight; `chain_proof` is the running audit digest chaining every
/// certified task outcome into the session's history.
#[derive(Clone, Debug)]
pub struct Session {
    pub session_slot_id: u64,
    pub owner: Key,
    pub task: Key,
    pub status: SessionStatus,
    pub is_confidential: bool,
    pub max_iterations: u64,
    pub current_iteration: u64,
    pub task_index_start: u64,
    pub task_index_end: u64,
    pub total_shares: u64,
    pub locked_for_tasks: u64,
    pub chain_proof: [u8; 32],
    pub specification_cid: Vec<u8>,
    pub state_cid: Option<Vec<u8>>,
}

/// One contributor's share balance in one session's escrow.
#[derive(Clone, Debug)]
pub struct Contribution {
    pub session: Key,
    pub contributor: Key,
    pub shares: u64,
    pub refund_amount: u64,
}

/// A session's escrow holding: its balance, and the minimum the platform
/// requires the holding to retain.  The reserved minimum never backs
/// shares and is never spent.
#[derive(Clone, Copy, Debug, PartialEq, Eq, Structural)]
pub struct Vault {
    pub balance: u64,
    pub reserved_minimum: u64,
}

/// What the escrow can spend or pay out: the balance minus the part
/// locked for in-flight work and the reserved minimum.  May be negative
/// only when the books are broken.
pub open spec fn spec_available(vault: Vault, locked_for_tasks: u64) -> int {
    vault.balance - locked_for_tasks - vault.reserved_minimum
}

/// The escrow solvency invariant: the balance covers both the locked
/// part and the reserved minimum.
pub open spec fn spec_vault_covers(vault: Vault, session: Session) -> bool {
    vault.balance >= session.locked_for_tasks + vault.reserved_minimum
}

} // verus!
