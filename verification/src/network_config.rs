//! The process-wide configuration record.

use vstd::prelude::*;

use crate::errors::ErrorCode;
use crate::hashing::{genesis_hash, spec_genesis_hash};
use crate::keys::Key;
use crate::semver::SemanticVersion;

verus! {

/// At most this many approved code measurements are kept, newest first.
pub const CODE_MEASUREMENT_CAPACITY: usize = 10;

/// At most this many node identities are kept per approved pool; the
/// oldest entry is evicted when a new one arrives at capacity.
pub const NODE_POOL_CAPACITY: usize = 10;

/// A trusted-execution code measurement together with the software
/// version it belongs to.
#[derive(Clone, Copy, Debug, PartialEq, Eq)]
pub struct CodeMeasurement {
    pub measurement: [u8; 32],
    pub version: SemanticVersion,
}

/// Process-wide configuration: the authority, the approved code
/// measurements, the approved validator pools, the validation quorum
/// size, and the monotonic slot counters.
#[derive(Clone, Debug)]
pub struct NetworkConfig {
    pub authority: Key,
    pub cid_config: Vec<u8>,
    pub genesis_hash: [u8; 32],
    pub task_count: u64,
    pub required_validations: u32,
    pub allowed_models: Vec<u64>,
    pub approved_confidential_nodes: Vec<Key>,
    pub approved_public_nodes: Vec<Key>,
    pub agent_count: u64,
    pub session_count: u64,
    pub approved_code_measurements: Vec<CodeMeasurement>,
}

/// A measurement list holds at most the capacity, newest first.
pub open spec fn spec_measurements_after_add(
    old_list: Seq<CodeMeasurement>,
    added: CodeMeasurement,
) -> Seq<CodeMeasurement> {
    let grown = seq![added] + old_list;
    if grown.len() > CODE_MEASUREMENT_CAPACITY {
        grown.drop_last()
    } else {
        grown
    }
}

/// A node pool holds at most the capacity; the oldest entry leaves first.
pub open spec fn spec_pool_after_add(old_pool: Seq<Key>, added: Key) -> Seq<Key> {
    let grown = old_pool.push(added);
    if grown.len() > NODE_POOL_CAPACITY {
        grown.skip(1)
    } else {
        grown
    }
}

/// True when some entry of the list carries this measurement.
pub open spec fn spec_measurement_listed(list: Seq<CodeMeasurement>, m: Seq<u8>) -> bool {
    exists|i: int| 0 <= i < list.len() && list[i].measurement@ == m
}

/// True when some entry of the pool is this key.
pub open spec fn spec_pool_contains(pool: Seq<Key>, k: Seq<u8>) -> bool {
    exists|i: int| 0 <= i < pool.len() && pool[i]@ == k
}

/// The registry invariant on the measurement list: adding never grows
/// it past its capacity.
pub proof fn lemma_measurement_capacity_preserved(
    list: Seq<CodeMeasurement>,
    added: CodeMeasurement,
)
    requires
        list.len() <= CODE_MEASUREMENT_CAPACITY,
    ensures
        spec_measurements_after_add(list, added).len() <= CODE_MEASUREMENT_CAPACITY,
{
}

/// The registry invariant on the node pools: admitting a node never
/// grows a pool past its capacity.
pub proof fn lemma_pool_capacity_preserved(pool: Seq<Key>, added: Key)
    requires
        pool.len() <= NODE_POOL_CAPACITY,
    ensures
        spec_pool_after_add(pool, added).len() <= NODE_POOL_CAPACITY,
{
}

/// Membership test on a pool of node identities.
pub fn pool_contains(pool: &Vec<Key>, k: &Key) -> (r: bool)
    ensures
        r == spec_pool_contains(pool@, k@),
{
    let mut i: usize = 0;
    while i < pool.len()
        invariant
            0 <= i <= pool@.len(),
            forall|j: int| 0 <= j < i ==> pool@[j]@ != k@,
        decreases pool@.len() - i,
    {
        if crate::keys::key_eq(&pool[i], k) {
            return true;
        }
        i = i + 1;
    }
    false
}

impl NetworkConfig {
    /// Put a new measurement at the front of the approved list, evicting
    /// the oldest entry once the list is at capacity.
    pub fn add_code_measurement(&mut self, measurement: [u8; 32], version: SemanticVersion)
        ensures
            final(self).approved_code_measurements@ == spec_measurements_after_add(
                old(self).approved_code_measurements@,
                (CodeMeasurement { measurement, version }),
            ),
            *final(self) == (NetworkConfig {
                approved_code_measurements: final(self).approved_code_measurements,
                ..*old(self)
            }),
    {
        let new_measurement = CodeMeasurement { measurement, version };
        self.approved_code_measurements.insert(0, new_measurement);
        if self.approved_code_measurements.len() > CODE_MEASUREMENT_CAPACITY {
            self.approved_code_measurements.pop();
        }
        proof {
            assert(old(self).approved_code_measurements@.insert(0, new_measurement) =~= seq![
                new_measurement,
            ] + old(self).approved_code_measurements@);
            assert(self.approved_code_measurements@ =~= spec_measurements_after_add(
                old(self).approved_code_measurements@,
                new_measurement,
            ));
        }
    }

    /// True when the measurement is currently approved.
    pub fn is_measurement_approved(&self, measurement: &[u8; 32]) -> (r: bool)
        ensures
            r == spec_measurement_listed(self.approved_code_measurements@, measurement@),
    {
        let mut i: usize = 0;
        while i < self.approved_code_measurements.len()
            invariant
                0 <= i <= self.approved_code_measurements@.len(),
                forall|j: int|
                    0 <= j < i ==> self.approved_code_measurements@[j].measurement@
                        != measurement@,
            decreases self.approved_code_measurements@.len() - i,
        {
            if crate::keys::key_eq(&self.approved_code_measurements[i].measurement, measurement) {
                return true;
            }
            i = i + 1;
        }
        false
    }

    /// The most recently added measurement, if any.
    pub fn get_latest_measurement(&self) -> (r: Option<&CodeMeasurement>)
        ensures
            self.approved_code_measurements@.len() == 0 <==> r is None,
            self.approved_code_measurements@.len() > 0 ==> r == Some(
                &self.approved_code_measurements[0],
            ),
    {
        if self.approved_code_measurements.len() == 0 {
            None
        } else {
            Some(&self.approved_code_measurements[0])
        }
    }

    /// The digest every audit chain of this configuration starts from.
    pub fn compute_genesis_hash(&self) -> (r: [u8; 32])
        ensures
            r@ == spec_genesis_hash(),
    {
        genesis_hash()
    }

    /// Advance the agent counter; fails instead of wrapping.
    pub fn increment_agent_count(&mut self) -> (r: Result<(), ErrorCode>)
        ensures
            old(self).agent_count < u64::MAX ==> r is Ok && *final(self) == (NetworkConfig {
                agent_count: (old(self).agent_count + 1) as u64,
                ..*old(self)
            }),
            old(self).agent_count == u64::MAX ==> r == Err::<(), ErrorCode>(ErrorCode::Overflow)
                && *final(self) == *old(self),
    {
        if self.agent_count == u64::MAX {
            return Err(ErrorCode::Overflow);
        }
        self.agent_count = self.agent_count + 1;
        Ok(())
    }

    /// Advance the session counter; fails instead of wrapping.
    pub fn increment_session_count(&mut self) -> (r: Result<(), ErrorCode>)
        ensures
            old(self).session_count < u64::MAX ==> r is Ok && *final(self) == (NetworkConfig {
                session_count: (old(self).session_count + 1) as u64,
                ..*old(self)
            }),
            old(self).session_count == u64::MAX ==> r == Err::<(), ErrorCode>(ErrorCode::Overflow)
                && *final(self) == *old(self),
    {
        if self.session_count == u64::MAX {
            return Err(ErrorCode::Overflow);
        }
        self.session_count = self.session_count + 1;
        Ok(())
    }

    /// Advance the task counter; fails instead of wrapping.
    pub fn increment_task_count(&mut self) -> (r: Result<(), ErrorCode>)
        ensures
            old(self).task_count < u64::MAX ==> r is Ok && *final(self) == (NetworkConfig {
                task_count: (old(self).task_count + 1) as u64,
                ..*old(self)
            }),
            old(self).task_count == u64::MAX ==> r == Err::<(), ErrorCode>(ErrorCode::Overflow)
                && *final(self) == *old(self),
    {
        if self.task_count == u64::MAX {
            return Err(ErrorCode::Overflow);
        }
        self.task_count = self.task_count + 1;
        Ok(())
    }

    /// The slot id the next agent record will take.
    pub fn next_agent_slot_id(&self) -> (r: u64)
        ensures
            r == self.agent_count,
    {
        self.agent_count
    }

    /// The slot id the next session record will take.
    pub fn next_session_slot_id(&self) -> (r: u64)
        ensures
            r == self.session_count,
    {
        self.session_count
    }

    /// The slot id the next task record will take.
    pub fn next_task_slot_id(&self) -> (r: u64)
        ensures
            r == self.task_count,
    {
        self.task_count
    }

    /// Admit a node to the confidential pool, evicting the oldest entry
    /// once the pool is at capacity.
    pub fn add_confidential_node(&mut self, node_pubkey: Key) -> (r: Result<(), ErrorCode>)
        ensures
            r is Ok,
            final(self).approved_confidential_nodes@ == spec_pool_after_add(
                old(self).approved_confidential_nodes@,
                node_pubkey,
            ),
            *final(self) == (NetworkConfig {
                approved_confidential_nodes: final(self).approved_confidential_nodes,
                ..*old(self)
            }),
    {
        self.approved_confidential_nodes.push(node_pubkey);
        if self.approved_confidential_nodes.len() > NODE_POOL_CAPACITY {
            self.approved_confidential_nodes.remove(0);
        }
        proof {
            assert(self.approved_confidential_nodes@ =~= spec_pool_after_add(
                old(self).approved_confidential_nodes@,
                node_pubkey,
            ));
        }
        Ok(())
    }

    /// Admit a node to the public pool, evicting the oldest entry once
    /// the pool is at capacity.
    pub fn add_public_node(&mut self, node_pubkey: Key) -> (r: Result<(), ErrorCode>)
        ensures
            r is Ok,
            final(self).approved_public_nodes@ == spec_pool_after_add(
                old(self).approved_public_nodes@,
                node_pubkey,
            ),
            *final(self) == (NetworkConfig {
                approved_public_nodes: final(self).approved_public_nodes,
                ..*old(self)
            }),
    {
        self.approved_public_nodes.push(node_pubkey);
        if self.approved_public_nodes.len() > NODE_POOL_CAPACITY {
            self.approved_public_nodes.remove(0);
        }
        proof {
            assert(self.approved_public_nodes@ =~= spec_pool_after_add(
                old(self).approved_public_nodes@,
                node_pubkey,
            ));
        }
        Ok(())
    }
}

} // verus!
