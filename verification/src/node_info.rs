//! Node records: identity, kind, trust status, and earnings.

use vstd::prelude::*;

use crate::errors::ErrorCode;
use crate::keys::Key;

verus! {

/// At most this many reward entries are kept before they must be swept.
pub const REWARD_CAPACITY: usize = 64;

/// The kind of a node: a public node proves itself through committee
/// votes, a confidential node through its attested code measurement.
#[derive(Clone, Copy, Debug, PartialEq, Eq, Structural)]
pub enum NodeType {
    Public,
    Confidential,
}

/// Trust lifecycle of a node record.
#[derive(Clone, Copy, Debug, PartialEq, Eq, Structural)]
pub enum NodeStatus {
    PendingClaim,
    AwaitingValidation,
    Active,
    Disabled,
    Rejected,
}

/// One pending reward, remembered with the slot it was granted at.
#[derive(Clone, Copy, Debug, PartialEq, Eq, Structural)]
pub struct RewardEntry {
    pub amount: u64,
    pub slot: u64,
}

/// A node record: who owns it, which identity operates it, what kind it
/// is, how far its trust has progressed, what it has earned, and the
/// committee votes cast on its promotion.
#[derive(Clone, Debug)]
pub struct NodeInfo {
    pub owner: Key,
    pub node_pubkey: Key,
    pub node_type: NodeType,
    pub status: NodeStatus,
    pub node_info_cid: Option<Vec<u8>>,
    pub code_measurement: Option<[u8; 32]>,
    pub tee_signing_pubkey: Option<Key>,
    pub node_treasury: Key,
    pub recent_rewards: Vec<RewardEntry>,
    pub total_earned: u64,
    pub max_entries_before_transfer: u64,
    pub last_transfer_slot: u64,
    pub total_tasks_completed: u64,
    pub approved_validators: Vec<Key>,
    pub rejected_validators: Vec<Key>,
}

/// Sum of the pending reward amounts.
pub open spec fn spec_sum_rewards(rewards: Seq<RewardEntry>) -> int
    decreases rewards.len(),
{
    if rewards.len() == 0 {
        0
    } else {
        spec_sum_rewards(rewards.drop_last()) + rewards.last().amount
    }
}

impl NodeInfo {
    /// Record one more pending reward; fails once the list is full.
    pub fn add_reward(&mut self, amount: u64, slot: u64) -> (r: Result<(), ErrorCode>)
        ensures
            old(self).recent_rewards@.len() < REWARD_CAPACITY ==> r is Ok && *final(self)
                == (NodeInfo {
                recent_rewards: final(self).recent_rewards,
                ..*old(self)
            }) && final(self).recent_rewards@ == old(self).recent_rewards@.push(
                (RewardEntry { amount, slot }),
            ),
            old(self).recent_rewards@.len() >= REWARD_CAPACITY ==> r == Err::<(), ErrorCode>(
                ErrorCode::RewardVectorFull,
            ) && *final(self) == *old(self),
    {
        if self.recent_rewards.len() >= REWARD_CAPACITY {
            return Err(ErrorCode::RewardVectorFull);
        }
        self.recent_rewards.push(RewardEntry { amount, slot });
        Ok(())
    }

    /// Forget all pending rewards (they were swept to the treasury).
    pub fn clear_rewards(&mut self)
        ensures
            *final(self) == (NodeInfo { recent_rewards: final(self).recent_rewards, ..*old(self) }),
            final(self).recent_rewards@ == Seq::<RewardEntry>::empty(),
    {
        self.recent_rewards.clear();
    }

    /// Sum of the pending reward amounts, saturating at the largest
    /// representable value.
    pub fn total_pending_rewards(&self) -> (r: u64)
        ensures
            spec_sum_rewards(self.recent_rewards@) <= u64::MAX ==> r == spec_sum_rewards(
                self.recent_rewards@,
            ),
            spec_sum_rewards(self.recent_rewards@) > u64::MAX ==> r == u64::MAX,
    {
        let mut total: u64 = 0;
        let mut i: usize = 0;
        while i < self.recent_rewards.len()
            invariant
                0 <= i <= self.recent_rewards@.len(),
                spec_sum_rewards(self.recent_rewards@.subrange(0, i as int)) <= u64::MAX ==> total
                    == spec_sum_rewards(self.recent_rewards@.subrange(0, i as int)),
                spec_sum_rewards(self.recent_rewards@.subrange(0, i as int)) > u64::MAX ==> total
                    == u64::MAX,
                spec_sum_rewards(self.recent_rewards@.subrange(0, i as int)) >= total,
            decreases self.recent_rewards@.len() - i,
        {
            let amount = self.recent_rewards[i].amount;
            if total > u64::MAX - amount {
                total = u64::MAX;
            } else {
                total = total + amount;
            }
            i = i + 1;
            proof {
                let sub = self.recent_rewards@.subrange(0, i as int);
                assert(sub.drop_last() =~= self.recent_rewards@.subrange(0, i as int - 1));
                assert(sub.last() == self.recent_rewards@[i as int - 1]);
            }
        }
        proof {
            assert(self.recent_rewards@.subrange(0, self.recent_rewards@.len() as int)
                =~= self.recent_rewards@);
        }
        total
    }
}

} // verus!
