//! Task records and the per-task validator slate.

use vstd::prelude::*;

use crate::keys::{key_eq, Key};

verus! {

/// Lifecycle of a task slot.
#[derive(Clone, Copy, Debug, PartialEq, Eq, Structural)]
pub enum TaskStatus {
    Ready,
    Pending,
    Processing,
    AwaitingValidation,
}

/// What kind of work the task asks for.
#[derive(Clone, Copy, Debug, PartialEq, Eq, Structural)]
pub enum TaskType {
    Completion(u64),
    Custom(u64),
    HumanInLoop,
}

/// The decision one assigned validator has recorded so far.
#[derive(Clone, Copy, Debug, PartialEq, Eq, Structural)]
pub enum ValidationStatus {
    Pending,
    Approved,
    Rejected,
}

/// One assigned validator and its recorded decision.
#[derive(Clone, Copy, Debug)]
pub struct Validator {
    pub pubkey: Key,
    pub status: ValidationStatus,
}

/// A task record: its slot, its owning session, its lifecycle status,
/// the node working on it, its cost and call ceilings, its audit chain,
/// its certified and pending input/output references, and the validator
/// slate drawn for the iteration in flight.
#[derive(Clone, Debug)]
pub struct Task {
    pub task_slot_id: u64,
    pub session_slot_id: Option<u64>,
    pub status: TaskStatus,
    pub compute_node: Option<Key>,
    pub task_type: TaskType,
    pub chain_proof: [u8; 32],
    pub task_index: u64,
    pub max_task_cost: u64,
    pub max_call_count: u64,
    pub call_count: u64,
    pub input_cid: Option<Vec<u8>>,
    pub output_cid: Option<Vec<u8>>,
    pub pending_input_cid: Option<Vec<u8>>,
    pub pending_output_cid: Option<Vec<u8>>,
    pub validations: Vec<Validator>,
}

/// Index of the first slate entry carrying this key, or -1 if none does.
pub open spec fn spec_validator_index(vs: Seq<Validator>, k: Seq<u8>) -> int
    decreases vs.len(),
{
    if vs.len() == 0 {
        -1
    } else if vs[0].pubkey@ == k {
        0
    } else {
        let rest = spec_validator_index(vs.skip(1), k);
        if rest < 0 {
            -1
        } else {
            rest + 1
        }
    }
}

/// How many slate entries carry the given decision.
pub open spec fn spec_count_with_status(vs: Seq<Validator>, st: ValidationStatus) -> int
    decreases vs.len(),
{
    if vs.len() == 0 {
        0
    } else {
        spec_count_with_status(vs.drop_last(), st) + if vs.last().status == st {
            1int
        } else {
            0int
        }
    }
}

pub broadcast proof fn lemma_validator_index_in_range(vs: Seq<Validator>, k: Seq<u8>)
    ensures
        -1 <= #[trigger] spec_validator_index(vs, k) < vs.len(),
        spec_validator_index(vs, k) >= 0 ==> vs[spec_validator_index(vs, k)].pubkey@ == k,
    decreases vs.len(),
{
    if vs.len() > 0 && vs[0].pubkey@ != k {
        lemma_validator_index_in_range(vs.skip(1), k);
    }
}

pub proof fn lemma_validator_index_none(vs: Seq<Validator>, k: Seq<u8>)
    requires
        spec_validator_index(vs, k) == -1,
    ensures
        forall|i: int| 0 <= i < vs.len() ==> vs[i].pubkey@ != k,
    decreases vs.len(),
{
    if vs.len() > 0 {
        lemma_validator_index_none(vs.skip(1), k);
        assert forall|i: int| 0 <= i < vs.len() implies vs[i].pubkey@ != k by {
            if i > 0 {
                assert(vs.skip(1)[i - 1] == vs[i]);
            }
        }
    }
}

pub proof fn lemma_validator_index_first(vs: Seq<Validator>, k: Seq<u8>)
    ensures
        forall|i: int|
            0 <= i < spec_validator_index(vs, k) ==> (#[trigger] vs[i]).pubkey@ != k,
    decreases vs.len(),
{
    if vs.len() > 0 && vs[0].pubkey@ != k {
        lemma_validator_index_first(vs.skip(1), k);
        lemma_validator_index_in_range(vs, k);
        lemma_validator_index_in_range(vs.skip(1), k);
        assert forall|i: int|
            0 <= i < spec_validator_index(vs, k) implies (#[trigger] vs[i]).pubkey@ != k by {
            if i > 0 {
                assert(0 <= i - 1 < vs.skip(1).len());
                assert(vs.skip(1)[i - 1] == vs[i]);
            }
        }
    }
}

/// Find the first slate entry carrying this key.
pub fn find_validator(vs: &Vec<Validator>, k: &Key) -> (r: Option<usize>)
    ensures
        match r {
            Some(i) => i == spec_validator_index(vs@, k@) && i < vs@.len() && vs@[i as int].pubkey@
                == k@,
            None => spec_validator_index(vs@, k@) == -1,
        },
{
    let mut i: usize = 0;
    while i < vs.len()
        invariant
            0 <= i <= vs@.len(),
            forall|j: int| 0 <= j < i ==> vs@[j].pubkey@ != k@,
            spec_validator_index(vs@, k@) >= i || spec_validator_index(vs@, k@) == -1,
        decreases vs@.len() - i,
    {
        proof {
            lemma_validator_index_in_range(vs@, k@);
            lemma_validator_index_first(vs@, k@);
        }
        if key_eq(&vs[i].pubkey, k) {
            proof {
                let idx = spec_validator_index(vs@, k@);
                if idx == -1 {
                    lemma_validator_index_none(vs@, k@);
                }
                assert(idx == i);
            }
            return Some(i);
        }
        proof {
            lemma_validator_index_first(vs@, k@);
            let idx = spec_validator_index(vs@, k@);
            if idx == i {
                lemma_validator_index_in_range(vs@, k@);
            }
        }
        i = i + 1;
    }
    proof {
        let idx = spec_validator_index(vs@, k@);
        if idx >= 0 {
            lemma_validator_index_in_range(vs@, k@);
        }
    }
    None
}

/// Count the slate entries carrying the given decision.
pub fn count_with_status(vs: &Vec<Validator>, st: ValidationStatus) -> (r: usize)
    ensures
        r == spec_count_with_status(vs@, st),
{
    let mut count: usize = 0;
    let mut i: usize = 0;
    proof {
        lemma_count_with_status_bound(vs@.subrange(0, 0), st);
    }
    while i < vs.len()
        invariant
            0 <= i <= vs@.len(),
            count == spec_count_with_status(vs@.subrange(0, i as int), st),
            count <= i,
        decreases vs@.len() - i,
    {
        if vs[i].status == st {
            count = count + 1;
        }
        i = i + 1;
        proof {
            let sub = vs@.subrange(0, i as int);
            assert(sub.drop_last() =~= vs@.subrange(0, i as int - 1));
            assert(sub.last() == vs@[i as int - 1]);
        }
    }
    proof {
        assert(vs@.subrange(0, vs@.len() as int) =~= vs@);
    }
    count
}

pub proof fn lemma_count_with_status_bound(vs: Seq<Validator>, st: ValidationStatus)
    ensures
        0 <= spec_count_with_status(vs, st) <= vs.len(),
    decreases vs.len(),
{
    if vs.len() > 0 {
        lemma_count_with_status_bound(vs.drop_last(), st);
    }
}

} // verus!
