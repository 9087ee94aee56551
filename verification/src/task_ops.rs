//! The task state machine: assign, claim, submit a result, certify.
//!
//! Certification converges on one apply-vote operation with an approve
//! and a reject path.  Approval reaching the quorum extends the task's
//! and the session's audit chains, promotes the pending references to
//! certified ones, releases the cost lock, and pays the compute node;
//! rejection reaching the quorum releases the lock and discards the
//! pending references.  Below the quorum a vote only records itself.

use vstd::bytes::{spec_u64_from_le_bytes, spec_u64_to_le_bytes};
use vstd::prelude::*;

use crate::ed25519::{
    parse_task_validation_message, spec_task_validation_message_ok, spec_verify_tee_result,
    verify_tee_signature, RawInstruction,
};
use crate::errors::ErrorCode;
use crate::hashing::{push_bytes, push_u64_le, sha256, sha256_of};
use crate::keys::{key_eq, spec_opt_key_is, Key};
use crate::network_config::{NetworkConfig, NODE_POOL_CAPACITY};
use crate::node_info::{NodeInfo, NodeStatus, NodeType};
use crate::node_ops::MAX_CID_LEN;
use crate::session::{spec_vault_covers, Session, SessionStatus, Vault};
use crate::task::{
    count_with_status, find_validator, lemma_count_with_status_bound, spec_count_with_status,
    spec_validator_index, Task, TaskStatus, ValidationStatus, Validator,
};

verus! {

/// The bytes of an optional reference: its contents, or nothing.
pub open spec fn spec_opt_bytes(o: Option<Vec<u8>>) -> Seq<u8> {
    match o {
        Some(v) => v@,
        None => Seq::<u8>::empty(),
    }
}

/// The task audit chain extended by the iteration being certified:
/// the digest of the prior link, the last certified input and output
/// references, and the iteration counter.
pub open spec fn spec_next_task_chain(t: Task) -> Seq<u8> {
    sha256_of(
        t.chain_proof@ + spec_opt_bytes(t.input_cid) + spec_opt_bytes(t.output_cid)
            + spec_u64_to_le_bytes(t.task_index),
    )
}

/// The session audit chain extended by a certified task outcome: the
/// digest of the prior link, the task's new chain digest, the task
/// slot, and the session iteration being certified.
pub open spec fn spec_next_session_chain(s: Session, task_chain: Seq<u8>, task_slot_id: u64) -> Seq<
    u8,
> {
    sha256_of(
        s.chain_proof@ + task_chain + spec_u64_to_le_bytes(task_slot_id) + spec_u64_to_le_bytes(
            s.current_iteration,
        ),
    )
}

/// The proof a validator must sign: the digest of the pending input
/// and output references, concatenated.
pub open spec fn spec_validation_proof(t: Task) -> Seq<u8> {
    sha256_of(spec_opt_bytes(t.pending_input_cid) + spec_opt_bytes(t.pending_output_cid))
}

/// Extend the task audit chain by the iteration being certified.
pub fn compute_next_task_chain(task: &Task) -> (r: [u8; 32])
    ensures
        r@ == spec_next_task_chain(*task),
{
    let mut preimage: Vec<u8> = Vec::new();
    push_bytes(&mut preimage, vstd::array::array_as_slice(&task.chain_proof));
    match &task.input_cid {
        Some(v) => push_bytes(&mut preimage, v.as_slice()),
        None => (),
    }
    match &task.output_cid {
        Some(v) => push_bytes(&mut preimage, v.as_slice()),
        None => (),
    }
    push_u64_le(&mut preimage, task.task_index);
    proof {
        assert(preimage@ =~= task.chain_proof@ + spec_opt_bytes(task.input_cid) + spec_opt_bytes(
            task.output_cid,
        ) + spec_u64_to_le_bytes(task.task_index));
    }
    sha256(preimage.as_slice())
}

/// Extend the session audit chain by a certified task outcome.
pub fn compute_next_session_chain(session: &Session, task_chain: &[u8; 32], task_slot_id: u64) -> (
    r: [u8; 32])
    ensures
        r@ == spec_next_session_chain(*session, task_chain@, task_slot_id),
{
    let mut preimage: Vec<u8> = Vec::new();
    push_bytes(&mut preimage, vstd::array::array_as_slice(&session.chain_proof));
    push_bytes(&mut preimage, vstd::array::array_as_slice(task_chain));
    push_u64_le(&mut preimage, task_slot_id);
    push_u64_le(&mut preimage, session.current_iteration);
    proof {
        assert(preimage@ =~= session.chain_proof@ + task_chain@ + spec_u64_to_le_bytes(
            task_slot_id,
        ) + spec_u64_to_le_bytes(session.current_iteration));
    }
    sha256(preimage.as_slice())
}

/// Why the validation proof is refused, if it is: both pending
/// references must be present, and the proof must be their digest.
pub open spec fn spec_verify_validation_proof_result(t: Task, proof: Seq<u8>) -> Result<
    (),
    ErrorCode,
> {
    if t.pending_input_cid is None {
        Err(ErrorCode::InvalidPDAAccount)
    } else if t.pending_output_cid is None {
        Err(ErrorCode::InvalidPDAAccount)
    } else if proof != spec_validation_proof(t) {
        Err(ErrorCode::InvalidTeeSignature)
    } else {
        Ok(())
    }
}

/// Check a signed validation proof against the digest of the task's
/// pending input and output references.
pub fn verify_validation_proof(task: &Task, validation_proof: &[u8; 32]) -> (r: Result<
    (),
    ErrorCode,
>)
    ensures
        r == spec_verify_validation_proof_result(*task, validation_proof@),
{
    if task.pending_input_cid.is_none() {
        return Err(ErrorCode::InvalidPDAAccount);
    }
    if task.pending_output_cid.is_none() {
        return Err(ErrorCode::InvalidPDAAccount);
    }
    let mut preimage: Vec<u8> = Vec::new();
    match &task.pending_input_cid {
        Some(v) => push_bytes(&mut preimage, v.as_slice()),
        None => (),
    }
    match &task.pending_output_cid {
        Some(v) => push_bytes(&mut preimage, v.as_slice()),
        None => (),
    }
    proof {
        assert(preimage@ =~= spec_opt_bytes(task.pending_input_cid) + spec_opt_bytes(
            task.pending_output_cid,
        ));
    }
    let expected = sha256(preimage.as_slice());
    if !key_eq(validation_proof, &expected) {
        return Err(ErrorCode::InvalidTeeSignature);
    }
    Ok(())
}

/// Why assigning a task to its session is refused, if it is.
pub open spec fn spec_submit_task_result_check(
    session: Session,
    task: Task,
    caller: Seq<u8>,
    cid_len: int,
) -> Result<(), ErrorCode> {
    if session.owner@ != caller {
        Err(ErrorCode::InvalidSessionOwner)
    } else if task.status != TaskStatus::Ready {
        Err(ErrorCode::InvalidTaskStatus)
    } else if session.status != SessionStatus::Active {
        Err(ErrorCode::InvalidSessionStatus)
    } else if task.session_slot_id != Some(session.session_slot_id) {
        Err(ErrorCode::InvalidSession)
    } else if cid_len > MAX_CID_LEN {
        Err(ErrorCode::InvalidCID)
    } else {
        Ok(())
    }
}

/// The session owner hands the task its next input and queues it for a
/// claim: the task moves from `Ready` to `Pending`.
pub fn submit_task(task: &mut Task, session: &Session, caller: &Key, input_cid: Vec<u8>) -> (r:
    Result<(), ErrorCode>)
    ensures
        r == spec_submit_task_result_check(*session, *old(task), caller@, input_cid@.len() as int),
        r is Ok ==> *final(task) == (Task {
            pending_input_cid: Some(input_cid),
            status: TaskStatus::Pending,
            ..*old(task)
        }),
        r is Err ==> *final(task) == *old(task),
{
    if !key_eq(&session.owner, caller) {
        return Err(ErrorCode::InvalidSessionOwner);
    }
    if task.status != TaskStatus::Ready {
        return Err(ErrorCode::InvalidTaskStatus);
    }
    if session.status != SessionStatus::Active {
        return Err(ErrorCode::InvalidSessionStatus);
    }
    let linked = match task.session_slot_id {
        Some(slot) => slot == session.session_slot_id,
        None => false,
    };
    if !linked {
        return Err(ErrorCode::InvalidSession);
    }
    if input_cid.len() > MAX_CID_LEN {
        return Err(ErrorCode::InvalidCID);
    }
    task.pending_input_cid = Some(input_cid);
    task.status = TaskStatus::Pending;
    Ok(())
}

/// The validators eligible for a task's slate: the approved pool of
/// the session's confidentiality class, without the claiming node.
pub open spec fn spec_eligible(pool: Seq<Key>, claimant: Seq<u8>) -> Seq<Key>
    decreases pool.len(),
{
    if pool.len() == 0 {
        Seq::<Key>::empty()
    } else {
        let rest = spec_eligible(pool.drop_last(), claimant);
        if pool.last()@ != claimant {
            rest.push(pool.last())
        } else {
            rest
        }
    }
}

pub proof fn lemma_eligible_len(pool: Seq<Key>, claimant: Seq<u8>)
    ensures
        spec_eligible(pool, claimant).len() <= pool.len(),
    decreases pool.len(),
{
    if pool.len() > 0 {
        lemma_eligible_len(pool.drop_last(), claimant);
    }
}

/// The pool a session draws validators from.
pub open spec fn spec_claim_pool(config: NetworkConfig, session: Session) -> Seq<Key> {
    if session.is_confidential {
        config.approved_confidential_nodes@
    } else {
        config.approved_public_nodes@
    }
}

/// Where in the eligible list the slate starts: the block slot value,
/// reduced modulo the list's length.
pub open spec fn spec_slate_start(current_slot: u64, candidate_count: int) -> int {
    if candidate_count > 0 {
        (current_slot as int) % candidate_count
    } else {
        0
    }
}

/// List the eligible validators: the pool without the claimant.
fn eligible_candidates(pool: &Vec<Key>, claimant: &Key) -> (r: Vec<Key>)
    ensures
        r@ == spec_eligible(pool@, claimant@),
{
    let mut candidates: Vec<Key> = Vec::new();
    let mut i: usize = 0;
    while i < pool.len()
        invariant
            0 <= i <= pool@.len(),
            candidates@ == spec_eligible(pool@.subrange(0, i as int), claimant@),
        decreases pool@.len() - i,
    {
        if !key_eq(&pool[i], claimant) {
            candidates.push(pool[i]);
        }
        i = i + 1;
        proof {
            let sub = pool@.subrange(0, i as int);
            assert(sub.drop_last() =~= pool@.subrange(0, i as int - 1));
            assert(sub.last() == pool@[i as int - 1]);
        }
    }
    proof {
        assert(pool@.subrange(0, pool@.len() as int) =~= pool@);
    }
    candidates
}

/// Draw a fresh slate of pending validators, cycling through the
/// candidates from the starting position.
fn draw_validator_slate(candidates: &Vec<Key>, required: usize, start: usize) -> (r: Vec<
    Validator,
>)
    requires
        required > 0 ==> candidates@.len() > 0,
        candidates@.len() > 0 ==> start < candidates@.len(),
        start + required <= usize::MAX,
    ensures
        r@.len() == required,
        forall|i: int|
            0 <= i < required ==> (#[trigger] r@[i]).pubkey == candidates@[(start + i) % (
            candidates@.len() as int)] && r@[i].status == ValidationStatus::Pending,
{
    let mut slate: Vec<Validator> = Vec::new();
    let mut i: usize = 0;
    while i < required
        invariant
            0 <= i <= required,
            required > 0 ==> candidates@.len() > 0,
            candidates@.len() > 0 ==> start < candidates@.len(),
            start + required <= usize::MAX,
            slate@.len() == i,
            forall|j: int|
                0 <= j < i ==> (#[trigger] slate@[j]).pubkey == candidates@[(start + j) % (
                candidates@.len() as int)] && slate@[j].status == ValidationStatus::Pending,
        decreases required - i,
    {
        let idx = (start + i) % candidates.len();
        slate.push(Validator { pubkey: candidates[idx], status: ValidationStatus::Pending });
        i = i + 1;
    }
    slate
}

/// Why a claim is refused, if it is.
pub open spec fn spec_claim_task_result(
    config: NetworkConfig,
    session: Session,
    task: Task,
    vault: Vault,
    caller: Seq<u8>,
    max_task_cost: u64,
) -> Result<(), ErrorCode> {
    if task.status != TaskStatus::Pending {
        Err(ErrorCode::InvalidTaskStatus)
    } else if session.status != SessionStatus::Active {
        Err(ErrorCode::InvalidSessionStatus)
    } else if task.session_slot_id != Some(session.session_slot_id) {
        Err(ErrorCode::InvalidSession)
    } else if !spec_opt_key_is(task.compute_node, caller) {
        Err(ErrorCode::InvalidComputeNodePubkey)
    } else if session.total_shares == 0 {
        Err(ErrorCode::Overflow)
    } else if spec_eligible(spec_claim_pool(config, session), caller).len()
        < config.required_validations {
        Err(ErrorCode::NotEnoughValidators)
    } else if vault.balance < session.locked_for_tasks {
        Err(ErrorCode::Underflow)
    } else if vault.balance - session.locked_for_tasks < vault.reserved_minimum {
        Err(ErrorCode::Underflow)
    } else if vault.balance - session.locked_for_tasks - vault.reserved_minimum < max_task_cost {
        Err(ErrorCode::InsufficientBalance)
    } else if session.locked_for_tasks + max_task_cost > u64::MAX {
        Err(ErrorCode::Overflow)
    } else if task.task_index == u64::MAX {
        Err(ErrorCode::Overflow)
    } else {
        Ok(())
    }
}

/// The assigned compute node claims a `Pending` task of an active
/// session.  The requested cost ceiling must fit in the escrow beyond
/// what is already locked and reserved; on success it is locked, a
/// fresh validator slate is drawn — seeded by the block slot, cycling
/// through the approved pool without the claimant — and the task moves
/// to `Processing` with its iteration counter advanced.
pub fn claim_task(
    config: &NetworkConfig,
    session: &mut Session,
    task: &mut Task,
    vault: &Vault,
    caller: &Key,
    max_task_cost: u64,
    max_call_count: u64,
    current_slot: u64,
) -> (r: Result<(), ErrorCode>)
    requires
        config.approved_confidential_nodes@.len() <= NODE_POOL_CAPACITY,
        config.approved_public_nodes@.len() <= NODE_POOL_CAPACITY,
    ensures
        r == spec_claim_task_result(
            *config,
            *old(session),
            *old(task),
            *vault,
            caller@,
            max_task_cost,
        ),
        r is Ok ==> *final(session) == (Session {
            locked_for_tasks: (old(session).locked_for_tasks + max_task_cost) as u64,
            ..*old(session)
        }),
        r is Ok ==> *final(task) == (Task {
            max_task_cost,
            max_call_count,
            status: TaskStatus::Processing,
            task_index: (old(task).task_index + 1) as u64,
            validations: final(task).validations,
            ..*old(task)
        }),
        r is Ok ==> {
            let candidates = spec_eligible(spec_claim_pool(*config, *old(session)), caller@);
            let start = spec_slate_start(current_slot, candidates.len() as int);
            &&& final(task).validations@.len() == config.required_validations
            &&& forall|i: int|
                0 <= i < config.required_validations ==> (#[trigger] final(task).validations@[i]).pubkey
                    == candidates[(start + i) % (candidates.len() as int)]
                    && final(task).validations@[i].status == ValidationStatus::Pending
        },
        r is Ok ==> spec_vault_covers(*vault, *final(session)),
        r is Err ==> *final(session) == *old(session) && *final(task) == *old(task),
{
    if task.status != TaskStatus::Pending {
        return Err(ErrorCode::InvalidTaskStatus);
    }
    if session.status != SessionStatus::Active {
        return Err(ErrorCode::InvalidSessionStatus);
    }
    let linked = match task.session_slot_id {
        Some(slot) => slot == session.session_slot_id,
        None => false,
    };
    if !linked {
        return Err(ErrorCode::InvalidSession);
    }
    let assigned = match &task.compute_node {
        Some(k) => key_eq(k, caller),
        None => false,
    };
    if !assigned {
        return Err(ErrorCode::InvalidComputeNodePubkey);
    }
    if session.total_shares == 0 {
        return Err(ErrorCode::Overflow);
    }
    let pool = if session.is_confidential {
        &config.approved_confidential_nodes
    } else {
        &config.approved_public_nodes
    };
    let candidates = eligible_candidates(pool, caller);
    proof {
        lemma_eligible_len(pool@, caller@);
    }
    let required = config.required_validations as usize;
    if candidates.len() < required {
        return Err(ErrorCode::NotEnoughValidators);
    }
    if vault.balance < session.locked_for_tasks {
        return Err(ErrorCode::Underflow);
    }
    let unlocked = vault.balance - session.locked_for_tasks;
    if unlocked < vault.reserved_minimum {
        return Err(ErrorCode::Underflow);
    }
    if unlocked - vault.reserved_minimum < max_task_cost {
        return Err(ErrorCode::InsufficientBalance);
    }
    if max_task_cost > u64::MAX - session.locked_for_tasks {
        return Err(ErrorCode::Overflow);
    }
    if task.task_index == u64::MAX {
        return Err(ErrorCode::Overflow);
    }
    let start: usize = if candidates.len() > 0 {
        (current_slot % (candidates.len() as u64)) as usize
    } else {
        0
    };
    task.validations = draw_validator_slate(&candidates, required, start);
    session.locked_for_tasks = session.locked_for_tasks + max_task_cost;
    task.max_task_cost = max_task_cost;
    task.max_call_count = max_call_count;
    task.status = TaskStatus::Processing;
    task.task_index = task.task_index + 1;
    Ok(())
}

/// Why recording a result is refused, if it is.
pub open spec fn spec_submit_result_check(
    session: Session,
    task: Task,
    caller: Seq<u8>,
    input_len: int,
    output_len: int,
    state_len: int,
) -> Result<(), ErrorCode> {
    if task.status != TaskStatus::Processing {
        Err(ErrorCode::InvalidTaskStatus)
    } else if !spec_opt_key_is(task.compute_node, caller) {
        Err(ErrorCode::InvalidComputeNodePubkey)
    } else if task.session_slot_id != Some(session.session_slot_id) {
        Err(ErrorCode::InvalidSession)
    } else if input_len > MAX_CID_LEN || output_len > MAX_CID_LEN || state_len > MAX_CID_LEN {
        Err(ErrorCode::InvalidCID)
    } else {
        Ok(())
    }
}

/// The assigned node records its result while the task is
/// `Processing`: the input and output references are held as pending —
/// uncertified — the session's state reference and the task's call
/// counter are updated, and the task moves to `AwaitingValidation`.
pub fn submit_task_result(
    session: &mut Session,
    task: &mut Task,
    caller: &Key,
    input_cid: Vec<u8>,
    output_cid: Vec<u8>,
    state_cid: Option<Vec<u8>>,
    call_count: u64,
) -> (r: Result<(), ErrorCode>)
    ensures
        r == spec_submit_result_check(
            *old(session),
            *old(task),
            caller@,
            input_cid@.len() as int,
            output_cid@.len() as int,
            (match state_cid {
                Some(ref v) => v@.len() as int,
                None => 0,
            }),
        ),
        r is Ok ==> *final(task) == (Task {
            pending_input_cid: Some(input_cid),
            pending_output_cid: Some(output_cid),
            call_count,
            status: TaskStatus::AwaitingValidation,
            ..*old(task)
        }),
        r is Ok ==> *final(session) == (Session { state_cid, ..*old(session) }),
        r is Err ==> *final(task) == *old(task) && *final(session) == *old(session),
{
    if task.status != TaskStatus::Processing {
        return Err(ErrorCode::InvalidTaskStatus);
    }
    let assigned = match &task.compute_node {
        Some(k) => key_eq(k, caller),
        None => false,
    };
    if !assigned {
        return Err(ErrorCode::InvalidComputeNodePubkey);
    }
    let linked = match task.session_slot_id {
        Some(slot) => slot == session.session_slot_id,
        None => false,
    };
    if !linked {
        return Err(ErrorCode::InvalidSession);
    }
    let state_too_long = match &state_cid {
        Some(v) => v.len() > MAX_CID_LEN,
        None => false,
    };
    if input_cid.len() > MAX_CID_LEN || output_cid.len() > MAX_CID_LEN || state_too_long {
        return Err(ErrorCode::InvalidCID);
    }
    task.pending_input_cid = Some(input_cid);
    task.pending_output_cid = Some(output_cid);
    task.call_count = call_count;
    task.status = TaskStatus::AwaitingValidation;
    session.state_cid = state_cid;
    Ok(())
}

/// True when this approval closes the session: the completion flag was
/// set, or the iteration cap (nonzero means bounded) is reached.
pub open spec fn spec_session_completes(s: Session, session_completed: bool) -> bool {
    session_completed || (s.max_iterations != 0 && s.current_iteration + 1 >= s.max_iterations)
}

/// True when the only change between the two task records is one slate
/// entry's decision.
pub open spec fn spec_marked_only(ot: Task, nt: Task, idx: int, st: ValidationStatus) -> bool {
    &&& nt == (Task { validations: nt.validations, ..ot })
    &&& 0 <= idx < ot.validations@.len()
    &&& nt.validations@ == ot.validations@.update(
        idx,
        (Validator { pubkey: ot.validations@[idx].pubkey, status: st }),
    )
}

/// Why releasing funds on a quorum of approvals is refused, if it is.
/// The payout must leave the escrow covering what remains locked plus
/// the reserved minimum, and every counter must have room.
pub open spec fn spec_release_result(
    session: Session,
    vault: Vault,
    task: Task,
    node_info: NodeInfo,
    node_treasury: u64,
    payment_amount: u64,
) -> Result<(), ErrorCode> {
    if session.locked_for_tasks < task.max_task_cost {
        Err(ErrorCode::Underflow)
    } else if vault.balance < payment_amount {
        Err(ErrorCode::InsufficientBalance)
    } else if vault.balance - payment_amount < (session.locked_for_tasks - task.max_task_cost)
        + vault.reserved_minimum {
        Err(ErrorCode::InsufficientBalance)
    } else if node_treasury + payment_amount > u64::MAX {
        Err(ErrorCode::Overflow)
    } else if node_info.total_earned + payment_amount > u64::MAX {
        Err(ErrorCode::Overflow)
    } else if node_info.total_tasks_completed == u64::MAX {
        Err(ErrorCode::Overflow)
    } else if session.current_iteration == u64::MAX {
        Err(ErrorCode::Overflow)
    } else {
        Ok(())
    }
}

/// What a quorum of approvals does: both audit chains extended, the
/// pending references certified, the lock released, the payment moved
/// from escrow to treasury, the node's earnings counted, the iteration
/// advanced, the slate cleared, and the session closed when it is done.
pub open spec fn spec_release_effects(
    os: Session,
    ns: Session,
    ov: Vault,
    nv: Vault,
    ot: Task,
    nt: Task,
    onode: NodeInfo,
    nnode: NodeInfo,
    otr: u64,
    ntr: u64,
    payment_amount: u64,
    session_completed: bool,
) -> bool {
    let completed = spec_session_completes(os, session_completed);
    let task_chain = spec_next_task_chain(ot);
    &&& nt.chain_proof@ == task_chain
    &&& nt.input_cid == ot.pending_input_cid
    &&& nt.output_cid == ot.pending_output_cid
    &&& nt.pending_input_cid is None
    &&& nt.pending_output_cid is None
    &&& nt.status == (if completed {
        TaskStatus::Ready
    } else {
        TaskStatus::Pending
    })
    &&& nt.validations@.len() == 0
    &&& nt == (Task {
        chain_proof: nt.chain_proof,
        input_cid: nt.input_cid,
        output_cid: nt.output_cid,
        pending_input_cid: nt.pending_input_cid,
        pending_output_cid: nt.pending_output_cid,
        status: nt.status,
        validations: nt.validations,
        ..ot
    })
    &&& ns.locked_for_tasks == os.locked_for_tasks - ot.max_task_cost
    &&& ns.current_iteration == os.current_iteration + 1
    &&& ns.status == (if completed {
        SessionStatus::Completed
    } else {
        os.status
    })
    &&& ns.chain_proof@ == spec_next_session_chain(os, task_chain, ot.task_slot_id)
    &&& ns == (Session {
        locked_for_tasks: ns.locked_for_tasks,
        current_iteration: ns.current_iteration,
        status: ns.status,
        chain_proof: ns.chain_proof,
        ..os
    })
    &&& nv == (Vault { balance: (ov.balance - payment_amount) as u64, ..ov })
    &&& ntr == otr + payment_amount
    &&& nnode == (NodeInfo {
        total_earned: (onode.total_earned + payment_amount) as u64,
        total_tasks_completed: (onode.total_tasks_completed + 1) as u64,
        ..onode
    })
}

/// What a quorum of rejections does: the lock released, the pending
/// references discarded, the slate cleared, the task back to `Ready`.
/// No payment, no audit-chain update.
pub open spec fn spec_reject_effects(os: Session, ns: Session, ot: Task, nt: Task) -> bool {
    &&& nt.pending_input_cid is None
    &&& nt.pending_output_cid is None
    &&& nt.status == TaskStatus::Ready
    &&& nt.validations@.len() == 0
    &&& nt == (Task {
        pending_input_cid: nt.pending_input_cid,
        pending_output_cid: nt.pending_output_cid,
        status: nt.status,
        validations: nt.validations,
        ..ot
    })
    &&& ns == (Session { locked_for_tasks: (os.locked_for_tasks - ot.max_task_cost) as u64, ..os })
}

/// Record one slate entry's decision.
fn mark_validator(vs: &mut Vec<Validator>, idx: usize, st: ValidationStatus)
    requires
        idx < old(vs)@.len(),
    ensures
        final(vs)@ == old(vs)@.update(
            idx as int,
            (Validator { pubkey: old(vs)@[idx as int].pubkey, status: st }),
        ),
{
    let pubkey = vs[idx].pubkey;
    let element = vstd::std_specs::vec::vec_index_mut(vs, idx);
    *element = Validator { pubkey, status: st };
}

/// Record one approval; on reaching the quorum, certify the result and
/// release the payment.  Below the quorum nothing but the entry
/// changes; at the quorum the release either happens whole or — when a
/// balance or counter cannot take it — nothing changes at all.
pub fn process_approved_validation(
    config: &NetworkConfig,
    session: &mut Session,
    vault: &mut Vault,
    task: &mut Task,
    node_info: &mut NodeInfo,
    node_treasury: &mut u64,
    validator_index: usize,
    payment_amount: u64,
    session_completed: bool,
) -> (r: Result<(), ErrorCode>)
    requires
        validator_index < old(task).validations@.len(),
        old(task).validations@[validator_index as int].status == ValidationStatus::Pending,
    ensures
        spec_count_with_status(old(task).validations@, ValidationStatus::Approved) + 1
            < config.required_validations ==> r is Ok && spec_marked_only(
            *old(task),
            *final(task),
            validator_index as int,
            ValidationStatus::Approved,
        ) && *final(session) == *old(session) && *final(vault) == *old(vault) && *final(node_info)
            == *old(node_info) && *final(node_treasury) == *old(node_treasury),
        spec_count_with_status(old(task).validations@, ValidationStatus::Approved) + 1
            >= config.required_validations ==> (match spec_release_result(
            *old(session),
            *old(vault),
            *old(task),
            *old(node_info),
            *old(node_treasury),
            payment_amount,
        ) {
            Err(e) => r == Err::<(), ErrorCode>(e) && *final(session) == *old(session) && *final(vault) == *old(vault) && *final(task) == *old(task) && *final(node_info) == *old(node_info)
                && *final(node_treasury) == *old(node_treasury),
            Ok(()) => r is Ok && spec_release_effects(
                *old(session),
                *final(session),
                *old(vault),
                *final(vault),
                *old(task),
                *final(task),
                *old(node_info),
                *final(node_info),
                *old(node_treasury),
                *final(node_treasury),
                payment_amount,
                session_completed,
            ),
        }),
        r is Ok && spec_vault_covers(*old(vault), *old(session)) ==> spec_vault_covers(
            *final(vault),
            *final(session),
        ),
{
    let approved_before = count_with_status(&task.validations, ValidationStatus::Approved);
    proof {
        lemma_count_with_status_bound(task.validations@, ValidationStatus::Approved);
    }
    let required = config.required_validations as usize;
    let threshold_reached = if required == 0 {
        true
    } else {
        approved_before >= required - 1
    };
    if !threshold_reached {
        mark_validator(&mut task.validations, validator_index, ValidationStatus::Approved);
        return Ok(());
    }
    // The quorum is reached: check everything, then change everything.
    if session.locked_for_tasks < task.max_task_cost {
        return Err(ErrorCode::Underflow);
    }
    if vault.balance < payment_amount {
        return Err(ErrorCode::InsufficientBalance);
    }
    let released_lock = session.locked_for_tasks - task.max_task_cost;
    if vault.balance - payment_amount < released_lock || (vault.balance - payment_amount)
        - released_lock < vault.reserved_minimum {
        return Err(ErrorCode::InsufficientBalance);
    }
    if payment_amount > u64::MAX - *node_treasury {
        return Err(ErrorCode::Overflow);
    }
    if payment_amount > u64::MAX - node_info.total_earned {
        return Err(ErrorCode::Overflow);
    }
    if node_info.total_tasks_completed == u64::MAX {
        return Err(ErrorCode::Overflow);
    }
    if session.current_iteration == u64::MAX {
        return Err(ErrorCode::Overflow);
    }
    let task_chain = compute_next_task_chain(task);
    let session_chain = compute_next_session_chain(session, &task_chain, task.task_slot_id);
    let completed = session_completed || (session.max_iterations != 0 && session.current_iteration
        + 1 >= session.max_iterations);
    task.chain_proof = task_chain;
    task.input_cid = task.pending_input_cid.take();
    task.output_cid = task.pending_output_cid.take();
    task.status = if completed {
        TaskStatus::Ready
    } else {
        TaskStatus::Pending
    };
    task.validations.clear();
    session.locked_for_tasks = released_lock;
    session.current_iteration = session.current_iteration + 1;
    if completed {
        session.status = SessionStatus::Completed;
    }
    session.chain_proof = session_chain;
    vault.balance = vault.balance - payment_amount;
    *node_treasury = *node_treasury + payment_amount;
    node_info.total_earned = node_info.total_earned + payment_amount;
    node_info.total_tasks_completed = node_info.total_tasks_completed + 1;
    Ok(())
}

/// Record one rejection; on reaching the quorum, roll the iteration
/// back: release the lock, discard the pending references, return the
/// task to `Ready`.  Below the quorum nothing but the entry changes.
pub fn process_rejected_validation(
    config: &NetworkConfig,
    session: &mut Session,
    task: &mut Task,
    validator_index: usize,
) -> (r: Result<(), ErrorCode>)
    requires
        validator_index < old(task).validations@.len(),
        old(task).validations@[validator_index as int].status == ValidationStatus::Pending,
    ensures
        spec_count_with_status(old(task).validations@, ValidationStatus::Rejected) + 1
            < config.required_validations ==> r is Ok && spec_marked_only(
            *old(task),
            *final(task),
            validator_index as int,
            ValidationStatus::Rejected,
        ) && *final(session) == *old(session),
        spec_count_with_status(old(task).validations@, ValidationStatus::Rejected) + 1
            >= config.required_validations ==> (if old(session).locked_for_tasks < old(task).max_task_cost {
            r == Err::<(), ErrorCode>(ErrorCode::Underflow) && *final(session) == *old(session)
                && *final(task) == *old(task)
        } else {
            r is Ok && spec_reject_effects(*old(session), *final(session), *old(task), *final(task))
        }),
        r is Ok ==> final(session).locked_for_tasks <= old(session).locked_for_tasks,
{
    let approved_before = count_with_status(&task.validations, ValidationStatus::Rejected);
    proof {
        lemma_count_with_status_bound(task.validations@, ValidationStatus::Rejected);
    }
    let required = config.required_validations as usize;
    let threshold_reached = if required == 0 {
        true
    } else {
        approved_before >= required - 1
    };
    if !threshold_reached {
        mark_validator(&mut task.validations, validator_index, ValidationStatus::Rejected);
        return Ok(());
    }
    if session.locked_for_tasks < task.max_task_cost {
        return Err(ErrorCode::Underflow);
    }
    session.locked_for_tasks = session.locked_for_tasks - task.max_task_cost;
    task.pending_input_cid = None;
    task.pending_output_cid = None;
    task.status = TaskStatus::Ready;
    task.validations.clear();
    Ok(())
}

/// Why a certification call is refused before either path is even
/// considered, if it is: the caller must be the validator record's own
/// identity, both nodes must be active, the session active, the task
/// awaiting validation and assigned to the named compute node.
pub open spec fn spec_common_requirements_result(
    session: Session,
    task: Task,
    node_info: NodeInfo,
    validator: NodeInfo,
    caller: Seq<u8>,
) -> Result<(), ErrorCode> {
    if validator.node_pubkey@ != caller {
        Err(ErrorCode::InvalidPDAAccount)
    } else if validator.status != NodeStatus::Active {
        Err(ErrorCode::InvalidNodeStatus)
    } else if node_info.status != NodeStatus::Active {
        Err(ErrorCode::InvalidNodeStatus)
    } else if session.status != SessionStatus::Active {
        Err(ErrorCode::InvalidSessionStatus)
    } else if task.status != TaskStatus::AwaitingValidation {
        Err(ErrorCode::InvalidTaskStatus)
    } else if !spec_opt_key_is(task.compute_node, node_info.node_pubkey@) {
        Err(ErrorCode::InvalidComputeNodePubkey)
    } else if task.session_slot_id != Some(session.session_slot_id) {
        Err(ErrorCode::InvalidSession)
    } else {
        Ok(())
    }
}

/// Check what both certification paths require.
pub fn validate_common_requirements(
    session: &Session,
    task: &Task,
    node_info: &NodeInfo,
    validator: &NodeInfo,
    caller: &Key,
) -> (r: Result<(), ErrorCode>)
    ensures
        r == spec_common_requirements_result(*session, *task, *node_info, *validator, caller@),
{
    if !key_eq(&validator.node_pubkey, caller) {
        return Err(ErrorCode::InvalidPDAAccount);
    }
    if validator.status != NodeStatus::Active {
        return Err(ErrorCode::InvalidNodeStatus);
    }
    if node_info.status != NodeStatus::Active {
        return Err(ErrorCode::InvalidNodeStatus);
    }
    if session.status != SessionStatus::Active {
        return Err(ErrorCode::InvalidSessionStatus);
    }
    if task.status != TaskStatus::AwaitingValidation {
        return Err(ErrorCode::InvalidTaskStatus);
    }
    let assigned = match &task.compute_node {
        Some(k) => key_eq(k, &node_info.node_pubkey),
        None => false,
    };
    if !assigned {
        return Err(ErrorCode::InvalidComputeNodePubkey);
    }
    let linked = match task.session_slot_id {
        Some(slot) => slot == session.session_slot_id,
        None => false,
    };
    if !linked {
        return Err(ErrorCode::InvalidSession);
    }
    Ok(())
}

/// Which slate entry a committee vote lands on, or why it is refused.
pub open spec fn spec_public_validation_index(
    session: Session,
    task: Task,
    node_info: NodeInfo,
    validator: NodeInfo,
    caller: Seq<u8>,
) -> Result<int, ErrorCode> {
    match spec_common_requirements_result(session, task, node_info, validator, caller) {
        Err(e) => Err(e),
        Ok(()) => if session.is_confidential {
            Err(ErrorCode::InvalidSessionStatus)
        } else {
            let idx = spec_validator_index(task.validations@, caller);
            if idx < 0 {
                Err(ErrorCode::ValidatorNotAssigned)
            } else if task.validations@[idx].status != ValidationStatus::Pending {
                Err(ErrorCode::DuplicateValidation)
            } else {
                Ok(idx)
            }
        },
    }
}

/// The committee certification path: an assigned validator of a public
/// session records its decision directly, with the payment amount
/// declared in the call.  A validator not on the slate, or one that
/// has already voted, is refused.  The vote is then applied: below the
/// quorum it only records itself; at the quorum it releases or rolls
/// back the iteration whole.
pub fn submit_public_task_validation(
    config: &NetworkConfig,
    session: &mut Session,
    vault: &mut Vault,
    task: &mut Task,
    node_info: &mut NodeInfo,
    node_treasury: &mut u64,
    validator_node_info: &NodeInfo,
    caller: &Key,
    payment_amount: u64,
    approved: bool,
    goal_completed: bool,
) -> (r: Result<(), ErrorCode>)
    ensures
        (match spec_public_validation_index(
            *old(session),
            *old(task),
            *old(node_info),
            *validator_node_info,
            caller@,
        ) {
            Err(e) => r == Err::<(), ErrorCode>(e) && *final(session) == *old(session) && *final(vault) == *old(vault) && *final(task) == *old(task) && *final(node_info) == *old(node_info)
                && *final(node_treasury) == *old(node_treasury),
            Ok(idx) => if approved {
                &&& (spec_count_with_status(old(task).validations@, ValidationStatus::Approved) + 1
                    < config.required_validations ==> r is Ok && spec_marked_only(
                    *old(task),
                    *final(task),
                    idx,
                    ValidationStatus::Approved,
                ) && *final(session) == *old(session) && *final(vault) == *old(vault) && *final(node_info) == *old(node_info) && *final(node_treasury) == *old(node_treasury))
                &&& (spec_count_with_status(old(task).validations@, ValidationStatus::Approved) + 1
                    >= config.required_validations ==> (match spec_release_result(
                    *old(session),
                    *old(vault),
                    *old(task),
                    *old(node_info),
                    *old(node_treasury),
                    payment_amount,
                ) {
                    Err(e) => r == Err::<(), ErrorCode>(e) && *final(session) == *old(session)
                        && *final(vault) == *old(vault) && *final(task) == *old(task) && *final(node_info) == *old(node_info) && *final(node_treasury) == *old(node_treasury),
                    Ok(()) => r is Ok && spec_release_effects(
                        *old(session),
                        *final(session),
                        *old(vault),
                        *final(vault),
                        *old(task),
                        *final(task),
                        *old(node_info),
                        *final(node_info),
                        *old(node_treasury),
                        *final(node_treasury),
                        payment_amount,
                        goal_completed,
                    ),
                }))
            } else {
                &&& *final(vault) == *old(vault)
                &&& *final(node_info) == *old(node_info)
                &&& *final(node_treasury) == *old(node_treasury)
                &&& (spec_count_with_status(old(task).validations@, ValidationStatus::Rejected) + 1
                    < config.required_validations ==> r is Ok && spec_marked_only(
                    *old(task),
                    *final(task),
                    idx,
                    ValidationStatus::Rejected,
                ) && *final(session) == *old(session))
                &&& (spec_count_with_status(old(task).validations@, ValidationStatus::Rejected) + 1
                    >= config.required_validations ==> (if old(session).locked_for_tasks < old(task).max_task_cost {
                    r == Err::<(), ErrorCode>(ErrorCode::Underflow) && *final(session) == *old(session) && *final(task) == *old(task)
                } else {
                    r is Ok && spec_reject_effects(
                        *old(session),
                        *final(session),
                        *old(task),
                        *final(task),
                    )
                }))
            },
        }),
        r is Ok && spec_vault_covers(*old(vault), *old(session)) ==> spec_vault_covers(
            *final(vault),
            *final(session),
        ),
{
    if let Err(e) = validate_common_requirements(
        session,
        task,
        node_info,
        validator_node_info,
        caller,
    ) {
        return Err(e);
    }
    if session.is_confidential {
        return Err(ErrorCode::InvalidSessionStatus);
    }
    let idx = match find_validator(&task.validations, caller) {
        None => {
            return Err(ErrorCode::ValidatorNotAssigned);
        },
        Some(i) => i,
    };
    if task.validations[idx].status != ValidationStatus::Pending {
        return Err(ErrorCode::DuplicateValidation);
    }
    if approved {
        process_approved_validation(
            config,
            session,
            vault,
            task,
            node_info,
            node_treasury,
            idx,
            payment_amount,
            goal_completed,
        )
    } else {
        process_rejected_validation(config, session, task, idx)
    }
}

/// What an attested certification call decides, or why it is refused:
/// on success, the slate entry it lands on and the payment, decision
/// and completion flag carried by the signed message.
pub open spec fn spec_confidential_validation_check(
    session: Session,
    task: Task,
    node_info: NodeInfo,
    validator: NodeInfo,
    caller: Seq<u8>,
    instructions: Seq<RawInstruction>,
    current_index: int,
) -> Result<(int, u64, bool, bool), ErrorCode> {
    match spec_common_requirements_result(session, task, node_info, validator, caller) {
        Err(e) => Err(e),
        Ok(()) => if !session.is_confidential {
            Err(ErrorCode::InvalidSessionStatus)
        } else if validator.node_type != NodeType::Confidential {
            Err(ErrorCode::InvalidNodeType)
        } else {
            match validator.tee_signing_pubkey {
                None => Err(ErrorCode::InvalidTeeSignature),
                Some(tee_key) => match spec_verify_tee_result(
                    instructions,
                    current_index,
                    tee_key@,
                ) {
                    Err(e) => Err(e),
                    Ok(msg) => if !spec_task_validation_message_ok(msg) {
                        Err(ErrorCode::InvalidValidatorMessage)
                    } else {
                        let goal_id = spec_u64_from_le_bytes(msg.subrange(0, 8));
                        let task_slot_id = spec_u64_from_le_bytes(msg.subrange(8, 16));
                        let payment_amount = spec_u64_from_le_bytes(msg.subrange(16, 24));
                        let approved = msg[56] == 1;
                        let completed = msg[57] == 1;
                        if goal_id != session.session_slot_id {
                            Err(ErrorCode::InvalidValidatorMessage)
                        } else if task_slot_id != task.task_slot_id {
                            Err(ErrorCode::InvalidValidatorMessage)
                        } else if payment_amount == 0 {
                            Err(ErrorCode::Overflow)
                        } else {
                            match spec_verify_validation_proof_result(task, msg.subrange(24, 56)) {
                                Err(e) => Err(e),
                                Ok(()) => {
                                    let idx = spec_validator_index(task.validations@, caller);
                                    if idx < 0 {
                                        Err(ErrorCode::ValidatorNotAssigned)
                                    } else if task.validations@[idx].status
                                        != ValidationStatus::Pending {
                                        Err(ErrorCode::DuplicateValidation)
                                    } else {
                                        Ok((idx, payment_amount, approved, completed))
                                    }
                                },
                            }
                        }
                    },
                },
            }
        },
    }
}

/// The attested certification path: a confidential validator's call
/// must be bundled with a signature-verification instruction whose
/// declared signer key is the validator's registered TEE key and whose
/// message names this session and task, a positive payment, and a
/// validation proof equal to the digest of the pending input and
/// output.  Any mismatch is refused before anything changes.  The
/// signed decision is then applied exactly as a committee vote is.
pub fn submit_confidential_task_validation(
    config: &NetworkConfig,
    session: &mut Session,
    vault: &mut Vault,
    task: &mut Task,
    node_info: &mut NodeInfo,
    node_treasury: &mut u64,
    validator_node_info: &NodeInfo,
    caller: &Key,
    instructions: &Vec<RawInstruction>,
    current_index: usize,
) -> (r: Result<(), ErrorCode>)
    ensures
        (match spec_confidential_validation_check(
            *old(session),
            *old(task),
            *old(node_info),
            *validator_node_info,
            caller@,
            instructions@,
            current_index as int,
        ) {
            Err(e) => r == Err::<(), ErrorCode>(e) && *final(session) == *old(session) && *final(vault) == *old(vault) && *final(task) == *old(task) && *final(node_info) == *old(node_info)
                && *final(node_treasury) == *old(node_treasury),
            Ok((idx, payment_amount, approved, completed)) => if approved {
                &&& (spec_count_with_status(old(task).validations@, ValidationStatus::Approved) + 1
                    < config.required_validations ==> r is Ok && spec_marked_only(
                    *old(task),
                    *final(task),
                    idx,
                    ValidationStatus::Approved,
                ) && *final(session) == *old(session) && *final(vault) == *old(vault) && *final(node_info) == *old(node_info) && *final(node_treasury) == *old(node_treasury))
                &&& (spec_count_with_status(old(task).validations@, ValidationStatus::Approved) + 1
                    >= config.required_validations ==> (match spec_release_result(
                    *old(session),
                    *old(vault),
                    *old(task),
                    *old(node_info),
                    *old(node_treasury),
                    payment_amount,
                ) {
                    Err(e) => r == Err::<(), ErrorCode>(e) && *final(session) == *old(session)
                        && *final(vault) == *old(vault) && *final(task) == *old(task) && *final(node_info) == *old(node_info) && *final(node_treasury) == *old(node_treasury),
                    Ok(()) => r is Ok && spec_release_effects(
                        *old(session),
                        *final(session),
                        *old(vault),
                        *final(vault),
                        *old(task),
                        *final(task),
                        *old(node_info),
                        *final(node_info),
                        *old(node_treasury),
                        *final(node_treasury),
                        payment_amount,
                        completed,
                    ),
                }))
            } else {
                &&& *final(vault) == *old(vault)
                &&& *final(node_info) == *old(node_info)
                &&& *final(node_treasury) == *old(node_treasury)
                &&& (spec_count_with_status(old(task).validations@, ValidationStatus::Rejected) + 1
                    < config.required_validations ==> r is Ok && spec_marked_only(
                    *old(task),
                    *final(task),
                    idx,
                    ValidationStatus::Rejected,
                ) && *final(session) == *old(session))
                &&& (spec_count_with_status(old(task).validations@, ValidationStatus::Rejected) + 1
                    >= config.required_validations ==> (if old(session).locked_for_tasks < old(task).max_task_cost {
                    r == Err::<(), ErrorCode>(ErrorCode::Underflow) && *final(session) == *old(session) && *final(task) == *old(task)
                } else {
                    r is Ok && spec_reject_effects(
                        *old(session),
                        *final(session),
                        *old(task),
                        *final(task),
                    )
                }))
            },
        }),
        r is Ok && spec_vault_covers(*old(vault), *old(session)) ==> spec_vault_covers(
            *final(vault),
            *final(session),
        ),
{
    if let Err(e) = validate_common_requirements(
        session,
        task,
        node_info,
        validator_node_info,
        caller,
    ) {
        return Err(e);
    }
    if !session.is_confidential {
        return Err(ErrorCode::InvalidSessionStatus);
    }
    if validator_node_info.node_type != NodeType::Confidential {
        return Err(ErrorCode::InvalidNodeType);
    }
    let tee_key = match &validator_node_info.tee_signing_pubkey {
        None => {
            return Err(ErrorCode::InvalidTeeSignature);
        },
        Some(k) => *k,
    };
    let message_bytes = match verify_tee_signature(instructions, current_index, &tee_key) {
        Err(e) => {
            return Err(e);
        },
        Ok(m) => m,
    };
    let message = match parse_task_validation_message(message_bytes.as_slice()) {
        Err(e) => {
            return Err(e);
        },
        Ok(m) => m,
    };
    if message.goal_id != session.session_slot_id {
        return Err(ErrorCode::InvalidValidatorMessage);
    }
    if message.task_slot_id != task.task_slot_id {
        return Err(ErrorCode::InvalidValidatorMessage);
    }
    if message.payment_amount == 0 {
        return Err(ErrorCode::Overflow);
    }
    if let Err(e) = verify_validation_proof(task, &message.validation_proof) {
        return Err(e);
    }
    let idx = match find_validator(&task.validations, caller) {
        None => {
            return Err(ErrorCode::ValidatorNotAssigned);
        },
        Some(i) => i,
    };
    if task.validations[idx].status != ValidationStatus::Pending {
        return Err(ErrorCode::DuplicateValidation);
    }
    if message.approved {
        process_approved_validation(
            config,
            session,
            vault,
            task,
            node_info,
            node_treasury,
            idx,
            message.payment_amount,
            message.session_completed,
        )
    } else {
        process_rejected_validation(config, session, task, idx)
    }
}

} // verus!
