//! The campaign and escrow ledger: create a session, fund and activate
//! it, contribute to it, withdraw from it.

use vstd::prelude::*;

use crate::addresses::{
    network_config_address, session_address, spec_network_config_address, spec_session_address,
    spec_task_address, task_address,
};
use crate::agent::{Agent, AgentStatus};
use crate::errors::ErrorCode;
use crate::keys::{key_eq, key_is_zero, spec_zero_key, zero_key, Key};
use crate::network_config::{pool_contains, spec_pool_contains, NetworkConfig};
use crate::node_ops::MAX_CID_LEN;
use crate::session::{spec_vault_covers, Contribution, Session, SessionStatus, Vault};
use crate::shares::{
    compute_minted_shares, compute_withdraw_amount, spec_compute_minted, spec_withdraw_amount,
};
use crate::task::{Task, TaskStatus, TaskType};

verus! {

/// The derived address of a session record under this configuration.
pub open spec fn spec_session_key(config: NetworkConfig, session: Session) -> Seq<u8> {
    spec_session_address(
        spec_network_config_address(config.authority@),
        session.session_slot_id,
    )
}

/// Compute the derived address of a session record.
pub fn session_key(config: &NetworkConfig, session: &Session) -> (r: Key)
    ensures
        r@ == spec_session_key(*config, *session),
{
    let config_address = network_config_address(&config.authority);
    session_address(&config_address, session.session_slot_id)
}

/// Why creating a session is refused, if it is.
pub open spec fn spec_create_session_result(config: NetworkConfig) -> Result<(), ErrorCode> {
    if config.session_count == u64::MAX || config.task_count == u64::MAX {
        Err(ErrorCode::Overflow)
    } else {
        Ok(())
    }
}

/// Create a session record in `Pending` at the next session slot,
/// together with its idle task slot, and advance both counters.  An
/// unowned session carries the all-zero owner until someone sets it.
pub fn create_session(
    config: &mut NetworkConfig,
    owner: &Key,
    is_owned: bool,
    is_confidential: bool,
) -> (r: Result<(Session, Task), ErrorCode>)
    ensures
        match r {
            Ok((session, task)) => {
                &&& spec_create_session_result(*old(config)) is Ok
                &&& session.session_slot_id == old(config).session_count
                &&& session.owner@ == (if is_owned {
                    owner@
                } else {
                    spec_zero_key()
                })
                &&& session.task@ == spec_task_address(
                    spec_network_config_address(old(config).authority@),
                    old(config).task_count,
                )
                &&& session.status == SessionStatus::Pending
                &&& session.is_confidential == is_confidential
                &&& session.max_iterations == 0
                &&& session.current_iteration == 0
                &&& session.task_index_start == 0
                &&& session.task_index_end == 0
                &&& session.total_shares == 0
                &&& session.locked_for_tasks == 0
                &&& session.chain_proof == old(config).genesis_hash
                &&& session.specification_cid@ == Seq::<u8>::empty()
                &&& session.state_cid is None
                &&& task.task_slot_id == old(config).task_count
                &&& task.session_slot_id == Some(old(config).session_count)
                &&& task.status == TaskStatus::Ready
                &&& task.compute_node is None
                &&& task.task_type == TaskType::Completion(0)
                &&& task.chain_proof == old(config).genesis_hash
                &&& task.task_index == 0
                &&& task.max_task_cost == 0
                &&& task.max_call_count == 0
                &&& task.call_count == 0
                &&& task.input_cid is None
                &&& task.output_cid is None
                &&& task.pending_input_cid is None
                &&& task.pending_output_cid is None
                &&& task.validations@.len() == 0
                &&& *final(config) == (NetworkConfig {
                    session_count: (old(config).session_count + 1) as u64,
                    task_count: (old(config).task_count + 1) as u64,
                    ..*old(config)
                })
            },
            Err(e) => spec_create_session_result(*old(config)) == Err::<(), ErrorCode>(e)
                && *final(config) == *old(config),
        },
{
    if config.session_count == u64::MAX || config.task_count == u64::MAX {
        return Err(ErrorCode::Overflow);
    }
    let session_slot_id = config.next_session_slot_id();
    let task_slot_id = config.next_task_slot_id();
    let config_address = network_config_address(&config.authority);
    let task_key = task_address(&config_address, task_slot_id);
    let session_owner = if is_owned {
        *owner
    } else {
        zero_key()
    };
    proof {
        if !is_owned {
            assert(session_owner@ == spec_zero_key());
        }
    }
    let session = Session {
        session_slot_id,
        owner: session_owner,
        task: task_key,
        status: SessionStatus::Pending,
        is_confidential,
        max_iterations: 0,
        current_iteration: 0,
        task_index_start: 0,
        task_index_end: 0,
        total_shares: 0,
        locked_for_tasks: 0,
        chain_proof: config.genesis_hash,
        specification_cid: Vec::new(),
        state_cid: None,
    };
    let task = Task {
        task_slot_id,
        session_slot_id: Some(session_slot_id),
        status: TaskStatus::Ready,
        compute_node: None,
        task_type: TaskType::Completion(0),
        chain_proof: config.genesis_hash,
        task_index: 0,
        max_task_cost: 0,
        max_call_count: 0,
        call_count: 0,
        input_cid: None,
        output_cid: None,
        pending_input_cid: None,
        pending_output_cid: None,
        validations: Vec::new(),
    };
    let _ = config.increment_session_count();
    let _ = config.increment_task_count();
    Ok((session, task))
}

/// Why setting (first-funding) a session is refused, if it is.
pub open spec fn spec_set_session_result(
    config: NetworkConfig,
    session: Session,
    task: Task,
    vault: Vault,
    agent: Agent,
    caller: Seq<u8>,
    cid_len: int,
    initial_deposit: u64,
    compute_node: Seq<u8>,
) -> Result<(), ErrorCode> {
    if session.status == SessionStatus::Active {
        Err(ErrorCode::InvalidSessionStatus)
    } else if session.owner@ != spec_zero_key() && session.owner@ != caller {
        Err(ErrorCode::InvalidSessionOwner)
    } else if task.status != TaskStatus::Ready {
        Err(ErrorCode::InvalidTaskStatus)
    } else if task.session_slot_id != Some(session.session_slot_id) {
        Err(ErrorCode::InvalidSession)
    } else if agent.status != AgentStatus::Active {
        Err(ErrorCode::InvalidAgentStatus)
    } else if initial_deposit == 0 {
        Err(ErrorCode::DepositTooSmall)
    } else if !spec_pool_contains(
        if session.is_confidential {
            config.approved_confidential_nodes@
        } else {
            config.approved_public_nodes@
        },
        compute_node,
    ) {
        Err(ErrorCode::InvalidComputeNodePubkey)
    } else if cid_len > MAX_CID_LEN {
        Err(ErrorCode::InvalidCID)
    } else if vault.balance != 0 && vault.balance != vault.reserved_minimum {
        Err(ErrorCode::VaultHasLeftoverFunds)
    } else if initial_deposit + vault.reserved_minimum > u64::MAX {
        Err(ErrorCode::Overflow)
    } else {
        Ok(())
    }
}

/// First funding of a session: the owner fixes the specification and
/// the iteration cap, names the compute node (it must be in the pool
/// matching the session's confidentiality), deposits a positive amount
/// into an escrow that holds nothing beyond its reserved minimum, and
/// is minted one share per unit deposited.  The task moves to
/// `Pending` for its first claim.  A session whose iterations already
/// ran is reset to iteration zero before funding.
pub fn set_session(
    config: &NetworkConfig,
    session: &mut Session,
    task: &mut Task,
    vault: &mut Vault,
    agent: &Agent,
    caller: &Key,
    specification_cid: Vec<u8>,
    max_iterations: u64,
    initial_deposit: u64,
    compute_node: Key,
    task_type: TaskType,
) -> (r: Result<Contribution, ErrorCode>)
    ensures
        match r {
            Ok(contribution) => {
                &&& spec_set_session_result(
                    *config,
                    *old(session),
                    *old(task),
                    *old(vault),
                    *agent,
                    caller@,
                    specification_cid@.len() as int,
                    initial_deposit,
                    compute_node@,
                ) is Ok
                &&& contribution.session@ == spec_session_key(*config, *old(session))
                &&& contribution.contributor == *caller
                &&& contribution.shares == initial_deposit
                &&& contribution.refund_amount == 0
                &&& *final(session) == (Session {
                    owner: *caller,
                    task: final(session).task,
                    status: SessionStatus::Active,
                    max_iterations,
                    current_iteration: 0,
                    task_index_start: old(task).task_index,
                    task_index_end: (if old(session).current_iteration > 0 {
                        0
                    } else {
                        old(session).task_index_end
                    }),
                    total_shares: initial_deposit,
                    locked_for_tasks: (if old(session).current_iteration > 0 {
                        0
                    } else {
                        old(session).locked_for_tasks
                    }),
                    specification_cid: final(session).specification_cid,
                    ..*old(session)
                })
                &&& final(session).task@ == spec_task_address(
                    spec_network_config_address(config.authority@),
                    old(task).task_slot_id,
                )
                &&& final(session).specification_cid == specification_cid
                &&& *final(task) == (Task {
                    compute_node: Some(compute_node),
                    status: TaskStatus::Pending,
                    task_type,
                    ..*old(task)
                })
                &&& *final(vault) == (Vault {
                    balance: (old(vault).reserved_minimum + initial_deposit) as u64,
                    ..*old(vault)
                })
            },
            Err(e) => {
                &&& spec_set_session_result(
                    *config,
                    *old(session),
                    *old(task),
                    *old(vault),
                    *agent,
                    caller@,
                    specification_cid@.len() as int,
                    initial_deposit,
                    compute_node@,
                ) == Err::<(), ErrorCode>(e)
                &&& *final(session) == *old(session)
                &&& *final(task) == *old(task)
                &&& *final(vault) == *old(vault)
            },
        },
{
    if session.status == SessionStatus::Active {
        return Err(ErrorCode::InvalidSessionStatus);
    }
    if !key_is_zero(&session.owner) && !key_eq(&session.owner, caller) {
        return Err(ErrorCode::InvalidSessionOwner);
    }
    if task.status != TaskStatus::Ready {
        return Err(ErrorCode::InvalidTaskStatus);
    }
    let linked = match task.session_slot_id {
        Some(slot) => slot == session.session_slot_id,
        None => false,
    };
    if !linked {
        return Err(ErrorCode::InvalidSession);
    }
    if agent.status != AgentStatus::Active {
        return Err(ErrorCode::InvalidAgentStatus);
    }
    if initial_deposit == 0 {
        return Err(ErrorCode::DepositTooSmall);
    }
    let in_pool = if session.is_confidential {
        pool_contains(&config.approved_confidential_nodes, &compute_node)
    } else {
        pool_contains(&config.approved_public_nodes, &compute_node)
    };
    if !in_pool {
        return Err(ErrorCode::InvalidComputeNodePubkey);
    }
    if specification_cid.len() > MAX_CID_LEN {
        return Err(ErrorCode::InvalidCID);
    }
    if vault.balance != 0 && vault.balance != vault.reserved_minimum {
        return Err(ErrorCode::VaultHasLeftoverFunds);
    }
    if initial_deposit > u64::MAX - vault.reserved_minimum {
        return Err(ErrorCode::Overflow);
    }
    let session_addr = session_key(config, session);
    let config_address = network_config_address(&config.authority);
    let task_addr = task_address(&config_address, task.task_slot_id);

    if session.current_iteration > 0 {
        session.current_iteration = 0;
        session.task_index_start = session.task_index_end;
        session.task_index_end = 0;
        session.total_shares = 0;
        session.locked_for_tasks = 0;
    }
    // The first deposit is priced at one unit per share.
    let shares = initial_deposit;
    vault.balance = vault.reserved_minimum + initial_deposit;
    session.owner = *caller;
    session.task = task_addr;
    session.specification_cid = specification_cid;
    session.max_iterations = max_iterations;
    session.total_shares = shares;
    session.status = SessionStatus::Active;
    session.task_index_start = task.task_index;
    task.compute_node = Some(compute_node);
    task.status = TaskStatus::Pending;
    task.task_type = task_type;
    Ok(
        Contribution {
            session: session_addr,
            contributor: *caller,
            shares,
            refund_amount: 0,
        },
    )
}

/// Why a contribution is refused, if it is.  `session_key` is the
/// session record's derived address, which the contribution record
/// must name.
pub open spec fn spec_contribute_result(
    session: Session,
    vault: Vault,
    contribution: Contribution,
    session_key: Seq<u8>,
    caller: Seq<u8>,
    deposit_amount: u64,
) -> Result<u64, ErrorCode> {
    if session.status != SessionStatus::Active {
        Err(ErrorCode::InvalidSessionStatus)
    } else if deposit_amount == 0 {
        Err(ErrorCode::Overflow)
    } else if session.total_shares > 0 && vault.balance < session.locked_for_tasks {
        Err(ErrorCode::Underflow)
    } else if session.total_shares > 0 && vault.balance - session.locked_for_tasks
        < vault.reserved_minimum {
        Err(ErrorCode::Underflow)
    } else {
        let available = (vault.balance - session.locked_for_tasks
            - vault.reserved_minimum) as u64;
        match spec_compute_minted(deposit_amount, session.total_shares, available) {
            Err(e) => Err(e),
            Ok(minted) => if vault.balance + deposit_amount > u64::MAX {
                Err(ErrorCode::Overflow)
            } else if contribution.session@ != spec_zero_key() && (contribution.session@
                != session_key || contribution.contributor@ != caller) {
                Err(ErrorCode::InvalidPDAAccount)
            } else if contribution.session@ != spec_zero_key() && contribution.shares + minted
                > u64::MAX {
                Err(ErrorCode::Overflow)
            } else if session.total_shares + minted > u64::MAX {
                Err(ErrorCode::Overflow)
            } else {
                Ok(minted)
            },
        }
    }
}

/// Deposit into an active session's escrow.  Shares are minted at the
/// current share price — available balance over outstanding shares,
/// or one unit per share on an empty pool — rounding down; a deposit
/// too small to mint a share is refused.  A fresh contribution record
/// (all-zero session field) is initialised; an existing one must name
/// this session and contributor, and grows.
pub fn contribute_to_session(
    config: &NetworkConfig,
    session: &mut Session,
    vault: &mut Vault,
    contribution: &mut Contribution,
    caller: &Key,
    deposit_amount: u64,
) -> (r: Result<u64, ErrorCode>)
    ensures
        match r {
            Ok(minted) => {
                &&& spec_contribute_result(
                    *old(session),
                    *old(vault),
                    *old(contribution),
                    spec_session_key(*config, *old(session)),
                    caller@,
                    deposit_amount,
                ) == Ok::<u64, ErrorCode>(minted)
                &&& *final(vault) == (Vault {
                    balance: (old(vault).balance + deposit_amount) as u64,
                    ..*old(vault)
                })
                &&& *final(session) == (Session {
                    total_shares: (old(session).total_shares + minted) as u64,
                    ..*old(session)
                })
                &&& (old(contribution).session@ == spec_zero_key() ==> {
                    &&& final(contribution).session@ == spec_session_key(
                        *config,
                        *old(session),
                    )
                    &&& final(contribution).contributor == *caller
                    &&& final(contribution).shares == minted
                    &&& final(contribution).refund_amount == 0
                })
                &&& (old(contribution).session@ != spec_zero_key() ==> *final(contribution)
                    == (Contribution {
                    shares: (old(contribution).shares + minted) as u64,
                    ..*old(contribution)
                }))
                &&& (spec_vault_covers(*old(vault), *old(session)) ==> spec_vault_covers(
                    *final(vault),
                    *final(session),
                ))
            },
            Err(e) => {
                &&& spec_contribute_result(
                    *old(session),
                    *old(vault),
                    *old(contribution),
                    spec_session_key(*config, *old(session)),
                    caller@,
                    deposit_amount,
                ) == Err::<u64, ErrorCode>(e)
                &&& *final(session) == *old(session)
                &&& *final(vault) == *old(vault)
                &&& *final(contribution) == *old(contribution)
            },
        },
{
    if session.status != SessionStatus::Active {
        return Err(ErrorCode::InvalidSessionStatus);
    }
    if deposit_amount == 0 {
        return Err(ErrorCode::Overflow);
    }
    let available: u64 = if session.total_shares > 0 {
        if vault.balance < session.locked_for_tasks {
            return Err(ErrorCode::Underflow);
        }
        let unlocked = vault.balance - session.locked_for_tasks;
        if unlocked < vault.reserved_minimum {
            return Err(ErrorCode::Underflow);
        }
        unlocked - vault.reserved_minimum
    } else {
        // Unused on an empty pool: the price is fixed at one.
        0
    };
    proof {
        if session.total_shares > 0 {
            assert(available == (vault.balance - session.locked_for_tasks
                - vault.reserved_minimum) as u64);
        }
    }
    let minted = match compute_minted_shares(deposit_amount, session.total_shares, available) {
        Err(e) => {
            return Err(e);
        },
        Ok(m) => m,
    };
    if deposit_amount > u64::MAX - vault.balance {
        return Err(ErrorCode::Overflow);
    }
    let session_addr = session_key(config, session);
    let fresh = key_is_zero(&contribution.session);
    if !fresh {
        if !key_eq(&contribution.session, &session_addr) || !key_eq(
            &contribution.contributor,
            caller,
        ) {
            return Err(ErrorCode::InvalidPDAAccount);
        }
        if minted > u64::MAX - contribution.shares {
            return Err(ErrorCode::Overflow);
        }
    }
    if minted > u64::MAX - session.total_shares {
        return Err(ErrorCode::Overflow);
    }
    vault.balance = vault.balance + deposit_amount;
    if fresh {
        contribution.session = session_addr;
        contribution.contributor = *caller;
        contribution.shares = minted;
        contribution.refund_amount = 0;
    } else {
        contribution.shares = contribution.shares + minted;
    }
    session.total_shares = session.total_shares + minted;
    Ok(minted)
}

/// Why a withdrawal is refused, if it is.
pub open spec fn spec_withdraw_result(
    session: Session,
    vault: Vault,
    contribution: Contribution,
    session_key: Seq<u8>,
    caller: Seq<u8>,
    shares_to_burn: u64,
) -> Result<u64, ErrorCode> {
    if session.status != SessionStatus::Active {
        Err(ErrorCode::InvalidSessionStatus)
    } else if shares_to_burn == 0 {
        Err(ErrorCode::Overflow)
    } else if contribution.session@ != session_key || contribution.contributor@ != caller {
        Err(ErrorCode::InvalidPDAAccount)
    } else if contribution.shares < shares_to_burn {
        Err(ErrorCode::Underflow)
    } else if vault.balance < session.locked_for_tasks {
        Err(ErrorCode::Underflow)
    } else if vault.balance - session.locked_for_tasks < vault.reserved_minimum {
        Err(ErrorCode::Underflow)
    } else if session.total_shares < shares_to_burn {
        Err(ErrorCode::Underflow)
    } else {
        let available = (vault.balance - session.locked_for_tasks
            - vault.reserved_minimum) as u64;
        Ok(spec_withdraw_amount(shares_to_burn, session.total_shares, available) as u64)
    }
}

/// Burn shares of an active session and pay out at the current share
/// price, rounding down.  Only the contributor's own record can be
/// drawn on, the burn cannot exceed its balance, and the payout never
/// touches the locked part or the reserved minimum.
pub fn withdraw_from_session(
    config: &NetworkConfig,
    session: &mut Session,
    vault: &mut Vault,
    contribution: &mut Contribution,
    caller: &Key,
    shares_to_burn: u64,
) -> (r: Result<u64, ErrorCode>)
    ensures
        match r {
            Ok(payout) => {
                &&& spec_withdraw_result(
                    *old(session),
                    *old(vault),
                    *old(contribution),
                    spec_session_key(*config, *old(session)),
                    caller@,
                    shares_to_burn,
                ) == Ok::<u64, ErrorCode>(payout)
                &&& *final(vault) == (Vault {
                    balance: (old(vault).balance - payout) as u64,
                    ..*old(vault)
                })
                &&& *final(session) == (Session {
                    total_shares: (old(session).total_shares - shares_to_burn) as u64,
                    ..*old(session)
                })
                &&& *final(contribution) == (Contribution {
                    shares: (old(contribution).shares - shares_to_burn) as u64,
                    ..*old(contribution)
                })
                &&& (spec_vault_covers(*old(vault), *old(session)) ==> spec_vault_covers(
                    *final(vault),
                    *final(session),
                ))
            },
            Err(e) => {
                &&& spec_withdraw_result(
                    *old(session),
                    *old(vault),
                    *old(contribution),
                    spec_session_key(*config, *old(session)),
                    caller@,
                    shares_to_burn,
                ) == Err::<u64, ErrorCode>(e)
                &&& *final(session) == *old(session)
                &&& *final(vault) == *old(vault)
                &&& *final(contribution) == *old(contribution)
            },
        },
{
    if session.status != SessionStatus::Active {
        return Err(ErrorCode::InvalidSessionStatus);
    }
    if shares_to_burn == 0 {
        return Err(ErrorCode::Overflow);
    }
    let session_addr = session_key(config, session);
    if !key_eq(&contribution.session, &session_addr) || !key_eq(
        &contribution.contributor,
        caller,
    ) {
        return Err(ErrorCode::InvalidPDAAccount);
    }
    if contribution.shares < shares_to_burn {
        return Err(ErrorCode::Underflow);
    }
    if vault.balance < session.locked_for_tasks {
        return Err(ErrorCode::Underflow);
    }
    let unlocked = vault.balance - session.locked_for_tasks;
    if unlocked < vault.reserved_minimum {
        return Err(ErrorCode::Underflow);
    }
    let available = unlocked - vault.reserved_minimum;
    if session.total_shares < shares_to_burn {
        return Err(ErrorCode::Underflow);
    }
    let payout = compute_withdraw_amount(shares_to_burn, session.total_shares, available);
    vault.balance = vault.balance - payout;
    contribution.shares = contribution.shares - shares_to_burn;
    session.total_shares = session.total_shares - shares_to_burn;
    Ok(payout)
}

} // verus!
