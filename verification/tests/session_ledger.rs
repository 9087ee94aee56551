//! Agents, session funding, the share ledger, claims and results.

use dac::agent::{Agent, AgentStatus};
use dac::agent_ops::{create_agent, validate_agent};
use dac::errors::ErrorCode;
use dac::network_config::{CodeMeasurement, NetworkConfig};
use dac::network_ops::initialize_network;
use dac::node_info::{NodeInfo, NodeType};
use dac::node_ops::{claim_confidential_node, claim_public_node, register_node,
    validate_public_node};
use dac::semver::SemanticVersion;
use dac::session::{Contribution, Session, SessionStatus, Vault};
use dac::session_ops::{contribute_to_session, create_session, set_session, withdraw_from_session};
use dac::task::{Task, TaskStatus, TaskType};
use dac::task_ops::{claim_task, submit_task_result};
use sha2::Digest;

const DEFAULT_CID_CONFIG: &[u8] = b"QmDefaultConfig";
const DEFAULT_NODE_INFO_CID: &[u8] = b"QmNodeInfoCID";
const DEFAULT_CODE_MEASUREMENT: [u8; 32] = [1u8; 32];
const DEFAULT_AGENT_CONFIG_CID: &[u8] = b"QmAgentConfigCID";
const DEFAULT_GOAL_SPECIFICATION_CID: &[u8] = b"QmGoalSpecificationCID";
const DEFAULT_INITIAL_DEPOSIT: u64 = 1_000_000_000;
const DEFAULT_CONTRIBUTION_AMOUNT: u64 = 500_000_000;
const RENT_EXEMPT_MINIMUM: u64 = 890_880;

const AUTHORITY: [u8; 32] = [1u8; 32];
const PUBLIC_NODE: [u8; 32] = [3u8; 32];
const CONFIDENTIAL_NODE: [u8; 32] = [5u8; 32];
const VALIDATOR_NODE: [u8; 32] = [10u8; 32];
const AGENT_OWNER: [u8; 32] = [7u8; 32];
const CONTRIBUTOR: [u8; 32] = [8u8; 32];

fn sl_initialized() -> (NetworkConfig, Vec<Task>) {
    initialize_network(
        AUTHORITY,
        DEFAULT_CID_CONFIG.to_vec(),
        3,
        vec![CodeMeasurement {
            measurement: DEFAULT_CODE_MEASUREMENT,
            version: SemanticVersion::new(0, 0, 0),
        }],
        1,
    )
    .expect("network must initialize")
}

/// An active confidential node, an active public compute node, an
/// active public validator node, and an active agent.
fn sl_network() -> (NetworkConfig, NodeInfo, NodeInfo, NodeInfo, Agent) {
    let (mut config, _) = sl_initialized();

    let mut confidential = register_node(&[4u8; 32], CONFIDENTIAL_NODE, NodeType::Confidential);
    claim_confidential_node(
        &mut config,
        &mut confidential,
        &CONFIDENTIAL_NODE,
        DEFAULT_CODE_MEASUREMENT,
        [6u8; 32],
    )
    .expect("confidential claim must pass");

    let mut public = register_node(&[2u8; 32], PUBLIC_NODE, NodeType::Public);
    claim_public_node(&mut public, &PUBLIC_NODE, DEFAULT_NODE_INFO_CID.to_vec())
        .expect("public claim must pass");
    validate_public_node(&mut config, &confidential, &mut public, &CONFIDENTIAL_NODE, true)
        .expect("public validation must pass");

    let mut validator = register_node(&[9u8; 32], VALIDATOR_NODE, NodeType::Public);
    claim_public_node(&mut validator, &VALIDATOR_NODE, DEFAULT_NODE_INFO_CID.to_vec())
        .expect("validator claim must pass");
    validate_public_node(&mut config, &confidential, &mut validator, &CONFIDENTIAL_NODE, true)
        .expect("validator validation must pass");

    let mut agent = create_agent(&mut config, &AGENT_OWNER, DEFAULT_AGENT_CONFIG_CID.to_vec())
        .expect("agent creation must pass");
    validate_agent(&mut agent, &confidential, &config, &CONFIDENTIAL_NODE)
        .expect("agent validation must pass");
    assert_eq!(agent.status, AgentStatus::Active);

    (config, confidential, public, validator, agent)
}

fn sl_fresh_contribution() -> Contribution {
    Contribution { session: [0u8; 32], contributor: [0u8; 32], shares: 0, refund_amount: 0 }
}

/// An active, funded session on the public compute node.
fn sl_active_session(
    config: &mut NetworkConfig,
    agent: &Agent,
) -> (Session, Task, Vault, Contribution) {
    let (mut session, mut task) =
        create_session(config, &AGENT_OWNER, true, false).expect("session creation must pass");
    let mut vault = Vault { balance: 0, reserved_minimum: RENT_EXEMPT_MINIMUM };
    let owner_contribution = set_session(
        config,
        &mut session,
        &mut task,
        &mut vault,
        agent,
        &AGENT_OWNER,
        DEFAULT_GOAL_SPECIFICATION_CID.to_vec(),
        10,
        DEFAULT_INITIAL_DEPOSIT,
        PUBLIC_NODE,
        TaskType::Completion(0),
    )
    .expect("set_session must pass");
    (session, task, vault, owner_contribution)
}

#[test]
fn test_create_agent() {
    let (mut config, _) = sl_initialized();

    let agent = create_agent(&mut config, &AGENT_OWNER, DEFAULT_AGENT_CONFIG_CID.to_vec())
        .expect("agent creation must pass");

    assert_eq!(agent.agent_slot_id, 0);
    assert_eq!(agent.owner, AGENT_OWNER);
    assert_eq!(agent.agent_config_cid, DEFAULT_AGENT_CONFIG_CID.to_vec());
    assert_eq!(agent.agent_memory_cid, None);
    assert_eq!(agent.status, AgentStatus::Pending);
    assert_eq!(config.agent_count, 1);
}

#[test]
fn test_create_multiple_agents() {
    let (mut config, _) = sl_initialized();

    let agent0 = create_agent(&mut config, &AGENT_OWNER, DEFAULT_AGENT_CONFIG_CID.to_vec())
        .expect("Failed to create first agent");
    let agent1 = create_agent(&mut config, &AGENT_OWNER, b"QmSecondAgentConfigCID".to_vec())
        .expect("Failed to create second agent");

    assert_eq!(config.agent_count, 2);
    assert_eq!(agent0.agent_slot_id, 0);
    assert_eq!(agent0.agent_config_cid, DEFAULT_AGENT_CONFIG_CID.to_vec());
    assert_eq!(agent1.agent_slot_id, 1);
    assert_eq!(agent1.agent_config_cid, b"QmSecondAgentConfigCID".to_vec());
}

#[test]
fn test_set_session() {
    let (mut config, _confidential, _public, _validator, agent) = sl_network();
    let (session, task, _vault, owner_contribution) = sl_active_session(&mut config, &agent);

    let network_config_pda = dac::addresses::network_config_address(&config.authority);
    let session_pda = dac::addresses::session_address(&network_config_pda, session.session_slot_id);
    let task_pda = dac::addresses::task_address(&network_config_pda, task.task_slot_id);

    assert_eq!(session.owner, AGENT_OWNER);
    assert_eq!(session.specification_cid, DEFAULT_GOAL_SPECIFICATION_CID.to_vec());
    assert_eq!(session.max_iterations, 10);
    assert_eq!(session.status, SessionStatus::Active);
    assert_eq!(session.total_shares, DEFAULT_INITIAL_DEPOSIT);
    assert_eq!(session.task, task_pda);

    assert_eq!(owner_contribution.session, session_pda);
    assert_eq!(owner_contribution.contributor, AGENT_OWNER);
    assert_eq!(owner_contribution.shares, DEFAULT_INITIAL_DEPOSIT);
    assert_eq!(owner_contribution.refund_amount, 0);

    assert_eq!(task.status, TaskStatus::Pending);
    assert_eq!(task.task_type, TaskType::Completion(0));
}

#[test]
fn test_set_session_requires_active_agent() {
    let (mut config, _) = sl_initialized();
    let agent = create_agent(&mut config, &AGENT_OWNER, DEFAULT_AGENT_CONFIG_CID.to_vec())
        .expect("agent creation must pass");
    let (mut session, mut task) =
        create_session(&mut config, &AGENT_OWNER, true, false).expect("creation must pass");
    let mut vault = Vault { balance: 0, reserved_minimum: RENT_EXEMPT_MINIMUM };

    let result = set_session(
        &config,
        &mut session,
        &mut task,
        &mut vault,
        &agent,
        &AGENT_OWNER,
        DEFAULT_GOAL_SPECIFICATION_CID.to_vec(),
        10,
        DEFAULT_INITIAL_DEPOSIT,
        PUBLIC_NODE,
        TaskType::Completion(0),
    );
    assert_eq!(result.err(), Some(ErrorCode::InvalidAgentStatus));
}

#[test]
fn test_set_session_rejects_zero_deposit() {
    let (mut config, _confidential, _public, _validator, agent) = sl_network();
    let (mut session, mut task) =
        create_session(&mut config, &AGENT_OWNER, true, false).expect("creation must pass");
    let mut vault = Vault { balance: 0, reserved_minimum: RENT_EXEMPT_MINIMUM };

    let result = set_session(
        &config,
        &mut session,
        &mut task,
        &mut vault,
        &agent,
        &AGENT_OWNER,
        DEFAULT_GOAL_SPECIFICATION_CID.to_vec(),
        10,
        0,
        PUBLIC_NODE,
        TaskType::Completion(0),
    );
    assert_eq!(result.err(), Some(ErrorCode::DepositTooSmall));
}

#[test]
fn test_set_session_rejects_leftover_vault_funds() {
    let (mut config, _confidential, _public, _validator, agent) = sl_network();
    let (mut session, mut task) =
        create_session(&mut config, &AGENT_OWNER, true, false).expect("creation must pass");
    let mut vault = Vault { balance: RENT_EXEMPT_MINIMUM + 5, reserved_minimum: RENT_EXEMPT_MINIMUM };

    let result = set_session(
        &config,
        &mut session,
        &mut task,
        &mut vault,
        &agent,
        &AGENT_OWNER,
        DEFAULT_GOAL_SPECIFICATION_CID.to_vec(),
        10,
        DEFAULT_INITIAL_DEPOSIT,
        PUBLIC_NODE,
        TaskType::Completion(0),
    );
    assert_eq!(result.err(), Some(ErrorCode::VaultHasLeftoverFunds));
}

#[test]
fn test_contribute_to_session() {
    let (mut config, _confidential, _public, _validator, agent) = sl_network();
    let (mut session, _task, mut vault, _owner_contribution) =
        sl_active_session(&mut config, &agent);

    let mut contribution = sl_fresh_contribution();
    contribute_to_session(
        &config,
        &mut session,
        &mut vault,
        &mut contribution,
        &CONTRIBUTOR,
        DEFAULT_CONTRIBUTION_AMOUNT,
    )
    .expect("Failed to contribute");

    let network_config_pda = dac::addresses::network_config_address(&config.authority);
    let session_pda = dac::addresses::session_address(&network_config_pda, session.session_slot_id);
    assert_eq!(contribution.session, session_pda);
    assert_eq!(contribution.contributor, CONTRIBUTOR);
    assert!(contribution.shares > 0, "Contributor should have shares");
    assert_eq!(contribution.refund_amount, 0);
    assert!(
        session.total_shares > DEFAULT_INITIAL_DEPOSIT,
        "Total shares should include contributor's shares"
    );
}

#[test]
fn test_contribute_to_session_multiple_contributors() {
    let (mut config, _confidential, _public, _validator, agent) = sl_network();
    let (mut session, _task, mut vault, _owner_contribution) =
        sl_active_session(&mut config, &agent);

    let mut contribution1 = sl_fresh_contribution();
    contribute_to_session(
        &config,
        &mut session,
        &mut vault,
        &mut contribution1,
        &[11u8; 32],
        DEFAULT_CONTRIBUTION_AMOUNT,
    )
    .expect("Failed first contribution");
    let mut contribution2 = sl_fresh_contribution();
    contribute_to_session(
        &config,
        &mut session,
        &mut vault,
        &mut contribution2,
        &[12u8; 32],
        DEFAULT_CONTRIBUTION_AMOUNT,
    )
    .expect("Failed second contribution");

    assert!(contribution1.shares > 0, "Contributor1 should have shares");
    assert!(contribution2.shares > 0, "Contributor2 should have shares");
    assert!(
        session.total_shares >= DEFAULT_INITIAL_DEPOSIT + DEFAULT_CONTRIBUTION_AMOUNT * 2,
        "Total shares should include all contributions"
    );
}

#[test]
fn test_withdraw_from_session() {
    let (mut config, _confidential, _public, _validator, agent) = sl_network();
    let (mut session, _task, mut vault, _owner_contribution) =
        sl_active_session(&mut config, &agent);

    let mut contribution = sl_fresh_contribution();
    contribute_to_session(
        &config,
        &mut session,
        &mut vault,
        &mut contribution,
        &CONTRIBUTOR,
        DEFAULT_CONTRIBUTION_AMOUNT,
    )
    .expect("Failed to contribute");

    let shares_before = contribution.shares;
    let total_before = session.total_shares;
    let shares_to_burn = shares_before / 2;

    withdraw_from_session(
        &config,
        &mut session,
        &mut vault,
        &mut contribution,
        &CONTRIBUTOR,
        shares_to_burn,
    )
    .expect("Failed to withdraw");

    assert_eq!(
        contribution.shares,
        shares_before - shares_to_burn,
        "Contribution shares should decrease"
    );
    assert_eq!(
        session.total_shares,
        total_before - shares_to_burn,
        "Session total shares should decrease"
    );
    let network_config_pda = dac::addresses::network_config_address(&config.authority);
    let session_pda = dac::addresses::session_address(&network_config_pda, session.session_slot_id);
    assert_eq!(contribution.session, session_pda);
    assert_eq!(contribution.contributor, CONTRIBUTOR);
}

#[test]
fn test_withdraw_more_than_held_fails() {
    let (mut config, _confidential, _public, _validator, agent) = sl_network();
    let (mut session, _task, mut vault, mut owner_contribution) =
        sl_active_session(&mut config, &agent);

    let too_many = owner_contribution.shares + 1;
    let result = withdraw_from_session(
        &config,
        &mut session,
        &mut vault,
        &mut owner_contribution,
        &AGENT_OWNER,
        too_many,
    );
    assert_eq!(result.err(), Some(ErrorCode::Underflow));
}

#[test]
fn test_share_round_trip_at_par_is_exact() {
    // Contribute, then withdraw the same share count at an unchanged
    // escrow: with the pool at par the payout equals the deposit.
    let (mut config, _confidential, _public, _validator, agent) = sl_network();
    let (mut session, _task, mut vault, _owner_contribution) =
        sl_active_session(&mut config, &agent);

    let mut contribution = sl_fresh_contribution();
    let minted = contribute_to_session(
        &config,
        &mut session,
        &mut vault,
        &mut contribution,
        &CONTRIBUTOR,
        DEFAULT_CONTRIBUTION_AMOUNT,
    )
    .expect("Failed to contribute");
    assert_eq!(minted, DEFAULT_CONTRIBUTION_AMOUNT);

    let payout = withdraw_from_session(
        &config,
        &mut session,
        &mut vault,
        &mut contribution,
        &CONTRIBUTOR,
        minted,
    )
    .expect("Failed to withdraw");
    assert_eq!(payout, DEFAULT_CONTRIBUTION_AMOUNT);
    assert_eq!(contribution.shares, 0);
}

#[test]
fn test_share_round_trip_never_gains() {
    // A skewed pool: one share backed by a thousand units.  The round
    // trip rounds down twice and must never pay out more than went in.
    let (mut config, _confidential, _public, _validator, agent) = sl_network();
    let (mut session, _task, mut vault, _owner_contribution) =
        sl_active_session(&mut config, &agent);
    session.total_shares = 1;
    vault.balance = RENT_EXEMPT_MINIMUM + 1000;

    let mut contribution = sl_fresh_contribution();
    let deposit: u64 = 1500;
    let minted = contribute_to_session(
        &config,
        &mut session,
        &mut vault,
        &mut contribution,
        &CONTRIBUTOR,
        deposit,
    )
    .expect("Failed to contribute");
    // floor(1500 * 1 / 1000) = 1 share.
    assert_eq!(minted, 1);

    let payout = withdraw_from_session(
        &config,
        &mut session,
        &mut vault,
        &mut contribution,
        &CONTRIBUTOR,
        minted,
    )
    .expect("Failed to withdraw");
    // floor(1 * 2500 / 2) = 1250: no more than the deposit came back.
    assert_eq!(payout, 1250);
    assert!(payout <= deposit);
}

#[test]
fn test_total_shares_match_contribution_sum() {
    let (mut config, _confidential, _public, _validator, agent) = sl_network();
    let (mut session, _task, mut vault, owner_contribution) =
        sl_active_session(&mut config, &agent);

    let mut contribution1 = sl_fresh_contribution();
    contribute_to_session(
        &config,
        &mut session,
        &mut vault,
        &mut contribution1,
        &[11u8; 32],
        123_456_789,
    )
    .expect("first contribution must pass");
    let mut contribution2 = sl_fresh_contribution();
    contribute_to_session(
        &config,
        &mut session,
        &mut vault,
        &mut contribution2,
        &[12u8; 32],
        42,
    )
    .expect("second contribution must pass");
    withdraw_from_session(&config, &mut session, &mut vault, &mut contribution1, &[11u8; 32], 789)
        .expect("withdrawal must pass");

    let sum = owner_contribution.shares + contribution1.shares + contribution2.shares;
    assert_eq!(session.total_shares, sum);
    assert!(vault.balance >= session.locked_for_tasks + vault.reserved_minimum);
}

#[test]
fn test_claim_task() {
    let (mut config, _confidential, _public, _validator, agent) = sl_network();
    let (mut session, mut task, vault, _owner_contribution) =
        sl_active_session(&mut config, &agent);

    let max_task_cost = 1_000_000_000;
    let max_call_count = 10u64;

    claim_task(
        &config,
        &mut session,
        &mut task,
        &vault,
        &PUBLIC_NODE,
        max_task_cost,
        max_call_count,
        0,
    )
    .expect("Failed to claim task");

    assert_eq!(task.status, TaskStatus::Processing);
    assert_eq!(task.compute_node, Some(PUBLIC_NODE));
    assert_eq!(task.max_task_cost, max_task_cost);
    assert_eq!(task.task_index, 1);
    assert_eq!(session.locked_for_tasks, max_task_cost);
}

#[test]
fn test_claim_task_twice_fails() {
    let (mut config, _confidential, _public, _validator, agent) = sl_network();
    let (mut session, mut task, vault, _owner_contribution) =
        sl_active_session(&mut config, &agent);

    claim_task(&config, &mut session, &mut task, &vault, &PUBLIC_NODE, 1000, 10, 0)
        .expect("first claim must pass");
    let result = claim_task(&config, &mut session, &mut task, &vault, &PUBLIC_NODE, 1000, 10, 0);
    assert_eq!(result, Err(ErrorCode::InvalidTaskStatus));
}

#[test]
fn test_claim_task_insufficient_balance() {
    let (mut config, _confidential, _public, _validator, agent) = sl_network();
    let (mut session, mut task, vault, _owner_contribution) =
        sl_active_session(&mut config, &agent);

    let result = claim_task(
        &config,
        &mut session,
        &mut task,
        &vault,
        &PUBLIC_NODE,
        DEFAULT_INITIAL_DEPOSIT + 1,
        10,
        0,
    );
    assert_eq!(result, Err(ErrorCode::InsufficientBalance));
}

#[test]
fn test_submit_task_result() {
    let (mut config, _confidential, _public, _validator, agent) = sl_network();
    let (mut session, mut task, vault, _owner_contribution) =
        sl_active_session(&mut config, &agent);

    claim_task(&config, &mut session, &mut task, &vault, &PUBLIC_NODE, 1_000_000_000, 10, 0)
        .expect("Failed to claim task");

    let input_cid = b"QmTestInput123456789".to_vec();
    let output_cid = b"QmTestOutput123456789".to_vec();
    let state_cid = Some(b"QmTestState123456789".to_vec());

    submit_task_result(
        &mut session,
        &mut task,
        &PUBLIC_NODE,
        input_cid.clone(),
        output_cid.clone(),
        state_cid,
        1,
    )
    .expect("Failed to submit task result");

    assert_eq!(task.status, TaskStatus::AwaitingValidation);
    assert_eq!(task.pending_input_cid, Some(input_cid));
    assert_eq!(task.pending_output_cid, Some(output_cid));
}

#[test]
fn test_submit_task_result_wrong_node_fails() {
    let (mut config, _confidential, _public, _validator, agent) = sl_network();
    let (mut session, mut task, vault, _owner_contribution) =
        sl_active_session(&mut config, &agent);

    claim_task(&config, &mut session, &mut task, &vault, &PUBLIC_NODE, 1_000_000_000, 10, 0)
        .expect("Failed to claim task");

    let result = submit_task_result(
        &mut session,
        &mut task,
        &VALIDATOR_NODE,
        b"QmIn".to_vec(),
        b"QmOut".to_vec(),
        None,
        1,
    );
    assert_eq!(result, Err(ErrorCode::InvalidComputeNodePubkey));
}

#[test]
fn test_contribute_rejects_zero_deposit() {
    let (mut config, _confidential, _public, _validator, agent) = sl_network();
    let (mut session, _task, mut vault, _owner_contribution) =
        sl_active_session(&mut config, &agent);
    let mut contribution = sl_fresh_contribution();
    let result = contribute_to_session(
        &config,
        &mut session,
        &mut vault,
        &mut contribution,
        &CONTRIBUTOR,
        0,
    );
    assert_eq!(result, Err(ErrorCode::Overflow));
}

#[test]
fn test_contribute_rejects_foreign_record() {
    let (mut config, _confidential, _public, _validator, agent) = sl_network();
    let (mut session, _task, mut vault, _owner_contribution) =
        sl_active_session(&mut config, &agent);
    // A record bound to some other session cannot take this deposit.
    let mut contribution = Contribution {
        session: [33u8; 32],
        contributor: CONTRIBUTOR,
        shares: 5,
        refund_amount: 0,
    };
    let result = contribute_to_session(
        &config,
        &mut session,
        &mut vault,
        &mut contribution,
        &CONTRIBUTOR,
        100,
    );
    assert_eq!(result, Err(ErrorCode::InvalidPDAAccount));
    assert_eq!(contribution.shares, 5);
}

#[test]
fn test_claim_rejects_overlong_descriptor() {
    let mut node = dac::node_ops::register_node(&[2u8; 32], PUBLIC_NODE, NodeType::Public);
    let result = dac::node_ops::claim_public_node(&mut node, &PUBLIC_NODE, vec![7u8; 129]);
    assert_eq!(result, Err(ErrorCode::InvalidCID));
}

#[test]
fn test_claim_task_needs_enough_validators() {
    // A quorum of two with a single eligible validator: the claim is
    // refused before anything is locked.
    let (mut config, _confidential, _public, _validator, agent) = sl_network();
    config.required_validations = 2;
    let (mut session, mut task, vault, _owner_contribution) =
        sl_active_session(&mut config, &agent);
    let result = claim_task(&config, &mut session, &mut task, &vault, &PUBLIC_NODE, 1000, 10, 0);
    assert_eq!(result, Err(ErrorCode::NotEnoughValidators));
    assert_eq!(session.locked_for_tasks, 0);
    assert_eq!(task.status, TaskStatus::Pending);
}

#[test]
fn test_validate_confidential_target_refused() {
    let (mut config, confidential, _public, _validator, _agent) = sl_network();
    let mut target =
        dac::node_ops::register_node(&[15u8; 32], [16u8; 32], NodeType::Confidential);
    target.status = dac::node_info::NodeStatus::AwaitingValidation;
    let result = validate_public_node(
        &mut config,
        &confidential,
        &mut target,
        &CONFIDENTIAL_NODE,
        true,
    );
    assert_eq!(result, Err(ErrorCode::InvalidNodeType));
}

#[test]
fn test_record_addresses_are_content_derived() {
    let network_config_pda = dac::addresses::network_config_address(&AUTHORITY);
    let mut hasher = sha2::Sha256::new();
    hasher.update(b"dac_network_config");
    hasher.update(AUTHORITY);
    let expected: [u8; 32] = hasher.finalize().into();
    assert_eq!(network_config_pda, expected);

    let task_pda = dac::addresses::task_address(&network_config_pda, 7);
    let mut hasher = sha2::Sha256::new();
    hasher.update(b"task");
    hasher.update(network_config_pda);
    hasher.update(7u64.to_le_bytes());
    let expected_task: [u8; 32] = hasher.finalize().into();
    assert_eq!(task_pda, expected_task);
}
