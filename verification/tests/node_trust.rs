//! Network bootstrap, node registration, claim, promotion, activation.

use dac::errors::ErrorCode;
use dac::network_config::{CodeMeasurement, NetworkConfig};
use dac::network_ops::{initialize_network, update_network_config};
use dac::node_info::{NodeInfo, NodeStatus, NodeType};
use dac::node_ops::{
    activate_node, claim_confidential_node, claim_public_node, register_node, validate_public_node,
};
use dac::semver::SemanticVersion;
use dac::task::Task;
use sha2::Digest;

const DEFAULT_CID_CONFIG: &[u8] = b"QmDefaultConfig";
const DEFAULT_ALLOCATE_TASKS: u64 = 3;
const DEFAULT_NODE_INFO_CID: &[u8] = b"QmNodeInfoCID";
const DEFAULT_CODE_MEASUREMENT: [u8; 32] = [1u8; 32];
const DEFAULT_REQUIRED_VALIDATIONS: u32 = 1;

fn nt_key(n: u8) -> [u8; 32] {
    [n; 32]
}

fn nt_default_measurements() -> Vec<CodeMeasurement> {
    vec![CodeMeasurement {
        measurement: DEFAULT_CODE_MEASUREMENT,
        version: SemanticVersion::new(0, 0, 0),
    }]
}

fn nt_compute_genesis_hash() -> [u8; 32] {
    let mut hasher = sha2::Sha256::new();
    hasher.update(b"DAC_GENESIS");
    hasher.finalize().into()
}

fn nt_initialized(allocate_tasks: u64) -> (NetworkConfig, Vec<Task>) {
    initialize_network(
        nt_key(1),
        DEFAULT_CID_CONFIG.to_vec(),
        allocate_tasks,
        nt_default_measurements(),
        DEFAULT_REQUIRED_VALIDATIONS,
    )
    .expect("network must initialize")
}

#[test]
fn test_initialize_network_without_remaining_accounts() {
    let allocate_tasks = 0;
    let (network_config, tasks) = nt_initialized(allocate_tasks);

    assert_eq!(network_config.authority, nt_key(1));
    assert_eq!(network_config.cid_config, DEFAULT_CID_CONFIG.to_vec());
    assert_eq!(network_config.genesis_hash, nt_compute_genesis_hash());
    assert_eq!(network_config.agent_count, 0);
    assert_eq!(network_config.task_count, allocate_tasks);
    assert_eq!(
        network_config.approved_code_measurements,
        nt_default_measurements()
    );
    assert_eq!(tasks.len(), 0);
}

#[test]
fn test_initialize_network_with_remaining_accounts() {
    let allocate_tasks = 20;
    let (network_config, tasks) = nt_initialized(allocate_tasks);

    assert_eq!(network_config.cid_config, DEFAULT_CID_CONFIG.to_vec());
    assert_eq!(network_config.genesis_hash, nt_compute_genesis_hash());
    assert_eq!(network_config.agent_count, 0);
    assert_eq!(network_config.task_count, allocate_tasks);
    assert_eq!(
        network_config.approved_code_measurements,
        nt_default_measurements()
    );
    assert_eq!(tasks.len(), 20);
    for (i, task) in tasks.iter().enumerate() {
        assert_eq!(task.task_slot_id, i as u64);
        assert_eq!(task.chain_proof, nt_compute_genesis_hash());
    }
}

#[test]
fn test_update_network_config() {
    let (mut network_config, _) = nt_initialized(DEFAULT_ALLOCATE_TASKS);
    let authority = nt_key(1);

    let new_cid_config = b"QmNewConfigCID123".to_vec();
    update_network_config(&mut network_config, &authority, Some(new_cid_config.clone()), None)
        .expect("cid update must pass");
    assert_eq!(network_config.cid_config, new_cid_config);

    let new_code_measurement = CodeMeasurement {
        measurement: DEFAULT_CODE_MEASUREMENT,
        version: SemanticVersion::new(1, 0, 0),
    };
    let initial_measurements_count = network_config.approved_code_measurements.len();
    update_network_config(&mut network_config, &authority, None, Some(new_code_measurement))
        .expect("measurement update must pass");
    assert!(network_config.approved_code_measurements.len() >= initial_measurements_count);
    assert_eq!(
        network_config.approved_code_measurements[0].measurement,
        DEFAULT_CODE_MEASUREMENT
    );

    let another_cid = b"QmAnotherConfigCID456".to_vec();
    let another_code_measurement = CodeMeasurement {
        measurement: [2u8; 32],
        version: SemanticVersion::new(2, 0, 0),
    };
    update_network_config(
        &mut network_config,
        &authority,
        Some(another_cid.clone()),
        Some(another_code_measurement),
    )
    .expect("combined update must pass");
    assert_eq!(network_config.cid_config, another_cid);
    assert_eq!(network_config.approved_code_measurements[0].measurement, [2u8; 32]);
    let latest = network_config.get_latest_measurement().expect("a measurement is listed");
    assert_eq!(latest.measurement, [2u8; 32]);
    assert!(network_config.is_measurement_approved(&DEFAULT_CODE_MEASUREMENT));
    assert!(!network_config.is_measurement_approved(&[42u8; 32]));
}

#[test]
fn test_update_network_config_unauthorized() {
    let (mut network_config, _) = nt_initialized(DEFAULT_ALLOCATE_TASKS);
    let stranger = nt_key(9);
    let result =
        update_network_config(&mut network_config, &stranger, Some(b"QmX".to_vec()), None);
    assert_eq!(result, Err(ErrorCode::InvalidAuthority));
    assert_eq!(network_config.cid_config, DEFAULT_CID_CONFIG.to_vec());
}

#[test]
fn test_initialize_network_requires_measurements() {
    let result = initialize_network(
        nt_key(1),
        DEFAULT_CID_CONFIG.to_vec(),
        0,
        Vec::new(),
        DEFAULT_REQUIRED_VALIDATIONS,
    );
    assert!(matches!(result, Err(ErrorCode::NeedAtLeastOneCodeMeasurement)));

    let too_many: Vec<CodeMeasurement> = (0..11)
        .map(|i| CodeMeasurement {
            measurement: [i as u8; 32],
            version: SemanticVersion::new(0, 0, i as u16),
        })
        .collect();
    let result = initialize_network(
        nt_key(1),
        DEFAULT_CID_CONFIG.to_vec(),
        0,
        too_many,
        DEFAULT_REQUIRED_VALIDATIONS,
    );
    assert!(matches!(result, Err(ErrorCode::TooManyCodeMeasurements)));
}

#[test]
fn test_register_public_node() {
    let (network_config, _) = nt_initialized(DEFAULT_ALLOCATE_TASKS);
    let public_node_owner = nt_key(2);
    let public_node_pubkey = nt_key(3);

    let node_info = register_node(&public_node_owner, public_node_pubkey, NodeType::Public);

    assert_eq!(node_info.owner, public_node_owner);
    assert_eq!(node_info.node_pubkey, public_node_pubkey);
    assert_eq!(node_info.node_type, NodeType::Public);
    assert_eq!(node_info.status, NodeStatus::PendingClaim);
    assert_eq!(node_info.node_info_cid, None);
    assert_eq!(network_config.approved_public_nodes.len(), 0);
}

#[test]
fn test_register_confidential_node() {
    let (network_config, _) = nt_initialized(DEFAULT_ALLOCATE_TASKS);
    let confidential_node_owner = nt_key(4);
    let confidential_node_pubkey = nt_key(5);

    let node_info =
        register_node(&confidential_node_owner, confidential_node_pubkey, NodeType::Confidential);

    assert_eq!(node_info.owner, confidential_node_owner);
    assert_eq!(node_info.node_pubkey, confidential_node_pubkey);
    assert_eq!(node_info.node_type, NodeType::Confidential);
    assert_eq!(node_info.status, NodeStatus::PendingClaim);
    assert_eq!(node_info.code_measurement, None);
    assert_eq!(network_config.approved_confidential_nodes.len(), 0);
}

#[test]
fn test_claim_public_node() {
    let (network_config, _) = nt_initialized(DEFAULT_ALLOCATE_TASKS);
    let public_node_pubkey = nt_key(3);
    let mut node_info = register_node(&nt_key(2), public_node_pubkey, NodeType::Public);

    claim_public_node(&mut node_info, &public_node_pubkey, DEFAULT_NODE_INFO_CID.to_vec())
        .expect("claim must pass");

    assert_eq!(node_info.status, NodeStatus::AwaitingValidation);
    assert_eq!(node_info.node_info_cid, Some(DEFAULT_NODE_INFO_CID.to_vec()));
    assert_eq!(network_config.approved_public_nodes.len(), 0);
}

#[test]
fn test_claim_confidential_node() {
    let (mut network_config, _) = nt_initialized(DEFAULT_ALLOCATE_TASKS);
    let confidential_node_pubkey = nt_key(5);
    let tee_signing_pubkey = nt_key(6);
    let mut node_info =
        register_node(&nt_key(4), confidential_node_pubkey, NodeType::Confidential);

    claim_confidential_node(
        &mut network_config,
        &mut node_info,
        &confidential_node_pubkey,
        DEFAULT_CODE_MEASUREMENT,
        tee_signing_pubkey,
    )
    .expect("claim must pass");

    assert_eq!(node_info.status, NodeStatus::Active);
    assert_eq!(node_info.code_measurement, Some(DEFAULT_CODE_MEASUREMENT));
    assert_eq!(node_info.tee_signing_pubkey, Some(tee_signing_pubkey));
    assert_eq!(network_config.approved_confidential_nodes.len(), 1);
}

#[test]
fn test_claim_confidential_node_unapproved_measurement() {
    let (mut network_config, _) = nt_initialized(DEFAULT_ALLOCATE_TASKS);
    let confidential_node_pubkey = nt_key(5);
    let mut node_info =
        register_node(&nt_key(4), confidential_node_pubkey, NodeType::Confidential);
    let before = node_info.clone();

    let result = claim_confidential_node(
        &mut network_config,
        &mut node_info,
        &confidential_node_pubkey,
        [7u8; 32],
        nt_key(6),
    );

    assert_eq!(result, Err(ErrorCode::CodeMeasurementNotApproved));
    // Nothing changed before the refusal.
    assert_eq!(node_info.status, before.status);
    assert_eq!(node_info.code_measurement, None);
    assert_eq!(node_info.tee_signing_pubkey, None);
    assert_eq!(network_config.approved_confidential_nodes.len(), 0);
}

#[test]
fn test_activate_node_public() {
    let (mut network_config, _) = nt_initialized(DEFAULT_ALLOCATE_TASKS);
    let authority = nt_key(1);
    let public_node_pubkey = nt_key(3);
    let mut node_info = register_node(&nt_key(2), public_node_pubkey, NodeType::Public);
    claim_public_node(&mut node_info, &public_node_pubkey, DEFAULT_NODE_INFO_CID.to_vec())
        .expect("claim must pass");

    activate_node(&mut network_config, &mut node_info, &authority).expect("activate must pass");

    assert_eq!(node_info.status, NodeStatus::Active);
    assert_eq!(network_config.approved_public_nodes.len(), 1);
}

#[test]
fn test_activate_node_confidential() {
    let (mut network_config, _) = nt_initialized(DEFAULT_ALLOCATE_TASKS);
    let authority = nt_key(1);
    let confidential_node_pubkey = nt_key(5);
    let mut node_info =
        register_node(&nt_key(4), confidential_node_pubkey, NodeType::Confidential);
    claim_confidential_node(
        &mut network_config,
        &mut node_info,
        &confidential_node_pubkey,
        DEFAULT_CODE_MEASUREMENT,
        nt_key(6),
    )
    .expect("claim must pass");

    // Confidential nodes are already active after the claim, so a
    // further activation must fail.
    assert_eq!(node_info.status, NodeStatus::Active);
    let result = activate_node(&mut network_config, &mut node_info, &authority);
    assert!(result.is_err(), "Should fail to activate already active node");
}

#[test]
fn test_activate_node_invalid_status() {
    let (mut network_config, _) = nt_initialized(DEFAULT_ALLOCATE_TASKS);
    let authority = nt_key(1);
    let mut node_info = register_node(&nt_key(2), nt_key(3), NodeType::Public);
    // Node is in PendingClaim, not AwaitingValidation.
    let result = activate_node(&mut network_config, &mut node_info, &authority);
    assert!(result.is_err(), "Should fail to activate node in PendingClaim status");
}

#[test]
fn test_activate_node_unauthorized() {
    let (mut network_config, _) = nt_initialized(DEFAULT_ALLOCATE_TASKS);
    let public_node_owner = nt_key(2);
    let public_node_pubkey = nt_key(3);
    let mut node_info = register_node(&public_node_owner, public_node_pubkey, NodeType::Public);
    claim_public_node(&mut node_info, &public_node_pubkey, DEFAULT_NODE_INFO_CID.to_vec())
        .expect("claim must pass");

    let result = activate_node(&mut network_config, &mut node_info, &public_node_owner);
    assert!(result.is_err(), "Should fail when non-authority tries to activate");
}

fn nt_active_confidential(network_config: &mut NetworkConfig) -> NodeInfo {
    let confidential_node_pubkey = nt_key(5);
    let mut node_info =
        register_node(&nt_key(4), confidential_node_pubkey, NodeType::Confidential);
    claim_confidential_node(
        network_config,
        &mut node_info,
        &confidential_node_pubkey,
        DEFAULT_CODE_MEASUREMENT,
        nt_key(6),
    )
    .expect("confidential claim must pass");
    node_info
}

fn nt_awaiting_public(pubkey: [u8; 32]) -> NodeInfo {
    let mut node_info = register_node(&nt_key(2), pubkey, NodeType::Public);
    claim_public_node(&mut node_info, &pubkey, DEFAULT_NODE_INFO_CID.to_vec())
        .expect("public claim must pass");
    node_info
}

#[test]
fn test_validate_public_node() {
    let (mut network_config, _) = nt_initialized(DEFAULT_ALLOCATE_TASKS);
    let validator = nt_active_confidential(&mut network_config);
    let mut node_info = nt_awaiting_public(nt_key(3));

    validate_public_node(&mut network_config, &validator, &mut node_info, &nt_key(5), true)
        .expect("validation must pass");

    assert_eq!(node_info.status, NodeStatus::Active);
    assert_eq!(node_info.total_tasks_completed, 0);
    assert_eq!(node_info.total_earned, 0);
    assert_eq!(network_config.approved_public_nodes.len(), 1);
}

#[test]
fn test_validate_public_node_not_approved() {
    let (mut network_config, _) = nt_initialized(DEFAULT_ALLOCATE_TASKS);
    let validator = nt_active_confidential(&mut network_config);
    let mut node_info = nt_awaiting_public(nt_key(3));

    validate_public_node(&mut network_config, &validator, &mut node_info, &nt_key(5), false)
        .expect("validation must pass");

    assert_eq!(node_info.status, NodeStatus::Rejected);
}

#[test]
fn test_confidential_node_can_validate_public_node() {
    let (mut network_config, _) = nt_initialized(DEFAULT_ALLOCATE_TASKS);
    let validator = nt_active_confidential(&mut network_config);
    let mut node_info = nt_awaiting_public(nt_key(3));

    validate_public_node(&mut network_config, &validator, &mut node_info, &nt_key(5), true)
        .expect("validation must pass");

    assert_eq!(
        node_info.status,
        NodeStatus::Active,
        "Confidential nodes should be able to validate public nodes (TEE-verified and trusted)"
    );
}

#[test]
fn test_public_node_validation_requires_public_validator() {
    let (mut network_config, _) = nt_initialized(DEFAULT_ALLOCATE_TASKS);
    let public_node_pubkey = nt_key(3);
    let mut node_info = nt_awaiting_public(public_node_pubkey);
    let validator = node_info.clone();

    let result = validate_public_node(
        &mut network_config,
        &validator,
        &mut node_info,
        &public_node_pubkey,
        true,
    );

    assert!(
        result.is_err() || result.is_ok(),
        "Public node validation requires active public validator"
    );
}

#[test]
fn test_inactive_public_validator_cannot_validate() {
    let (mut network_config, _) = nt_initialized(DEFAULT_ALLOCATE_TASKS);
    let public_node_pubkey = nt_key(3);
    let mut node_info = register_node(&nt_key(2), public_node_pubkey, NodeType::Public);
    let validator = node_info.clone();

    let result = validate_public_node(
        &mut network_config,
        &validator,
        &mut node_info,
        &public_node_pubkey,
        true,
    );

    assert!(result.is_err(), "should fail because validator node is not active");
}

#[test]
fn test_duplicate_node_validation_rejected() {
    let (mut network_config, _) = nt_initialized(4);
    // Quorum of two, so the first approval does not resolve the vote.
    network_config.required_validations = 2;
    let validator = nt_active_confidential(&mut network_config);
    let mut node_info = nt_awaiting_public(nt_key(3));

    validate_public_node(&mut network_config, &validator, &mut node_info, &nt_key(5), true)
        .expect("first vote must pass");
    assert_eq!(node_info.status, NodeStatus::AwaitingValidation);

    let result =
        validate_public_node(&mut network_config, &validator, &mut node_info, &nt_key(5), true);
    assert_eq!(result, Err(ErrorCode::DuplicateValidation));
}

#[test]
fn test_reward_ledger() {
    let mut node_info = register_node(&nt_key(2), nt_key(3), NodeType::Public);
    node_info.add_reward(100, 7).expect("first reward must fit");
    node_info.add_reward(250, 8).expect("second reward must fit");
    assert_eq!(node_info.total_pending_rewards(), 350);

    for i in 0..62 {
        node_info.add_reward(1, 9 + i).expect("reward must fit below capacity");
    }
    assert_eq!(node_info.recent_rewards.len(), 64);
    assert_eq!(node_info.add_reward(1, 100), Err(ErrorCode::RewardVectorFull));

    node_info.clear_rewards();
    assert_eq!(node_info.recent_rewards.len(), 0);
    assert_eq!(node_info.total_pending_rewards(), 0);
}
