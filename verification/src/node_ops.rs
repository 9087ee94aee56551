//! The node trust state machine: register, claim, promote, activate.

use vstd::prelude::*;

use crate::addresses::{node_info_address, node_treasury_address};
use crate::ed25519::{
    parse_node_validation_message, spec_node_validation_message_ok, spec_verify_tee_result,
    verify_tee_signature, RawInstruction,
};
use crate::errors::ErrorCode;
use crate::keys::{key_eq, Key};
use crate::network_config::{
    spec_measurement_listed, spec_pool_after_add, spec_pool_contains, pool_contains, NetworkConfig,
};
use crate::node_info::{NodeInfo, NodeStatus, NodeType};

verus! {

/// Records longer than this cannot name an off-chain reference.
pub const MAX_CID_LEN: usize = 128;

/// Create a node record in `PendingClaim`, owned by `owner` and
/// operated by `node_pubkey`, with an empty treasury holding at the
/// node's derived treasury address.
pub fn register_node(owner: &Key, node_pubkey: Key, node_type: NodeType) -> (r: NodeInfo)
    ensures
        r.owner == *owner,
        r.node_pubkey == node_pubkey,
        r.node_type == node_type,
        r.status == NodeStatus::PendingClaim,
        r.node_info_cid is None,
        r.code_measurement is None,
        r.tee_signing_pubkey is None,
        r.node_treasury@ == crate::addresses::spec_node_treasury_address(
            crate::addresses::spec_node_info_address(node_pubkey@),
        ),
        r.recent_rewards@ == Seq::<crate::node_info::RewardEntry>::empty(),
        r.total_earned == 0,
        r.max_entries_before_transfer == 0,
        r.last_transfer_slot == 0,
        r.total_tasks_completed == 0,
        r.approved_validators@ == Seq::<Key>::empty(),
        r.rejected_validators@ == Seq::<Key>::empty(),
{
    let info_address = node_info_address(&node_pubkey);
    let treasury = node_treasury_address(&info_address);
    NodeInfo {
        owner: *owner,
        node_pubkey,
        node_type,
        status: NodeStatus::PendingClaim,
        node_info_cid: None,
        code_measurement: None,
        tee_signing_pubkey: None,
        node_treasury: treasury,
        recent_rewards: Vec::new(),
        total_earned: 0,
        max_entries_before_transfer: 0,
        last_transfer_slot: 0,
        total_tasks_completed: 0,
        approved_validators: Vec::new(),
        rejected_validators: Vec::new(),
    }
}

/// Why a public-node claim is refused, if it is.
pub open spec fn spec_claim_public_node_result(
    node: NodeInfo,
    caller: Seq<u8>,
    cid_len: int,
) -> Result<(), ErrorCode> {
    if node.node_pubkey@ != caller {
        Err(ErrorCode::InvalidPDAAccount)
    } else if node.node_type != NodeType::Public {
        Err(ErrorCode::InvalidNodeType)
    } else if node.status != NodeStatus::PendingClaim {
        Err(ErrorCode::InvalidNodeStatus)
    } else if cid_len > MAX_CID_LEN {
        Err(ErrorCode::InvalidCID)
    } else {
        Ok(())
    }
}

/// A public node's own identity claims its record: it attaches its
/// off-chain descriptor and moves to `AwaitingValidation`.
pub fn claim_public_node(node: &mut NodeInfo, caller: &Key, node_info_cid: Vec<u8>) -> (r: Result<
    (),
    ErrorCode,
>)
    ensures
        r == spec_claim_public_node_result(*old(node), caller@, node_info_cid@.len() as int),
        r is Ok ==> *final(node) == (NodeInfo {
            node_info_cid: Some(node_info_cid),
            status: NodeStatus::AwaitingValidation,
            ..*old(node)
        }),
        r is Err ==> *final(node) == *old(node),
{
    if !key_eq(&node.node_pubkey, caller) {
        return Err(ErrorCode::InvalidPDAAccount);
    }
    if node.node_type != NodeType::Public {
        return Err(ErrorCode::InvalidNodeType);
    }
    if node.status != NodeStatus::PendingClaim {
        return Err(ErrorCode::InvalidNodeStatus);
    }
    if node_info_cid.len() > MAX_CID_LEN {
        return Err(ErrorCode::InvalidCID);
    }
    node.node_info_cid = Some(node_info_cid);
    node.status = NodeStatus::AwaitingValidation;
    Ok(())
}

/// Why a confidential-node claim is refused, if it is.
pub open spec fn spec_claim_confidential_node_result(
    config: NetworkConfig,
    node: NodeInfo,
    caller: Seq<u8>,
    code_measurement: Seq<u8>,
) -> Result<(), ErrorCode> {
    if node.node_pubkey@ != caller {
        Err(ErrorCode::InvalidPDAAccount)
    } else if node.node_type != NodeType::Confidential {
        Err(ErrorCode::InvalidNodeType)
    } else if node.status != NodeStatus::PendingClaim {
        Err(ErrorCode::InvalidNodeStatus)
    } else if !spec_measurement_listed(config.approved_code_measurements@, code_measurement) {
        Err(ErrorCode::CodeMeasurementNotApproved)
    } else {
        Ok(())
    }
}

/// A confidential node's own identity claims its record: it supplies a
/// code measurement — which must already be approved — and its TEE
/// signing key, and is promoted directly to `Active` and admitted to
/// the confidential pool.  An unapproved measurement is refused before
/// anything changes.
pub fn claim_confidential_node(
    config: &mut NetworkConfig,
    node: &mut NodeInfo,
    caller: &Key,
    code_measurement: [u8; 32],
    tee_signing_pubkey: Key,
) -> (r: Result<(), ErrorCode>)
    ensures
        r == spec_claim_confidential_node_result(
            *old(config),
            *old(node),
            caller@,
            code_measurement@,
        ),
        r is Ok ==> *final(node) == (NodeInfo {
            code_measurement: Some(code_measurement),
            tee_signing_pubkey: Some(tee_signing_pubkey),
            status: NodeStatus::Active,
            ..*old(node)
        }),
        r is Ok ==> *final(config) == (NetworkConfig {
            approved_confidential_nodes: final(config).approved_confidential_nodes,
            ..*old(config)
        }) && final(config).approved_confidential_nodes@ == spec_pool_after_add(
            old(config).approved_confidential_nodes@,
            old(node).node_pubkey,
        ),
        r is Err ==> *final(node) == *old(node) && *final(config) == *old(config),
{
    if !key_eq(&node.node_pubkey, caller) {
        return Err(ErrorCode::InvalidPDAAccount);
    }
    if node.node_type != NodeType::Confidential {
        return Err(ErrorCode::InvalidNodeType);
    }
    if node.status != NodeStatus::PendingClaim {
        return Err(ErrorCode::InvalidNodeStatus);
    }
    if !config.is_measurement_approved(&code_measurement) {
        return Err(ErrorCode::CodeMeasurementNotApproved);
    }
    node.code_measurement = Some(code_measurement);
    node.tee_signing_pubkey = Some(tee_signing_pubkey);
    node.status = NodeStatus::Active;
    let _ = config.add_confidential_node(node.node_pubkey);
    Ok(())
}

/// Why a committee vote on a public node is refused, if it is.
pub open spec fn spec_validate_public_node_result(
    validator: NodeInfo,
    node: NodeInfo,
    caller: Seq<u8>,
) -> Result<(), ErrorCode> {
    if validator.node_pubkey@ != caller {
        Err(ErrorCode::InvalidPDAAccount)
    } else if validator.status != NodeStatus::Active {
        Err(ErrorCode::InvalidNodeStatus)
    } else if node.status != NodeStatus::AwaitingValidation {
        Err(ErrorCode::InvalidNodeStatus)
    } else if node.node_type != NodeType::Public {
        Err(ErrorCode::InvalidNodeType)
    } else if spec_pool_contains(node.approved_validators@, caller) || spec_pool_contains(
        node.rejected_validators@,
        caller,
    ) {
        Err(ErrorCode::DuplicateValidation)
    } else {
        Ok(())
    }
}

/// One committee vote on a node awaiting promotion.  Only an active
/// node may vote, each voter votes at most once — approve or reject,
/// never both — and a second vote by the same voter is refused.  When
/// the approve votes reach the quorum the node becomes `Active` and
/// joins the public pool; a single reject moves it to `Rejected`.
pub fn validate_public_node(
    config: &mut NetworkConfig,
    validator: &NodeInfo,
    node: &mut NodeInfo,
    caller: &Key,
    approved: bool,
) -> (r: Result<(), ErrorCode>)
    ensures
        r == spec_validate_public_node_result(*validator, *old(node), caller@),
        r is Ok && approved && old(node).approved_validators@.len() + 1
            >= old(config).required_validations ==> *final(node) == (NodeInfo {
            approved_validators: final(node).approved_validators,
            status: NodeStatus::Active,
            ..*old(node)
        }) && final(node).approved_validators@ == old(node).approved_validators@.push(*caller)
            && *final(config) == (NetworkConfig {
            approved_public_nodes: final(config).approved_public_nodes,
            ..*old(config)
        }) && final(config).approved_public_nodes@ == spec_pool_after_add(
            old(config).approved_public_nodes@,
            old(node).node_pubkey,
        ),
        r is Ok && approved && old(node).approved_validators@.len() + 1 < old(
            config,
        ).required_validations ==> *final(node) == (NodeInfo {
            approved_validators: final(node).approved_validators,
            ..*old(node)
        }) && final(node).approved_validators@ == old(node).approved_validators@.push(*caller)
            && *final(config) == *old(config),
        r is Ok && !approved ==> *final(node) == (NodeInfo {
            rejected_validators: final(node).rejected_validators,
            status: NodeStatus::Rejected,
            ..*old(node)
        }) && final(node).rejected_validators@ == old(node).rejected_validators@.push(*caller)
            && *final(config) == *old(config),
        r is Err ==> *final(node) == *old(node) && *final(config) == *old(config),
{
    if !key_eq(&validator.node_pubkey, caller) {
        return Err(ErrorCode::InvalidPDAAccount);
    }
    if validator.status != NodeStatus::Active {
        return Err(ErrorCode::InvalidNodeStatus);
    }
    if node.status != NodeStatus::AwaitingValidation {
        return Err(ErrorCode::InvalidNodeStatus);
    }
    if node.node_type != NodeType::Public {
        return Err(ErrorCode::InvalidNodeType);
    }
    if pool_contains(&node.approved_validators, caller) || pool_contains(
        &node.rejected_validators,
        caller,
    ) {
        return Err(ErrorCode::DuplicateValidation);
    }
    if approved {
        node.approved_validators.push(*caller);
        let approved_count = node.approved_validators.len();
        if approved_count >= config.required_validations as usize {
            node.status = NodeStatus::Active;
            let _ = config.add_public_node(node.node_pubkey);
        }
    } else {
        node.rejected_validators.push(*caller);
        node.status = NodeStatus::Rejected;
    }
    Ok(())
}

/// Why an administrative activation is refused, if it is.
pub open spec fn spec_activate_node_result(
    config: NetworkConfig,
    node: NodeInfo,
    caller: Seq<u8>,
) -> Result<(), ErrorCode> {
    if config.authority@ != caller {
        Err(ErrorCode::InvalidAuthority)
    } else if node.status != NodeStatus::AwaitingValidation {
        Err(ErrorCode::InvalidNodeStatus)
    } else if node.node_type == NodeType::Public && node.node_info_cid is None {
        Err(ErrorCode::InvalidNodeStatus)
    } else if node.node_type == NodeType::Confidential && (node.code_measurement is None
        || node.tee_signing_pubkey is None) {
        Err(ErrorCode::InvalidNodeStatus)
    } else {
        Ok(())
    }
}

/// The registry authority promotes a node in `AwaitingValidation`
/// directly, without a committee vote.  The record must already carry
/// what an approver would check: the descriptor for a public node, the
/// measurement and TEE key for a confidential one.
pub fn activate_node(config: &mut NetworkConfig, node: &mut NodeInfo, caller: &Key) -> (r: Result<
    (),
    ErrorCode,
>)
    ensures
        r == spec_activate_node_result(*old(config), *old(node), caller@),
        r is Ok ==> *final(node) == (NodeInfo { status: NodeStatus::Active, ..*old(node) }),
        r is Ok && old(node).node_type == NodeType::Public ==> *final(config) == (NetworkConfig {
            approved_public_nodes: final(config).approved_public_nodes,
            ..*old(config)
        }) && final(config).approved_public_nodes@ == spec_pool_after_add(
            old(config).approved_public_nodes@,
            old(node).node_pubkey,
        ),
        r is Ok && old(node).node_type == NodeType::Confidential ==> *final(config)
            == (NetworkConfig {
            approved_confidential_nodes: final(config).approved_confidential_nodes,
            ..*old(config)
        }) && final(config).approved_confidential_nodes@ == spec_pool_after_add(
            old(config).approved_confidential_nodes@,
            old(node).node_pubkey,
        ),
        r is Err ==> *final(node) == *old(node) && *final(config) == *old(config),
{
    if !key_eq(&config.authority, caller) {
        return Err(ErrorCode::InvalidAuthority);
    }
    if node.status != NodeStatus::AwaitingValidation {
        return Err(ErrorCode::InvalidNodeStatus);
    }
    match node.node_type {
        NodeType::Public => {
            if node.node_info_cid.is_none() {
                return Err(ErrorCode::InvalidNodeStatus);
            }
        },
        NodeType::Confidential => {
            if node.code_measurement.is_none() || node.tee_signing_pubkey.is_none() {
                return Err(ErrorCode::InvalidNodeStatus);
            }
        },
    }
    node.status = NodeStatus::Active;
    match node.node_type {
        NodeType::Public => {
            let _ = config.add_public_node(node.node_pubkey);
        },
        NodeType::Confidential => {
            let _ = config.add_confidential_node(node.node_pubkey);
        },
    }
    Ok(())
}

/// What an attested node validation decides: `Ok(approved)` when the
/// bundle is acceptable, otherwise the first reason it is not.
pub open spec fn spec_validate_compute_node_result(
    validator: NodeInfo,
    node: NodeInfo,
    caller: Seq<u8>,
    instructions: Seq<RawInstruction>,
    current_index: int,
) -> Result<bool, ErrorCode> {
    if validator.node_pubkey@ != caller {
        Err(ErrorCode::InvalidPDAAccount)
    } else if validator.status != NodeStatus::Active {
        Err(ErrorCode::InvalidNodeStatus)
    } else if validator.node_type != NodeType::Confidential {
        Err(ErrorCode::InvalidNodeType)
    } else if node.status != NodeStatus::AwaitingValidation {
        Err(ErrorCode::InvalidNodeStatus)
    } else if node.node_type != NodeType::Public {
        Err(ErrorCode::InvalidNodeType)
    } else {
        match validator.tee_signing_pubkey {
            None => Err(ErrorCode::InvalidTeeSignature),
            Some(tee_key) => match spec_verify_tee_result(instructions, current_index, tee_key@) {
                Err(e) => Err(e),
                Ok(msg) => if !spec_node_validation_message_ok(msg) {
                    Err(ErrorCode::InvalidValidatorMessage)
                } else if msg.subrange(0, 32) != node.node_pubkey@ {
                    Err(ErrorCode::InvalidComputeNodePubkey)
                } else {
                    Ok(msg[32] == 1)
                },
            },
        }
    }
}

/// The attested promotion path: a single active confidential validator
/// certifies a node claim by co-submitting a signed message naming the
/// claimed node and its verdict.  The declared signer key must be the
/// validator's registered TEE key.  Approval activates the node and
/// admits it to the public pool; rejection moves it to `Rejected`.
pub fn validate_compute_node(
    config: &mut NetworkConfig,
    validator: &NodeInfo,
    node: &mut NodeInfo,
    caller: &Key,
    instructions: &Vec<RawInstruction>,
    current_index: usize,
) -> (r: Result<(), ErrorCode>)
    ensures
        match r {
            Ok(()) => spec_validate_compute_node_result(
                *validator,
                *old(node),
                caller@,
                instructions@,
                current_index as int,
            ) is Ok,
            Err(e) => spec_validate_compute_node_result(
                *validator,
                *old(node),
                caller@,
                instructions@,
                current_index as int,
            ) == Err::<bool, ErrorCode>(e),
        },
        r is Ok && spec_validate_compute_node_result(
            *validator,
            *old(node),
            caller@,
            instructions@,
            current_index as int,
        ) == Ok::<bool, ErrorCode>(true) ==> *final(node) == (NodeInfo {
            status: NodeStatus::Active,
            ..*old(node)
        }) && *final(config) == (NetworkConfig {
            approved_public_nodes: final(config).approved_public_nodes,
            ..*old(config)
        }) && final(config).approved_public_nodes@ == spec_pool_after_add(
            old(config).approved_public_nodes@,
            old(node).node_pubkey,
        ),
        r is Ok && spec_validate_compute_node_result(
            *validator,
            *old(node),
            caller@,
            instructions@,
            current_index as int,
        ) == Ok::<bool, ErrorCode>(false) ==> *final(node) == (NodeInfo {
            status: NodeStatus::Rejected,
            ..*old(node)
        }) && *final(config) == *old(config),
        r is Err ==> *final(node) == *old(node) && *final(config) == *old(config),
{
    if !key_eq(&validator.node_pubkey, caller) {
        return Err(ErrorCode::InvalidPDAAccount);
    }
    if validator.status != NodeStatus::Active {
        return Err(ErrorCode::InvalidNodeStatus);
    }
    if validator.node_type != NodeType::Confidential {
        return Err(ErrorCode::InvalidNodeType);
    }
    if node.status != NodeStatus::AwaitingValidation {
        return Err(ErrorCode::InvalidNodeStatus);
    }
    if node.node_type != NodeType::Public {
        return Err(ErrorCode::InvalidNodeType);
    }
    let tee_key = match &validator.tee_signing_pubkey {
        None => {
            return Err(ErrorCode::InvalidTeeSignature);
        },
        Some(k) => *k,
    };
    let message_bytes = match verify_tee_signature(instructions, current_index, &tee_key) {
        Err(e) => {
            return Err(e);
        },
        Ok(m) => m,
    };
    let message = match parse_node_validation_message(message_bytes.as_slice()) {
        Err(e) => {
            return Err(e);
        },
        Ok(m) => m,
    };
    if !key_eq(&message.compute_node_pubkey, &node.node_pubkey) {
        return Err(ErrorCode::InvalidComputeNodePubkey);
    }
    if message.approved {
        node.status = NodeStatus::Active;
        let _ = config.add_public_node(node.node_pubkey);
    } else {
        node.status = NodeStatus::Rejected;
    }
    Ok(())
}

} // verus!
