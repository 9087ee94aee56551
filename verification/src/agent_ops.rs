//! The agent approval workflow: create a configuration, vote it active.

use vstd::prelude::*;

use crate::agent::{Agent, AgentStatus};
use crate::errors::ErrorCode;
use crate::keys::{key_eq, Key};
use crate::network_config::{pool_contains, spec_pool_contains, NetworkConfig};
use crate::node_info::{NodeInfo, NodeStatus};
use crate::node_ops::MAX_CID_LEN;

verus! {

/// Why creating an agent is refused, if it is.
pub open spec fn spec_create_agent_result(config: NetworkConfig, cid_len: int) -> Result<
    (),
    ErrorCode,
> {
    if cid_len > MAX_CID_LEN {
        Err(ErrorCode::InvalidCID)
    } else if config.agent_count == u64::MAX {
        Err(ErrorCode::Overflow)
    } else {
        Ok(())
    }
}

/// Create an agent record in `Pending` at the next agent slot, and
/// advance the agent counter.
pub fn create_agent(config: &mut NetworkConfig, owner: &Key, agent_config_cid: Vec<u8>) -> (r:
    Result<Agent, ErrorCode>)
    ensures
        match r {
            Ok(agent) => {
                &&& spec_create_agent_result(*old(config), agent_config_cid@.len() as int)
                    is Ok
                &&& agent.agent_slot_id == old(config).agent_count
                &&& agent.owner == *owner
                &&& agent.status == AgentStatus::Pending
                &&& agent.agent_config_cid == agent_config_cid
                &&& agent.agent_memory_cid is None
                &&& agent.approved_validators@ == Seq::<Key>::empty()
                &&& agent.rejected_validators@ == Seq::<Key>::empty()
                &&& *final(config) == (NetworkConfig {
                    agent_count: (old(config).agent_count + 1) as u64,
                    ..*old(config)
                })
            },
            Err(e) => spec_create_agent_result(*old(config), agent_config_cid@.len() as int)
                == Err::<(), ErrorCode>(e) && *final(config) == *old(config),
        },
{
    if agent_config_cid.len() > MAX_CID_LEN {
        return Err(ErrorCode::InvalidCID);
    }
    let agent_slot_id = config.next_agent_slot_id();
    if let Err(e) = config.increment_agent_count() {
        return Err(e);
    }
    Ok(
        Agent {
            agent_slot_id,
            owner: *owner,
            status: AgentStatus::Pending,
            agent_config_cid,
            agent_memory_cid: None,
            approved_validators: Vec::new(),
            rejected_validators: Vec::new(),
        },
    )
}

/// Why an agent-approval vote is refused, if it is.
pub open spec fn spec_validate_agent_result(
    agent: Agent,
    validator: NodeInfo,
    caller: Seq<u8>,
) -> Result<(), ErrorCode> {
    if validator.node_pubkey@ != caller {
        Err(ErrorCode::InvalidPDAAccount)
    } else if agent.status != AgentStatus::Pending {
        Err(ErrorCode::InvalidAgentStatus)
    } else if validator.status != NodeStatus::Active {
        Err(ErrorCode::InvalidNodeStatus)
    } else if spec_pool_contains(agent.approved_validators@, caller) || spec_pool_contains(
        agent.rejected_validators@,
        caller,
    ) {
        Err(ErrorCode::DuplicateValidation)
    } else {
        Ok(())
    }
}

/// One approval vote on a pending agent, by an active node that has
/// not voted on it before.  Reaching the quorum of approvals moves the
/// agent to `Active`.
pub fn validate_agent(
    agent: &mut Agent,
    validator: &NodeInfo,
    config: &NetworkConfig,
    caller: &Key,
) -> (r: Result<(), ErrorCode>)
    ensures
        r == spec_validate_agent_result(*old(agent), *validator, caller@),
        r is Ok && old(agent).approved_validators@.len() + 1 >= config.required_validations
            ==> *final(agent) == (Agent {
            approved_validators: final(agent).approved_validators,
            status: AgentStatus::Active,
            ..*old(agent)
        }) && final(agent).approved_validators@ == old(agent).approved_validators@.push(*caller),
        r is Ok && old(agent).approved_validators@.len() + 1 < config.required_validations
            ==> *final(agent) == (Agent {
            approved_validators: final(agent).approved_validators,
            ..*old(agent)
        }) && final(agent).approved_validators@ == old(agent).approved_validators@.push(*caller),
        r is Err ==> *final(agent) == *old(agent),
{
    if !key_eq(&validator.node_pubkey, caller) {
        return Err(ErrorCode::InvalidPDAAccount);
    }
    if agent.status != AgentStatus::Pending {
        return Err(ErrorCode::InvalidAgentStatus);
    }
    if validator.status != NodeStatus::Active {
        return Err(ErrorCode::InvalidNodeStatus);
    }
    if pool_contains(&agent.approved_validators, caller) || pool_contains(
        &agent.rejected_validators,
        caller,
    ) {
        return Err(ErrorCode::DuplicateValidation);
    }
    agent.approved_validators.push(*caller);
    let approved_count = agent.approved_validators.len();
    if approved_count >= config.required_validations as usize {
        agent.status = AgentStatus::Active;
    }
    Ok(())
}

} // verus!
