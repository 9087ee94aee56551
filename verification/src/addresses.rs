//! Deterministic record addresses.
//!
//! Every persisted record is addressed by the SHA-256 digest of a fixed
//! namespace tag followed by the fields that identify the record.  Writers
//! and readers recompute the same address from the same inputs, so no
//! central index is needed.  Slot ids enter the preimage in little-endian
//! byte order.

use vstd::prelude::*;

use crate::hashing::{push_bytes, push_u64_le, sha256, sha256_of};
use crate::keys::Key;

verus! {

pub open spec fn spec_network_config_tag() -> Seq<u8> {
    seq![100u8, 97, 99, 95, 110, 101, 116, 119, 111, 114, 107, 95, 99, 111, 110, 102, 105, 103]
}

pub open spec fn spec_node_info_tag() -> Seq<u8> {
    seq![110u8, 111, 100, 101, 95, 105, 110, 102, 111]
}

pub open spec fn spec_node_treasury_tag() -> Seq<u8> {
    seq![110u8, 111, 100, 101, 95, 116, 114, 101, 97, 115, 117, 114, 121]
}

pub open spec fn spec_agent_tag() -> Seq<u8> {
    seq![97u8, 103, 101, 110, 116]
}

pub open spec fn spec_session_tag() -> Seq<u8> {
    seq![115u8, 101, 115, 115, 105, 111, 110]
}

pub open spec fn spec_session_vault_tag() -> Seq<u8> {
    seq![115u8, 101, 115, 115, 105, 111, 110, 95, 118, 97, 117, 108, 116]
}

pub open spec fn spec_task_tag() -> Seq<u8> {
    seq![116u8, 97, 115, 107]
}

pub open spec fn spec_contribution_tag() -> Seq<u8> {
    seq![99u8, 111, 110, 116, 114, 105, 98, 117, 116, 105, 111, 110]
}

/// Address of the network configuration record of the given authority.
pub open spec fn spec_network_config_address(authority: Seq<u8>) -> Seq<u8> {
    sha256_of(spec_network_config_tag() + authority)
}

/// Address of the node record of the given node identity.
pub open spec fn spec_node_info_address(node_pubkey: Seq<u8>) -> Seq<u8> {
    sha256_of(spec_node_info_tag() + node_pubkey)
}

/// Address of the treasury holding of the node record at `node_info`.
pub open spec fn spec_node_treasury_address(node_info: Seq<u8>) -> Seq<u8> {
    sha256_of(spec_node_treasury_tag() + node_info)
}

/// Address of an agent record by configuration address and slot id.
pub open spec fn spec_agent_address(network_config: Seq<u8>, agent_slot_id: u64) -> Seq<u8> {
    sha256_of(spec_agent_tag() + network_config + vstd::bytes::spec_u64_to_le_bytes(agent_slot_id))
}

/// Address of a session record by configuration address and slot id.
pub open spec fn spec_session_address(network_config: Seq<u8>, session_slot_id: u64) -> Seq<u8> {
    sha256_of(
        spec_session_tag() + network_config + vstd::bytes::spec_u64_to_le_bytes(session_slot_id),
    )
}

/// Address of the escrow vault of the session record at `session`.
pub open spec fn spec_session_vault_address(session: Seq<u8>) -> Seq<u8> {
    sha256_of(spec_session_vault_tag() + session)
}

/// Address of a task record by configuration address and slot id.
pub open spec fn spec_task_address(network_config: Seq<u8>, task_slot_id: u64) -> Seq<u8> {
    sha256_of(spec_task_tag() + network_config + vstd::bytes::spec_u64_to_le_bytes(task_slot_id))
}

/// Address of a contribution record by session address and contributor.
pub open spec fn spec_contribution_address(session: Seq<u8>, contributor: Seq<u8>) -> Seq<u8> {
    sha256_of(spec_contribution_tag() + session + contributor)
}

fn tagged_key_address(tag: Vec<u8>, part: &Key) -> (r: Key)
    ensures
        r@ == sha256_of(tag@ + part@),
{
    let mut preimage = tag;
    push_bytes(&mut preimage, part.as_slice());
    sha256(preimage.as_slice())
}

fn tagged_key_u64_address(tag: Vec<u8>, part: &Key, slot_id: u64) -> (r: Key)
    ensures
        r@ == sha256_of(tag@ + part@ + vstd::bytes::spec_u64_to_le_bytes(slot_id)),
{
    let mut preimage = tag;
    push_bytes(&mut preimage, part.as_slice());
    push_u64_le(&mut preimage, slot_id);
    sha256(preimage.as_slice())
}

/// Compute the address of the network configuration record.
pub fn network_config_address(authority: &Key) -> (r: Key)
    ensures
        r@ == spec_network_config_address(authority@),
{
    let tag: Vec<u8> = vec![
        100u8, 97, 99, 95, 110, 101, 116, 119, 111, 114, 107, 95, 99, 111, 110, 102, 105, 103,
    ];
    proof {
        assert(tag@ =~= spec_network_config_tag());
    }
    tagged_key_address(tag, authority)
}

/// Compute the address of a node record.
pub fn node_info_address(node_pubkey: &Key) -> (r: Key)
    ensures
        r@ == spec_node_info_address(node_pubkey@),
{
    let tag: Vec<u8> = vec![110u8, 111, 100, 101, 95, 105, 110, 102, 111];
    proof {
        assert(tag@ =~= spec_node_info_tag());
    }
    tagged_key_address(tag, node_pubkey)
}

/// Compute the address of a node's treasury holding.
pub fn node_treasury_address(node_info: &Key) -> (r: Key)
    ensures
        r@ == spec_node_treasury_address(node_info@),
{
    let tag: Vec<u8> = vec![110u8, 111, 100, 101, 95, 116, 114, 101, 97, 115, 117, 114, 121];
    proof {
        assert(tag@ =~= spec_node_treasury_tag());
    }
    tagged_key_address(tag, node_info)
}

/// Compute the address of an agent record.
pub fn agent_address(network_config: &Key, agent_slot_id: u64) -> (r: Key)
    ensures
        r@ == spec_agent_address(network_config@, agent_slot_id),
{
    let tag: Vec<u8> = vec![97u8, 103, 101, 110, 116];
    proof {
        assert(tag@ =~= spec_agent_tag());
    }
    tagged_key_u64_address(tag, network_config, agent_slot_id)
}

/// Compute the address of a session record.
pub fn session_address(network_config: &Key, session_slot_id: u64) -> (r: Key)
    ensures
        r@ == spec_session_address(network_config@, session_slot_id),
{
    let tag: Vec<u8> = vec![115u8, 101, 115, 115, 105, 111, 110];
    proof {
        assert(tag@ =~= spec_session_tag());
    }
    tagged_key_u64_address(tag, network_config, session_slot_id)
}

/// Compute the address of a session's escrow vault.
pub fn session_vault_address(session: &Key) -> (r: Key)
    ensures
        r@ == spec_session_vault_address(session@),
{
    let tag: Vec<u8> = vec![115u8, 101, 115, 115, 105, 111, 110, 95, 118, 97, 117, 108, 116];
    proof {
        assert(tag@ =~= spec_session_vault_tag());
    }
    tagged_key_address(tag, session)
}

/// Compute the address of a task record.
pub fn task_address(network_config: &Key, task_slot_id: u64) -> (r: Key)
    ensures
        r@ == spec_task_address(network_config@, task_slot_id),
{
    let tag: Vec<u8> = vec![116u8, 97, 115, 107];
    proof {
        assert(tag@ =~= spec_task_tag());
    }
    tagged_key_u64_address(tag, network_config, task_slot_id)
}

/// Compute the address of a contribution record.
pub fn contribution_address(session: &Key, contributor: &Key) -> (r: Key)
    ensures
        r@ == spec_contribution_address(session@, contributor@),
{
    let tag: Vec<u8> = vec![99u8, 111, 110, 116, 114, 105, 98, 117, 116, 105, 111, 110];
    proof {
        assert(tag@ =~= spec_contribution_tag());
    }
    let mut preimage = tag;
    push_bytes(&mut preimage, session.as_slice());
    push_bytes(&mut preimage, contributor.as_slice());
    sha256(preimage.as_slice())
}

} // verus!
