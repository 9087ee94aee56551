//! Core engine of a decentralized compute marketplace.
//!
//! Client-funded sessions (multi-iteration units of work) are executed by
//! compute nodes and paid from a share-based escrow, but only after the
//! result is certified: either by a TEE-attested signature or by a quorum
//! of independent validator nodes.  This crate holds the record types, the
//! node / agent / session / task state machines, the share accounting, the
//! hash-chained audit proofs, and the attested-message protocol, each with
//! a machine-checked contract.  Platform concerns (account storage, native
//! transfers, transaction plumbing) stay outside; the operations here take
//! the records and balances as plain values and state exactly how they
//! change.

pub mod addresses;
pub mod agent;
pub mod agent_ops;
pub mod ed25519;
pub mod errors;
pub mod hashing;
pub mod keys;
pub mod laws;
pub mod network_config;
pub mod network_ops;
pub mod node_info;
pub mod node_ops;
pub mod semver;
pub mod session;
pub mod session_ops;
pub mod shares;
pub mod task;
pub mod task_ops;
pub mod utils;
