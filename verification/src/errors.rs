//! The error taxonomy shared by every operation of the engine.

use vstd::prelude::*;

verus! {

/// Why an operation was refused.  Every operation is atomic: when it
/// returns an error, no record it was handed has been changed.
#[derive(Clone, Copy, Debug, PartialEq, Eq, Structural)]
pub enum ErrorCode {
    Overflow,
    MissingAccount,
    NeedAtLeastOneCodeMeasurement,
    TooManyCodeMeasurements,
    InvalidPDAAccount,
    AccountAlreadyInitialized,
    InvalidNodeType,
    InvalidNodeStatus,
    InvalidTeeSignature,
    CodeMeasurementNotApproved,
    NodeAlreadyRegistered,
    InvalidInstructionSysvar,
    BadEd25519Program,
    BadEd25519Accounts,
    InvalidValidatorTeeSigningPubkey,
    InvalidComputeNodePubkey,
    Underflow,
    InsufficientBalance,
    DepositTooSmall,
    InvalidSessionOwner,
    InvalidTaskStatus,
    InvalidAgentStatus,
    VaultHasLeftoverFunds,
    InvalidValidatorMessage,
    InvalidCID,
    InvalidAuthority,
    DuplicateValidation,
    NoApprovedNodes,
    ValidatorNotAssigned,
    NotEnoughValidators,
    InvalidSession,
    InvalidSessionStatus,
    RewardVectorFull,
}

} // verus!
