//! The co-submitted signature-verification instruction.
//!
//! An attested certification must be bundled, in the same atomic
//! request, with an instruction for the platform's ed25519
//! signature-verification facility.  The platform itself checks the
//! signature; this module checks everything else: that the instruction
//! immediately precedes the certification call, that it addresses the
//! facility and carries no extra accounts, that the signer key it
//! declares — read out of its payload by the facility's documented
//! offset table — equals the validator's registered key, and that the
//! signed message decodes to the expected fixed little-endian layout.

use vstd::bytes::{spec_u16_from_le_bytes, spec_u64_from_le_bytes, u16_from_le_bytes,
    u64_from_le_bytes};
use vstd::prelude::*;
use vstd::slice::slice_subrange;

use crate::errors::ErrorCode;
use crate::hashing::bytes_from_slice;
use crate::keys::{key_eq, key_from_slice, Key};

verus! {

/// An instruction of the surrounding atomic request, as the platform
/// exposes it to the engine: which program it addresses, how many
/// accounts it names, and its payload.
#[derive(Clone, Debug)]
pub struct RawInstruction {
    pub program_id: Key,
    pub account_count: usize,
    pub data: Vec<u8>,
}

/// The identity of the platform's ed25519 signature-verification
/// facility.
pub open spec fn spec_ed25519_program_id() -> Seq<u8> {
    seq![
        3u8, 125, 70, 214, 124, 147, 251, 190, 18, 249, 66, 143, 131, 141, 64, 255, 5, 112, 116,
        73, 39, 244, 138, 100, 252, 202, 112, 68, 128, 0, 0, 0,
    ]
}

/// Build the facility's identity key.
pub fn ed25519_program_id() -> (r: Key)
    ensures
        r@ == spec_ed25519_program_id(),
{
    let v: Vec<u8> = vec![
        3u8, 125, 70, 214, 124, 147, 251, 190, 18, 249, 66, 143, 131, 141, 64, 255, 5, 112, 116,
        73, 39, 244, 138, 100, 252, 202, 112, 68, 128, 0, 0, 0,
    ];
    proof {
        assert(v@ =~= spec_ed25519_program_id());
    }
    crate::keys::key_from_vec(&v)
}

/// The offset table at the head of a facility instruction's payload:
/// seven little-endian 16-bit fields, starting at byte 2.
#[derive(Clone, Copy, Debug, PartialEq, Eq, Structural)]
pub struct SignatureOffsets {
    pub signature_offset: u16,
    pub signature_instruction_index: u16,
    pub public_key_offset: u16,
    pub public_key_instruction_index: u16,
    pub message_data_offset: u16,
    pub message_data_size: u16,
    pub message_instruction_index: u16,
}

/// The offset table as the documented layout reads it.
pub open spec fn spec_parse_offsets(data: Seq<u8>) -> SignatureOffsets
    recommends
        data.len() >= 16,
{
    SignatureOffsets {
        signature_offset: spec_u16_from_le_bytes(data.subrange(2, 4)),
        signature_instruction_index: spec_u16_from_le_bytes(data.subrange(4, 6)),
        public_key_offset: spec_u16_from_le_bytes(data.subrange(6, 8)),
        public_key_instruction_index: spec_u16_from_le_bytes(data.subrange(8, 10)),
        message_data_offset: spec_u16_from_le_bytes(data.subrange(10, 12)),
        message_data_size: spec_u16_from_le_bytes(data.subrange(12, 14)),
        message_instruction_index: spec_u16_from_le_bytes(data.subrange(14, 16)),
    }
}

/// Read the offset table out of a facility instruction's payload.
pub fn parse_signature_offsets(data: &[u8]) -> (r: SignatureOffsets)
    requires
        data@.len() >= 16,
    ensures
        r == spec_parse_offsets(data@),
{
    SignatureOffsets {
        signature_offset: u16_from_le_bytes(slice_subrange(data, 2, 4)),
        signature_instruction_index: u16_from_le_bytes(slice_subrange(data, 4, 6)),
        public_key_offset: u16_from_le_bytes(slice_subrange(data, 6, 8)),
        public_key_instruction_index: u16_from_le_bytes(slice_subrange(data, 8, 10)),
        message_data_offset: u16_from_le_bytes(slice_subrange(data, 10, 12)),
        message_data_size: u16_from_le_bytes(slice_subrange(data, 12, 14)),
        message_instruction_index: u16_from_le_bytes(slice_subrange(data, 14, 16)),
    }
}

/// What checking the co-submitted instruction yields: either the signed
/// message bytes, or the first reason the bundle is unacceptable.
pub open spec fn spec_verify_tee_result(
    instructions: Seq<RawInstruction>,
    current_index: int,
    expected_tee_pubkey: Seq<u8>,
) -> Result<Seq<u8>, ErrorCode> {
    if current_index <= 0 || current_index > instructions.len() {
        Err(ErrorCode::InvalidInstructionSysvar)
    } else {
        let ix = instructions[current_index - 1];
        if ix.program_id@ != spec_ed25519_program_id() {
            Err(ErrorCode::BadEd25519Program)
        } else if ix.account_count != 0 {
            Err(ErrorCode::BadEd25519Accounts)
        } else if ix.data@.len() < 16 {
            Err(ErrorCode::InvalidInstructionSysvar)
        } else {
            let offsets = spec_parse_offsets(ix.data@);
            let pk_off = offsets.public_key_offset as int;
            let msg_off = offsets.message_data_offset as int;
            let msg_len = offsets.message_data_size as int;
            if pk_off + 32 > ix.data@.len() || msg_off + msg_len > ix.data@.len() {
                Err(ErrorCode::InvalidInstructionSysvar)
            } else if ix.data@.subrange(pk_off, pk_off + 32) != expected_tee_pubkey {
                Err(ErrorCode::InvalidValidatorTeeSigningPubkey)
            } else {
                Ok(ix.data@.subrange(msg_off, msg_off + msg_len))
            }
        }
    }
}

/// Check the co-submitted signature-verification instruction and hand
/// back the message bytes it attests to.  The instruction must be the
/// one immediately before `current_index`, must address the ed25519
/// facility with no accounts, and must declare exactly the expected
/// signer key; a key that differs is refused whatever the message says.
pub fn verify_tee_signature(
    instructions: &Vec<RawInstruction>,
    current_index: usize,
    expected_tee_pubkey: &Key,
) -> (r: Result<Vec<u8>, ErrorCode>)
    ensures
        match r {
            Ok(msg) => spec_verify_tee_result(instructions@, current_index as int,
                expected_tee_pubkey@) == Ok::<Seq<u8>, ErrorCode>(msg@),
            Err(e) => spec_verify_tee_result(instructions@, current_index as int,
                expected_tee_pubkey@) == Err::<Seq<u8>, ErrorCode>(e),
        },
{
    if current_index == 0 || current_index > instructions.len() {
        return Err(ErrorCode::InvalidInstructionSysvar);
    }
    let ix = &instructions[current_index - 1];
    let facility_id = ed25519_program_id();
    if !key_eq(&ix.program_id, &facility_id) {
        return Err(ErrorCode::BadEd25519Program);
    }
    if ix.account_count != 0 {
        return Err(ErrorCode::BadEd25519Accounts);
    }
    if ix.data.len() < 16 {
        return Err(ErrorCode::InvalidInstructionSysvar);
    }
    let offsets = parse_signature_offsets(ix.data.as_slice());
    let pk_off = offsets.public_key_offset as usize;
    let msg_off = offsets.message_data_offset as usize;
    let msg_len = offsets.message_data_size as usize;
    if pk_off + 32 > ix.data.len() || msg_off + msg_len > ix.data.len() {
        return Err(ErrorCode::InvalidInstructionSysvar);
    }
    let declared_key = key_from_slice(ix.data.as_slice(), pk_off);
    if !key_eq(&declared_key, expected_tee_pubkey) {
        return Err(ErrorCode::InvalidValidatorTeeSigningPubkey);
    }
    Ok(bytes_from_slice(ix.data.as_slice(), msg_off, msg_len))
}

/// The message a validator signs to certify a task result: session and
/// task slot ids, the payment to release, the validation proof over the
/// pending input and output, the decision, and the completion flag.
#[derive(Clone, Debug)]
pub struct SubmitTaskValidationMessage {
    pub goal_id: u64,
    pub task_slot_id: u64,
    pub payment_amount: u64,
    pub validation_proof: [u8; 32],
    pub approved: bool,
    pub session_completed: bool,
}

/// Byte length of an encoded task-validation message.
pub const TASK_VALIDATION_MESSAGE_LEN: usize = 58;

/// True when the bytes are a well-formed task-validation message: long
/// enough, with one-byte booleans that are zero or one.
pub open spec fn spec_task_validation_message_ok(data: Seq<u8>) -> bool {
    data.len() >= 58 && (data[56] == 0 || data[56] == 1) && (data[57] == 0 || data[57] == 1)
}

/// Decode a task-validation message from its fixed little-endian
/// layout: three 64-bit counters, the 32-byte proof, two booleans.
pub fn parse_task_validation_message(data: &[u8]) -> (r: Result<
    SubmitTaskValidationMessage,
    ErrorCode,
>)
    ensures
        r is Ok <==> spec_task_validation_message_ok(data@),
        r is Err ==> r == Err::<SubmitTaskValidationMessage, ErrorCode>(
            ErrorCode::InvalidValidatorMessage,
        ),
        match r {
            Ok(m) => {
                &&& m.goal_id == spec_u64_from_le_bytes(data@.subrange(0, 8))
                &&& m.task_slot_id == spec_u64_from_le_bytes(data@.subrange(8, 16))
                &&& m.payment_amount == spec_u64_from_le_bytes(data@.subrange(16, 24))
                &&& m.validation_proof@ == data@.subrange(24, 56)
                &&& m.approved == (data@[56] == 1)
                &&& m.session_completed == (data@[57] == 1)
            },
            Err(_) => true,
        },
{
    if data.len() < TASK_VALIDATION_MESSAGE_LEN {
        return Err(ErrorCode::InvalidValidatorMessage);
    }
    let approved_byte = *vstd::slice::slice_index_get(data, 56);
    let completed_byte = *vstd::slice::slice_index_get(data, 57);
    if approved_byte > 1 || completed_byte > 1 {
        return Err(ErrorCode::InvalidValidatorMessage);
    }
    Ok(SubmitTaskValidationMessage {
        goal_id: u64_from_le_bytes(slice_subrange(data, 0, 8)),
        task_slot_id: u64_from_le_bytes(slice_subrange(data, 8, 16)),
        payment_amount: u64_from_le_bytes(slice_subrange(data, 16, 24)),
        validation_proof: key_from_slice(data, 24),
        approved: approved_byte == 1,
        session_completed: completed_byte == 1,
    })
}

/// The message a validator signs to certify a node claim: the claimed
/// node's identity and the decision.
#[derive(Clone, Debug)]
pub struct ValidateComputeNodeMessage {
    pub compute_node_pubkey: Key,
    pub approved: bool,
}

/// Byte length of an encoded node-validation message.
pub const NODE_VALIDATION_MESSAGE_LEN: usize = 33;

/// True when the bytes are a well-formed node-validation message.
pub open spec fn spec_node_validation_message_ok(data: Seq<u8>) -> bool {
    data.len() >= 33 && (data[32] == 0 || data[32] == 1)
}

/// Decode a node-validation message: the 32-byte node identity, then a
/// one-byte boolean.
pub fn parse_node_validation_message(data: &[u8]) -> (r: Result<
    ValidateComputeNodeMessage,
    ErrorCode,
>)
    ensures
        r is Ok <==> spec_node_validation_message_ok(data@),
        r is Err ==> r == Err::<ValidateComputeNodeMessage, ErrorCode>(
            ErrorCode::InvalidValidatorMessage,
        ),
        match r {
            Ok(m) => m.compute_node_pubkey@ == data@.subrange(0, 32) && m.approved == (data@[32]
                == 1),
            Err(_) => true,
        },
{
    if data.len() < NODE_VALIDATION_MESSAGE_LEN {
        return Err(ErrorCode::InvalidValidatorMessage);
    }
    let approved_byte = *vstd::slice::slice_index_get(data, 32);
    if approved_byte > 1 {
        return Err(ErrorCode::InvalidValidatorMessage);
    }
    Ok(ValidateComputeNodeMessage {
        compute_node_pubkey: key_from_slice(data, 0),
        approved: approved_byte == 1,
    })
}

} // verus!
