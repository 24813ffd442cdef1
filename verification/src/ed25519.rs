//! Proof that the native Ed25519 program verified one given signature.
//!
//! Nothing here performs cryptography. The runtime aborts a transaction
//! whose native verification instruction fails, so it is enough to show that
//! the instruction directly before the current one is such an instruction
//! and that it carries exactly the signature, key and message expected.

use vstd::prelude::*;
use crate::bytes::{bytes_equal, spec_u16_le, u16_from_le};
use crate::errors::PredicateRegistryError;
use crate::native::{
    ed25519_program_id, instructions_sysvar_id, load_current_index, load_instruction_at,
    spec_ed25519_program_id, spec_instructions_sysvar_id, sysvar_instruction_at, Instruction,
    InstructionView,
};
use crate::pubkey::Pubkey;

verus! {

/// Length of the header of the native instruction's data.
pub const HEADER_LEN: usize = 16;

/// Length of an Ed25519 signature.
pub const SIG_LEN: usize = 64;

/// Length of an Ed25519 public key.
pub const PUBKEY_LEN: usize = 32;

/// Length of the digest that is signed.
pub const MESSAGE_LEN: usize = 32;

/// The instruction index by which the native program names the instruction
/// that holds the header itself.
pub const INSTRUCTION_INDEX_CURRENT: u16 = 0xFFFF;

/// The header of the native instruction's data, for one signature.
#[derive(Clone, Copy, Debug, PartialEq, Eq, Structural)]
pub struct SignatureOffsets {
    pub num_signatures: u8,
    pub signature_offset: u16,
    pub signature_instruction_index: u16,
    pub public_key_offset: u16,
    pub public_key_instruction_index: u16,
    pub message_data_offset: u16,
    pub message_data_size: u16,
    pub message_instruction_index: u16,
}

/// The account through which the runtime shows the instructions of the
/// current transaction: its address and its data.
#[derive(Clone, Debug, PartialEq, Eq)]
pub struct InstructionsSysvar {
    pub key: Pubkey,
    pub data: Vec<u8>,
}

/// The little-endian number at `data[at]`, `data[at + 1]`.
pub open spec fn spec_u16_at(data: Seq<u8>, at: int) -> int {
    spec_u16_le(data[at], data[at + 1])
}

/// The header that the first sixteen bytes of `data` spell.
pub open spec fn spec_parse_offsets(data: Seq<u8>) -> Option<SignatureOffsets> {
    if data.len() < 16 {
        None
    } else {
        Some(
            SignatureOffsets {
                num_signatures: data[0],
                signature_offset: spec_u16_at(data, 2) as u16,
                signature_instruction_index: spec_u16_at(data, 4) as u16,
                public_key_offset: spec_u16_at(data, 6) as u16,
                public_key_instruction_index: spec_u16_at(data, 8) as u16,
                message_data_offset: spec_u16_at(data, 10) as u16,
                message_data_size: spec_u16_at(data, 12) as u16,
                message_instruction_index: spec_u16_at(data, 14) as u16,
            },
        )
    }
}

impl SignatureOffsets {
    /// Whether the header describes one signature whose three parts lie in
    /// the same instruction, behind the header and inside `len` bytes, with
    /// a message of the digest's length.
    pub open spec fn spec_well_placed(self, len: int) -> bool {
        &&& self.num_signatures == 1
        &&& self.signature_instruction_index == 0xFFFF
        &&& self.public_key_instruction_index == 0xFFFF
        &&& self.message_instruction_index == 0xFFFF
        &&& self.signature_offset >= 16
        &&& self.public_key_offset >= 16
        &&& self.message_data_offset >= 16
        &&& self.signature_offset + 64 <= len
        &&& self.public_key_offset + 32 <= len
        &&& self.message_data_offset + self.message_data_size <= len
        &&& self.message_data_size == 32
    }

    /// Reads the header from the start of `data`; `None` when `data` is
    /// shorter than the header.
    pub fn parse(data: &[u8]) -> (header: Option<SignatureOffsets>)
        ensures
            header == spec_parse_offsets(data@),
    {
        if data.len() < HEADER_LEN {
            return None;
        }
        Some(
            SignatureOffsets {
                num_signatures: data[0],
                signature_offset: u16_from_le(data[2], data[3]),
                signature_instruction_index: u16_from_le(data[4], data[5]),
                public_key_offset: u16_from_le(data[6], data[7]),
                public_key_instruction_index: u16_from_le(data[8], data[9]),
                message_data_offset: u16_from_le(data[10], data[11]),
                message_data_size: u16_from_le(data[12], data[13]),
                message_instruction_index: u16_from_le(data[14], data[15]),
            },
        )
    }

    /// Whether the header is well placed in data of `len` bytes.
    pub fn well_placed(&self, len: usize) -> (ok: bool)
        ensures
            ok == self.spec_well_placed(len as int),
    {
        self.num_signatures == 1 && self.signature_instruction_index == INSTRUCTION_INDEX_CURRENT
            && self.public_key_instruction_index == INSTRUCTION_INDEX_CURRENT
            && self.message_instruction_index == INSTRUCTION_INDEX_CURRENT
            && self.signature_offset as usize >= HEADER_LEN && self.public_key_offset as usize
            >= HEADER_LEN && self.message_data_offset as usize >= HEADER_LEN && len
            >= self.signature_offset as usize + SIG_LEN && len >= self.public_key_offset as usize
            + PUBKEY_LEN && len >= self.message_data_offset as usize
            + self.message_data_size as usize && self.message_data_size as usize == MESSAGE_LEN
    }
}

/// Whether `instruction` is a call of the native Ed25519 program, without
/// accounts, that verified exactly `signature` by `pubkey` over `message`.
pub open spec fn spec_instruction_proves(
    instruction: InstructionView,
    signature: Seq<u8>,
    pubkey: Seq<u8>,
    message: Seq<u8>,
) -> bool {
    &&& instruction.program_id == spec_ed25519_program_id()
    &&& instruction.accounts.len() == 0
    &&& match spec_parse_offsets(instruction.data) {
        None => false,
        Some(header) => {
            &&& header.spec_well_placed(instruction.data.len() as int)
            &&& instruction.data.subrange(
                header.signature_offset as int,
                header.signature_offset + 64,
            ) == signature
            &&& instruction.data.subrange(
                header.public_key_offset as int,
                header.public_key_offset + 32,
            ) == pubkey
            &&& instruction.data.subrange(
                header.message_data_offset as int,
                header.message_data_offset + 32,
            ) == message
        },
    }
}

/// What [`check_ed25519_instruction`] returns.
pub open spec fn spec_check_ed25519_instruction(
    instruction: InstructionView,
    signature: Seq<u8>,
    pubkey: Seq<u8>,
    message: Seq<u8>,
) -> Result<(), PredicateRegistryError> {
    if spec_instruction_proves(instruction, signature, pubkey, message) {
        Ok(())
    } else {
        Err(PredicateRegistryError::InvalidSignature)
    }
}

/// The index of the current instruction that the sysvar's data ends with.
pub open spec fn spec_current_index(data: Seq<u8>) -> int
    recommends
        data.len() >= 2,
{
    spec_u16_le(data[data.len() - 2], data[data.len() - 1])
}

/// What [`verify_ed25519_signature`] returns.
pub open spec fn spec_verify_ed25519_signature(
    signature: Seq<u8>,
    pubkey: Seq<u8>,
    message: Seq<u8>,
    sysvar_key: Seq<u8>,
    sysvar_data: Seq<u8>,
) -> Result<(), PredicateRegistryError> {
    if sysvar_key != spec_instructions_sysvar_id() || sysvar_data.len() < 2 {
        Err(PredicateRegistryError::InvalidAccountData)
    } else if spec_current_index(sysvar_data) == 0 {
        Err(PredicateRegistryError::InvalidSignature)
    } else {
        match sysvar_instruction_at(sysvar_key, sysvar_data, spec_current_index(sysvar_data) - 1) {
            None => Err(PredicateRegistryError::InvalidSignature),
            Some(previous) => spec_check_ed25519_instruction(previous, signature, pubkey, message),
        }
    }
}

/// Checks that `instruction` is the native verification of exactly this
/// signature, key and message: the program is the native Ed25519 program,
/// the instruction names no account, its header describes one signature
/// held in the instruction itself behind the header, the message has the
/// digest's length, and the three regions equal the expected bytes. Any
/// failure is `InvalidSignature`.
pub fn check_ed25519_instruction(
    instruction: &Instruction,
    signature: &[u8; 64],
    pubkey: &[u8; 32],
    message: &[u8; 32],
) -> (result: Result<(), PredicateRegistryError>)
    ensures
        result == spec_check_ed25519_instruction(instruction@, signature@, pubkey@, message@),
{
    let native = ed25519_program_id();
    if instruction.program_id != native {
        return Err(PredicateRegistryError::InvalidSignature);
    }
    if instruction.accounts.len() != 0 {
        return Err(PredicateRegistryError::InvalidSignature);
    }
    let data = instruction.data.as_slice();
    let header = match SignatureOffsets::parse(data) {
        Some(header) => header,
        None => {
            return Err(PredicateRegistryError::InvalidSignature);
        },
    };
    if !header.well_placed(data.len()) {
        return Err(PredicateRegistryError::InvalidSignature);
    }
    let sig_offset = header.signature_offset as usize;
    let pubkey_offset = header.public_key_offset as usize;
    let msg_offset = header.message_data_offset as usize;
    let sig_slice = vstd::slice::slice_subrange(data, sig_offset, sig_offset + SIG_LEN);
    let pubkey_slice = vstd::slice::slice_subrange(data, pubkey_offset, pubkey_offset + PUBKEY_LEN);
    let msg_slice = vstd::slice::slice_subrange(data, msg_offset, msg_offset + MESSAGE_LEN);
    if !bytes_equal(sig_slice, signature.as_slice()) {
        return Err(PredicateRegistryError::InvalidSignature);
    }
    if !bytes_equal(pubkey_slice, pubkey.as_slice()) {
        return Err(PredicateRegistryError::InvalidSignature);
    }
    if !bytes_equal(msg_slice, message.as_slice()) {
        return Err(PredicateRegistryError::InvalidSignature);
    }
    Ok(())
}

/// Confirms that the instruction directly before the current one is the
/// native verification of exactly this signature, key and message.
///
/// Fails with `InvalidAccountData` when the account given is not the
/// instructions sysvar or is too short to hold the current index; with
/// `InvalidSignature` when the current instruction is the first of the
/// transaction, when the instruction before it cannot be read, or when
/// [`check_ed25519_instruction`] refuses it.
pub fn verify_ed25519_signature(
    signature: &[u8; 64],
    pubkey: &[u8; 32],
    message: &[u8; 32],
    instructions_sysvar: &InstructionsSysvar,
) -> (result: Result<(), PredicateRegistryError>)
    ensures
        result == spec_verify_ed25519_signature(
            signature@,
            pubkey@,
            message@,
            instructions_sysvar.key@,
            instructions_sysvar.data@,
        ),
{
    let expected = instructions_sysvar_id();
    if instructions_sysvar.key != expected {
        return Err(PredicateRegistryError::InvalidAccountData);
    }
    if instructions_sysvar.data.len() < 2 {
        return Err(PredicateRegistryError::InvalidAccountData);
    }
    let current_index = match load_current_index(&instructions_sysvar.key, &instructions_sysvar.data) {
        Some(index) => index,
        None => {
            return Err(PredicateRegistryError::InvalidAccountData);
        },
    };
    if current_index == 0 {
        return Err(PredicateRegistryError::InvalidSignature);
    }
    let previous = match load_instruction_at(
        (current_index - 1) as usize,
        &instructions_sysvar.key,
        &instructions_sysvar.data,
    ) {
        Some(instruction) => instruction,
        None => {
            return Err(PredicateRegistryError::InvalidSignature);
        },
    };
    check_ed25519_instruction(&previous, signature, pubkey, message)
}

/// Tamper detection: an instruction proves at most one triple of signature,
/// key and message. If it proves one, then the check with any other triple
/// of the same lengths fails with `InvalidSignature`; in particular after a
/// change of any single byte of the signature, the key or the digest.
pub proof fn lemma_tamper_detected(
    instruction: InstructionView,
    signature: Seq<u8>,
    pubkey: Seq<u8>,
    message: Seq<u8>,
    other_signature: Seq<u8>,
    other_pubkey: Seq<u8>,
    other_message: Seq<u8>,
)
    requires
        spec_check_ed25519_instruction(instruction, signature, pubkey, message) is Ok,
        other_signature != signature || other_pubkey != pubkey || other_message != message,
    ensures
        spec_check_ed25519_instruction(instruction, other_signature, other_pubkey, other_message)
            == Err::<(), PredicateRegistryError>(PredicateRegistryError::InvalidSignature),
{
}

/// Tamper detection through the sysvar: with the transaction unchanged, a
/// proof that succeeds for one triple fails with `InvalidSignature` for
/// every other triple.
pub proof fn lemma_tamper_detected_in_transaction(
    sysvar_key: Seq<u8>,
    sysvar_data: Seq<u8>,
    signature: Seq<u8>,
    pubkey: Seq<u8>,
    message: Seq<u8>,
    other_signature: Seq<u8>,
    other_pubkey: Seq<u8>,
    other_message: Seq<u8>,
)
    requires
        spec_verify_ed25519_signature(signature, pubkey, message, sysvar_key, sysvar_data) is Ok,
        other_signature != signature || other_pubkey != pubkey || other_message != message,
    ensures
        spec_verify_ed25519_signature(
            other_signature,
            other_pubkey,
            other_message,
            sysvar_key,
            sysvar_data,
        ) == Err::<(), PredicateRegistryError>(PredicateRegistryError::InvalidSignature),
{
}

} // verus!
