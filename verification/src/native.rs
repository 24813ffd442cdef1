//! What the library takes from the platform's own crates: the SHA-256
//! digest, the hexadecimal spelling of bytes, the addresses of the native
//! Ed25519 program and of the instructions sysvar, and the decoding of the
//! instructions sysvar's data.
//!
//! Every function here that is marked `external_body` is believed by its
//! contract, not proved.

use vstd::prelude::*;
use crate::bytes::spec_u16_le;
use crate::pubkey::Pubkey;

verus! {

/// Metadata of one account that an instruction names.
#[derive(Clone, Copy, Debug, PartialEq, Eq)]
pub struct AccountMeta {
    pub pubkey: Pubkey,
    pub is_signer: bool,
    pub is_writable: bool,
}

/// One instruction of a transaction, as the runtime shows it.
#[derive(Clone, Debug, PartialEq, Eq)]
pub struct Instruction {
    /// The program that executes the instruction.
    pub program_id: Pubkey,
    /// The accounts handed to the program.
    pub accounts: Vec<AccountMeta>,
    /// The data handed to the program.
    pub data: Vec<u8>,
}

/// The mathematical content of an [`Instruction`].
pub struct InstructionView {
    pub program_id: Seq<u8>,
    pub accounts: Seq<AccountMeta>,
    pub data: Seq<u8>,
}

impl View for Instruction {
    type V = InstructionView;

    open spec fn view(&self) -> InstructionView {
        InstructionView {
            program_id: self.program_id@,
            accounts: self.accounts@,
            data: self.data@,
        }
    }
}

/// The content of an instruction that may be absent.
pub open spec fn spec_loaded(loaded: Option<Instruction>) -> Option<InstructionView> {
    match loaded {
        Some(instruction) => Some(instruction@),
        None => None,
    }
}

/// The address of the native Ed25519 signature-verification program
/// (`Ed25519SigVerify111111111111111111111111111`).
pub open spec fn spec_ed25519_program_id() -> Seq<u8> {
    seq![
        3u8, 125, 70, 214, 124, 147, 251, 190, 18, 249, 66, 143, 131, 141, 64, 255,
        5, 112, 116, 73, 39, 244, 138, 100, 252, 202, 112, 68, 128, 0, 0, 0,
    ]
}

/// The address of the instructions sysvar
/// (`Sysvar1nstructions1111111111111111111111111`).
pub open spec fn spec_instructions_sysvar_id() -> Seq<u8> {
    seq![
        6u8, 167, 213, 23, 24, 123, 209, 102, 53, 218, 212, 4, 85, 253, 194, 192,
        193, 36, 198, 143, 33, 86, 117, 165, 219, 186, 203, 95, 8, 0, 0, 0,
    ]
}

/// The SHA-256 digest of `data`.
pub uninterp spec fn sha256_digest(data: Seq<u8>) -> Seq<u8>;

/// The instruction at position `index` of the transaction whose
/// instructions sysvar has address `key` and data `data`, if the runtime's
/// decoder finds one.
pub uninterp spec fn sysvar_instruction_at(key: Seq<u8>, data: Seq<u8>, index: int) -> Option<
    InstructionView,
>;

/// The address of the account that holds the upgrade metadata of the
/// program at address `program`: the address that the upgradeable loader
/// derives from the program's address, if the derivation finds one.
pub uninterp spec fn derived_program_data_address(program: Seq<u8>) -> Option<Seq<u8>>;

/// The bytes of a principal that may be absent.
pub open spec fn spec_key_bytes(key: Option<Pubkey>) -> Option<Seq<u8>> {
    match key {
        Some(key) => Some(key@),
        None => None,
    }
}

/// The lowercase hexadecimal digit of a number below 16.
pub open spec fn spec_hex_digit(nibble: int) -> char {
    if nibble == 0 {
        '0'
    } else if nibble == 1 {
        '1'
    } else if nibble == 2 {
        '2'
    } else if nibble == 3 {
        '3'
    } else if nibble == 4 {
        '4'
    } else if nibble == 5 {
        '5'
    } else if nibble == 6 {
        '6'
    } else if nibble == 7 {
        '7'
    } else if nibble == 8 {
        '8'
    } else if nibble == 9 {
        '9'
    } else if nibble == 10 {
        'a'
    } else if nibble == 11 {
        'b'
    } else if nibble == 12 {
        'c'
    } else if nibble == 13 {
        'd'
    } else if nibble == 14 {
        'e'
    } else {
        'f'
    }
}

/// The lowercase hexadecimal spelling of `bytes`: two digits for each byte,
/// the high half first.
pub open spec fn spec_hex(bytes: Seq<u8>) -> Seq<char> {
    Seq::new(
        2 * bytes.len(),
        |i: int|
            if i % 2 == 0 {
                spec_hex_digit(bytes[i / 2] as int / 16)
            } else {
                spec_hex_digit(bytes[i / 2] as int % 16)
            },
    )
}

/// Calls `solana_program::hash::hash`, which is SHA-256 of the bytes given.
/// Claimed: the 32 bytes returned are the digest of exactly those bytes.
#[verifier::external_body]
pub(crate) fn sha256(data: &[u8]) -> (digest: [u8; 32])
    ensures
        digest@ == sha256_digest(data@),
{
    anchor_lang::solana_program::hash::hash(data).to_bytes()
}

/// Calls `hex::encode`. Claimed: the string is the lowercase hexadecimal
/// spelling of the bytes, two digits for each.
#[verifier::external_body]
pub(crate) fn hex_encode(bytes: &[u8]) -> (text: String)
    ensures
        text@ == spec_hex(bytes@),
{
    hex::encode(bytes)
}

/// Reads `solana_program::ed25519_program::ID`. Claimed: its 32 bytes.
#[verifier::external_body]
pub(crate) fn ed25519_program_id() -> (id: Pubkey)
    ensures
        id@ == spec_ed25519_program_id(),
{
    Pubkey { bytes: anchor_lang::solana_program::ed25519_program::ID.to_bytes() }
}

/// Reads `solana_program::sysvar::instructions::ID`. Claimed: its 32 bytes.
#[verifier::external_body]
pub(crate) fn instructions_sysvar_id() -> (id: Pubkey)
    ensures
        id@ == spec_instructions_sysvar_id(),
{
    Pubkey { bytes: anchor_lang::solana_program::sysvar::instructions::ID.to_bytes() }
}

/// Calls `solana_program::sysvar::instructions::load_current_index_checked`
/// on an account with the address and data given. Claimed: it fails when the
/// address is not that of the instructions sysvar, and otherwise returns the
/// last two bytes of the data as a little-endian number. The call indexes
/// the last two bytes without a test, so the data must hold them.
#[verifier::external_body]
pub(crate) fn load_current_index(key: &Pubkey, data: &Vec<u8>) -> (index: Option<u16>)
    requires
        data@.len() >= 2,
    ensures
        key@ != spec_instructions_sysvar_id() ==> index is None,
        key@ == spec_instructions_sysvar_id() ==> index is Some && index.unwrap() as int
            == spec_u16_le(data@[data@.len() - 2], data@[data@.len() - 1]),
{
    let address = anchor_lang::prelude::Pubkey::new_from_array(key.bytes);
    let owner = anchor_lang::solana_program::sysvar::ID;
    let (mut lamports, mut copy) = (0u64, data.clone());
    let info = anchor_lang::prelude::AccountInfo::new(
        &address, false, false, &mut lamports, &mut copy, &owner, false, 0,
    );
    anchor_lang::solana_program::sysvar::instructions::load_current_index_checked(&info).ok()
}

/// Calls `solana_program::sysvar::instructions::load_instruction_at_checked`
/// on an account with the address and data given. Claimed: what it returns
/// depends on the address, the data and the index alone, and it fails when
/// the address is not that of the instructions sysvar.
#[verifier::external_body]
pub(crate) fn load_instruction_at(index: usize, key: &Pubkey, data: &Vec<u8>) -> (loaded: Option<
    Instruction,
>)
    ensures
        spec_loaded(loaded) == sysvar_instruction_at(key@, data@, index as int),
        key@ != spec_instructions_sysvar_id() ==> loaded is None,
{
    let address = anchor_lang::prelude::Pubkey::new_from_array(key.bytes);
    let owner = anchor_lang::solana_program::sysvar::ID;
    let (mut lamports, mut copy) = (0u64, data.clone());
    let info = anchor_lang::prelude::AccountInfo::new(
        &address, false, false, &mut lamports, &mut copy, &owner, false, 0,
    );
    let found = anchor_lang::solana_program::sysvar::instructions::load_instruction_at_checked(index, &info).ok()?;
    let accounts = found.accounts.iter().map(|m| AccountMeta {
        pubkey: Pubkey { bytes: m.pubkey.to_bytes() },
        is_signer: m.is_signer,
        is_writable: m.is_writable,
    }).collect();
    Some(Instruction { program_id: Pubkey { bytes: found.program_id.to_bytes() }, accounts, data: found.data })
}

/// Calls `Pubkey::try_find_program_address` with the program's address as
/// the only seed, under `solana_program::bpf_loader_upgradeable::ID`.
/// Claimed: the address found depends on the program's address alone.
#[verifier::external_body]
pub(crate) fn program_data_address(program: &Pubkey) -> (address: Option<Pubkey>)
    ensures
        spec_key_bytes(address) == derived_program_data_address(program@),
{
    let loader = anchor_lang::solana_program::bpf_loader_upgradeable::ID;
    let found = anchor_lang::prelude::Pubkey::try_find_program_address(&[&program.bytes], &loader);
    found.map(|pair| Pubkey { bytes: pair.0.to_bytes() })
}

} // verus!
