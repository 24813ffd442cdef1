#![allow(deprecated)]

use anchor_lang::solana_program::sysvar::instructions::{
    construct_instructions_data, store_current_index, BorrowedAccountMeta, BorrowedInstruction,
};
use predicate_registry::ed25519::{
    check_ed25519_instruction, verify_ed25519_signature, InstructionsSysvar, SignatureOffsets,
};
use predicate_registry::errors::PredicateRegistryError;
use predicate_registry::native::{AccountMeta, Instruction};
use predicate_registry::pubkey::Pubkey;

const ED25519_ID: [u8; 32] = [
    3, 125, 70, 214, 124, 147, 251, 190, 18, 249, 66, 143, 131, 141, 64, 255, 5, 112, 116, 73, 39,
    244, 138, 100, 252, 202, 112, 68, 128, 0, 0, 0,
];

const SYSVAR_ID: [u8; 32] = [
    6, 167, 213, 23, 24, 123, 209, 102, 53, 218, 212, 4, 85, 253, 194, 192, 193, 36, 198, 143, 33,
    86, 117, 165, 219, 186, 203, 95, 8, 0, 0, 0,
];

fn signature() -> [u8; 64] {
    let mut bytes = [0u8; 64];
    for (i, byte) in bytes.iter_mut().enumerate() {
        *byte = 100 + i as u8;
    }
    bytes
}

fn public_key() -> [u8; 32] {
    let mut bytes = [0u8; 32];
    for (i, byte) in bytes.iter_mut().enumerate() {
        *byte = 7 + i as u8;
    }
    bytes
}

fn digest() -> [u8; 32] {
    let mut bytes = [0u8; 32];
    for (i, byte) in bytes.iter_mut().enumerate() {
        *byte = 200u8.wrapping_add(i as u8);
    }
    bytes
}

/// Header, then key at 16, signature at 48, message at 112.
fn native_data(signature: &[u8; 64], key: &[u8; 32], message: &[u8]) -> Vec<u8> {
    let mut data: Vec<u8> = vec![1, 0];
    data.extend_from_slice(&48u16.to_le_bytes());
    data.extend_from_slice(&0xffffu16.to_le_bytes());
    data.extend_from_slice(&16u16.to_le_bytes());
    data.extend_from_slice(&0xffffu16.to_le_bytes());
    data.extend_from_slice(&112u16.to_le_bytes());
    data.extend_from_slice(&(message.len() as u16).to_le_bytes());
    data.extend_from_slice(&0xffffu16.to_le_bytes());
    data.extend_from_slice(key);
    data.extend_from_slice(signature);
    data.extend_from_slice(message);
    data
}

fn native_instruction() -> Instruction {
    Instruction {
        program_id: Pubkey::new_from_array(ED25519_ID),
        accounts: Vec::new(),
        data: native_data(&signature(), &public_key(), &digest()),
    }
}

fn check(instruction: &Instruction) -> Result<(), PredicateRegistryError> {
    check_ed25519_instruction(instruction, &signature(), &public_key(), &digest())
}

/// The sysvar of a transaction with the given instructions, as seen from
/// the instruction at `current`.
fn sysvar(instructions: &[Instruction], current: u16) -> InstructionsSysvar {
    let keys: Vec<anchor_lang::prelude::Pubkey> = instructions
        .iter()
        .map(|ix| anchor_lang::prelude::Pubkey::new_from_array(ix.program_id.to_bytes()))
        .collect();
    let metas: Vec<Vec<anchor_lang::prelude::Pubkey>> = instructions
        .iter()
        .map(|ix| {
            ix.accounts
                .iter()
                .map(|meta| anchor_lang::prelude::Pubkey::new_from_array(meta.pubkey.to_bytes()))
                .collect()
        })
        .collect();
    let borrowed: Vec<BorrowedInstruction> = instructions
        .iter()
        .enumerate()
        .map(|(i, ix)| BorrowedInstruction {
            program_id: &keys[i],
            accounts: ix
                .accounts
                .iter()
                .enumerate()
                .map(|(j, meta)| BorrowedAccountMeta {
                    pubkey: &metas[i][j],
                    is_signer: meta.is_signer,
                    is_writable: meta.is_writable,
                })
                .collect(),
            data: &ix.data,
        })
        .collect();
    let mut data = construct_instructions_data(&borrowed);
    store_current_index(&mut data, current);
    InstructionsSysvar { key: Pubkey::new_from_array(SYSVAR_ID), data }
}

fn caller_instruction() -> Instruction {
    Instruction {
        program_id: Pubkey::new_from_array([42u8; 32]),
        accounts: vec![AccountMeta {
            pubkey: Pubkey::new_from_array([43u8; 32]),
            is_signer: true,
            is_writable: true,
        }],
        data: vec![9, 9, 9],
    }
}

fn verify(sysvar: &InstructionsSysvar) -> Result<(), PredicateRegistryError> {
    verify_ed25519_signature(&signature(), &public_key(), &digest(), sysvar)
}

#[test]
fn header_is_parsed_little_endian() {
    let data = native_data(&signature(), &public_key(), &digest());
    let header = SignatureOffsets::parse(&data).unwrap();
    assert_eq!(
        header,
        SignatureOffsets {
            num_signatures: 1,
            signature_offset: 48,
            signature_instruction_index: 0xffff,
            public_key_offset: 16,
            public_key_instruction_index: 0xffff,
            message_data_offset: 112,
            message_data_size: 32,
            message_instruction_index: 0xffff,
        }
    );
    assert!(header.well_placed(data.len()));
    assert!(!header.well_placed(data.len() - 1));
}

#[test]
fn header_needs_sixteen_bytes() {
    assert_eq!(SignatureOffsets::parse(&[1u8; 15]), None);
    let header = SignatureOffsets::parse(&[1u8; 16]).unwrap();
    assert_eq!(header.signature_offset, 0x0101);
    assert_eq!(SignatureOffsets::parse(&[]), None);
}

#[test]
fn matching_native_instruction_is_accepted() {
    assert_eq!(check(&native_instruction()), Ok(()));
}

#[test]
fn regions_may_lie_in_any_order_behind_the_header() {
    let mut data: Vec<u8> = vec![1, 0];
    data.extend_from_slice(&16u16.to_le_bytes());
    data.extend_from_slice(&0xffffu16.to_le_bytes());
    data.extend_from_slice(&112u16.to_le_bytes());
    data.extend_from_slice(&0xffffu16.to_le_bytes());
    data.extend_from_slice(&80u16.to_le_bytes());
    data.extend_from_slice(&32u16.to_le_bytes());
    data.extend_from_slice(&0xffffu16.to_le_bytes());
    data.extend_from_slice(&signature());
    data.extend_from_slice(&digest());
    data.extend_from_slice(&public_key());
    let instruction = Instruction {
        program_id: Pubkey::new_from_array(ED25519_ID),
        accounts: Vec::new(),
        data,
    };
    assert_eq!(check(&instruction), Ok(()));
}

#[test]
fn flipping_any_byte_of_the_signature_is_detected() {
    let instruction = native_instruction();
    for i in 0..64 {
        let mut tampered = signature();
        tampered[i] ^= 0x01;
        assert_eq!(
            check_ed25519_instruction(&instruction, &tampered, &public_key(), &digest()),
            Err(PredicateRegistryError::InvalidSignature)
        );
    }
}

#[test]
fn flipping_any_byte_of_the_key_is_detected() {
    let instruction = native_instruction();
    for i in 0..32 {
        let mut tampered = public_key();
        tampered[i] ^= 0x80;
        assert_eq!(
            check_ed25519_instruction(&instruction, &signature(), &tampered, &digest()),
            Err(PredicateRegistryError::InvalidSignature)
        );
    }
}

#[test]
fn flipping_any_byte_of_the_digest_is_detected() {
    let instruction = native_instruction();
    for i in 0..32 {
        let mut tampered = digest();
        tampered[i] ^= 0x10;
        assert_eq!(
            check_ed25519_instruction(&instruction, &signature(), &public_key(), &tampered),
            Err(PredicateRegistryError::InvalidSignature)
        );
    }
}

#[test]
fn another_program_is_refused() {
    let mut instruction = native_instruction();
    let mut id = ED25519_ID;
    id[31] = 1;
    instruction.program_id = Pubkey::new_from_array(id);
    assert_eq!(check(&instruction), Err(PredicateRegistryError::InvalidSignature));
}

#[test]
fn an_instruction_with_accounts_is_refused() {
    let mut instruction = native_instruction();
    instruction.accounts.push(AccountMeta {
        pubkey: Pubkey::new_from_array([5u8; 32]),
        is_signer: false,
        is_writable: false,
    });
    assert_eq!(check(&instruction), Err(PredicateRegistryError::InvalidSignature));
}

#[test]
fn short_data_is_refused() {
    let mut instruction = native_instruction();
    instruction.data.truncate(15);
    assert_eq!(check(&instruction), Err(PredicateRegistryError::InvalidSignature));
    instruction.data.clear();
    assert_eq!(check(&instruction), Err(PredicateRegistryError::InvalidSignature));
}

#[test]
fn more_or_fewer_than_one_signature_is_refused() {
    for count in [0u8, 2, 255] {
        let mut instruction = native_instruction();
        instruction.data[0] = count;
        assert_eq!(check(&instruction), Err(PredicateRegistryError::InvalidSignature));
    }
}

#[test]
fn material_from_another_instruction_is_refused() {
    for at in [4usize, 8, 14] {
        let mut instruction = native_instruction();
        instruction.data[at] = 0;
        instruction.data[at + 1] = 0;
        assert_eq!(check(&instruction), Err(PredicateRegistryError::InvalidSignature));
        let mut instruction = native_instruction();
        instruction.data[at] = 0xfe;
        assert_eq!(check(&instruction), Err(PredicateRegistryError::InvalidSignature));
    }
}

#[test]
fn an_offset_into_the_header_is_refused() {
    let mut data = native_data(&signature(), &public_key(), &digest());
    // Let the key region start inside the header, and make the bytes there
    // what is expected, so that only the position can refuse it.
    data[6] = 15;
    let mut key = [0u8; 32];
    key.copy_from_slice(&data[15..47]);
    let instruction = Instruction {
        program_id: Pubkey::new_from_array(ED25519_ID),
        accounts: Vec::new(),
        data,
    };
    assert_eq!(
        check_ed25519_instruction(&instruction, &signature(), &key, &digest()),
        Err(PredicateRegistryError::InvalidSignature)
    );
}

#[test]
fn a_region_beyond_the_data_is_refused() {
    let mut instruction = native_instruction();
    instruction.data.pop();
    assert_eq!(check(&instruction), Err(PredicateRegistryError::InvalidSignature));
    let mut instruction = native_instruction();
    instruction.data[2] = 0xff;
    instruction.data[3] = 0xff;
    assert_eq!(check(&instruction), Err(PredicateRegistryError::InvalidSignature));
}

#[test]
fn a_message_of_another_length_is_refused() {
    let mut longer = digest().to_vec();
    longer.push(0);
    let instruction = Instruction {
        program_id: Pubkey::new_from_array(ED25519_ID),
        accounts: Vec::new(),
        data: native_data(&signature(), &public_key(), &longer),
    };
    assert_eq!(check(&instruction), Err(PredicateRegistryError::InvalidSignature));
    let instruction = Instruction {
        program_id: Pubkey::new_from_array(ED25519_ID),
        accounts: Vec::new(),
        data: native_data(&signature(), &public_key(), &digest()[..31]),
    };
    assert_eq!(check(&instruction), Err(PredicateRegistryError::InvalidSignature));
}

#[test]
fn a_decoy_elsewhere_in_the_data_does_not_help() {
    // The expected triple is present in the data, but the header points at
    // another signature.
    let mut other = signature();
    other[0] ^= 0xff;
    let mut data = native_data(&other, &public_key(), &digest());
    data.extend_from_slice(&signature());
    let instruction = Instruction {
        program_id: Pubkey::new_from_array(ED25519_ID),
        accounts: Vec::new(),
        data,
    };
    assert_eq!(check(&instruction), Err(PredicateRegistryError::InvalidSignature));
}

#[test]
fn proof_directly_before_the_current_instruction_is_accepted() {
    let account = sysvar(&[native_instruction(), caller_instruction()], 1);
    assert_eq!(verify(&account), Ok(()));
}

#[test]
fn proof_is_read_at_the_position_before_the_current_one() {
    let instructions = [caller_instruction(), native_instruction(), caller_instruction()];
    assert_eq!(verify(&sysvar(&instructions, 2)), Ok(()));
    assert_eq!(
        verify(&sysvar(&instructions, 1)),
        Err(PredicateRegistryError::InvalidSignature)
    );
}

#[test]
fn first_instruction_has_no_proof() {
    let account = sysvar(&[caller_instruction(), native_instruction()], 0);
    assert_eq!(verify(&account), Err(PredicateRegistryError::InvalidSignature));
}

#[test]
fn proof_two_instructions_back_is_refused() {
    let instructions = [native_instruction(), caller_instruction(), caller_instruction()];
    assert_eq!(
        verify(&sysvar(&instructions, 2)),
        Err(PredicateRegistryError::InvalidSignature)
    );
}

#[test]
fn another_account_than_the_sysvar_is_refused() {
    let mut account = sysvar(&[native_instruction(), caller_instruction()], 1);
    account.key = Pubkey::new_from_array([1u8; 32]);
    assert_eq!(verify(&account), Err(PredicateRegistryError::InvalidAccountData));
}

#[test]
fn sysvar_data_too_short_for_an_index_is_refused() {
    let account = InstructionsSysvar { key: Pubkey::new_from_array(SYSVAR_ID), data: vec![1] };
    assert_eq!(verify(&account), Err(PredicateRegistryError::InvalidAccountData));
    let account = InstructionsSysvar { key: Pubkey::new_from_array(SYSVAR_ID), data: Vec::new() };
    assert_eq!(verify(&account), Err(PredicateRegistryError::InvalidAccountData));
}

#[test]
fn current_index_beyond_the_transaction_is_refused() {
    let account = sysvar(&[native_instruction(), caller_instruction()], 7);
    assert_eq!(verify(&account), Err(PredicateRegistryError::InvalidSignature));
}

#[test]
fn malformed_sysvar_data_is_refused() {
    let account = InstructionsSysvar {
        key: Pubkey::new_from_array(SYSVAR_ID),
        data: vec![9, 0, 1, 0],
    };
    assert_eq!(verify(&account), Err(PredicateRegistryError::InvalidSignature));
}

#[test]
fn tampering_is_detected_through_the_sysvar() {
    let account = sysvar(&[native_instruction(), caller_instruction()], 1);
    let mut tampered = digest();
    tampered[31] ^= 1;
    assert_eq!(
        verify_ed25519_signature(&signature(), &public_key(), &tampered, &account),
        Err(PredicateRegistryError::InvalidSignature)
    );
}

#[test]
fn native_addresses_are_those_of_the_platform() {
    assert_eq!(
        anchor_lang::solana_program::ed25519_program::ID.to_bytes(),
        ED25519_ID
    );
    assert_eq!(
        anchor_lang::solana_program::sysvar::instructions::ID.to_bytes(),
        SYSVAR_ID
    );
}
