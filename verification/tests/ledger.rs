#![allow(deprecated)]

use anchor_lang::solana_program::bpf_loader_upgradeable::get_program_data_address;
use anchor_lang::solana_program::sysvar::instructions::{
    construct_instructions_data, store_current_index, BorrowedInstruction,
};
use predicate_registry::ed25519::InstructionsSysvar;
use predicate_registry::errors::PredicateRegistryError;
use predicate_registry::ledger::Ledger;
use predicate_registry::program_data::ProgramData;
use predicate_registry::pubkey::Pubkey;
use predicate_registry::state::{
    Attestation, AttesterAccount, Clock, PredicateRegistry, Statement, UsedUuidAccount,
};

const T: i64 = 1_700_000_000;

const UUID: [u8; 16] = [
    0x12, 0x34, 0x56, 0x78, 0x9a, 0xbc, 0xde, 0xf0, 0x01, 0x23, 0x45, 0x67, 0x89, 0xab, 0xcd, 0xef,
];

fn key(byte: u8) -> Pubkey {
    Pubkey::new_from_array([byte; 32])
}

fn registry_key() -> Pubkey {
    key(0xaa)
}

fn authority() -> Pubkey {
    key(0x01)
}

fn upgrade_authority() -> Pubkey {
    key(0x02)
}

fn submitter() -> Pubkey {
    key(0x03)
}

fn client() -> Pubkey {
    key(0x0c)
}

fn attester() -> Pubkey {
    key(0x0a)
}

fn program() -> Pubkey {
    key(0x50)
}

fn at(unix_timestamp: i64) -> Clock {
    Clock { unix_timestamp }
}

fn program_data_of(program: Pubkey, upgrade_authority: Option<Pubkey>) -> ProgramData {
    let address =
        get_program_data_address(&anchor_lang::prelude::Pubkey::new_from_array(program.to_bytes()));
    let mut data: Vec<u8> = Vec::new();
    data.extend_from_slice(&3u32.to_le_bytes());
    data.extend_from_slice(&77u64.to_le_bytes());
    match upgrade_authority {
        Some(authority) => {
            data.push(1);
            data.extend_from_slice(&authority.to_bytes());
        }
        None => {
            data.push(0);
            data.extend_from_slice(&[0u8; 32]);
        }
    }
    ProgramData { key: Pubkey::new_from_array(address.to_bytes()), data }
}

fn program_data() -> ProgramData {
    program_data_of(program(), Some(upgrade_authority()))
}

fn statement() -> Statement {
    Statement {
        uuid: UUID,
        msg_sender: client(),
        target: program(),
        msg_value: 500,
        encoded_sig_and_args: b"transfer(u64)".to_vec(),
        policy_id: String::from("daily-limit:1000"),
        expiration: T + 3600,
    }
}

fn attestation() -> Attestation {
    Attestation { uuid: UUID, attester: attester(), signature: [0x5a; 64], expiration: T + 3600 }
}

/// The sysvar of a transaction in which the native program verified
/// `signature` by `attester_key` over `digest` directly before the current
/// instruction.
fn proof_of(signature: &[u8; 64], attester_key: &Pubkey, digest: &[u8; 32]) -> InstructionsSysvar {
    let mut native: Vec<u8> = vec![1, 0];
    native.extend_from_slice(&48u16.to_le_bytes());
    native.extend_from_slice(&0xffffu16.to_le_bytes());
    native.extend_from_slice(&16u16.to_le_bytes());
    native.extend_from_slice(&0xffffu16.to_le_bytes());
    native.extend_from_slice(&112u16.to_le_bytes());
    native.extend_from_slice(&32u16.to_le_bytes());
    native.extend_from_slice(&0xffffu16.to_le_bytes());
    native.extend_from_slice(&attester_key.to_bytes());
    native.extend_from_slice(signature);
    native.extend_from_slice(digest);
    let native_id = anchor_lang::solana_program::ed25519_program::ID;
    let caller_id = anchor_lang::prelude::Pubkey::new_from_array([0x60; 32]);
    let caller_data = [1u8, 2, 3];
    let instructions = [
        BorrowedInstruction { program_id: &native_id, accounts: Vec::new(), data: &native },
        BorrowedInstruction { program_id: &caller_id, accounts: Vec::new(), data: &caller_data },
    ];
    let mut data = construct_instructions_data(&instructions);
    store_current_index(&mut data, 1);
    InstructionsSysvar {
        key: Pubkey::new_from_array(
            anchor_lang::solana_program::sysvar::instructions::ID.to_bytes(),
        ),
        data,
    }
}

fn signed_proof(statement: &Statement, attestation: &Attestation) -> InstructionsSysvar {
    let digest = statement.hash_statement_safe(submitter());
    proof_of(&attestation.signature, &attestation.attester, &digest)
}

/// Registry created, attester registered, policy set.
fn prepared() -> Ledger {
    let mut ledger = Ledger::new(registry_key());
    ledger.initialize(authority(), &at(T - 100)).unwrap();
    ledger.register_attester(authority(), attester(), &at(T - 90)).unwrap();
    ledger
        .set_policy_id(
            upgrade_authority(),
            program(),
            program_data(),
            String::from("daily-limit:1000"),
            &at(T - 80),
        )
        .unwrap();
    ledger
}

fn validate(
    ledger: &mut Ledger,
    statement: Statement,
    attestation: Attestation,
    now: i64,
) -> Result<(), PredicateRegistryError> {
    let sysvar = signed_proof(&statement, &attestation);
    ledger
        .validate_attestation(submitter(), sysvar, statement, attester(), attestation, &at(now))
        .map(|_| ())
}

#[test]
fn new_ledger_is_empty() {
    let ledger = Ledger::new(registry_key());
    assert_eq!(ledger.registry_key(), registry_key());
    assert_eq!(ledger.registry(), None);
    assert_eq!(ledger.attester(&attester()), None);
    assert!(ledger.policy(&program()).is_none());
    assert_eq!(ledger.used_uuid(&UUID), None);
}

#[test]
fn initialize_creates_the_registry_once() {
    let mut ledger = Ledger::new(registry_key());
    let event = ledger.initialize(authority(), &at(T)).unwrap();
    assert_eq!(event.registry, registry_key());
    assert_eq!(event.authority, authority());
    assert_eq!(event.timestamp, T);
    assert_eq!(
        ledger.registry(),
        Some(PredicateRegistry {
            authority: authority(),
            created_at: T,
            updated_at: T,
            total_attesters: 0,
            total_policies: 0,
        })
    );
    assert_eq!(
        ledger.initialize(key(9), &at(T + 1)),
        Err(PredicateRegistryError::AlreadyInitialized)
    );
    assert_eq!(ledger.registry().unwrap().authority, authority());
    assert_eq!(ledger.registry().unwrap().updated_at, T);
}

#[test]
fn operations_need_the_registry() {
    let mut ledger = Ledger::new(registry_key());
    assert_eq!(
        ledger.register_attester(authority(), attester(), &at(T)),
        Err(PredicateRegistryError::NotInitialized)
    );
    assert_eq!(
        ledger.deregister_attester(authority(), attester(), &at(T)),
        Err(PredicateRegistryError::NotInitialized)
    );
    assert_eq!(
        ledger.transfer_authority(authority(), key(9), &at(T)),
        Err(PredicateRegistryError::NotInitialized)
    );
    assert_eq!(
        ledger.set_policy_id(
            upgrade_authority(),
            program(),
            program_data(),
            String::from("p"),
            &at(T)
        ),
        Err(PredicateRegistryError::NotInitialized)
    );
    assert_eq!(
        ledger.update_policy_id(
            upgrade_authority(),
            program(),
            program_data(),
            String::from("p"),
            &at(T)
        ),
        Err(PredicateRegistryError::NotInitialized)
    );
    assert_eq!(
        validate(&mut ledger, statement(), attestation(), T),
        Err(PredicateRegistryError::NotInitialized)
    );
}

#[test]
fn register_attester_counts_and_stores() {
    let mut ledger = Ledger::new(registry_key());
    ledger.initialize(authority(), &at(T)).unwrap();
    let event = ledger.register_attester(authority(), attester(), &at(T + 5)).unwrap();
    assert_eq!(event.registry, registry_key());
    assert_eq!(event.attester, attester());
    assert_eq!(event.authority, authority());
    assert_eq!(event.timestamp, T + 5);
    assert_eq!(
        ledger.attester(&attester()),
        Some(AttesterAccount { attester: attester(), is_registered: true, registered_at: T + 5 })
    );
    let registry = ledger.registry().unwrap();
    assert_eq!(registry.total_attesters, 1);
    assert_eq!(registry.updated_at, T + 5);
    assert_eq!(registry.created_at, T);
}

#[test]
fn register_attester_is_for_the_authority_only() {
    let mut ledger = Ledger::new(registry_key());
    ledger.initialize(authority(), &at(T)).unwrap();
    assert_eq!(
        ledger.register_attester(key(9), attester(), &at(T + 5)),
        Err(PredicateRegistryError::Unauthorized)
    );
    assert_eq!(ledger.attester(&attester()), None);
    assert_eq!(ledger.registry().unwrap().total_attesters, 0);
    assert_eq!(ledger.registry().unwrap().updated_at, T);
}

#[test]
fn register_attester_twice_is_refused() {
    let mut ledger = prepared();
    assert_eq!(
        ledger.register_attester(authority(), attester(), &at(T)),
        Err(PredicateRegistryError::AttesterAlreadyRegistered)
    );
    assert_eq!(ledger.registry().unwrap().total_attesters, 1);
    assert_eq!(ledger.attester(&attester()).unwrap().registered_at, T - 90);
}

#[test]
fn deregister_keeps_the_account_and_counts_down() {
    let mut ledger = prepared();
    let event = ledger.deregister_attester(authority(), attester(), &at(T)).unwrap();
    assert_eq!(event.attester, attester());
    assert_eq!(event.authority, authority());
    assert_eq!(event.timestamp, T);
    assert_eq!(
        ledger.attester(&attester()),
        Some(AttesterAccount { attester: attester(), is_registered: false, registered_at: T - 90 })
    );
    assert_eq!(ledger.registry().unwrap().total_attesters, 0);
    assert_eq!(ledger.registry().unwrap().updated_at, T);
}

#[test]
fn deregister_refusals() {
    let mut ledger = prepared();
    assert_eq!(
        ledger.deregister_attester(key(9), attester(), &at(T)),
        Err(PredicateRegistryError::Unauthorized)
    );
    assert_eq!(
        ledger.deregister_attester(authority(), key(0x0b), &at(T)),
        Err(PredicateRegistryError::AttesterNotRegistered)
    );
    ledger.deregister_attester(authority(), attester(), &at(T)).unwrap();
    assert_eq!(
        ledger.deregister_attester(authority(), attester(), &at(T + 1)),
        Err(PredicateRegistryError::AttesterNotRegistered)
    );
    assert_eq!(ledger.registry().unwrap().total_attesters, 0);
    assert_eq!(ledger.registry().unwrap().updated_at, T);
}

#[test]
fn a_deregistered_attester_can_be_registered_again() {
    let mut ledger = prepared();
    ledger.deregister_attester(authority(), attester(), &at(T)).unwrap();
    ledger.register_attester(authority(), attester(), &at(T + 10)).unwrap();
    assert_eq!(
        ledger.attester(&attester()),
        Some(AttesterAccount { attester: attester(), is_registered: true, registered_at: T + 10 })
    );
    assert_eq!(ledger.registry().unwrap().total_attesters, 1);
    assert_eq!(validate(&mut ledger, statement(), attestation(), T + 20), Ok(()));
}

#[test]
fn transfer_authority_changes_who_may_register() {
    let mut ledger = prepared();
    assert_eq!(
        ledger.transfer_authority(key(9), key(9), &at(T)),
        Err(PredicateRegistryError::Unauthorized)
    );
    let event = ledger.transfer_authority(authority(), key(9), &at(T)).unwrap();
    assert_eq!(event.registry, registry_key());
    assert_eq!(event.previous_authority, authority());
    assert_eq!(event.new_authority, key(9));
    assert_eq!(event.timestamp, T);
    assert_eq!(ledger.registry().unwrap().authority, key(9));
    assert_eq!(ledger.registry().unwrap().updated_at, T);
    assert_eq!(
        ledger.register_attester(authority(), key(0x0b), &at(T + 1)),
        Err(PredicateRegistryError::Unauthorized)
    );
    assert!(ledger.register_attester(key(9), key(0x0b), &at(T + 1)).is_ok());
}

#[test]
fn set_policy_id_creates_the_policy_account() {
    let mut ledger = Ledger::new(registry_key());
    ledger.initialize(authority(), &at(T)).unwrap();
    let event = ledger
        .set_policy_id(
            upgrade_authority(),
            program(),
            program_data(),
            String::from("daily-limit:1000"),
            &at(T + 7),
        )
        .unwrap();
    assert_eq!(event.registry, registry_key());
    assert_eq!(event.client_program, program());
    assert_eq!(event.authority, upgrade_authority());
    assert_eq!(event.policy_id, "daily-limit:1000");
    assert_eq!(event.timestamp, T + 7);
    let account = ledger.policy(&program()).unwrap();
    assert_eq!(account.client_program, program());
    assert_eq!(account.authority, upgrade_authority());
    assert_eq!(account.policy_id, "daily-limit:1000");
    assert_eq!(account.set_at, T + 7);
    assert_eq!(account.updated_at, T + 7);
    assert_eq!(ledger.registry().unwrap().total_policies, 1);
    assert_eq!(ledger.registry().unwrap().updated_at, T + 7);
}

#[test]
fn set_policy_id_refusals() {
    let mut ledger = Ledger::new(registry_key());
    ledger.initialize(authority(), &at(T)).unwrap();
    let set = |ledger: &mut Ledger, signer: Pubkey, data: ProgramData, policy: &str| {
        ledger.set_policy_id(signer, program(), data, String::from(policy), &at(T + 1)).map(|_| ())
    };
    assert_eq!(
        set(&mut ledger, upgrade_authority(), program_data(), ""),
        Err(PredicateRegistryError::InvalidPolicyId)
    );
    let long = "x".repeat(65);
    assert_eq!(
        set(&mut ledger, upgrade_authority(), program_data(), &long),
        Err(PredicateRegistryError::PolicyIdTooLong)
    );
    assert_eq!(
        set(&mut ledger, key(9), program_data(), "p"),
        Err(PredicateRegistryError::Unauthorized)
    );
    assert_eq!(
        set(&mut ledger, upgrade_authority(), program_data_of(program(), None), "p"),
        Err(PredicateRegistryError::Unauthorized)
    );
    assert_eq!(
        set(&mut ledger, upgrade_authority(), program_data_of(key(0x51), Some(upgrade_authority())), "p"),
        Err(PredicateRegistryError::InvalidProgramData)
    );
    let mut short = program_data();
    short.data.truncate(44);
    assert_eq!(
        set(&mut ledger, upgrade_authority(), short, "p"),
        Err(PredicateRegistryError::InvalidProgramData)
    );
    let mut other_kind = program_data();
    other_kind.data[0] = 2;
    assert_eq!(
        set(&mut ledger, upgrade_authority(), other_kind, "p"),
        Err(PredicateRegistryError::InvalidProgramData)
    );
    assert!(ledger.policy(&program()).is_none());
    assert_eq!(ledger.registry().unwrap().total_policies, 0);
    assert_eq!(ledger.registry().unwrap().updated_at, T);
}

#[test]
fn policy_id_of_exactly_the_cap_is_accepted() {
    let mut ledger = Ledger::new(registry_key());
    ledger.initialize(authority(), &at(T)).unwrap();
    let longest = "y".repeat(64);
    assert!(ledger
        .set_policy_id(upgrade_authority(), program(), program_data(), longest.clone(), &at(T))
        .is_ok());
    assert_eq!(ledger.policy(&program()).unwrap().policy_id, longest);
}

#[test]
fn policy_id_is_capped_in_bytes_not_characters() {
    let mut ledger = Ledger::new(registry_key());
    ledger.initialize(authority(), &at(T)).unwrap();
    // 33 characters of two bytes each.
    let wide = "é".repeat(33);
    assert_eq!(
        ledger
            .set_policy_id(upgrade_authority(), program(), program_data(), wide, &at(T))
            .map(|_| ()),
        Err(PredicateRegistryError::PolicyIdTooLong)
    );
    let fits = "é".repeat(32);
    assert!(ledger
        .set_policy_id(upgrade_authority(), program(), program_data(), fits, &at(T))
        .is_ok());
}

#[test]
fn set_policy_id_does_not_overwrite() {
    let mut ledger = prepared();
    assert_eq!(
        ledger
            .set_policy_id(
                upgrade_authority(),
                program(),
                program_data(),
                String::from("other"),
                &at(T)
            )
            .map(|_| ()),
        Err(PredicateRegistryError::AlreadyInitialized)
    );
    assert_eq!(ledger.policy(&program()).unwrap().policy_id, "daily-limit:1000");
    assert_eq!(ledger.registry().unwrap().total_policies, 1);
}

#[test]
fn update_policy_id_replaces_in_place() {
    let mut ledger = prepared();
    let event = ledger
        .update_policy_id(
            upgrade_authority(),
            program(),
            program_data(),
            String::from("daily-limit:2000"),
            &at(T),
        )
        .unwrap();
    assert_eq!(event.registry, registry_key());
    assert_eq!(event.client_program, program());
    assert_eq!(event.previous_policy_id, "daily-limit:1000");
    assert_eq!(event.new_policy_id, "daily-limit:2000");
    assert_eq!(event.timestamp, T);
    let account = ledger.policy(&program()).unwrap();
    assert_eq!(account.client_program, program());
    assert_eq!(account.policy_id, "daily-limit:2000");
    assert_eq!(account.set_at, T - 80);
    assert_eq!(account.updated_at, T);
    assert_eq!(ledger.registry().unwrap().total_policies, 1);
}

#[test]
fn update_policy_id_twice_with_the_same_value() {
    let mut ledger = prepared();
    let update = |ledger: &mut Ledger, now: i64| {
        ledger
            .update_policy_id(
                upgrade_authority(),
                program(),
                program_data(),
                String::from("weekly-limit:5"),
                &at(now),
            )
            .unwrap()
    };
    update(&mut ledger, T);
    let once = ledger.policy(&program()).unwrap().clone();
    let event = update(&mut ledger, T + 60);
    let twice = ledger.policy(&program()).unwrap().clone();
    assert_eq!(event.previous_policy_id, "weekly-limit:5");
    assert_eq!(event.new_policy_id, "weekly-limit:5");
    assert_eq!(twice.policy_id, once.policy_id);
    assert_eq!(twice.client_program, once.client_program);
    assert_eq!(twice.authority, once.authority);
    assert_eq!(twice.set_at, once.set_at);
    assert_eq!(once.updated_at, T);
    assert_eq!(twice.updated_at, T + 60);
}

#[test]
fn update_policy_id_refusals() {
    let mut ledger = prepared();
    let update = |ledger: &mut Ledger, signer: Pubkey, target: Pubkey, data: ProgramData, policy: &str| {
        ledger.update_policy_id(signer, target, data, String::from(policy), &at(T)).map(|_| ())
    };
    assert_eq!(
        update(&mut ledger, upgrade_authority(), program(), program_data(), ""),
        Err(PredicateRegistryError::InvalidPolicyId)
    );
    assert_eq!(
        update(&mut ledger, upgrade_authority(), program(), program_data(), &"z".repeat(65)),
        Err(PredicateRegistryError::PolicyIdTooLong)
    );
    assert_eq!(
        update(&mut ledger, key(9), program(), program_data(), "p"),
        Err(PredicateRegistryError::Unauthorized)
    );
    assert_eq!(
        update(
            &mut ledger,
            upgrade_authority(),
            key(0x51),
            program_data_of(key(0x51), Some(upgrade_authority())),
            "p"
        ),
        Err(PredicateRegistryError::PolicyNotFound)
    );
    assert_eq!(
        update(
            &mut ledger,
            upgrade_authority(),
            program(),
            program_data_of(key(0x51), Some(upgrade_authority())),
            "p"
        ),
        Err(PredicateRegistryError::InvalidProgramData)
    );
    let account = ledger.policy(&program()).unwrap();
    assert_eq!(account.policy_id, "daily-limit:1000");
    assert_eq!(account.updated_at, T - 80);
}

#[test]
fn valid_attestation_is_accepted_and_recorded() {
    let mut ledger = prepared();
    let sysvar = signed_proof(&statement(), &attestation());
    let events = ledger
        .validate_attestation(submitter(), sysvar, statement(), attester(), attestation(), &at(T))
        .unwrap();
    assert_eq!(events.uuid_marked_used.uuid, "12345678-9abc-def0-0123-456789abcdef");
    assert_eq!(events.uuid_marked_used.signer, submitter());
    assert_eq!(events.uuid_marked_used.expires_at, T + 3600);
    assert_eq!(events.uuid_marked_used.timestamp, T);
    assert_eq!(events.statement_validated.registry, registry_key());
    assert_eq!(events.statement_validated.msg_sender, client());
    assert_eq!(events.statement_validated.target, program());
    assert_eq!(events.statement_validated.attester, attester());
    assert_eq!(events.statement_validated.msg_value, 500);
    assert_eq!(events.statement_validated.policy_id, "daily-limit:1000");
    assert_eq!(events.statement_validated.uuid, "12345678-9abc-def0-0123-456789abcdef");
    assert_eq!(events.statement_validated.expiration, T + 3600);
    assert_eq!(events.statement_validated.timestamp, T);
    assert_eq!(
        ledger.used_uuid(&UUID),
        Some(UsedUuidAccount { uuid: UUID, signer: submitter(), used_at: T, expires_at: T + 3600 })
    );
}

#[test]
fn replay_of_the_identical_transaction_is_refused() {
    let mut ledger = prepared();
    assert_eq!(validate(&mut ledger, statement(), attestation(), T), Ok(()));
    assert_eq!(
        validate(&mut ledger, statement(), attestation(), T),
        Err(PredicateRegistryError::UuidAlreadyUsed)
    );
    assert_eq!(
        validate(&mut ledger, statement(), attestation(), T + 3630),
        Err(PredicateRegistryError::UuidAlreadyUsed)
    );
    assert_eq!(ledger.used_uuid(&UUID).unwrap().used_at, T);
}

#[test]
fn a_used_identifier_refuses_every_other_statement_too() {
    let mut ledger = prepared();
    assert_eq!(validate(&mut ledger, statement(), attestation(), T), Ok(()));
    let mut other = statement();
    other.msg_value = 1;
    assert_eq!(
        validate(&mut ledger, other, attestation(), T + 1),
        Err(PredicateRegistryError::UuidAlreadyUsed)
    );
}

#[test]
fn another_identifier_is_accepted_after_the_first() {
    let mut ledger = prepared();
    assert_eq!(validate(&mut ledger, statement(), attestation(), T), Ok(()));
    let mut second_statement = statement();
    second_statement.uuid[0] ^= 1;
    let mut second_attestation = attestation();
    second_attestation.uuid[0] ^= 1;
    assert_eq!(validate(&mut ledger, second_statement, second_attestation, T + 1), Ok(()));
}

#[test]
fn deregistered_attester_is_refused_for_validation() {
    let mut ledger = prepared();
    ledger.deregister_attester(authority(), attester(), &at(T)).unwrap();
    assert_eq!(
        validate(&mut ledger, statement(), attestation(), T + 1),
        Err(PredicateRegistryError::AttesterNotRegisteredForValidation)
    );
    assert_eq!(ledger.used_uuid(&UUID), None);
}

#[test]
fn unknown_attester_and_unknown_target_are_refused() {
    let mut ledger = prepared();
    let sysvar = signed_proof(&statement(), &attestation());
    assert_eq!(
        ledger
            .validate_attestation(submitter(), sysvar, statement(), key(0x0b), attestation(), &at(T))
            .map(|_| ()),
        Err(PredicateRegistryError::AttesterNotFound)
    );
    let mut elsewhere = statement();
    elsewhere.target = key(0x51);
    assert_eq!(
        validate(&mut ledger, elsewhere, attestation(), T),
        Err(PredicateRegistryError::PolicyNotFound)
    );
}

#[test]
fn different_identifiers_are_a_mismatch_whatever_else_holds() {
    let mut ledger = prepared();
    let mut other = attestation();
    other.uuid[7] ^= 0x40;
    assert_eq!(
        validate(&mut ledger, statement(), other, T),
        Err(PredicateRegistryError::StatementIdMismatch)
    );
    // Also when the pair is expired, names another policy, carries another
    // expiration and was vouched for by a deregistered attester.
    ledger.deregister_attester(authority(), attester(), &at(T)).unwrap();
    let mut bad_statement = statement();
    bad_statement.policy_id = String::from("something-else");
    bad_statement.expiration = T - 1000;
    let mut bad_attestation = attestation();
    bad_attestation.uuid = [0u8; 16];
    bad_attestation.expiration = T - 2000;
    let sysvar = InstructionsSysvar { key: key(0), data: Vec::new() };
    assert_eq!(
        ledger
            .validate_attestation(
                submitter(),
                sysvar,
                bad_statement,
                attester(),
                bad_attestation,
                &at(T)
            )
            .map(|_| ()),
        Err(PredicateRegistryError::StatementIdMismatch)
    );
}

#[test]
fn empty_policy_is_refused_before_the_identifiers_are_compared() {
    let mut ledger = prepared();
    let mut empty = statement();
    empty.policy_id = String::new();
    let mut other = attestation();
    other.uuid[0] ^= 1;
    assert_eq!(
        validate(&mut ledger, empty, other, T),
        Err(PredicateRegistryError::InvalidPolicyId)
    );
}

#[test]
fn different_expirations_are_a_mismatch() {
    let mut ledger = prepared();
    let mut other = attestation();
    other.expiration += 1;
    assert_eq!(
        validate(&mut ledger, statement(), other, T),
        Err(PredicateRegistryError::ExpirationMismatch)
    );
}

#[test]
fn expiration_is_inclusive_of_the_drift_buffer() {
    let mut ledger = prepared();
    assert_eq!(
        validate(&mut ledger, statement(), attestation(), T + 3600 + 31),
        Err(PredicateRegistryError::AttestationExpired)
    );
    assert_eq!(
        validate(&mut ledger, statement(), attestation(), i64::MAX),
        Err(PredicateRegistryError::AttestationExpired)
    );
    assert_eq!(ledger.used_uuid(&UUID), None);
    assert_eq!(validate(&mut ledger, statement(), attestation(), T + 3600 + 30), Ok(()));
}

#[test]
fn an_expiration_at_the_end_of_time_never_passes() {
    let mut ledger = prepared();
    let mut forever_statement = statement();
    forever_statement.expiration = i64::MAX;
    let mut forever_attestation = attestation();
    forever_attestation.expiration = i64::MAX;
    assert_eq!(validate(&mut ledger, forever_statement, forever_attestation, i64::MAX), Ok(()));
}

#[test]
fn another_policy_than_the_stored_one_is_refused() {
    let mut ledger = prepared();
    let mut other = statement();
    other.policy_id = String::from("daily-limit:1001");
    assert_eq!(
        validate(&mut ledger, other, attestation(), T),
        Err(PredicateRegistryError::PolicyIdMismatch)
    );
    ledger
        .update_policy_id(
            upgrade_authority(),
            program(),
            program_data(),
            String::from("daily-limit:2000"),
            &at(T),
        )
        .unwrap();
    assert_eq!(
        validate(&mut ledger, statement(), attestation(), T),
        Err(PredicateRegistryError::PolicyIdMismatch)
    );
}

#[test]
fn attestation_of_another_attester_is_refused() {
    let mut ledger = prepared();
    ledger.register_attester(authority(), key(0x0b), &at(T)).unwrap();
    let mut other = attestation();
    other.attester = key(0x0b);
    assert_eq!(
        validate(&mut ledger, statement(), other, T),
        Err(PredicateRegistryError::WrongAttester)
    );
}

#[test]
fn missing_or_foreign_signature_proof_is_refused() {
    let mut ledger = prepared();
    let digest = statement().hash_statement_safe(submitter());
    let mut wrong_signature = attestation().signature;
    wrong_signature[63] ^= 1;
    let sysvar = proof_of(&wrong_signature, &attester(), &digest);
    assert_eq!(
        ledger
            .validate_attestation(submitter(), sysvar, statement(), attester(), attestation(), &at(T))
            .map(|_| ()),
        Err(PredicateRegistryError::InvalidSignature)
    );
    let mut foreign = signed_proof(&statement(), &attestation());
    foreign.key = key(1);
    assert_eq!(
        ledger
            .validate_attestation(submitter(), foreign, statement(), attester(), attestation(), &at(T))
            .map(|_| ()),
        Err(PredicateRegistryError::InvalidAccountData)
    );
    assert_eq!(ledger.used_uuid(&UUID), None);
}

#[test]
fn an_attestation_cannot_be_relayed_by_another_submitter() {
    let mut ledger = prepared();
    // The attester signed for `submitter()`; someone else submits.
    let sysvar = signed_proof(&statement(), &attestation());
    assert_eq!(
        ledger
            .validate_attestation(key(0x04), sysvar, statement(), attester(), attestation(), &at(T))
            .map(|_| ()),
        Err(PredicateRegistryError::InvalidSignature)
    );
}

#[test]
fn a_changed_statement_no_longer_matches_the_signed_digest() {
    let mut ledger = prepared();
    let sysvar = signed_proof(&statement(), &attestation());
    let mut changed = statement();
    changed.msg_value = 501;
    assert_eq!(
        ledger
            .validate_attestation(submitter(), sysvar, changed, attester(), attestation(), &at(T))
            .map(|_| ()),
        Err(PredicateRegistryError::InvalidSignature)
    );
}

#[test]
fn cleanup_waits_for_the_drift_buffer() {
    let mut ledger = prepared();
    assert_eq!(validate(&mut ledger, statement(), attestation(), T), Ok(()));
    assert_eq!(
        ledger.cleanup_expired_uuid(&UUID, submitter(), &at(T + 3600 + 29)),
        Err(PredicateRegistryError::StatementNotExpired)
    );
    assert_eq!(
        ledger.cleanup_expired_uuid(&UUID, submitter(), &at(T + 3600 + 30)),
        Err(PredicateRegistryError::StatementNotExpired)
    );
    assert!(ledger.used_uuid(&UUID).is_some());
    let record = ledger.cleanup_expired_uuid(&UUID, submitter(), &at(T + 3600 + 31)).unwrap();
    assert_eq!(
        record,
        UsedUuidAccount { uuid: UUID, signer: submitter(), used_at: T, expires_at: T + 3600 }
    );
    assert_eq!(ledger.used_uuid(&UUID), None);
}

#[test]
fn cleanup_refunds_the_original_signer_only() {
    let mut ledger = prepared();
    assert_eq!(validate(&mut ledger, statement(), attestation(), T), Ok(()));
    assert_eq!(
        ledger.cleanup_expired_uuid(&UUID, key(0x66), &at(T + 3600 + 31)),
        Err(PredicateRegistryError::Unauthorized)
    );
    assert_eq!(
        ledger.cleanup_expired_uuid(&UUID, key(0x66), &at(T)),
        Err(PredicateRegistryError::Unauthorized)
    );
    assert!(ledger.used_uuid(&UUID).is_some());
    assert!(ledger.cleanup_expired_uuid(&UUID, submitter(), &at(T + 3600 + 31)).is_ok());
}

#[test]
fn cleanup_of_an_unused_identifier_is_refused() {
    let mut ledger = prepared();
    assert_eq!(
        ledger.cleanup_expired_uuid(&UUID, submitter(), &at(T + 10_000)),
        Err(PredicateRegistryError::InvalidAccountData)
    );
    assert_eq!(validate(&mut ledger, statement(), attestation(), T), Ok(()));
    assert!(ledger.cleanup_expired_uuid(&UUID, submitter(), &at(T + 10_000)).is_ok());
    assert_eq!(
        ledger.cleanup_expired_uuid(&UUID, submitter(), &at(T + 10_001)),
        Err(PredicateRegistryError::InvalidAccountData)
    );
}

#[test]
fn a_released_identifier_can_no_longer_be_validated() {
    let mut ledger = prepared();
    assert_eq!(validate(&mut ledger, statement(), attestation(), T), Ok(()));
    assert!(ledger.cleanup_expired_uuid(&UUID, submitter(), &at(T + 3631)).is_ok());
    assert_eq!(
        validate(&mut ledger, statement(), attestation(), T + 3631),
        Err(PredicateRegistryError::AttestationExpired)
    );
}

#[test]
fn accounts_of_different_keys_are_kept_apart() {
    let mut ledger = prepared();
    for byte in 0x20u8..0x28 {
        ledger.register_attester(authority(), key(byte), &at(T + byte as i64)).unwrap();
    }
    assert_eq!(ledger.registry().unwrap().total_attesters, 9);
    ledger.deregister_attester(authority(), key(0x23), &at(T + 100)).unwrap();
    for byte in 0x20u8..0x28 {
        let account = ledger.attester(&key(byte)).unwrap();
        assert_eq!(account.attester, key(byte));
        assert_eq!(account.registered_at, T + byte as i64);
        assert_eq!(account.is_registered, byte != 0x23);
    }
    assert_eq!(ledger.attester(&attester()).unwrap().registered_at, T - 90);
    assert_eq!(ledger.registry().unwrap().total_attesters, 8);
}

#[test]
fn check_attestation_decides_without_recording() {
    let ledger = prepared();
    let sysvar = signed_proof(&statement(), &attestation());
    let (events, record) = ledger
        .check_attestation(submitter(), sysvar, statement(), attester(), attestation(), &at(T))
        .unwrap();
    assert_eq!(events.uuid_marked_used.uuid, "12345678-9abc-def0-0123-456789abcdef");
    assert_eq!(events.statement_validated.timestamp, T);
    assert_eq!(
        record,
        UsedUuidAccount { uuid: UUID, signer: submitter(), used_at: T, expires_at: T + 3600 }
    );
    assert_eq!(ledger.used_uuid(&UUID), None);
    // Asked again, it decides the same.
    let sysvar = signed_proof(&statement(), &attestation());
    assert!(ledger
        .check_attestation(submitter(), sysvar, statement(), attester(), attestation(), &at(T))
        .is_ok());
}

#[test]
fn check_attestation_refuses_as_the_validation_does() {
    let mut ledger = prepared();
    let check = |ledger: &Ledger, statement: Statement, attestation: Attestation, now: i64| {
        let sysvar = signed_proof(&statement, &attestation);
        ledger
            .check_attestation(submitter(), sysvar, statement, attester(), attestation, &at(now))
            .map(|_| ())
    };
    assert_eq!(
        check(&ledger, statement(), attestation(), T + 3631),
        Err(PredicateRegistryError::AttestationExpired)
    );
    let mut other = attestation();
    other.uuid[3] ^= 1;
    assert_eq!(
        check(&ledger, statement(), other, T),
        Err(PredicateRegistryError::StatementIdMismatch)
    );
    assert_eq!(validate(&mut ledger, statement(), attestation(), T), Ok(()));
    assert_eq!(
        check(&ledger, statement(), attestation(), T),
        Err(PredicateRegistryError::UuidAlreadyUsed)
    );
}
