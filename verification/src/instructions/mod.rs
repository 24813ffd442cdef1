//! The operations of the registry and the accounts that each one works on.
//!
//! An operation receives its accounts already looked up, checks every
//! condition on them itself, and either succeeds or leaves every account as
//! it was. An account that the operation creates is handed over as its
//! place, which must be empty: creation does not overwrite.

use vstd::prelude::*;
use crate::ed25519::InstructionsSysvar;
use crate::program_data::ProgramData;
use crate::pubkey::Pubkey;
use crate::state::{AttesterAccount, PolicyAccount, PredicateRegistry, UsedUuidAccount};

pub mod cleanup_expired_uuid;
pub mod deregister_attester;
pub mod initialize;
pub mod register_attester;
pub mod set_policy_id;
pub mod transfer_authority;
pub mod update_policy_id;
pub mod validate_attestation;

pub use cleanup_expired_uuid::cleanup_expired_uuid;
pub use deregister_attester::deregister_attester;
pub use initialize::initialize;
pub use register_attester::register_attester;
pub use set_policy_id::set_policy_id;
pub use transfer_authority::transfer_authority;
pub use update_policy_id::update_policy_id;
pub use validate_attestation::validate_attestation;

verus! {

/// Seconds of clock drift that are tolerated after an expiration. The same
/// tolerance decides whether a statement is still valid and whether its
/// used identifier may be released.
pub const CLOCK_DRIFT_BUFFER: i64 = 30;

/// Whether `now` lies after `expiration` and the drift buffer.
pub open spec fn spec_past_expiry(now: i64, expiration: i64) -> bool {
    now > expiration + CLOCK_DRIFT_BUFFER
}

/// Whether `now` lies after `expiration` and the drift buffer. The sum is
/// taken without overflow: an expiration within the buffer of the largest
/// time is never passed.
pub fn past_expiry(now: i64, expiration: i64) -> (past: bool)
    ensures
        past == spec_past_expiry(now, expiration),
{
    match expiration.checked_add(CLOCK_DRIFT_BUFFER) {
        Some(limit) => now > limit,
        None => false,
    }
}

/// Accounts of `initialize`.
#[derive(Clone, Copy, Debug, PartialEq, Eq)]
pub struct Initialize {
    /// The address of the registry.
    pub registry_key: Pubkey,
    /// The registry's place: empty until the registry is created.
    pub registry: Option<PredicateRegistry>,
    /// The signer, who becomes the authority.
    pub authority: Pubkey,
}

/// Accounts of `register_attester`.
#[derive(Clone, Copy, Debug, PartialEq, Eq)]
pub struct RegisterAttester {
    /// The address of the registry.
    pub registry_key: Pubkey,
    /// The registry; its authority must be the signer.
    pub registry: PredicateRegistry,
    /// The attester's place: empty until the attester is first registered.
    pub attester_account: Option<AttesterAccount>,
    /// The signer.
    pub authority: Pubkey,
}

/// Accounts of `deregister_attester`.
#[derive(Clone, Copy, Debug, PartialEq, Eq)]
pub struct DeregisterAttester {
    /// The address of the registry.
    pub registry_key: Pubkey,
    /// The registry; its authority must be the signer.
    pub registry: PredicateRegistry,
    /// The attester's account; it must be registered.
    pub attester_account: AttesterAccount,
    /// The signer.
    pub authority: Pubkey,
}

/// Accounts of `set_policy_id`.
#[derive(Clone, Debug, PartialEq, Eq)]
pub struct SetPolicyId {
    /// The address of the registry.
    pub registry_key: Pubkey,
    /// The registry.
    pub registry: PredicateRegistry,
    /// The place of the program's policy account: empty until the policy
    /// is first set.
    pub policy_account: Option<PolicyAccount>,
    /// The program that the policy is for.
    pub client_program: Pubkey,
    /// The program's upgrade metadata.
    pub program_data: ProgramData,
    /// The signer; it must be the program's upgrade authority.
    pub authority: Pubkey,
}

/// Accounts of `update_policy_id`.
#[derive(Clone, Debug, PartialEq, Eq)]
pub struct UpdatePolicyId {
    /// The address of the registry.
    pub registry_key: Pubkey,
    /// The registry.
    pub registry: PredicateRegistry,
    /// The program's policy account.
    pub policy_account: PolicyAccount,
    /// The program that the policy is for.
    pub client_program: Pubkey,
    /// The program's upgrade metadata.
    pub program_data: ProgramData,
    /// The signer; it must be the program's upgrade authority.
    pub authority: Pubkey,
}

/// Accounts of `validate_attestation`.
#[derive(Clone, Debug, PartialEq, Eq)]
pub struct ValidateAttestation {
    /// The address of the registry.
    pub registry_key: Pubkey,
    /// The registry.
    pub registry: PredicateRegistry,
    /// The account of the attester that vouched.
    pub attester_account: AttesterAccount,
    /// The policy account of the statement's target.
    pub policy_account: PolicyAccount,
    /// The place of the identifier's record: empty until the identifier
    /// is consumed.
    pub used_uuid_account: Option<UsedUuidAccount>,
    /// Who submits the transaction and pays for the record.
    pub signer: Pubkey,
    /// The instructions of the current transaction.
    pub instructions_sysvar: InstructionsSysvar,
}

/// Accounts of `transfer_authority`.
#[derive(Clone, Copy, Debug, PartialEq, Eq)]
pub struct TransferAuthority {
    /// The address of the registry.
    pub registry_key: Pubkey,
    /// The registry; its authority must be the signer.
    pub registry: PredicateRegistry,
    /// The signer.
    pub authority: Pubkey,
}

/// Accounts of `cleanup_expired_uuid`.
#[derive(Clone, Copy, Debug, PartialEq, Eq)]
pub struct CleanupExpiredUuid {
    /// The record to release.
    pub used_uuid_account: UsedUuidAccount,
    /// Who receives the storage cost; it must be who paid for the record.
    pub signer_recipient: Pubkey,
}

/// Accounts of a read of the registry.
#[derive(Clone, Copy, Debug, PartialEq, Eq)]
pub struct GetRegisteredAttestors {
    /// The address of the registry.
    pub registry_key: Pubkey,
    /// The registry.
    pub registry: PredicateRegistry,
}

/// Accounts of a read of one policy.
#[derive(Clone, Debug, PartialEq, Eq)]
pub struct GetPolicy {
    /// The address of the registry.
    pub registry_key: Pubkey,
    /// The registry.
    pub registry: PredicateRegistry,
    /// The client's policy account.
    pub policy_account: PolicyAccount,
}

} // verus!
