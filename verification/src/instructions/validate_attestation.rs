//! Validation of an attestation for a statement.
//!
//! The checks run in a fixed order, and the first one that fails decides the
//! error: the shape of the input; the agreement of statement and
//! attestation and their expiration; the policy; the attester; the proof
//! that the native program verified the signature; the record of the
//! identifier, which is created only when all the others have passed and
//! only if there is none yet.

use vstd::prelude::*;
use crate::ed25519::{spec_verify_ed25519_signature, verify_ed25519_signature};
use crate::errors::PredicateRegistryError;
use crate::events::{StatementValidated, UuidMarkedUsed};
use crate::instructions::{
    past_expiry, spec_past_expiry, ValidateAttestation, CLOCK_DRIFT_BUFFER,
};
use crate::bytes::bytes_equal;
use crate::pubkey::Pubkey;
use crate::state::{
    spec_format_uuid, spec_hash_statement_safe, Attestation, Clock, Statement, UsedUuidAccount,
};

verus! {

/// The two events of a successful validation, in the order in which they
/// are reported.
#[derive(Clone, Debug, PartialEq, Eq)]
pub struct Validated {
    /// The identifier was consumed.
    pub uuid_marked_used: UuidMarkedUsed,
    /// The statement was validated.
    pub statement_validated: StatementValidated,
}

impl Validated {
    /// Whether the two events report the validation of `statement`,
    /// vouched for by `attestation` and submitted by `signer` at `now`, in
    /// the registry at `registry_key`.
    pub open spec fn spec_is(
        self,
        registry_key: Pubkey,
        signer: Pubkey,
        statement: Statement,
        attestation: Attestation,
        now: i64,
    ) -> bool {
        &&& self.uuid_marked_used.spec_is(
            spec_format_uuid(statement.uuid@),
            signer,
            statement.expiration,
            now,
        )
        &&& self.statement_validated.registry == registry_key
        &&& self.statement_validated.msg_sender == statement.msg_sender
        &&& self.statement_validated.target == statement.target
        &&& self.statement_validated.attester == attestation.attester
        &&& self.statement_validated.msg_value == statement.msg_value
        &&& self.statement_validated.policy_id@ == statement.policy_id@
        &&& self.statement_validated.uuid@ == spec_format_uuid(statement.uuid@)
        &&& self.statement_validated.expiration == statement.expiration
        &&& self.statement_validated.timestamp == now
    }
}

/// The record that a validation creates for the statement's identifier.
pub open spec fn spec_used_record(signer: Pubkey, statement: Statement, now: i64) -> UsedUuidAccount {
    UsedUuidAccount {
        uuid: statement.uuid,
        signer,
        used_at: now,
        expires_at: statement.expiration,
    }
}

/// Why the input is refused for its shape, if it is: an empty policy
/// identifier in the statement or in the policy account.
pub open spec fn spec_input_error(ctx: ValidateAttestation, statement: Statement) -> Option<
    PredicateRegistryError,
> {
    if statement.policy_id@.len() == 0 || ctx.policy_account.policy_id@.len() == 0 {
        Some(PredicateRegistryError::InvalidPolicyId)
    } else {
        None
    }
}

/// Why statement and attestation are refused as a pair at `now`, if they
/// are: different identifiers, different expirations, or an expiration
/// that, with the drift buffer, lies before `now`.
pub open spec fn spec_pairing_error(statement: Statement, attestation: Attestation, now: i64) -> Option<
    PredicateRegistryError,
> {
    if statement.uuid@ != attestation.uuid@ {
        Some(PredicateRegistryError::StatementIdMismatch)
    } else if statement.expiration != attestation.expiration {
        Some(PredicateRegistryError::ExpirationMismatch)
    } else if spec_past_expiry(now, attestation.expiration) {
        Some(PredicateRegistryError::AttestationExpired)
    } else if spec_past_expiry(now, statement.expiration) {
        Some(PredicateRegistryError::StatementExpired)
    } else {
        None
    }
}

/// Why the statement's policy is refused, if it is: the policy account
/// belongs to another program than the statement's target, or holds another
/// identifier.
pub open spec fn spec_policy_error(ctx: ValidateAttestation, statement: Statement) -> Option<
    PredicateRegistryError,
> {
    if ctx.policy_account.client_program@ != statement.target@ {
        Some(PredicateRegistryError::InvalidClientProgram)
    } else if statement.policy_id@ != ctx.policy_account.policy_id@ {
        Some(PredicateRegistryError::PolicyIdMismatch)
    } else {
        None
    }
}

/// Why the attester is refused, if it is: the key given, the key in the
/// attestation and the key of the account do not all agree, or the attester
/// is not registered.
pub open spec fn spec_attester_error(
    ctx: ValidateAttestation,
    attester_key: Pubkey,
    attestation: Attestation,
) -> Option<PredicateRegistryError> {
    if attester_key@ != ctx.attester_account.attester@ {
        Some(PredicateRegistryError::WrongAttester)
    } else if attestation.attester@ != ctx.attester_account.attester@ {
        Some(PredicateRegistryError::WrongAttester)
    } else if !ctx.attester_account.is_registered {
        Some(PredicateRegistryError::AttesterNotRegisteredForValidation)
    } else {
        None
    }
}

/// The outcome of the signature proof: the native program must have
/// verified the attestation's signature by the attester's key over the
/// digest of the statement as submitted by the signer.
pub open spec fn spec_signature_error(
    ctx: ValidateAttestation,
    statement: Statement,
    attestation: Attestation,
) -> Option<PredicateRegistryError> {
    match spec_verify_ed25519_signature(
        attestation.signature@,
        attestation.attester@,
        spec_hash_statement_safe(statement, ctx.signer@),
        ctx.instructions_sysvar.key@,
        ctx.instructions_sysvar.data@,
    ) {
        Ok(()) => None,
        Err(e) => Some(e),
    }
}

/// Why a validation is refused at `now`, if it is: the first failure in
/// the order of the checks.
pub open spec fn spec_validation_error(
    ctx: ValidateAttestation,
    statement: Statement,
    attester_key: Pubkey,
    attestation: Attestation,
    now: i64,
) -> Option<PredicateRegistryError> {
    if spec_input_error(ctx, statement) is Some {
        spec_input_error(ctx, statement)
    } else if spec_pairing_error(statement, attestation, now) is Some {
        spec_pairing_error(statement, attestation, now)
    } else if spec_policy_error(ctx, statement) is Some {
        spec_policy_error(ctx, statement)
    } else if spec_attester_error(ctx, attester_key, attestation) is Some {
        spec_attester_error(ctx, attester_key, attestation)
    } else if spec_signature_error(ctx, statement, attestation) is Some {
        spec_signature_error(ctx, statement, attestation)
    } else if ctx.used_uuid_account is Some {
        Some(PredicateRegistryError::UuidAlreadyUsed)
    } else {
        None
    }
}

/// Validates `attestation` for `statement`.
///
/// On success the record of the identifier is created with the
/// identifier, the signer, the clock's time and the statement's expiration,
/// and the two events are returned. The signature's length is fixed by its type. On an
/// error no account changes; the error is the first failure, in this order:
///
/// - `InvalidPolicyId`: the statement's or the account's policy is empty;
/// - `StatementIdMismatch`, `ExpirationMismatch`: the two do not agree;
/// - `AttestationExpired`, `StatementExpired`: the clock is past the
///   expiration and the drift buffer;
/// - `InvalidClientProgram`, `PolicyIdMismatch`: the policy account is not
///   the target's, or holds another policy;
/// - `WrongAttester`, `AttesterNotRegisteredForValidation`;
/// - `InvalidAccountData`, `InvalidSignature`: the signature proof failed;
/// - `UuidAlreadyUsed`: the identifier has a record already.
pub fn validate_attestation(
    ctx: &mut ValidateAttestation,
    statement: Statement,
    attester_key: Pubkey,
    attestation: Attestation,
    clock: &Clock,
) -> (result: Result<Validated, PredicateRegistryError>)
    ensures
        match result {
            Ok(events) => {
                &&& spec_validation_error(
                    *old(ctx),
                    statement,
                    attester_key,
                    attestation,
                    clock.unix_timestamp,
                ) is None
                &&& *final(ctx) == (ValidateAttestation {
                    used_uuid_account: Some(
                        spec_used_record(old(ctx).signer, statement, clock.unix_timestamp),
                    ),
                    ..*old(ctx)
                })
                &&& events.spec_is(
                    old(ctx).registry_key,
                    old(ctx).signer,
                    statement,
                    attestation,
                    clock.unix_timestamp,
                )
            },
            Err(e) => spec_validation_error(
                *old(ctx),
                statement,
                attester_key,
                attestation,
                clock.unix_timestamp,
            ) == Some(e) && *final(ctx) == *old(ctx),
        },
{
    let now = clock.unix_timestamp;
    if statement.policy_id.as_str().is_empty() || ctx.policy_account.policy_id.as_str().is_empty() {
        return Err(PredicateRegistryError::InvalidPolicyId);
    }
    if !bytes_equal(statement.uuid.as_slice(), attestation.uuid.as_slice()) {
        return Err(PredicateRegistryError::StatementIdMismatch);
    }
    if statement.expiration != attestation.expiration {
        return Err(PredicateRegistryError::ExpirationMismatch);
    }
    if past_expiry(now, attestation.expiration) {
        return Err(PredicateRegistryError::AttestationExpired);
    }
    if past_expiry(now, statement.expiration) {
        return Err(PredicateRegistryError::StatementExpired);
    }
    if ctx.policy_account.client_program != statement.target {
        return Err(PredicateRegistryError::InvalidClientProgram);
    }
    if statement.policy_id != ctx.policy_account.policy_id {
        return Err(PredicateRegistryError::PolicyIdMismatch);
    }
    if attester_key != ctx.attester_account.attester {
        return Err(PredicateRegistryError::WrongAttester);
    }
    if attestation.attester != ctx.attester_account.attester {
        return Err(PredicateRegistryError::WrongAttester);
    }
    if !ctx.attester_account.is_registered {
        return Err(PredicateRegistryError::AttesterNotRegisteredForValidation);
    }
    let message_hash = statement.hash_statement_safe(ctx.signer);
    let attester_bytes = attestation.attester.to_bytes();
    match verify_ed25519_signature(
        &attestation.signature,
        &attester_bytes,
        &message_hash,
        &ctx.instructions_sysvar,
    ) {
        Ok(()) => {},
        Err(e) => {
            return Err(e);
        },
    }
    if ctx.used_uuid_account.is_some() {
        return Err(PredicateRegistryError::UuidAlreadyUsed);
    }
    ctx.used_uuid_account = Some(
        UsedUuidAccount {
            uuid: statement.uuid,
            signer: ctx.signer,
            used_at: now,
            expires_at: statement.expiration,
        },
    );
    let uuid_marked_used = UuidMarkedUsed {
        uuid: statement.format_uuid(),
        signer: ctx.signer,
        expires_at: statement.expiration,
        timestamp: now,
    };
    let statement_validated = StatementValidated {
        registry: ctx.registry_key,
        msg_sender: statement.msg_sender,
        target: statement.target,
        attester: attestation.attester,
        msg_value: statement.msg_value,
        policy_id: statement.policy_id.clone(),
        uuid: statement.format_uuid(),
        expiration: statement.expiration,
        timestamp: now,
    };
    Ok(Validated { uuid_marked_used, statement_validated })
}

/// A statement and an attestation that carry different identifiers are
/// refused with `StatementIdMismatch`, whatever the other fields, the
/// accounts and the clock are, once both policy identifiers are not empty.
pub proof fn lemma_uuid_mismatch_refused(
    ctx: ValidateAttestation,
    statement: Statement,
    attester_key: Pubkey,
    attestation: Attestation,
    now: i64,
)
    requires
        statement.uuid@ != attestation.uuid@,
        spec_input_error(ctx, statement) is None,
    ensures
        spec_validation_error(ctx, statement, attester_key, attestation, now) == Some(
            PredicateRegistryError::StatementIdMismatch,
        ),
{
}

/// A pair whose common expiration, with the drift buffer, lies before the
/// clock is refused with `AttestationExpired`.
pub proof fn lemma_expired_refused(
    ctx: ValidateAttestation,
    statement: Statement,
    attester_key: Pubkey,
    attestation: Attestation,
    now: i64,
)
    requires
        spec_input_error(ctx, statement) is None,
        statement.uuid@ == attestation.uuid@,
        statement.expiration == attestation.expiration,
        now > attestation.expiration + CLOCK_DRIFT_BUFFER,
    ensures
        spec_validation_error(ctx, statement, attester_key, attestation, now) == Some(
            PredicateRegistryError::AttestationExpired,
        ),
{
}

/// The expiration check is inclusive: exactly at the expiration plus the
/// drift buffer a pair is not refused as expired, and the validation ends
/// as it would have ended at the expiration itself.
pub proof fn lemma_expiry_boundary_inclusive(
    ctx: ValidateAttestation,
    statement: Statement,
    attester_key: Pubkey,
    attestation: Attestation,
    now: i64,
)
    requires
        statement.uuid@ == attestation.uuid@,
        statement.expiration == attestation.expiration,
        now == attestation.expiration + CLOCK_DRIFT_BUFFER,
    ensures
        spec_pairing_error(statement, attestation, now) is None,
        spec_validation_error(ctx, statement, attester_key, attestation, now)
            == spec_validation_error(
            ctx,
            statement,
            attester_key,
            attestation,
            attestation.expiration,
        ),
{
}

/// The statement's own expiration never decides: it is compared only after
/// it was found equal to the attestation's, which was tested before it, so
/// `StatementExpired` is never the outcome.
pub proof fn lemma_statement_expiry_never_decides(
    ctx: ValidateAttestation,
    statement: Statement,
    attester_key: Pubkey,
    attestation: Attestation,
    now: i64,
)
    ensures
        spec_validation_error(ctx, statement, attester_key, attestation, now) != Some(
            PredicateRegistryError::StatementExpired,
        ),
{
}

/// A validation succeeds at most once for one place of a record: after a
/// success the place is taken, and every further validation on it fails;
/// one that passes all the other checks fails with `UuidAlreadyUsed`.
pub proof fn lemma_record_taken_refused(
    ctx: ValidateAttestation,
    statement: Statement,
    attester_key: Pubkey,
    attestation: Attestation,
    now: i64,
)
    requires
        ctx.used_uuid_account is Some,
    ensures
        spec_validation_error(ctx, statement, attester_key, attestation, now) is Some,
        spec_validation_error(
            ValidateAttestation { used_uuid_account: None, ..ctx },
            statement,
            attester_key,
            attestation,
            now,
        ) is None ==> spec_validation_error(ctx, statement, attester_key, attestation, now) == Some(
            PredicateRegistryError::UuidAlreadyUsed,
        ),
{
}

} // verus!
