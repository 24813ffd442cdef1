//! The errors of the registry, each with a stable code and a message.

use vstd::prelude::*;
use vstd::string::StringExecFns;

verus! {

/// The first code of the registry's errors; a variant's code is this plus
/// its position in the enum.
pub const ERROR_CODE_OFFSET: u32 = 6000;

/// Why an operation of the registry was refused.
#[derive(Clone, Copy, Debug, PartialEq, Eq, Structural)]
pub enum PredicateRegistryError {
    /// An attester that is registered was registered again.
    AttesterAlreadyRegistered,
    /// An attester that is not registered was deregistered.
    AttesterNotRegistered,
    /// The signer may not perform the action.
    Unauthorized,
    /// The authority given is not acceptable.
    InvalidAuthority,
    /// The registry exists already.
    AlreadyInitialized,
    /// The registry does not exist yet.
    NotInitialized,
    /// A parameter is not acceptable.
    InvalidParameter,
    /// A counter would leave its range.
    ArithmeticError,
    /// The attestation is past its expiration and the drift buffer.
    AttestationExpired,
    /// Statement and attestation carry different identifiers.
    StatementIdMismatch,
    /// Statement and attestation carry different expirations.
    ExpirationMismatch,
    /// The signature proof is missing or does not match.
    InvalidSignature,
    /// The attester that vouched is not registered.
    AttesterNotRegisteredForValidation,
    /// The policy identifier is longer than the cap.
    PolicyIdTooLong,
    /// The policy identifier is empty.
    InvalidPolicyId,
    /// The statement names another policy than the stored one.
    PolicyIdMismatch,
    /// The identifier was consumed before.
    UuidAlreadyUsed,
    /// A used identifier was to be released too early.
    StatementNotExpired,
    /// The statement is past its expiration and the drift buffer.
    StatementExpired,
    /// The attester keys given do not agree.
    WrongAttester,
    /// No key could be recovered from the signature.
    SignatureRecoveryFailed,
    /// An account does not hold what it should.
    InvalidAccountData,
    /// No policy is stored for the client.
    PolicyNotFound,
    /// No attester account is stored.
    AttesterNotFound,
    /// The current time could not be read.
    ClockError,
    /// Data could not be encoded or decoded.
    SerializationError,
    /// The program's upgrade metadata is malformed.
    InvalidProgramData,
    /// The policy account belongs to another program.
    InvalidClientProgram,
}

impl PredicateRegistryError {
    /// The position of the variant in the enum.
    pub open spec fn spec_index(self) -> nat {
        match self {
            PredicateRegistryError::AttesterAlreadyRegistered => 0,
            PredicateRegistryError::AttesterNotRegistered => 1,
            PredicateRegistryError::Unauthorized => 2,
            PredicateRegistryError::InvalidAuthority => 3,
            PredicateRegistryError::AlreadyInitialized => 4,
            PredicateRegistryError::NotInitialized => 5,
            PredicateRegistryError::InvalidParameter => 6,
            PredicateRegistryError::ArithmeticError => 7,
            PredicateRegistryError::AttestationExpired => 8,
            PredicateRegistryError::StatementIdMismatch => 9,
            PredicateRegistryError::ExpirationMismatch => 10,
            PredicateRegistryError::InvalidSignature => 11,
            PredicateRegistryError::AttesterNotRegisteredForValidation => 12,
            PredicateRegistryError::PolicyIdTooLong => 13,
            PredicateRegistryError::InvalidPolicyId => 14,
            PredicateRegistryError::PolicyIdMismatch => 15,
            PredicateRegistryError::UuidAlreadyUsed => 16,
            PredicateRegistryError::StatementNotExpired => 17,
            PredicateRegistryError::StatementExpired => 18,
            PredicateRegistryError::WrongAttester => 19,
            PredicateRegistryError::SignatureRecoveryFailed => 20,
            PredicateRegistryError::InvalidAccountData => 21,
            PredicateRegistryError::PolicyNotFound => 22,
            PredicateRegistryError::AttesterNotFound => 23,
            PredicateRegistryError::ClockError => 24,
            PredicateRegistryError::SerializationError => 25,
            PredicateRegistryError::InvalidProgramData => 26,
            PredicateRegistryError::InvalidClientProgram => 27,
        }
    }

    /// The machine-readable code.
    pub open spec fn spec_code(self) -> nat {
        6000 + self.spec_index()
    }

    /// The human-readable message.
    pub open spec fn spec_message(self) -> Seq<char> {
        match self {
            PredicateRegistryError::AttesterAlreadyRegistered => "Attester already registered: The attester is already registered in the registry"@,
            PredicateRegistryError::AttesterNotRegistered => "Attester not registered: The attester is not registered in the registry"@,
            PredicateRegistryError::Unauthorized => "Unauthorized: Only the authority can perform this action"@,
            PredicateRegistryError::InvalidAuthority => "Invalid authority: The provided authority address is invalid"@,
            PredicateRegistryError::AlreadyInitialized => "Already initialized: Registry has already been initialized"@,
            PredicateRegistryError::NotInitialized => "Not initialized: Registry has not been initialized"@,
            PredicateRegistryError::InvalidParameter => "Invalid parameter: The provided parameter is invalid"@,
            PredicateRegistryError::ArithmeticError => "Arithmetic error: Mathematical operation failed"@,
            PredicateRegistryError::AttestationExpired => "Attestation expired: The attestation has passed its expiration time"@,
            PredicateRegistryError::StatementIdMismatch => "Statement ID mismatch: Statement UUID does not match attestation UUID"@,
            PredicateRegistryError::ExpirationMismatch => "Expiration mismatch: Statement expiration does not match attestation expiration"@,
            PredicateRegistryError::InvalidSignature => "Invalid signature: The attestation signature is invalid"@,
            PredicateRegistryError::AttesterNotRegisteredForValidation => "Attester not registered: The attester is not registered for validation"@,
            PredicateRegistryError::PolicyIdTooLong => "Policy ID too long: Policy ID string exceeds maximum allowed length"@,
            PredicateRegistryError::InvalidPolicyId => "Invalid policy ID: Policy ID cannot be empty"@,
            PredicateRegistryError::PolicyIdMismatch => "Policy ID mismatch: Statement policy ID does not match account policy ID"@,
            PredicateRegistryError::UuidAlreadyUsed => "UUID already used: This attestation has already been validated"@,
            PredicateRegistryError::StatementNotExpired => "Statement not expired: Cannot cleanup UUID before statement expiration"@,
            PredicateRegistryError::StatementExpired => "Statement expired: The statement has passed its expiration time"@,
            PredicateRegistryError::WrongAttester => "Wrong attester: The recovered attester does not match the provided attester"@,
            PredicateRegistryError::SignatureRecoveryFailed => "Signature recovery failed: Could not recover public key from signature"@,
            PredicateRegistryError::InvalidAccountData => "Invalid account data: Account data is corrupted or invalid"@,
            PredicateRegistryError::PolicyNotFound => "Policy not found: No policy found for the specified client"@,
            PredicateRegistryError::AttesterNotFound => "Attester not found: No attester account found"@,
            PredicateRegistryError::ClockError => "Clock error: Failed to get current timestamp"@,
            PredicateRegistryError::SerializationError => "Serialization error: Failed to serialize or deserialize data"@,
            PredicateRegistryError::InvalidProgramData => "Invalid program data: Program data account is invalid or cannot be deserialized"@,
            PredicateRegistryError::InvalidClientProgram => "Client program mismatch: Client program does not match policy account"@,
        }
    }

    /// The machine-readable code that callers branch on.
    pub fn code(&self) -> (code: u32)
        ensures
            code == self.spec_code(),
            6000 <= code < 6028,
    {
        let index: u32 = match self {
            PredicateRegistryError::AttesterAlreadyRegistered => 0,
            PredicateRegistryError::AttesterNotRegistered => 1,
            PredicateRegistryError::Unauthorized => 2,
            PredicateRegistryError::InvalidAuthority => 3,
            PredicateRegistryError::AlreadyInitialized => 4,
            PredicateRegistryError::NotInitialized => 5,
            PredicateRegistryError::InvalidParameter => 6,
            PredicateRegistryError::ArithmeticError => 7,
            PredicateRegistryError::AttestationExpired => 8,
            PredicateRegistryError::StatementIdMismatch => 9,
            PredicateRegistryError::ExpirationMismatch => 10,
            PredicateRegistryError::InvalidSignature => 11,
            PredicateRegistryError::AttesterNotRegisteredForValidation => 12,
            PredicateRegistryError::PolicyIdTooLong => 13,
            PredicateRegistryError::InvalidPolicyId => 14,
            PredicateRegistryError::PolicyIdMismatch => 15,
            PredicateRegistryError::UuidAlreadyUsed => 16,
            PredicateRegistryError::StatementNotExpired => 17,
            PredicateRegistryError::StatementExpired => 18,
            PredicateRegistryError::WrongAttester => 19,
            PredicateRegistryError::SignatureRecoveryFailed => 20,
            PredicateRegistryError::InvalidAccountData => 21,
            PredicateRegistryError::PolicyNotFound => 22,
            PredicateRegistryError::AttesterNotFound => 23,
            PredicateRegistryError::ClockError => 24,
            PredicateRegistryError::SerializationError => 25,
            PredicateRegistryError::InvalidProgramData => 26,
            PredicateRegistryError::InvalidClientProgram => 27,
        };
        ERROR_CODE_OFFSET + index
    }

    /// The error that carries `code`, if there is one.
    pub fn from_code(code: u32) -> (error: Option<PredicateRegistryError>)
        ensures
            match error {
                Some(e) => e.spec_code() == code,
                None => forall|e: PredicateRegistryError| e.spec_code() != code,
            },
    {
        if code < ERROR_CODE_OFFSET {
            return None;
        }
        let index: u32 = code - ERROR_CODE_OFFSET;
        match index {
            0 => Some(PredicateRegistryError::AttesterAlreadyRegistered),
            1 => Some(PredicateRegistryError::AttesterNotRegistered),
            2 => Some(PredicateRegistryError::Unauthorized),
            3 => Some(PredicateRegistryError::InvalidAuthority),
            4 => Some(PredicateRegistryError::AlreadyInitialized),
            5 => Some(PredicateRegistryError::NotInitialized),
            6 => Some(PredicateRegistryError::InvalidParameter),
            7 => Some(PredicateRegistryError::ArithmeticError),
            8 => Some(PredicateRegistryError::AttestationExpired),
            9 => Some(PredicateRegistryError::StatementIdMismatch),
            10 => Some(PredicateRegistryError::ExpirationMismatch),
            11 => Some(PredicateRegistryError::InvalidSignature),
            12 => Some(PredicateRegistryError::AttesterNotRegisteredForValidation),
            13 => Some(PredicateRegistryError::PolicyIdTooLong),
            14 => Some(PredicateRegistryError::InvalidPolicyId),
            15 => Some(PredicateRegistryError::PolicyIdMismatch),
            16 => Some(PredicateRegistryError::UuidAlreadyUsed),
            17 => Some(PredicateRegistryError::StatementNotExpired),
            18 => Some(PredicateRegistryError::StatementExpired),
            19 => Some(PredicateRegistryError::WrongAttester),
            20 => Some(PredicateRegistryError::SignatureRecoveryFailed),
            21 => Some(PredicateRegistryError::InvalidAccountData),
            22 => Some(PredicateRegistryError::PolicyNotFound),
            23 => Some(PredicateRegistryError::AttesterNotFound),
            24 => Some(PredicateRegistryError::ClockError),
            25 => Some(PredicateRegistryError::SerializationError),
            26 => Some(PredicateRegistryError::InvalidProgramData),
            27 => Some(PredicateRegistryError::InvalidClientProgram),
            _ => None,
        }
    }

    /// The human-readable message.
    pub fn message(&self) -> (text: String)
        ensures
            text@ == self.spec_message(),
    {
        match self {
            PredicateRegistryError::AttesterAlreadyRegistered => String::from_str(
                "Attester already registered: The attester is already registered in the registry",
            ),
            PredicateRegistryError::AttesterNotRegistered => String::from_str(
                "Attester not registered: The attester is not registered in the registry",
            ),
            PredicateRegistryError::Unauthorized => String::from_str(
                "Unauthorized: Only the authority can perform this action",
            ),
            PredicateRegistryError::InvalidAuthority => String::from_str(
                "Invalid authority: The provided authority address is invalid",
            ),
            PredicateRegistryError::AlreadyInitialized => String::from_str(
                "Already initialized: Registry has already been initialized",
            ),
            PredicateRegistryError::NotInitialized => String::from_str(
                "Not initialized: Registry has not been initialized",
            ),
            PredicateRegistryError::InvalidParameter => String::from_str(
                "Invalid parameter: The provided parameter is invalid",
            ),
            PredicateRegistryError::ArithmeticError => String::from_str(
                "Arithmetic error: Mathematical operation failed",
            ),
            PredicateRegistryError::AttestationExpired => String::from_str(
                "Attestation expired: The attestation has passed its expiration time",
            ),
            PredicateRegistryError::StatementIdMismatch => String::from_str(
                "Statement ID mismatch: Statement UUID does not match attestation UUID",
            ),
            PredicateRegistryError::ExpirationMismatch => String::from_str(
                "Expiration mismatch: Statement expiration does not match attestation expiration",
            ),
            PredicateRegistryError::InvalidSignature => String::from_str(
                "Invalid signature: The attestation signature is invalid",
            ),
            PredicateRegistryError::AttesterNotRegisteredForValidation => String::from_str(
                "Attester not registered: The attester is not registered for validation",
            ),
            PredicateRegistryError::PolicyIdTooLong => String::from_str(
                "Policy ID too long: Policy ID string exceeds maximum allowed length",
            ),
            PredicateRegistryError::InvalidPolicyId => String::from_str(
                "Invalid policy ID: Policy ID cannot be empty",
            ),
            PredicateRegistryError::PolicyIdMismatch => String::from_str(
                "Policy ID mismatch: Statement policy ID does not match account policy ID",
            ),
            PredicateRegistryError::UuidAlreadyUsed => String::from_str(
                "UUID already used: This attestation has already been validated",
            ),
            PredicateRegistryError::StatementNotExpired => String::from_str(
                "Statement not expired: Cannot cleanup UUID before statement expiration",
            ),
            PredicateRegistryError::StatementExpired => String::from_str(
                "Statement expired: The statement has passed its expiration time",
            ),
            PredicateRegistryError::WrongAttester => String::from_str(
                "Wrong attester: The recovered attester does not match the provided attester",
            ),
            PredicateRegistryError::SignatureRecoveryFailed => String::from_str(
                "Signature recovery failed: Could not recover public key from signature",
            ),
            PredicateRegistryError::InvalidAccountData => String::from_str(
                "Invalid account data: Account data is corrupted or invalid",
            ),
            PredicateRegistryError::PolicyNotFound => String::from_str(
                "Policy not found: No policy found for the specified client",
            ),
            PredicateRegistryError::AttesterNotFound => String::from_str(
                "Attester not found: No attester account found",
            ),
            PredicateRegistryError::ClockError => String::from_str(
                "Clock error: Failed to get current timestamp",
            ),
            PredicateRegistryError::SerializationError => String::from_str(
                "Serialization error: Failed to serialize or deserialize data",
            ),
            PredicateRegistryError::InvalidProgramData => String::from_str(
                "Invalid program data: Program data account is invalid or cannot be deserialized",
            ),
            PredicateRegistryError::InvalidClientProgram => String::from_str(
                "Client program mismatch: Client program does not match policy account",
            ),
        }
    }
}

/// Two errors with the same code are the same error.
pub proof fn lemma_codes_distinct(a: PredicateRegistryError, b: PredicateRegistryError)
    ensures
        a.spec_code() == b.spec_code() <==> a == b,
{
}

} // verus!
