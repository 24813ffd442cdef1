//! The accounts of the registry and the two messages that are validated:
//! the statement and the attestation that vouches for it.

use vstd::prelude::*;
use vstd::string::{StringExecFns, StrSliceExecFns};
use vstd::utf8::{encode_utf8, is_ascii_chars};
use crate::bytes::{
    i64_to_le_bytes, spec_i64_le_bytes, spec_u64_le_bytes, u64_to_le_bytes,
};
use crate::errors::PredicateRegistryError;
use crate::native::{hex_encode, sha256, sha256_digest, spec_hex, spec_hex_digit};
use crate::pubkey::Pubkey;

verus! {

/// The longest policy identifier that an account stores, in bytes.
pub const MAX_POLICY_ID_LEN: usize = 64;

/// The time at which an instruction runs.
#[derive(Clone, Copy, Debug, PartialEq, Eq, Structural)]
pub struct Clock {
    /// Seconds since the Unix epoch.
    pub unix_timestamp: i64,
}

/// The singleton state of the registry.
#[derive(Clone, Copy, Debug, PartialEq, Eq)]
pub struct PredicateRegistry {
    /// The authority that may change the registry.
    pub authority: Pubkey,
    /// When the registry was created.
    pub created_at: i64,
    /// When the registry was last changed.
    pub updated_at: i64,
    /// Number of registered attesters.
    pub total_attesters: u64,
    /// Number of policies set.
    pub total_policies: u64,
}

/// The registration of one attester.
#[derive(Clone, Copy, Debug, PartialEq, Eq)]
pub struct AttesterAccount {
    /// The attester's public key.
    pub attester: Pubkey,
    /// Whether the attester is registered at present.
    pub is_registered: bool,
    /// When the attester was last registered.
    pub registered_at: i64,
}

/// The policy bound to one client program.
#[derive(Clone, Debug, PartialEq, Eq)]
pub struct PolicyAccount {
    /// The program that the policy belongs to; it never changes.
    pub client_program: Pubkey,
    /// The upgrade authority that set the policy.
    pub authority: Pubkey,
    /// The policy identifier: not empty, at most 64 bytes.
    pub policy_id: String,
    /// When the policy was first set.
    pub set_at: i64,
    /// When the policy was last changed.
    pub updated_at: i64,
}

/// The one-time record of an identifier that was validated.
#[derive(Clone, Copy, Debug, PartialEq, Eq)]
pub struct UsedUuidAccount {
    /// The identifier that was consumed.
    pub uuid: [u8; 16],
    /// Who submitted the validation and paid for the record.
    pub signer: Pubkey,
    /// When the identifier was consumed.
    pub used_at: i64,
    /// The expiration of the statement that carried it.
    pub expires_at: i64,
}

/// The request that an attester vouches for.
#[derive(Clone, Debug, PartialEq, Eq)]
pub struct Statement {
    /// Unique identifier of the statement.
    pub uuid: [u8; 16],
    /// Who asks.
    pub msg_sender: Pubkey,
    /// The program that is called.
    pub target: Pubkey,
    /// The value sent along.
    pub msg_value: u64,
    /// The called function's signature and its arguments.
    pub encoded_sig_and_args: Vec<u8>,
    /// The policy identifier under which the request was attested.
    pub policy_id: String,
    /// Unix time after which the statement is no longer valid.
    pub expiration: i64,
}

/// An attester's signed vouching for one statement.
#[derive(Clone, Copy, Debug, PartialEq, Eq)]
pub struct Attestation {
    /// The identifier of the statement vouched for.
    pub uuid: [u8; 16],
    /// The attester's public key.
    pub attester: Pubkey,
    /// The Ed25519 signature over the statement's digest.
    pub signature: [u8; 64],
    /// Unix time after which the attestation is no longer valid.
    pub expiration: i64,
}

/// The length of a policy identifier in bytes.
pub open spec fn spec_policy_id_len(policy_id: Seq<char>) -> nat {
    encode_utf8(policy_id).len()
}

/// Why a policy identifier is refused, if it is: empty, or longer than 64
/// bytes.
pub open spec fn spec_policy_id_error(policy_id: Seq<char>) -> Option<PredicateRegistryError> {
    if policy_id.len() == 0 {
        Some(PredicateRegistryError::InvalidPolicyId)
    } else if spec_policy_id_len(policy_id) > 64 {
        Some(PredicateRegistryError::PolicyIdTooLong)
    } else {
        None
    }
}

/// Checks a policy identifier: `InvalidPolicyId` when it is empty,
/// `PolicyIdTooLong` when it is longer than 64 bytes.
pub fn check_policy_id(policy_id: &String) -> (result: Result<(), PredicateRegistryError>)
    ensures
        match result {
            Ok(()) => spec_policy_id_error(policy_id@) is None,
            Err(e) => spec_policy_id_error(policy_id@) == Some(e),
        },
{
    if policy_id.as_str().is_empty() {
        return Err(PredicateRegistryError::InvalidPolicyId);
    }
    if policy_id.as_str().as_bytes().len() > MAX_POLICY_ID_LEN {
        return Err(PredicateRegistryError::PolicyIdTooLong);
    }
    Ok(())
}

impl PredicateRegistry {
    /// Sets up a new registry: the authority given, both timestamps at the
    /// clock's time, both counters at zero.
    pub fn initialize(&mut self, authority: Pubkey, clock: &Clock) -> (result: Result<
        (),
        PredicateRegistryError,
    >)
        ensures
            result is Ok,
            final(self).authority == authority,
            final(self).created_at == clock.unix_timestamp,
            final(self).updated_at == clock.unix_timestamp,
            final(self).total_attesters == 0,
            final(self).total_policies == 0,
    {
        self.authority = authority;
        self.created_at = clock.unix_timestamp;
        self.updated_at = clock.unix_timestamp;
        self.total_attesters = 0;
        self.total_policies = 0;
        Ok(())
    }

    /// Counts one more attester. `ArithmeticError`, with nothing changed,
    /// when the counter is at its maximum.
    pub fn increment_attester_count(&mut self, clock: &Clock) -> (result: Result<
        (),
        PredicateRegistryError,
    >)
        ensures
            old(self).total_attesters < u64::MAX ==> result is Ok && *final(self)
                == (PredicateRegistry {
                total_attesters: (old(self).total_attesters + 1) as u64,
                updated_at: clock.unix_timestamp,
                ..*old(self)
            }),
            old(self).total_attesters == u64::MAX ==> result == Err::<(), PredicateRegistryError>(
                PredicateRegistryError::ArithmeticError,
            ) && *final(self) == *old(self),
    {
        match self.total_attesters.checked_add(1) {
            Some(total) => {
                self.total_attesters = total;
                self.updated_at = clock.unix_timestamp;
                Ok(())
            },
            None => Err(PredicateRegistryError::ArithmeticError),
        }
    }

    /// Counts one attester less. `ArithmeticError`, with nothing changed,
    /// when the counter is zero.
    pub fn decrement_attester_count(&mut self, clock: &Clock) -> (result: Result<
        (),
        PredicateRegistryError,
    >)
        ensures
            old(self).total_attesters > 0 ==> result is Ok && *final(self) == (PredicateRegistry {
                total_attesters: (old(self).total_attesters - 1) as u64,
                updated_at: clock.unix_timestamp,
                ..*old(self)
            }),
            old(self).total_attesters == 0 ==> result == Err::<(), PredicateRegistryError>(
                PredicateRegistryError::ArithmeticError,
            ) && *final(self) == *old(self),
    {
        match self.total_attesters.checked_sub(1) {
            Some(total) => {
                self.total_attesters = total;
                self.updated_at = clock.unix_timestamp;
                Ok(())
            },
            None => Err(PredicateRegistryError::ArithmeticError),
        }
    }

    /// Counts one more policy. `ArithmeticError`, with nothing changed, when
    /// the counter is at its maximum.
    pub fn increment_policy_count(&mut self, clock: &Clock) -> (result: Result<
        (),
        PredicateRegistryError,
    >)
        ensures
            old(self).total_policies < u64::MAX ==> result is Ok && *final(self)
                == (PredicateRegistry {
                total_policies: (old(self).total_policies + 1) as u64,
                updated_at: clock.unix_timestamp,
                ..*old(self)
            }),
            old(self).total_policies == u64::MAX ==> result == Err::<(), PredicateRegistryError>(
                PredicateRegistryError::ArithmeticError,
            ) && *final(self) == *old(self),
    {
        match self.total_policies.checked_add(1) {
            Some(total) => {
                self.total_policies = total;
                self.updated_at = clock.unix_timestamp;
                Ok(())
            },
            None => Err(PredicateRegistryError::ArithmeticError),
        }
    }

    /// Hands the registry to a new authority.
    pub fn transfer_authority(&mut self, new_authority: Pubkey, clock: &Clock) -> (result: Result<
        (),
        PredicateRegistryError,
    >)
        ensures
            result is Ok,
            *final(self) == (PredicateRegistry {
                authority: new_authority,
                updated_at: clock.unix_timestamp,
                ..*old(self)
            }),
    {
        self.authority = new_authority;
        self.updated_at = clock.unix_timestamp;
        Ok(())
    }
}

impl AttesterAccount {
    /// Sets up the account of a newly registered attester.
    pub fn initialize(&mut self, attester: Pubkey, clock: &Clock) -> (result: Result<
        (),
        PredicateRegistryError,
    >)
        ensures
            result is Ok,
            *final(self) == (AttesterAccount {
                attester,
                is_registered: true,
                registered_at: clock.unix_timestamp,
            }),
    {
        self.attester = attester;
        self.is_registered = true;
        self.registered_at = clock.unix_timestamp;
        Ok(())
    }

    /// Marks the attester as not registered; the account stays.
    pub fn deregister(&mut self) -> (result: Result<(), PredicateRegistryError>)
        ensures
            result is Ok,
            *final(self) == (AttesterAccount { is_registered: false, ..*old(self) }),
    {
        self.is_registered = false;
        Ok(())
    }

    /// Registers the attester again.
    pub fn register(&mut self, clock: &Clock) -> (result: Result<(), PredicateRegistryError>)
        ensures
            result is Ok,
            *final(self) == (AttesterAccount {
                is_registered: true,
                registered_at: clock.unix_timestamp,
                ..*old(self)
            }),
    {
        self.is_registered = true;
        self.registered_at = clock.unix_timestamp;
        Ok(())
    }
}

impl PolicyAccount {
    /// Whether `after` is `self` with its policy identifier replaced by
    /// `policy_id` at time `now`: owner, authority and the time of the first
    /// setting are kept.
    pub open spec fn spec_updated_to(&self, after: PolicyAccount, policy_id: Seq<char>, now: i64) -> bool {
        &&& after.client_program == self.client_program
        &&& after.authority == self.authority
        &&& after.policy_id@ == policy_id
        &&& after.set_at == self.set_at
        &&& after.updated_at == now
    }

    /// Whether the stored identifier is not empty and at most 64 bytes.
    pub open spec fn spec_well_formed(&self) -> bool {
        spec_policy_id_error(self.policy_id@) is None
    }

    /// A copy of the account, equal to it in every field.
    pub fn duplicate(&self) -> (copy: PolicyAccount)
        ensures
            copy == *self,
    {
        PolicyAccount {
            client_program: self.client_program,
            authority: self.authority,
            policy_id: self.policy_id.clone(),
            set_at: self.set_at,
            updated_at: self.updated_at,
        }
    }

    /// Sets up the policy of a client program. Refuses an identifier that is
    /// empty or too long, and then changes nothing.
    pub fn initialize(
        &mut self,
        client_program: Pubkey,
        authority: Pubkey,
        policy_id: String,
        clock: &Clock,
    ) -> (result: Result<(), PredicateRegistryError>)
        ensures
            match result {
                Ok(()) => {
                    &&& spec_policy_id_error(policy_id@) is None
                    &&& final(self).client_program == client_program
                    &&& final(self).authority == authority
                    &&& final(self).policy_id@ == policy_id@
                    &&& final(self).set_at == clock.unix_timestamp
                    &&& final(self).updated_at == clock.unix_timestamp
                    &&& final(self).spec_well_formed()
                },
                Err(e) => spec_policy_id_error(policy_id@) == Some(e) && *final(self) == *old(
                    self,
                ),
            },
    {
        match check_policy_id(&policy_id) {
            Ok(()) => {},
            Err(e) => {
                return Err(e);
            },
        }
        self.client_program = client_program;
        self.authority = authority;
        self.policy_id = policy_id;
        self.set_at = clock.unix_timestamp;
        self.updated_at = clock.unix_timestamp;
        Ok(())
    }

    /// Replaces the policy identifier. The owner and the time of the first
    /// setting stay. Refuses an identifier that is empty or too long, and
    /// then changes nothing.
    pub fn update_policy_id(&mut self, policy_id: String, clock: &Clock) -> (result: Result<
        (),
        PredicateRegistryError,
    >)
        ensures
            match result {
                Ok(()) => {
                    &&& spec_policy_id_error(policy_id@) is None
                    &&& old(self).spec_updated_to(*final(self), policy_id@, clock.unix_timestamp)
                    &&& final(self).spec_well_formed()
                },
                Err(e) => spec_policy_id_error(policy_id@) == Some(e) && *final(self) == *old(
                    self,
                ),
            },
    {
        match check_policy_id(&policy_id) {
            Ok(()) => {},
            Err(e) => {
                return Err(e);
            },
        }
        self.policy_id = policy_id;
        self.updated_at = clock.unix_timestamp;
        Ok(())
    }
}

/// Setting the same policy identifier twice in a row leaves the account as
/// the first setting left it, but for the time of the last change, which is
/// that of the second setting: the content, the owner and the time of the
/// first setting are equal, and with a clock that does not run backwards
/// the time of the last change does not either.
pub proof fn lemma_update_idempotent(
    before: PolicyAccount,
    once: PolicyAccount,
    twice: PolicyAccount,
    policy_id: Seq<char>,
    first: i64,
    second: i64,
)
    requires
        before.spec_updated_to(once, policy_id, first),
        once.spec_updated_to(twice, policy_id, second),
    ensures
        twice.policy_id@ == once.policy_id@,
        twice.client_program == once.client_program,
        twice.authority == once.authority,
        twice.set_at == once.set_at,
        twice.updated_at == second,
        first <= second ==> once.updated_at <= twice.updated_at,
        before.spec_updated_to(twice, policy_id, second),
{
}

/// The canonical form of an identifier: its 32 hexadecimal digits in groups
/// of 8, 4, 4, 4 and 12, with a dash between the groups.
pub open spec fn spec_format_uuid(uuid: Seq<u8>) -> Seq<char> {
    let hex = spec_hex(uuid);
    hex.subrange(0, 8) + seq!['-'] + hex.subrange(8, 12) + seq!['-'] + hex.subrange(12, 16)
        + seq!['-'] + hex.subrange(16, 20) + seq!['-'] + hex.subrange(20, 32)
}

/// The bytes that are hashed for a statement: identifier, sender, `third`,
/// value (little-endian), function signature and arguments, policy
/// identifier, expiration (little-endian), in this order.
pub open spec fn spec_statement_message(statement: Statement, third: Seq<u8>) -> Seq<u8> {
    statement.uuid@ + statement.msg_sender@ + third + spec_u64_le_bytes(statement.msg_value)
        + statement.encoded_sig_and_args@ + encode_utf8(statement.policy_id@) + spec_i64_le_bytes(
        statement.expiration,
    )
}

/// The digest that an attester signs for `statement` when `validator`
/// submits it.
pub open spec fn spec_hash_statement_safe(statement: Statement, validator: Seq<u8>) -> Seq<u8> {
    sha256_digest(spec_statement_message(statement, validator))
}

/// The digest of `statement` with its target in the third place.
pub open spec fn spec_hash_statement_with_expiry(statement: Statement) -> Seq<u8> {
    sha256_digest(spec_statement_message(statement, statement.target@))
}

/// The hexadecimal spelling of bytes holds ASCII characters only.
pub proof fn lemma_hex_is_ascii(bytes: Seq<u8>)
    ensures
        is_ascii_chars(spec_hex(bytes)),
        spec_hex(bytes).len() == 2 * bytes.len(),
{
    assert forall|i: int| 0 <= i < spec_hex(bytes).len() implies '\0' <= #[trigger] spec_hex(
        bytes,
    )[i] <= '\u{7f}' by {
        let digit = spec_hex(bytes)[i];
        assert(digit == spec_hex_digit(bytes[i / 2] as int / 16) || digit == spec_hex_digit(
            bytes[i / 2] as int % 16,
        ));
    }
}

impl Statement {
    /// The identifier in the canonical 8-4-4-4-12 form.
    pub fn format_uuid(&self) -> (text: String)
        ensures
            text@ == spec_format_uuid(self.uuid@),
    {
        let hex = hex_encode(self.uuid.as_slice());
        proof {
            lemma_hex_is_ascii(self.uuid@);
            reveal_strlit("-");
            assert("-"@ =~= seq!['-']);
        }
        let digits = hex.as_str();
        let mut text = String::from_str(digits.substring_ascii(0, 8));
        text.append("-");
        text.append(digits.substring_ascii(8, 12));
        text.append("-");
        text.append(digits.substring_ascii(12, 16));
        text.append("-");
        text.append(digits.substring_ascii(16, 20));
        text.append("-");
        text.append(digits.substring_ascii(20, 32));
        text
    }

    /// The bytes that are hashed, with `third` in the third place.
    pub fn message_bytes(&self, third: &Pubkey) -> (data: Vec<u8>)
        ensures
            data@ == spec_statement_message(*self, third@),
    {
        let mut data: Vec<u8> = Vec::new();
        data.extend_from_slice(self.uuid.as_slice());
        data.extend_from_slice(self.msg_sender.bytes.as_slice());
        data.extend_from_slice(third.bytes.as_slice());
        let value = u64_to_le_bytes(self.msg_value);
        data.extend_from_slice(value.as_slice());
        data.extend_from_slice(self.encoded_sig_and_args.as_slice());
        data.extend_from_slice(self.policy_id.as_str().as_bytes());
        let expiration = i64_to_le_bytes(self.expiration);
        data.extend_from_slice(expiration.as_slice());
        assert(data@ =~= spec_statement_message(*self, third@));
        data
    }

    /// The digest that the attester signed: SHA-256 over the identifier, the
    /// sender, the submitting principal `validator`, the value, the function
    /// signature and arguments, the policy identifier and the expiration.
    pub fn hash_statement_safe(&self, validator: Pubkey) -> (digest: [u8; 32])
        ensures
            digest@ == spec_hash_statement_safe(*self, validator@),
    {
        let data = self.message_bytes(&validator);
        sha256(data.as_slice())
    }

    /// The digest with the statement's own target in the third place.
    pub fn hash_statement_with_expiry(&self) -> (digest: [u8; 32])
        ensures
            digest@ == spec_hash_statement_with_expiry(*self),
    {
        let data = self.message_bytes(&self.target);
        sha256(data.as_slice())
    }
}

/// The digest is a function of the statement's fields and the submitter:
/// two statements that agree in every field, hashed for the same submitter,
/// have the same digest.
pub proof fn lemma_digest_deterministic(a: Statement, b: Statement, va: Seq<u8>, vb: Seq<u8>)
    requires
        a.uuid@ == b.uuid@,
        a.msg_sender@ == b.msg_sender@,
        a.msg_value == b.msg_value,
        a.encoded_sig_and_args@ == b.encoded_sig_and_args@,
        a.policy_id@ == b.policy_id@,
        a.expiration == b.expiration,
        va == vb,
    ensures
        spec_hash_statement_safe(a, va) == spec_hash_statement_safe(b, vb),
{
}

} // verus!
