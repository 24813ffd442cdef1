//! A counter whose increment is gated by the registry: the owner may
//! count one up only with an attestation for exactly that call.

use vstd::prelude::*;
use vstd::string::StringExecFns;
use crate::bytes::bytes_equal;
use crate::ed25519::InstructionsSysvar;
use crate::errors::PredicateRegistryError;
use crate::ledger::Ledger;
use crate::pubkey::Pubkey;
use crate::state::{Attestation, Clock, Statement, UsedUuidAccount};

verus! {

/// Why an operation of the counter was refused.
#[derive(Clone, Copy, Debug, PartialEq, Eq, Structural)]
pub enum CounterError {
    /// The signer is not the counter's owner.
    Unauthorized,
    /// The call that was attested is not the increment.
    InvalidStatement,
    /// The counter would leave its range.
    ArithmeticError,
    /// The counter does not exist yet.
    NotInitialized,
    /// The registry given is not the counter's.
    InvalidRegistryConfig,
    /// The counter program has no policy.
    InvalidPolicyConfig,
    /// The attester is not acceptable.
    InvalidAttesterConfig,
    /// The registry refused the attestation.
    ValidationFailed,
}

impl CounterError {
    /// The position of the variant in the enum.
    pub open spec fn spec_index(self) -> nat {
        match self {
            CounterError::Unauthorized => 0,
            CounterError::InvalidStatement => 1,
            CounterError::ArithmeticError => 2,
            CounterError::NotInitialized => 3,
            CounterError::InvalidRegistryConfig => 4,
            CounterError::InvalidPolicyConfig => 5,
            CounterError::InvalidAttesterConfig => 6,
            CounterError::ValidationFailed => 7,
        }
    }

    /// The machine-readable code.
    pub open spec fn spec_code(self) -> nat {
        6000 + self.spec_index()
    }

    /// The human-readable message.
    pub open spec fn spec_message(self) -> Seq<char> {
        match self {
            CounterError::Unauthorized => "Unauthorized operation"@,
            CounterError::InvalidStatement => "Invalid statement parameters"@,
            CounterError::ArithmeticError => "Arithmetic error"@,
            CounterError::NotInitialized => "Counter not initialized"@,
            CounterError::InvalidRegistryConfig => "Invalid predicate registry configuration"@,
            CounterError::InvalidPolicyConfig => "Invalid policy configuration"@,
            CounterError::InvalidAttesterConfig => "Invalid attester configuration"@,
            CounterError::ValidationFailed => "Predicate validation failed"@,
        }
    }

    /// The machine-readable code that callers branch on.
    pub fn code(&self) -> (code: u32)
        ensures
            code == self.spec_code(),
    {
        let index: u32 = match self {
            CounterError::Unauthorized => 0,
            CounterError::InvalidStatement => 1,
            CounterError::ArithmeticError => 2,
            CounterError::NotInitialized => 3,
            CounterError::InvalidRegistryConfig => 4,
            CounterError::InvalidPolicyConfig => 5,
            CounterError::InvalidAttesterConfig => 6,
            CounterError::ValidationFailed => 7,
        };
        6000 + index
    }

    /// The human-readable message.
    pub fn message(&self) -> (text: String)
        ensures
            text@ == self.spec_message(),
    {
        match self {
            CounterError::Unauthorized => String::from_str("Unauthorized operation"),
            CounterError::InvalidStatement => String::from_str("Invalid statement parameters"),
            CounterError::ArithmeticError => String::from_str("Arithmetic error"),
            CounterError::NotInitialized => String::from_str("Counter not initialized"),
            CounterError::InvalidRegistryConfig => String::from_str("Invalid predicate registry configuration"),
            CounterError::InvalidPolicyConfig => String::from_str("Invalid policy configuration"),
            CounterError::InvalidAttesterConfig => String::from_str("Invalid attester configuration"),
            CounterError::ValidationFailed => String::from_str("Predicate validation failed"),
        }
    }
}

/// Why a gated increment was refused: by the counter itself, or by the
/// registry that validated the attestation.
#[derive(Clone, Copy, Debug, PartialEq, Eq, Structural)]
pub enum IncrementError {
    /// The counter refused.
    Counter(CounterError),
    /// The registry refused the attestation.
    Registry(PredicateRegistryError),
}

/// One owner's counter.
#[derive(Clone, Copy, Debug, PartialEq, Eq)]
pub struct CounterAccount {
    /// Who may increment the counter.
    pub owner: Pubkey,
    /// The count.
    pub value: u64,
    /// The address of the registry that gates the counter.
    pub predicate_registry: Pubkey,
    /// When the counter was created.
    pub created_at: i64,
    /// When the counter last changed.
    pub updated_at: i64,
}

/// A counter was created.
#[derive(Clone, Copy, Debug, PartialEq, Eq)]
pub struct CounterInitialized {
    pub counter: Pubkey,
    pub owner: Pubkey,
    pub predicate_registry: Pubkey,
    pub initial_value: u64,
    pub timestamp: i64,
}

/// A counter went up by one.
#[derive(Clone, Copy, Debug, PartialEq, Eq)]
pub struct CounterIncremented {
    pub counter: Pubkey,
    pub owner: Pubkey,
    pub old_value: u64,
    pub new_value: u64,
    pub timestamp: i64,
}

/// Accounts of the counter's `initialize`.
#[derive(Clone, Copy, Debug, PartialEq, Eq)]
pub struct Initialize {
    /// The address of the counter.
    pub counter_key: Pubkey,
    /// The counter's account, newly created.
    pub counter: CounterAccount,
    /// The signer, who becomes the owner.
    pub owner: Pubkey,
    /// The address of the registry that will gate the counter.
    pub predicate_registry: Pubkey,
}

/// Accounts of the counter's `increment`.
#[derive(Clone, Copy, Debug, PartialEq, Eq)]
pub struct Increment {
    /// The address of the counter.
    pub counter_key: Pubkey,
    /// The counter.
    pub counter: CounterAccount,
    /// The signer; it must be the counter's owner.
    pub owner: Pubkey,
    /// The address of the counter program: the target of the statement.
    pub program_id: Pubkey,
}

impl CounterAccount {
    /// Sets up a new counter at zero.
    pub fn initialize(&mut self, owner: Pubkey, predicate_registry: Pubkey, clock: &Clock) -> (result:
        Result<(), CounterError>)
        ensures
            result is Ok,
            *final(self) == (CounterAccount {
                owner,
                value: 0,
                predicate_registry,
                created_at: clock.unix_timestamp,
                updated_at: clock.unix_timestamp,
            }),
    {
        self.owner = owner;
        self.value = 0;
        self.predicate_registry = predicate_registry;
        self.created_at = clock.unix_timestamp;
        self.updated_at = clock.unix_timestamp;
        Ok(())
    }

    /// Counts one up and returns the new count. `ArithmeticError`, with
    /// nothing changed, when the count is at its maximum.
    pub fn increment(&mut self, clock: &Clock) -> (result: Result<u64, CounterError>)
        ensures
            old(self).value < u64::MAX ==> result == Ok::<u64, CounterError>(
                (old(self).value + 1) as u64,
            ) && *final(self) == (CounterAccount {
                value: (old(self).value + 1) as u64,
                updated_at: clock.unix_timestamp,
                ..*old(self)
            }),
            old(self).value == u64::MAX ==> result == Err::<u64, CounterError>(
                CounterError::ArithmeticError,
            ) && *final(self) == *old(self),
    {
        match self.value.checked_add(1) {
            Some(value) => {
                self.value = value;
                self.updated_at = clock.unix_timestamp;
                Ok(value)
            },
            None => Err(CounterError::ArithmeticError),
        }
    }
}

/// The bytes of `increment()`: the only call that an attestation for the
/// counter may vouch for.
pub open spec fn spec_increment_signature() -> Seq<u8> {
    seq![0x69u8, 0x6e, 0x63, 0x72, 0x65, 0x6d, 0x65, 0x6e, 0x74, 0x28, 0x29]
}

/// The bytes of `increment()`.
pub fn encode_increment_signature() -> (encoded: Vec<u8>)
    ensures
        encoded@ == spec_increment_signature(),
{
    let encoded: Vec<u8> = vec![0x69u8, 0x6e, 0x63, 0x72, 0x65, 0x6d, 0x65, 0x6e, 0x74, 0x28, 0x29];
    assert(encoded@ =~= spec_increment_signature());
    encoded
}

/// Sets up the newly created counter for the signer, gated by the registry
/// at the address given.
pub fn initialize(ctx: &mut Initialize, clock: &Clock) -> (result: Result<
    CounterInitialized,
    CounterError,
>)
    ensures
        result == Ok::<CounterInitialized, CounterError>(
            CounterInitialized {
                counter: old(ctx).counter_key,
                owner: old(ctx).owner,
                predicate_registry: old(ctx).predicate_registry,
                initial_value: 0,
                timestamp: clock.unix_timestamp,
            },
        ),
        *final(ctx) == (Initialize {
            counter: CounterAccount {
                owner: old(ctx).owner,
                value: 0,
                predicate_registry: old(ctx).predicate_registry,
                created_at: clock.unix_timestamp,
                updated_at: clock.unix_timestamp,
            },
            ..*old(ctx)
        }),
{
    let _ = ctx.counter.initialize(ctx.owner, ctx.predicate_registry, clock);
    Ok(
        CounterInitialized {
            counter: ctx.counter_key,
            owner: ctx.counter.owner,
            predicate_registry: ctx.counter.predicate_registry,
            initial_value: ctx.counter.value,
            timestamp: clock.unix_timestamp,
        },
    )
}

/// Whether `statement` is the one that the counter submits for an
/// increment vouched for by `attestation`: the attestation's identifier and
/// expiration, the owner as sender, the counter program as target, no
/// value, the call given and the policy given.
pub open spec fn spec_is_increment_statement(
    statement: Statement,
    ctx: Increment,
    encoded_sig_and_args: Seq<u8>,
    policy_id: Seq<char>,
    attestation: Attestation,
) -> bool {
    &&& statement.uuid == attestation.uuid
    &&& statement.msg_sender == ctx.owner
    &&& statement.target == ctx.program_id
    &&& statement.msg_value == 0
    &&& statement.encoded_sig_and_args@ == encoded_sig_and_args
    &&& statement.policy_id@ == policy_id
    &&& statement.expiration == attestation.expiration
}

/// Why the counter itself refuses an increment, before the registry is
/// asked, if it does.
pub open spec fn spec_increment_guard(
    ctx: Increment,
    registry: &Ledger,
    encoded_sig_and_args: Seq<u8>,
) -> Option<CounterError> {
    if ctx.counter.predicate_registry@ != registry.spec_registry_key()@ {
        Some(CounterError::InvalidRegistryConfig)
    } else if ctx.counter.owner@ != ctx.owner@ {
        Some(CounterError::Unauthorized)
    } else if encoded_sig_and_args != spec_increment_signature() {
        Some(CounterError::InvalidStatement)
    } else if registry.spec_policy(ctx.program_id@) is None {
        Some(CounterError::InvalidPolicyConfig)
    } else {
        None
    }
}

/// Whether the registry's validation of the statement that the counter
/// submits ends with `outcome`: `None` for an accepted attestation, else
/// the refusal.
pub open spec fn spec_increment_validation(
    ctx: Increment,
    registry: &Ledger,
    instructions_sysvar: InstructionsSysvar,
    encoded_sig_and_args: Seq<u8>,
    attester_key: Pubkey,
    attestation: Attestation,
    now: i64,
    outcome: Option<PredicateRegistryError>,
) -> bool {
    exists|statement: Statement|
        {
            &&& #[trigger] spec_is_increment_statement(
                statement,
                ctx,
                encoded_sig_and_args,
                registry.spec_policies()[ctx.program_id@].policy_id@,
                attestation,
            )
            &&& registry.spec_validate_attestation_error(
                ctx.owner,
                instructions_sysvar,
                statement,
                attester_key,
                attestation,
                now,
            ) == outcome
        }
}

/// Counts the owner's counter one up, if the registry accepts the
/// attestation for exactly this call in the transaction that
/// `instructions_sysvar` shows.
///
/// The counter builds the statement itself from what it has checked: the
/// owner as sender, its own program as target, no value, the call
/// `increment()` and the policy that the registry holds for the program. So
/// neither the sender nor the policy can be made up by the caller.
///
/// The counter refuses with `InvalidRegistryConfig` when `registry` is not
/// the one the counter was set up with, `Unauthorized` when the signer is
/// not the owner, `InvalidStatement` when the call is not `increment()`,
/// `InvalidPolicyConfig` when the program has no policy. Then the registry
/// validates, and its refusal is handed on. Only for an accepted
/// attestation is the counter's range tested: `ArithmeticError` when the
/// count is at its maximum. The identifier gets its record last, when
/// nothing can fail any more: on an error neither the counter nor the
/// registry changes.
pub fn increment(
    ctx: &mut Increment,
    registry: &mut Ledger,
    instructions_sysvar: InstructionsSysvar,
    encoded_sig_and_args: Vec<u8>,
    attester_key: Pubkey,
    attestation: Attestation,
    clock: &Clock,
) -> (result: Result<CounterIncremented, IncrementError>)
    requires
        old(registry).spec_wf(),
    ensures
        final(registry).spec_wf(),
        final(registry).spec_registry_key() == old(registry).spec_registry_key(),
        final(registry).spec_registry() == old(registry).spec_registry(),
        final(registry).spec_attesters() == old(registry).spec_attesters(),
        final(registry).spec_policies() == old(registry).spec_policies(),
        match result {
            Ok(event) => {
                &&& spec_increment_guard(*old(ctx), old(registry), encoded_sig_and_args@) is None
                &&& spec_increment_validation(
                    *old(ctx),
                    old(registry),
                    instructions_sysvar,
                    encoded_sig_and_args@,
                    attester_key,
                    attestation,
                    clock.unix_timestamp,
                    None,
                )
                &&& old(ctx).counter.value < u64::MAX
                &&& final(registry).spec_used_uuids() == old(registry).spec_used_uuids().insert(
                    attestation.uuid@,
                    UsedUuidAccount {
                        uuid: attestation.uuid,
                        signer: old(ctx).owner,
                        used_at: clock.unix_timestamp,
                        expires_at: attestation.expiration,
                    },
                )
                &&& event == (CounterIncremented {
                    counter: old(ctx).counter_key,
                    owner: old(ctx).counter.owner,
                    old_value: old(ctx).counter.value,
                    new_value: (old(ctx).counter.value + 1) as u64,
                    timestamp: clock.unix_timestamp,
                })
                &&& *final(ctx) == (Increment {
                    counter: CounterAccount {
                        value: (old(ctx).counter.value + 1) as u64,
                        updated_at: clock.unix_timestamp,
                        ..old(ctx).counter
                    },
                    ..*old(ctx)
                })
            },
            Err(IncrementError::Counter(e)) => {
                &&& *final(ctx) == *old(ctx)
                &&& old(registry).spec_same(final(registry))
                &&& if spec_increment_guard(*old(ctx), old(registry), encoded_sig_and_args@)
                    is Some {
                    spec_increment_guard(*old(ctx), old(registry), encoded_sig_and_args@) == Some(e)
                } else {
                    &&& e == CounterError::ArithmeticError
                    &&& old(ctx).counter.value == u64::MAX
                    &&& spec_increment_validation(
                        *old(ctx),
                        old(registry),
                        instructions_sysvar,
                        encoded_sig_and_args@,
                        attester_key,
                        attestation,
                        clock.unix_timestamp,
                        None,
                    )
                }
            },
            Err(IncrementError::Registry(e)) => {
                &&& *final(ctx) == *old(ctx)
                &&& old(registry).spec_same(final(registry))
                &&& spec_increment_guard(*old(ctx), old(registry), encoded_sig_and_args@) is None
                &&& spec_increment_validation(
                    *old(ctx),
                    old(registry),
                    instructions_sysvar,
                    encoded_sig_and_args@,
                    attester_key,
                    attestation,
                    clock.unix_timestamp,
                    Some(e),
                )
            },
        },
{
    if ctx.counter.predicate_registry != registry.registry_key() {
        return Err(IncrementError::Counter(CounterError::InvalidRegistryConfig));
    }
    if ctx.counter.owner != ctx.owner {
        return Err(IncrementError::Counter(CounterError::Unauthorized));
    }
    let expected_encoded_sig = encode_increment_signature();
    if !bytes_equal(encoded_sig_and_args.as_slice(), expected_encoded_sig.as_slice()) {
        return Err(IncrementError::Counter(CounterError::InvalidStatement));
    }
    let policy_id = match registry.policy(&ctx.program_id) {
        Some(account) => account.policy_id.clone(),
        None => {
            return Err(IncrementError::Counter(CounterError::InvalidPolicyConfig));
        },
    };
    let statement = Statement {
        uuid: attestation.uuid,
        msg_sender: ctx.owner,
        target: ctx.program_id,
        msg_value: 0,
        encoded_sig_and_args,
        policy_id,
        expiration: attestation.expiration,
    };
    proof {
        assert(spec_is_increment_statement(
            statement,
            *ctx,
            encoded_sig_and_args@,
            registry.spec_policies()[ctx.program_id@].policy_id@,
            attestation,
        ));
    }
    let record = match registry.check_attestation(
        ctx.owner,
        instructions_sysvar,
        statement,
        attester_key,
        attestation,
        clock,
    ) {
        Ok((_, record)) => record,
        Err(e) => {
            return Err(IncrementError::Registry(e));
        },
    };
    let old_value = ctx.counter.value;
    let new_value = match ctx.counter.increment(clock) {
        Ok(value) => value,
        Err(e) => {
            return Err(IncrementError::Counter(e));
        },
    };
    registry.record_used_uuid(record);
    Ok(
        CounterIncremented {
            counter: ctx.counter_key,
            owner: ctx.counter.owner,
            old_value,
            new_value,
            timestamp: clock.unix_timestamp,
        },
    )
}

/// The outcome of the validation that the counter asks for is fixed by the
/// inputs: it is the registry's decision on any statement of the form that
/// the counter submits. So an `ArithmeticError`, which [`increment`] gives
/// only with an accepted attestation, never stands in the place of a
/// refusal by the registry.
pub proof fn lemma_increment_validation_is_decided(
    ctx: Increment,
    registry: &Ledger,
    instructions_sysvar: InstructionsSysvar,
    encoded_sig_and_args: Seq<u8>,
    attester_key: Pubkey,
    attestation: Attestation,
    now: i64,
    statement: Statement,
)
    requires
        spec_is_increment_statement(
            statement,
            ctx,
            encoded_sig_and_args,
            registry.spec_policies()[ctx.program_id@].policy_id@,
            attestation,
        ),
    ensures
        forall|outcome: Option<PredicateRegistryError>|
            #![trigger spec_increment_validation(
                ctx,
                registry,
                instructions_sysvar,
                encoded_sig_and_args,
                attester_key,
                attestation,
                now,
                outcome,
            )]
            spec_increment_validation(
                ctx,
                registry,
                instructions_sysvar,
                encoded_sig_and_args,
                attester_key,
                attestation,
                now,
                outcome,
            ) <==> outcome == registry.spec_validate_attestation_error(
                ctx.owner,
                instructions_sysvar,
                statement,
                attester_key,
                attestation,
                now,
            ),
{
    assert forall|outcome: Option<PredicateRegistryError>|
        #![trigger spec_increment_validation(
            ctx,
            registry,
            instructions_sysvar,
            encoded_sig_and_args,
            attester_key,
            attestation,
            now,
            outcome,
        )]
        spec_increment_validation(
            ctx,
            registry,
            instructions_sysvar,
            encoded_sig_and_args,
            attester_key,
            attestation,
            now,
            outcome,
        ) <==> outcome == registry.spec_validate_attestation_error(
            ctx.owner,
            instructions_sysvar,
            statement,
            attester_key,
            attestation,
            now,
        ) by {
        if spec_increment_validation(
            ctx,
            registry,
            instructions_sysvar,
            encoded_sig_and_args,
            attester_key,
            attestation,
            now,
            outcome,
        ) {
            let other = choose|other: Statement|
                {
                    &&& #[trigger] spec_is_increment_statement(
                        other,
                        ctx,
                        encoded_sig_and_args,
                        registry.spec_policies()[ctx.program_id@].policy_id@,
                        attestation,
                    )
                    &&& registry.spec_validate_attestation_error(
                        ctx.owner,
                        instructions_sysvar,
                        other,
                        attester_key,
                        attestation,
                        now,
                    ) == outcome
                };
            lemma_validation_reads_views(
                registry,
                ctx.owner,
                instructions_sysvar,
                statement,
                other,
                attester_key,
                attestation,
                now,
            );
        }
    }
}

/// The registry's decision reads a statement by its content alone: two
/// statements that agree in every field are decided alike.
pub proof fn lemma_validation_reads_views(
    registry: &Ledger,
    signer: Pubkey,
    instructions_sysvar: InstructionsSysvar,
    a: Statement,
    b: Statement,
    attester_key: Pubkey,
    attestation: Attestation,
    now: i64,
)
    requires
        a.uuid == b.uuid,
        a.msg_sender == b.msg_sender,
        a.target == b.target,
        a.msg_value == b.msg_value,
        a.encoded_sig_and_args@ == b.encoded_sig_and_args@,
        a.policy_id@ == b.policy_id@,
        a.expiration == b.expiration,
    ensures
        registry.spec_validate_attestation_error(
            signer,
            instructions_sysvar,
            a,
            attester_key,
            attestation,
            now,
        ) == registry.spec_validate_attestation_error(
            signer,
            instructions_sysvar,
            b,
            attester_key,
            attestation,
            now,
        ),
{
}

/// Two errors of the counter with the same code are the same error.
pub proof fn lemma_counter_codes_distinct(a: CounterError, b: CounterError)
    ensures
        a.spec_code() == b.spec_code() <==> a == b,
{
}

} // verus!
