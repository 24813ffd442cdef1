//! The accounts of one deployment of the registry, and the operations of
//! the registry on them.
//!
//! The ledger keeps the singleton registry, one account for each attester,
//! one policy account for each client program and one record for each used
//! identifier. An operation finds its accounts by their keys, runs, and
//! stores what it changed; an operation that fails changes nothing.

use vstd::prelude::*;
use crate::ed25519::InstructionsSysvar;
use crate::errors::PredicateRegistryError;
use crate::events::{
    AttesterDeregistered, AttesterRegistered, AuthorityTransferred, PolicySet, PolicyUpdated,
    RegistryInitialized,
};
use crate::instructions::cleanup_expired_uuid::spec_cleanup_expired_uuid;
use crate::instructions::deregister_attester::spec_deregister_attester_error;
use crate::instructions::register_attester::spec_register_attester_error;
use crate::instructions::set_policy_id::spec_set_policy_id_error;
use crate::instructions::update_policy_id::spec_update_policy_id_error;
use crate::instructions::validate_attestation::{
    spec_pairing_error, spec_used_record, spec_validation_error, Validated,
};
use crate::instructions::{
    CleanupExpiredUuid, DeregisterAttester, Initialize, RegisterAttester, SetPolicyId,
    TransferAuthority, UpdatePolicyId, ValidateAttestation, CLOCK_DRIFT_BUFFER,
};
use crate::program_data::ProgramData;
use crate::pubkey::Pubkey;
use crate::state::{
    AttesterAccount, Attestation, Clock, PolicyAccount, PredicateRegistry, Statement,
    UsedUuidAccount,
};
use crate::table::Table;

verus! {

/// The accounts of one deployment of the registry.
pub struct Ledger {
    registry_key: Pubkey,
    registry: Option<PredicateRegistry>,
    attesters: Table<AttesterAccount>,
    policies: Table<PolicyAccount>,
    used_uuids: Table<UsedUuidAccount>,
}

impl Ledger {
    /// The address of the registry.
    pub closed spec fn spec_registry_key(&self) -> Pubkey {
        self.registry_key
    }

    /// The registry, once it is created.
    pub closed spec fn spec_registry(&self) -> Option<PredicateRegistry> {
        self.registry
    }

    /// The attesters' accounts, by the attester's key.
    pub closed spec fn spec_attesters(&self) -> Map<Seq<u8>, AttesterAccount> {
        self.attesters@
    }

    /// The policy accounts, by the client program's address.
    pub closed spec fn spec_policies(&self) -> Map<Seq<u8>, PolicyAccount> {
        self.policies@
    }

    /// The records of the used identifiers, by the identifier.
    pub closed spec fn spec_used_uuids(&self) -> Map<Seq<u8>, UsedUuidAccount> {
        self.used_uuids@
    }

    /// The storage holds each key once.
    pub closed spec fn spec_storage_wf(&self) -> bool {
        &&& self.attesters.spec_wf()
        &&& self.policies.spec_wf()
        &&& self.used_uuids.spec_wf()
    }

    /// Every account is stored under its own key, and every policy account
    /// holds an identifier that is not empty and not too long.
    pub open spec fn spec_wf(&self) -> bool {
        &&& self.spec_storage_wf()
        &&& forall|k: Seq<u8>| #[trigger]
            self.spec_attesters().contains_key(k) ==> self.spec_attesters()[k].attester@ == k
        &&& forall|k: Seq<u8>| #[trigger]
            self.spec_policies().contains_key(k) ==> self.spec_policies()[k].client_program@ == k
                && self.spec_policies()[k].spec_well_formed()
        &&& forall|k: Seq<u8>| #[trigger]
            self.spec_used_uuids().contains_key(k) ==> self.spec_used_uuids()[k].uuid@ == k
    }

    /// Whether `other` holds the same accounts as `self`.
    pub open spec fn spec_same(&self, other: &Ledger) -> bool {
        &&& other.spec_registry_key() == self.spec_registry_key()
        &&& other.spec_registry() == self.spec_registry()
        &&& other.spec_attesters() == self.spec_attesters()
        &&& other.spec_policies() == self.spec_policies()
        &&& other.spec_used_uuids() == self.spec_used_uuids()
    }

    /// The account of an attester, if it has one.
    pub open spec fn spec_attester(&self, key: Seq<u8>) -> Option<AttesterAccount> {
        if self.spec_attesters().contains_key(key) {
            Some(self.spec_attesters()[key])
        } else {
            None
        }
    }

    /// The policy account of a client program, if it has one.
    pub open spec fn spec_policy(&self, key: Seq<u8>) -> Option<PolicyAccount> {
        if self.spec_policies().contains_key(key) {
            Some(self.spec_policies()[key])
        } else {
            None
        }
    }

    /// The record of an identifier, if it was used.
    pub open spec fn spec_used_uuid(&self, uuid: Seq<u8>) -> Option<UsedUuidAccount> {
        if self.spec_used_uuids().contains_key(uuid) {
            Some(self.spec_used_uuids()[uuid])
        } else {
            None
        }
    }

    /// The tables that an operation did not touch hold what they held, and
    /// what the invariant says of them still holds.
    proof fn lemma_kept(&self, after: &Ledger, attesters: bool, policies: bool, used_uuids: bool)
        requires
            self.spec_wf(),
            attesters ==> after.attesters == self.attesters,
            policies ==> after.policies == self.policies,
            used_uuids ==> after.used_uuids == self.used_uuids,
        ensures
            attesters ==> after.attesters.spec_wf() && after.spec_attesters()
                == self.spec_attesters() && forall|k: Seq<u8>| #[trigger]
                after.spec_attesters().contains_key(k) ==> after.spec_attesters()[k].attester@
                    == k,
            policies ==> after.policies.spec_wf() && after.spec_policies() == self.spec_policies()
                && forall|k: Seq<u8>| #[trigger]
                after.spec_policies().contains_key(k) ==> after.spec_policies()[k].client_program@
                    == k && after.spec_policies()[k].spec_well_formed(),
            used_uuids ==> after.used_uuids.spec_wf() && after.spec_used_uuids()
                == self.spec_used_uuids() && forall|k: Seq<u8>| #[trigger]
                after.spec_used_uuids().contains_key(k) ==> after.spec_used_uuids()[k].uuid@ == k,
    {
        if used_uuids {
            assert(after.spec_used_uuids() == self.spec_used_uuids());
            assert forall|k: Seq<u8>| #[trigger]
                after.spec_used_uuids().contains_key(k) implies after.spec_used_uuids()[k].uuid@
                == k by {
                assert(self.spec_used_uuids().contains_key(k));
            }
        }
    }

    /// A ledger without accounts, for a registry at `registry_key`.
    pub fn new(registry_key: Pubkey) -> (ledger: Ledger)
        ensures
            ledger.spec_wf(),
            ledger.spec_registry_key() == registry_key,
            ledger.spec_registry() is None,
            ledger.spec_attesters() == Map::<Seq<u8>, AttesterAccount>::empty(),
            ledger.spec_policies() == Map::<Seq<u8>, PolicyAccount>::empty(),
            ledger.spec_used_uuids() == Map::<Seq<u8>, UsedUuidAccount>::empty(),
    {
        Ledger {
            registry_key,
            registry: None,
            attesters: Table::new(),
            policies: Table::new(),
            used_uuids: Table::new(),
        }
    }

    /// The address of the registry.
    pub fn registry_key(&self) -> (key: Pubkey)
        ensures
            key == self.spec_registry_key(),
    {
        self.registry_key
    }

    /// The registry, once it is created.
    pub fn registry(&self) -> (registry: Option<PredicateRegistry>)
        ensures
            registry == self.spec_registry(),
    {
        self.registry
    }

    /// The account of an attester, if it has one.
    pub fn attester(&self, key: &Pubkey) -> (account: Option<AttesterAccount>)
        requires
            self.spec_wf(),
        ensures
            account == self.spec_attester(key@),
    {
        match self.attesters.get(key.bytes.as_slice()) {
            Some(account) => Some(*account),
            None => None,
        }
    }

    /// The policy account of a client program, if it has one.
    pub fn policy(&self, client_program: &Pubkey) -> (account: Option<&PolicyAccount>)
        requires
            self.spec_wf(),
        ensures
            match account {
                Some(found) => self.spec_policy(client_program@) == Some(*found),
                None => self.spec_policy(client_program@) is None,
            },
    {
        self.policies.get(client_program.bytes.as_slice())
    }

    /// The record of an identifier, if it was used.
    pub fn used_uuid(&self, uuid: &[u8; 16]) -> (record: Option<UsedUuidAccount>)
        requires
            self.spec_wf(),
        ensures
            record == self.spec_used_uuid(uuid@),
    {
        match self.used_uuids.get(uuid.as_slice()) {
            Some(record) => Some(*record),
            None => None,
        }
    }

    /// Creates the registry with `authority` as its authority.
    ///
    /// `AlreadyInitialized`, with nothing changed, when the registry exists.
    pub fn initialize(&mut self, authority: Pubkey, clock: &Clock) -> (result: Result<
        RegistryInitialized,
        PredicateRegistryError,
    >)
        requires
            old(self).spec_wf(),
        ensures
            final(self).spec_wf(),
            final(self).spec_registry_key() == old(self).spec_registry_key(),
            final(self).spec_attesters() == old(self).spec_attesters(),
            final(self).spec_policies() == old(self).spec_policies(),
            final(self).spec_used_uuids() == old(self).spec_used_uuids(),
            old(self).spec_registry() is None ==> result == Ok::<
                RegistryInitialized,
                PredicateRegistryError,
            >(
                RegistryInitialized {
                    registry: old(self).spec_registry_key(),
                    authority,
                    timestamp: clock.unix_timestamp,
                },
            ) && final(self).spec_registry() == Some(
                PredicateRegistry {
                    authority,
                    created_at: clock.unix_timestamp,
                    updated_at: clock.unix_timestamp,
                    total_attesters: 0,
                    total_policies: 0,
                },
            ),
            old(self).spec_registry() is Some ==> result == Err::<
                RegistryInitialized,
                PredicateRegistryError,
            >(PredicateRegistryError::AlreadyInitialized) && final(self).spec_registry() == old(
                self,
            ).spec_registry(),
    {
        let mut ctx = Initialize {
            registry_key: self.registry_key,
            registry: self.registry,
            authority,
        };
        let result = crate::instructions::initialize(&mut ctx, clock);
        self.registry = ctx.registry;
        proof {
            old(self).lemma_kept(self, true, true, true);
        }
        result
    }

    /// The accounts that a registration of `attester` by `authority` works
    /// on.
    pub open spec fn spec_register_attester_accounts(
        &self,
        authority: Pubkey,
        attester: Pubkey,
    ) -> RegisterAttester
        recommends
            self.spec_registry() is Some,
    {
        RegisterAttester {
            registry_key: self.spec_registry_key(),
            registry: self.spec_registry()->0,
            attester_account: self.spec_attester(attester@),
            authority,
        }
    }

    /// Why a registration is refused, if it is: `NotInitialized` without a
    /// registry, else what the operation on the accounts says.
    pub open spec fn spec_register_attester_error(&self, authority: Pubkey, attester: Pubkey) -> Option<
        PredicateRegistryError,
    > {
        if self.spec_registry() is None {
            Some(PredicateRegistryError::NotInitialized)
        } else {
            spec_register_attester_error(
                self.spec_register_attester_accounts(authority, attester),
                attester,
            )
        }
    }

    /// Registers `attester` on behalf of the signer `authority`: the
    /// attester gets an account, or its account is marked as registered
    /// again, and the registry counts one attester more.
    ///
    /// `NotInitialized` without a registry; `Unauthorized` unless the signer
    /// is the registry's authority; `AttesterAlreadyRegistered` when the
    /// attester is registered; `ArithmeticError` when the counter is at its
    /// maximum. On an error nothing changes.
    pub fn register_attester(&mut self, authority: Pubkey, attester: Pubkey, clock: &Clock) -> (result:
        Result<AttesterRegistered, PredicateRegistryError>)
        requires
            old(self).spec_wf(),
        ensures
            final(self).spec_wf(),
            final(self).spec_registry_key() == old(self).spec_registry_key(),
            final(self).spec_policies() == old(self).spec_policies(),
            final(self).spec_used_uuids() == old(self).spec_used_uuids(),
            match result {
                Ok(event) => {
                    &&& old(self).spec_register_attester_error(authority, attester) is None
                    &&& event == (AttesterRegistered {
                        registry: old(self).spec_registry_key(),
                        attester,
                        authority,
                        timestamp: clock.unix_timestamp,
                    })
                    &&& final(self).spec_registry() == Some(
                        PredicateRegistry {
                            total_attesters: (old(self).spec_registry()->0.total_attesters
                                + 1) as u64,
                            updated_at: clock.unix_timestamp,
                            ..old(self).spec_registry()->0
                        },
                    )
                    &&& final(self).spec_attesters() == old(self).spec_attesters().insert(
                        attester@,
                        AttesterAccount {
                            attester,
                            is_registered: true,
                            registered_at: clock.unix_timestamp,
                        },
                    )
                },
                Err(e) => old(self).spec_register_attester_error(authority, attester) == Some(e)
                    && old(self).spec_same(final(self)),
            },
    {
        let registry = match self.registry {
            Some(registry) => registry,
            None => {
                return Err(PredicateRegistryError::NotInitialized);
            },
        };
        let attester_account = match self.attesters.get(attester.bytes.as_slice()) {
            Some(account) => Some(*account),
            None => None,
        };
        let mut ctx = RegisterAttester {
            registry_key: self.registry_key,
            registry,
            attester_account,
            authority,
        };
        match crate::instructions::register_attester(&mut ctx, attester, clock) {
            Ok(event) => {
                self.registry = Some(ctx.registry);
                match ctx.attester_account {
                    Some(account) => {
                        self.attesters.put(attester.bytes.as_slice(), account);
                    },
                    None => {},
                }
                proof {
                    old(self).lemma_kept(self, false, true, true);
                }
                Ok(event)
            },
            Err(e) => Err(e),
        }
    }

    /// Why a deregistration is refused, if it is: `NotInitialized` without
    /// a registry, `AttesterNotRegistered` for an attester without an
    /// account, else what the operation on the accounts says.
    pub open spec fn spec_deregister_attester_error(
        &self,
        authority: Pubkey,
        attester: Pubkey,
    ) -> Option<PredicateRegistryError> {
        if self.spec_registry() is None {
            Some(PredicateRegistryError::NotInitialized)
        } else if self.spec_attester(attester@) is None {
            Some(PredicateRegistryError::AttesterNotRegistered)
        } else {
            spec_deregister_attester_error(
                DeregisterAttester {
                    registry_key: self.spec_registry_key(),
                    registry: self.spec_registry()->0,
                    attester_account: self.spec_attester(attester@)->0,
                    authority,
                },
                attester,
            )
        }
    }

    /// Deregisters `attester` on behalf of the signer `authority`: the
    /// attester's account stays and is marked as not registered, and the
    /// registry counts one attester less.
    ///
    /// `NotInitialized` without a registry; `AttesterNotRegistered` when the
    /// attester has no account or is not registered; `Unauthorized` unless
    /// the signer is the registry's authority; `ArithmeticError` when the
    /// counter is zero. On an error nothing changes.
    pub fn deregister_attester(&mut self, authority: Pubkey, attester: Pubkey, clock: &Clock) -> (result:
        Result<AttesterDeregistered, PredicateRegistryError>)
        requires
            old(self).spec_wf(),
        ensures
            final(self).spec_wf(),
            final(self).spec_registry_key() == old(self).spec_registry_key(),
            final(self).spec_policies() == old(self).spec_policies(),
            final(self).spec_used_uuids() == old(self).spec_used_uuids(),
            match result {
                Ok(event) => {
                    &&& old(self).spec_deregister_attester_error(authority, attester) is None
                    &&& event == (AttesterDeregistered {
                        registry: old(self).spec_registry_key(),
                        attester,
                        authority,
                        timestamp: clock.unix_timestamp,
                    })
                    &&& final(self).spec_registry() == Some(
                        PredicateRegistry {
                            total_attesters: (old(self).spec_registry()->0.total_attesters
                                - 1) as u64,
                            updated_at: clock.unix_timestamp,
                            ..old(self).spec_registry()->0
                        },
                    )
                    &&& final(self).spec_attesters() == old(self).spec_attesters().insert(
                        attester@,
                        AttesterAccount {
                            is_registered: false,
                            ..old(self).spec_attesters()[attester@]
                        },
                    )
                },
                Err(e) => old(self).spec_deregister_attester_error(authority, attester) == Some(e)
                    && old(self).spec_same(final(self)),
            },
    {
        let registry = match self.registry {
            Some(registry) => registry,
            None => {
                return Err(PredicateRegistryError::NotInitialized);
            },
        };
        let attester_account = match self.attesters.get(attester.bytes.as_slice()) {
            Some(account) => *account,
            None => {
                return Err(PredicateRegistryError::AttesterNotRegistered);
            },
        };
        let mut ctx = DeregisterAttester {
            registry_key: self.registry_key,
            registry,
            attester_account,
            authority,
        };
        match crate::instructions::deregister_attester(&mut ctx, attester, clock) {
            Ok(event) => {
                self.registry = Some(ctx.registry);
                self.attesters.put(attester.bytes.as_slice(), ctx.attester_account);
                proof {
                    old(self).lemma_kept(self, false, true, true);
                }
                Ok(event)
            },
            Err(e) => Err(e),
        }
    }

    /// Hands the registry to `new_authority` on behalf of the signer
    /// `authority`.
    ///
    /// `NotInitialized` without a registry; `Unauthorized` unless the signer
    /// is the registry's authority. On an error nothing changes.
    pub fn transfer_authority(
        &mut self,
        authority: Pubkey,
        new_authority: Pubkey,
        clock: &Clock,
    ) -> (result: Result<AuthorityTransferred, PredicateRegistryError>)
        requires
            old(self).spec_wf(),
        ensures
            final(self).spec_wf(),
            final(self).spec_registry_key() == old(self).spec_registry_key(),
            final(self).spec_attesters() == old(self).spec_attesters(),
            final(self).spec_policies() == old(self).spec_policies(),
            final(self).spec_used_uuids() == old(self).spec_used_uuids(),
            old(self).spec_registry() is None ==> result == Err::<
                AuthorityTransferred,
                PredicateRegistryError,
            >(PredicateRegistryError::NotInitialized) && final(self).spec_registry() is None,
            old(self).spec_registry() is Some && old(self).spec_registry()->0.authority@
                != authority@ ==> result == Err::<AuthorityTransferred, PredicateRegistryError>(
                PredicateRegistryError::Unauthorized,
            ) && final(self).spec_registry() == old(self).spec_registry(),
            old(self).spec_registry() is Some && old(self).spec_registry()->0.authority@
                == authority@ ==> result == Ok::<AuthorityTransferred, PredicateRegistryError>(
                AuthorityTransferred {
                    registry: old(self).spec_registry_key(),
                    previous_authority: old(self).spec_registry()->0.authority,
                    new_authority,
                    timestamp: clock.unix_timestamp,
                },
            ) && final(self).spec_registry() == Some(
                PredicateRegistry {
                    authority: new_authority,
                    updated_at: clock.unix_timestamp,
                    ..old(self).spec_registry()->0
                },
            ),
    {
        let registry = match self.registry {
            Some(registry) => registry,
            None => {
                return Err(PredicateRegistryError::NotInitialized);
            },
        };
        let mut ctx = TransferAuthority { registry_key: self.registry_key, registry, authority };
        match crate::instructions::transfer_authority(&mut ctx, new_authority, clock) {
            Ok(event) => {
                self.registry = Some(ctx.registry);
                proof {
                    old(self).lemma_kept(self, true, true, true);
                }
                Ok(event)
            },
            Err(e) => Err(e),
        }
    }

    /// The accounts that a first setting of the policy of `client_program`
    /// works on.
    pub open spec fn spec_set_policy_id_accounts(
        &self,
        authority: Pubkey,
        client_program: Pubkey,
        program_data: ProgramData,
    ) -> SetPolicyId
        recommends
            self.spec_registry() is Some,
    {
        SetPolicyId {
            registry_key: self.spec_registry_key(),
            registry: self.spec_registry()->0,
            policy_account: self.spec_policy(client_program@),
            client_program,
            program_data,
            authority,
        }
    }

    /// Why a policy is not set, if it is not: `NotInitialized` without a
    /// registry, else what the operation on the accounts says.
    pub open spec fn spec_set_policy_id_error(
        &self,
        authority: Pubkey,
        client_program: Pubkey,
        program_data: ProgramData,
        policy_id: Seq<char>,
    ) -> Option<PredicateRegistryError> {
        if self.spec_registry() is None {
            Some(PredicateRegistryError::NotInitialized)
        } else {
            spec_set_policy_id_error(
                self.spec_set_policy_id_accounts(authority, client_program, program_data),
                policy_id,
            )
        }
    }

    /// Sets the policy of `client_program` for the first time, on behalf of
    /// the signer `authority`, who must be the program's upgrade authority
    /// by the program's upgrade metadata `program_data`.
    ///
    /// `NotInitialized` without a registry; `InvalidPolicyId`,
    /// `PolicyIdTooLong`, `InvalidProgramData`, `Unauthorized`,
    /// `AlreadyInitialized` and `ArithmeticError` as the operation on the
    /// accounts gives them. On an error nothing changes.
    pub fn set_policy_id(
        &mut self,
        authority: Pubkey,
        client_program: Pubkey,
        program_data: ProgramData,
        policy_id: String,
        clock: &Clock,
    ) -> (result: Result<PolicySet, PredicateRegistryError>)
        requires
            old(self).spec_wf(),
        ensures
            final(self).spec_wf(),
            final(self).spec_registry_key() == old(self).spec_registry_key(),
            final(self).spec_attesters() == old(self).spec_attesters(),
            final(self).spec_used_uuids() == old(self).spec_used_uuids(),
            match result {
                Ok(event) => {
                    &&& old(self).spec_set_policy_id_error(
                        authority,
                        client_program,
                        program_data,
                        policy_id@,
                    ) is None
                    &&& event.spec_is(
                        old(self).spec_registry_key(),
                        client_program,
                        authority,
                        policy_id@,
                        clock.unix_timestamp,
                    )
                    &&& final(self).spec_registry() == Some(
                        PredicateRegistry {
                            total_policies: (old(self).spec_registry()->0.total_policies
                                + 1) as u64,
                            updated_at: clock.unix_timestamp,
                            ..old(self).spec_registry()->0
                        },
                    )
                    &&& final(self).spec_policies() == old(self).spec_policies().insert(
                        client_program@,
                        final(self).spec_policies()[client_program@],
                    )
                    &&& final(self).spec_policies()[client_program@].client_program
                        == client_program
                    &&& final(self).spec_policies()[client_program@].authority == authority
                    &&& final(self).spec_policies()[client_program@].policy_id@ == policy_id@
                    &&& final(self).spec_policies()[client_program@].set_at == clock.unix_timestamp
                    &&& final(self).spec_policies()[client_program@].updated_at
                        == clock.unix_timestamp
                },
                Err(e) => old(self).spec_set_policy_id_error(
                    authority,
                    client_program,
                    program_data,
                    policy_id@,
                ) == Some(e) && old(self).spec_same(final(self)),
            },
    {
        let registry = match self.registry {
            Some(registry) => registry,
            None => {
                return Err(PredicateRegistryError::NotInitialized);
            },
        };
        let policy_account = self.policies.remove(client_program.bytes.as_slice());
        let mut ctx = SetPolicyId {
            registry_key: self.registry_key,
            registry,
            policy_account,
            client_program,
            program_data,
            authority,
        };
        let result = crate::instructions::set_policy_id(&mut ctx, policy_id, clock);
        match ctx.policy_account {
            Some(account) => {
                self.policies.put(client_program.bytes.as_slice(), account);
            },
            None => {},
        }
        proof {
            old(self).lemma_kept(self, true, false, true);
            assert(self.spec_policies() =~= if result is Ok {
                old(self).spec_policies().insert(
                    client_program@,
                    self.spec_policies()[client_program@],
                )
            } else {
                old(self).spec_policies()
            });
        }
        match result {
            Ok(event) => {
                self.registry = Some(ctx.registry);
                proof {
                    old(self).lemma_kept(self, true, false, true);
                }
                Ok(event)
            },
            Err(e) => Err(e),
        }
    }

    /// Why a policy is not replaced, if it is not: `NotInitialized` without
    /// a registry, `PolicyNotFound` for a program without a policy account,
    /// else what the operation on the accounts says.
    pub open spec fn spec_update_policy_id_error(
        &self,
        authority: Pubkey,
        client_program: Pubkey,
        program_data: ProgramData,
        policy_id: Seq<char>,
    ) -> Option<PredicateRegistryError> {
        if self.spec_registry() is None {
            Some(PredicateRegistryError::NotInitialized)
        } else if self.spec_policy(client_program@) is None {
            Some(PredicateRegistryError::PolicyNotFound)
        } else {
            spec_update_policy_id_error(
                UpdatePolicyId {
                    registry_key: self.spec_registry_key(),
                    registry: self.spec_registry()->0,
                    policy_account: self.spec_policy(client_program@)->0,
                    client_program,
                    program_data,
                    authority,
                },
                policy_id,
            )
        }
    }

    /// Replaces the policy of `client_program`, on behalf of the signer
    /// `authority`, who must be the program's upgrade authority. The policy
    /// account keeps its owner and the time of the first setting.
    ///
    /// `NotInitialized` without a registry; `PolicyNotFound` for a program
    /// without a policy account; `InvalidPolicyId`, `PolicyIdTooLong`,
    /// `InvalidProgramData` and `Unauthorized` as the operation on the
    /// accounts gives them. On an error nothing changes.
    pub fn update_policy_id(
        &mut self,
        authority: Pubkey,
        client_program: Pubkey,
        program_data: ProgramData,
        policy_id: String,
        clock: &Clock,
    ) -> (result: Result<PolicyUpdated, PredicateRegistryError>)
        requires
            old(self).spec_wf(),
        ensures
            final(self).spec_wf(),
            final(self).spec_registry_key() == old(self).spec_registry_key(),
            final(self).spec_registry() == old(self).spec_registry(),
            final(self).spec_attesters() == old(self).spec_attesters(),
            final(self).spec_used_uuids() == old(self).spec_used_uuids(),
            match result {
                Ok(event) => {
                    &&& old(self).spec_update_policy_id_error(
                        authority,
                        client_program,
                        program_data,
                        policy_id@,
                    ) is None
                    &&& event.spec_is(
                        old(self).spec_registry_key(),
                        client_program,
                        old(self).spec_policies()[client_program@].policy_id@,
                        policy_id@,
                        clock.unix_timestamp,
                    )
                    &&& final(self).spec_policies() == old(self).spec_policies().insert(
                        client_program@,
                        final(self).spec_policies()[client_program@],
                    )
                    &&& old(self).spec_policies()[client_program@].spec_updated_to(
                        final(self).spec_policies()[client_program@],
                        policy_id@,
                        clock.unix_timestamp,
                    )
                },
                Err(e) => old(self).spec_update_policy_id_error(
                    authority,
                    client_program,
                    program_data,
                    policy_id@,
                ) == Some(e) && old(self).spec_same(final(self)),
            },
    {
        let registry = match self.registry {
            Some(registry) => registry,
            None => {
                return Err(PredicateRegistryError::NotInitialized);
            },
        };
        let policy_account = match self.policies.remove(client_program.bytes.as_slice()) {
            Some(account) => account,
            None => {
                proof {
                    assert(self.spec_policies() =~= old(self).spec_policies());
                    old(self).lemma_kept(self, true, false, true);
                }
                return Err(PredicateRegistryError::PolicyNotFound);
            },
        };
        let mut ctx = UpdatePolicyId {
            registry_key: self.registry_key,
            registry,
            policy_account,
            client_program,
            program_data,
            authority,
        };
        let result = crate::instructions::update_policy_id(&mut ctx, policy_id, clock);
        self.policies.put(client_program.bytes.as_slice(), ctx.policy_account);
        proof {
            old(self).lemma_kept(self, true, false, true);
            assert(self.spec_policies() =~= old(self).spec_policies().insert(
                client_program@,
                self.spec_policies()[client_program@],
            ));
            if result is Err {
                assert(self.spec_policies() =~= old(self).spec_policies());
            }
        }
        result
    }

    /// The accounts that a validation works on.
    pub open spec fn spec_validate_attestation_accounts(
        &self,
        signer: Pubkey,
        instructions_sysvar: InstructionsSysvar,
        statement: Statement,
        attester_key: Pubkey,
        attestation: Attestation,
    ) -> ValidateAttestation
        recommends
            self.spec_registry() is Some,
            self.spec_attester(attester_key@) is Some,
            self.spec_policy(statement.target@) is Some,
    {
        ValidateAttestation {
            registry_key: self.spec_registry_key(),
            registry: self.spec_registry()->0,
            attester_account: self.spec_attester(attester_key@)->0,
            policy_account: self.spec_policy(statement.target@)->0,
            used_uuid_account: self.spec_used_uuid(attestation.uuid@),
            signer,
            instructions_sysvar,
        }
    }

    /// Why a validation is refused at `now`, if it is: `NotInitialized`
    /// without a registry, `AttesterNotFound` for an attester without an
    /// account, `PolicyNotFound` for a target without a policy account, else
    /// what the operation on the accounts says.
    pub open spec fn spec_validate_attestation_error(
        &self,
        signer: Pubkey,
        instructions_sysvar: InstructionsSysvar,
        statement: Statement,
        attester_key: Pubkey,
        attestation: Attestation,
        now: i64,
    ) -> Option<PredicateRegistryError> {
        if self.spec_registry() is None {
            Some(PredicateRegistryError::NotInitialized)
        } else if self.spec_attester(attester_key@) is None {
            Some(PredicateRegistryError::AttesterNotFound)
        } else if self.spec_policy(statement.target@) is None {
            Some(PredicateRegistryError::PolicyNotFound)
        } else {
            spec_validation_error(
                self.spec_validate_attestation_accounts(
                    signer,
                    instructions_sysvar,
                    statement,
                    attester_key,
                    attestation,
                ),
                statement,
                attester_key,
                attestation,
                now,
            )
        }
    }

    /// Decides whether `attestation` validates `statement`, submitted by
    /// `signer` in the transaction that `instructions_sysvar` shows, and
    /// records nothing: the operation runs on copies of the accounts. On
    /// success the two events are returned with the record that the
    /// identifier is to get.
    ///
    /// `NotInitialized` without a registry; `AttesterNotFound` when
    /// `attester_key` has no account; `PolicyNotFound` when the statement's
    /// target has no policy account; else the first failure of the
    /// operation on the accounts.
    pub fn check_attestation(
        &self,
        signer: Pubkey,
        instructions_sysvar: InstructionsSysvar,
        statement: Statement,
        attester_key: Pubkey,
        attestation: Attestation,
        clock: &Clock,
    ) -> (result: Result<(Validated, UsedUuidAccount), PredicateRegistryError>)
        requires
            self.spec_wf(),
        ensures
            match result {
                Ok((events, record)) => {
                    &&& self.spec_validate_attestation_error(
                        signer,
                        instructions_sysvar,
                        statement,
                        attester_key,
                        attestation,
                        clock.unix_timestamp,
                    ) is None
                    &&& events.spec_is(
                        self.spec_registry_key(),
                        signer,
                        statement,
                        attestation,
                        clock.unix_timestamp,
                    )
                    &&& record == spec_used_record(signer, statement, clock.unix_timestamp)
                },
                Err(e) => self.spec_validate_attestation_error(
                    signer,
                    instructions_sysvar,
                    statement,
                    attester_key,
                    attestation,
                    clock.unix_timestamp,
                ) == Some(e),
            },
    {
        let registry = match self.registry {
            Some(registry) => registry,
            None => {
                return Err(PredicateRegistryError::NotInitialized);
            },
        };
        let attester_account = match self.attesters.get(attester_key.bytes.as_slice()) {
            Some(account) => *account,
            None => {
                return Err(PredicateRegistryError::AttesterNotFound);
            },
        };
        let policy_account = match self.policies.get(statement.target.bytes.as_slice()) {
            Some(account) => account.duplicate(),
            None => {
                return Err(PredicateRegistryError::PolicyNotFound);
            },
        };
        let used_uuid_account = match self.used_uuids.get(attestation.uuid.as_slice()) {
            Some(record) => Some(*record),
            None => None,
        };
        let mut ctx = ValidateAttestation {
            registry_key: self.registry_key,
            registry,
            attester_account,
            policy_account,
            used_uuid_account,
            signer,
            instructions_sysvar,
        };
        let record = UsedUuidAccount {
            uuid: statement.uuid,
            signer,
            used_at: clock.unix_timestamp,
            expires_at: statement.expiration,
        };
        match crate::instructions::validate_attestation(
            &mut ctx,
            statement,
            attester_key,
            attestation,
            clock,
        ) {
            Ok(events) => Ok((events, record)),
            Err(e) => Err(e),
        }
    }

    /// Stores the record of a used identifier under the identifier.
    pub(crate) fn record_used_uuid(&mut self, record: UsedUuidAccount)
        requires
            old(self).spec_wf(),
        ensures
            final(self).spec_wf(),
            final(self).spec_registry_key() == old(self).spec_registry_key(),
            final(self).spec_registry() == old(self).spec_registry(),
            final(self).spec_attesters() == old(self).spec_attesters(),
            final(self).spec_policies() == old(self).spec_policies(),
            final(self).spec_used_uuids() == old(self).spec_used_uuids().insert(
                record.uuid@,
                record,
            ),
    {
        self.used_uuids.put(record.uuid.as_slice(), record);
        proof {
            old(self).lemma_kept(self, true, true, false);
            assert forall|k: Seq<u8>| #[trigger]
                self.spec_used_uuids().contains_key(k) implies self.spec_used_uuids()[k].uuid@
                == k by {
                if k != record.uuid@ {
                    assert(old(self).spec_used_uuids().contains_key(k));
                }
            }
        }
    }

    /// Validates `attestation` for `statement`, submitted by `signer` in the
    /// transaction that `instructions_sysvar` shows: decides as
    /// [`Ledger::check_attestation`] does and, on success, gives the
    /// statement's identifier its record, which makes every later
    /// validation with that identifier fail. The two events are returned.
    ///
    /// `NotInitialized` without a registry; `AttesterNotFound` when
    /// `attester_key` has no account; `PolicyNotFound` when the statement's
    /// target has no policy account; else the first failure of the
    /// operation on the accounts. On an error nothing changes.
    pub fn validate_attestation(
        &mut self,
        signer: Pubkey,
        instructions_sysvar: InstructionsSysvar,
        statement: Statement,
        attester_key: Pubkey,
        attestation: Attestation,
        clock: &Clock,
    ) -> (result: Result<Validated, PredicateRegistryError>)
        requires
            old(self).spec_wf(),
        ensures
            final(self).spec_wf(),
            final(self).spec_registry_key() == old(self).spec_registry_key(),
            final(self).spec_registry() == old(self).spec_registry(),
            final(self).spec_attesters() == old(self).spec_attesters(),
            final(self).spec_policies() == old(self).spec_policies(),
            match result {
                Ok(events) => {
                    &&& old(self).spec_validate_attestation_error(
                        signer,
                        instructions_sysvar,
                        statement,
                        attester_key,
                        attestation,
                        clock.unix_timestamp,
                    ) is None
                    &&& events.spec_is(
                        old(self).spec_registry_key(),
                        signer,
                        statement,
                        attestation,
                        clock.unix_timestamp,
                    )
                    &&& final(self).spec_used_uuids() == old(self).spec_used_uuids().insert(
                        statement.uuid@,
                        spec_used_record(signer, statement, clock.unix_timestamp),
                    )
                },
                Err(e) => old(self).spec_validate_attestation_error(
                    signer,
                    instructions_sysvar,
                    statement,
                    attester_key,
                    attestation,
                    clock.unix_timestamp,
                ) == Some(e) && old(self).spec_same(final(self)),
            },
    {
        match self.check_attestation(
            signer,
            instructions_sysvar,
            statement,
            attester_key,
            attestation,
            clock,
        ) {
            Ok((events, record)) => {
                self.record_used_uuid(record);
                Ok(events)
            },
            Err(e) => Err(e),
        }
    }

    /// Why the record of `uuid` is not released at `now`, if it is not:
    /// `InvalidAccountData` for an identifier without a record, else what
    /// the operation on the record says.
    pub open spec fn spec_cleanup_expired_uuid_error(
        &self,
        uuid: Seq<u8>,
        signer_recipient: Pubkey,
        now: i64,
    ) -> Option<PredicateRegistryError> {
        if self.spec_used_uuid(uuid) is None {
            Some(PredicateRegistryError::InvalidAccountData)
        } else {
            match spec_cleanup_expired_uuid(
                CleanupExpiredUuid {
                    used_uuid_account: self.spec_used_uuid(uuid)->0,
                    signer_recipient,
                },
                now,
            ) {
                Ok(()) => None,
                Err(e) => Some(e),
            }
        }
    }

    /// Releases the record of a used identifier and returns it; the storage
    /// cost goes to `signer_recipient`. Anyone may ask for it.
    ///
    /// `InvalidAccountData` for an identifier without a record;
    /// `Unauthorized` unless `signer_recipient` is the one who paid for the
    /// record; `StatementNotExpired` until the clock is past the statement's
    /// expiration and the drift buffer. On an error nothing changes.
    pub fn cleanup_expired_uuid(
        &mut self,
        uuid: &[u8; 16],
        signer_recipient: Pubkey,
        clock: &Clock,
    ) -> (result: Result<UsedUuidAccount, PredicateRegistryError>)
        requires
            old(self).spec_wf(),
        ensures
            final(self).spec_wf(),
            final(self).spec_registry_key() == old(self).spec_registry_key(),
            final(self).spec_registry() == old(self).spec_registry(),
            final(self).spec_attesters() == old(self).spec_attesters(),
            final(self).spec_policies() == old(self).spec_policies(),
            match result {
                Ok(record) => {
                    &&& old(self).spec_cleanup_expired_uuid_error(
                        uuid@,
                        signer_recipient,
                        clock.unix_timestamp,
                    ) is None
                    &&& old(self).spec_used_uuid(uuid@) == Some(record)
                    &&& record.signer@ == signer_recipient@
                    &&& final(self).spec_used_uuids() == old(self).spec_used_uuids().remove(uuid@)
                },
                Err(e) => old(self).spec_cleanup_expired_uuid_error(
                    uuid@,
                    signer_recipient,
                    clock.unix_timestamp,
                ) == Some(e) && old(self).spec_same(final(self)),
            },
    {
        let used_uuid_account = match self.used_uuids.get(uuid.as_slice()) {
            Some(record) => *record,
            None => {
                return Err(PredicateRegistryError::InvalidAccountData);
            },
        };
        let ctx = CleanupExpiredUuid { used_uuid_account, signer_recipient };
        match crate::instructions::cleanup_expired_uuid(&ctx, clock) {
            Ok(()) => {
                let _ = self.used_uuids.remove(uuid.as_slice());
                proof {
                    old(self).lemma_kept(self, true, true, false);
                }
                Ok(used_uuid_account)
            },
            Err(e) => Err(e),
        }
    }
}

/// In a ledger that holds the registry, the attester's account and the
/// target's policy account, a statement with a policy identifier and an
/// attestation that carry different identifiers are refused with
/// `StatementIdMismatch`, whatever else they carry and whenever they
/// arrive.
pub proof fn lemma_uuid_mismatch_refused(
    ledger: Ledger,
    signer: Pubkey,
    instructions_sysvar: InstructionsSysvar,
    statement: Statement,
    attester_key: Pubkey,
    attestation: Attestation,
    now: i64,
)
    requires
        ledger.spec_wf(),
        ledger.spec_registry() is Some,
        ledger.spec_attester(attester_key@) is Some,
        ledger.spec_policy(statement.target@) is Some,
        statement.policy_id@.len() > 0,
        statement.uuid@ != attestation.uuid@,
    ensures
        ledger.spec_validate_attestation_error(
            signer,
            instructions_sysvar,
            statement,
            attester_key,
            attestation,
            now,
        ) == Some(PredicateRegistryError::StatementIdMismatch),
{
    assert(ledger.spec_policies().contains_key(statement.target@));
}

/// In such a ledger, a pair that agrees in identifier and expiration is
/// refused with `AttestationExpired` after the expiration and the drift
/// buffer, and is not refused for its age up to and including that moment.
pub proof fn lemma_expiry_decides_at_the_buffer(
    ledger: Ledger,
    signer: Pubkey,
    instructions_sysvar: InstructionsSysvar,
    statement: Statement,
    attester_key: Pubkey,
    attestation: Attestation,
    now: i64,
)
    requires
        ledger.spec_wf(),
        ledger.spec_registry() is Some,
        ledger.spec_attester(attester_key@) is Some,
        ledger.spec_policy(statement.target@) is Some,
        statement.policy_id@.len() > 0,
        statement.uuid@ == attestation.uuid@,
        statement.expiration == attestation.expiration,
    ensures
        now > statement.expiration + CLOCK_DRIFT_BUFFER ==> ledger.spec_validate_attestation_error(
            signer,
            instructions_sysvar,
            statement,
            attester_key,
            attestation,
            now,
        ) == Some(PredicateRegistryError::AttestationExpired),
        now <= statement.expiration + CLOCK_DRIFT_BUFFER ==> ledger.spec_validate_attestation_error(
            signer,
            instructions_sysvar,
            statement,
            attester_key,
            attestation,
            now,
        ) != Some(PredicateRegistryError::AttestationExpired)
            && ledger.spec_validate_attestation_error(
            signer,
            instructions_sysvar,
            statement,
            attester_key,
            attestation,
            now,
        ) != Some(PredicateRegistryError::StatementExpired),
{
    assert(ledger.spec_policies().contains_key(statement.target@));
}

/// Replay protection: once a validation has succeeded, the identifier has
/// its record, and every validation that names the identifier in its
/// attestation fails, whoever submits it, whatever it carries and whenever
/// it runs.
pub proof fn lemma_validated_once(
    before: Ledger,
    after: Ledger,
    signer: Pubkey,
    instructions_sysvar: InstructionsSysvar,
    statement: Statement,
    attester_key: Pubkey,
    attestation: Attestation,
    now: i64,
    later_signer: Pubkey,
    later_sysvar: InstructionsSysvar,
    later_statement: Statement,
    later_key: Pubkey,
    later_attestation: Attestation,
    later: i64,
)
    requires
        before.spec_validate_attestation_error(
            signer,
            instructions_sysvar,
            statement,
            attester_key,
            attestation,
            now,
        ) is None,
        after.spec_used_uuids() == before.spec_used_uuids().insert(
            statement.uuid@,
            spec_used_record(signer, statement, now),
        ),
        later_attestation.uuid@ == statement.uuid@,
    ensures
        after.spec_validate_attestation_error(
            later_signer,
            later_sysvar,
            later_statement,
            later_key,
            later_attestation,
            later,
        ) is Some,
{
}

/// Replay of the identical transaction: after a successful validation, the
/// same statement and attestation submitted again by the same signer, with
/// the other accounts as they were and before the expiration has passed,
/// are refused with `UuidAlreadyUsed`.
pub proof fn lemma_replay_refused(
    before: Ledger,
    after: Ledger,
    signer: Pubkey,
    instructions_sysvar: InstructionsSysvar,
    statement: Statement,
    attester_key: Pubkey,
    attestation: Attestation,
    now: i64,
    later: i64,
)
    requires
        before.spec_validate_attestation_error(
            signer,
            instructions_sysvar,
            statement,
            attester_key,
            attestation,
            now,
        ) is None,
        after.spec_registry_key() == before.spec_registry_key(),
        after.spec_registry() == before.spec_registry(),
        after.spec_attesters() == before.spec_attesters(),
        after.spec_policies() == before.spec_policies(),
        after.spec_used_uuids() == before.spec_used_uuids().insert(
            statement.uuid@,
            spec_used_record(signer, statement, now),
        ),
        later <= statement.expiration + CLOCK_DRIFT_BUFFER,
    ensures
        after.spec_validate_attestation_error(
            signer,
            instructions_sysvar,
            statement,
            attester_key,
            attestation,
            later,
        ) == Some(PredicateRegistryError::UuidAlreadyUsed),
{
}

/// A record is released only when its statement can no longer be
/// validated: where the release of a record succeeds at `now`, a pair that
/// carries the record's expiration is refused at `now`, and at every later
/// time, as expired. Both decisions use the same drift buffer.
pub proof fn lemma_release_after_validity(
    record: UsedUuidAccount,
    signer_recipient: Pubkey,
    statement: Statement,
    attestation: Attestation,
    now: i64,
    later: i64,
)
    requires
        spec_cleanup_expired_uuid(
            CleanupExpiredUuid { used_uuid_account: record, signer_recipient },
            now,
        ) is Ok,
        statement.expiration == record.expires_at,
        statement.uuid@ == attestation.uuid@,
        statement.expiration == attestation.expiration,
        now <= later,
    ensures
        spec_pairing_error(statement, attestation, later) == Some(
            PredicateRegistryError::AttestationExpired,
        ),
{
}

} // verus!
