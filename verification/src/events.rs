//! The audit events that the registry's operations report. An operation
//! returns its events; whoever runs it publishes them.

use vstd::prelude::*;
use crate::pubkey::Pubkey;

verus! {

/// The registry was created.
#[derive(Clone, Copy, Debug, PartialEq, Eq)]
pub struct RegistryInitialized {
    pub registry: Pubkey,
    pub authority: Pubkey,
    pub timestamp: i64,
}

/// An attester was registered.
#[derive(Clone, Copy, Debug, PartialEq, Eq)]
pub struct AttesterRegistered {
    pub registry: Pubkey,
    pub attester: Pubkey,
    pub authority: Pubkey,
    pub timestamp: i64,
}

/// An attester was deregistered.
#[derive(Clone, Copy, Debug, PartialEq, Eq)]
pub struct AttesterDeregistered {
    pub registry: Pubkey,
    pub attester: Pubkey,
    pub authority: Pubkey,
    pub timestamp: i64,
}

/// A client program's policy was set for the first time.
#[derive(Clone, Debug, PartialEq, Eq)]
pub struct PolicySet {
    pub registry: Pubkey,
    pub client_program: Pubkey,
    pub authority: Pubkey,
    pub policy_id: String,
    pub timestamp: i64,
}

/// A statement was validated.
#[derive(Clone, Debug, PartialEq, Eq)]
pub struct StatementValidated {
    pub registry: Pubkey,
    pub msg_sender: Pubkey,
    pub target: Pubkey,
    pub attester: Pubkey,
    pub msg_value: u64,
    pub policy_id: String,
    pub uuid: String,
    pub expiration: i64,
    pub timestamp: i64,
}

/// The registry changed hands.
#[derive(Clone, Copy, Debug, PartialEq, Eq)]
pub struct AuthorityTransferred {
    pub registry: Pubkey,
    pub previous_authority: Pubkey,
    pub new_authority: Pubkey,
    pub timestamp: i64,
}

/// A client program's policy was replaced.
#[derive(Clone, Debug, PartialEq, Eq)]
pub struct PolicyUpdated {
    pub registry: Pubkey,
    pub client_program: Pubkey,
    pub previous_policy_id: String,
    pub new_policy_id: String,
    pub timestamp: i64,
}

/// An identifier was consumed.
#[derive(Clone, Debug, PartialEq, Eq)]
pub struct UuidMarkedUsed {
    pub uuid: String,
    pub signer: Pubkey,
    pub expires_at: i64,
    pub timestamp: i64,
}

impl PolicySet {
    /// Whether the event carries exactly these values.
    pub open spec fn spec_is(
        self,
        registry: Pubkey,
        client_program: Pubkey,
        authority: Pubkey,
        policy_id: Seq<char>,
        timestamp: i64,
    ) -> bool {
        &&& self.registry == registry
        &&& self.client_program == client_program
        &&& self.authority == authority
        &&& self.policy_id@ == policy_id
        &&& self.timestamp == timestamp
    }
}

impl PolicyUpdated {
    /// Whether the event carries exactly these values.
    pub open spec fn spec_is(
        self,
        registry: Pubkey,
        client_program: Pubkey,
        previous_policy_id: Seq<char>,
        new_policy_id: Seq<char>,
        timestamp: i64,
    ) -> bool {
        &&& self.registry == registry
        &&& self.client_program == client_program
        &&& self.previous_policy_id@ == previous_policy_id
        &&& self.new_policy_id@ == new_policy_id
        &&& self.timestamp == timestamp
    }
}

impl UuidMarkedUsed {
    /// Whether the event carries exactly these values.
    pub open spec fn spec_is(
        self,
        uuid: Seq<char>,
        signer: Pubkey,
        expires_at: i64,
        timestamp: i64,
    ) -> bool {
        &&& self.uuid@ == uuid
        &&& self.signer == signer
        &&& self.expires_at == expires_at
        &&& self.timestamp == timestamp
    }
}

} // verus!
