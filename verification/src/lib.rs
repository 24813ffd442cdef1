//! Attestation-gated authorization registry.
//!
//! A registry authority registers attesters; each client program binds a
//! policy identifier; a statement is accepted when a registered attester has
//! vouched for it, the vouching has not expired, the native signature check
//! ran immediately before, and the statement's identifier was never used.
//!
//! - [`state`] holds the accounts, the statement and the attestation, and
//!   builds the digest that an attester signs.
//! - [`ed25519`] proves that the native program verified one given
//!   signature directly before the current instruction.
//! - [`program_data`] reads a program's upgrade metadata to learn who may
//!   set the program's policy.
//! - [`instructions`] holds the operations, each on accounts that were
//!   looked up for it.
//! - [`ledger`] keeps the accounts of one deployment by their keys and runs
//!   the operations on them; its record of used identifiers is what refuses
//!   a replay.
//! - [`counter`] is a small consumer: a counter whose increment is gated by
//!   the registry.
//! - [`native`] holds the few calls into the platform's crates, each
//!   believed by its contract.

pub mod bytes;
pub mod counter;
pub mod ed25519;
pub mod errors;
pub mod events;
pub mod instructions;
pub mod ledger;
pub mod native;
pub mod program_data;
pub mod pubkey;
pub mod state;
pub mod table;
