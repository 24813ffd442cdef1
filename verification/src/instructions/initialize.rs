//! Creation of the registry.

use vstd::prelude::*;
use crate::errors::PredicateRegistryError;
use crate::events::RegistryInitialized;
use crate::instructions::Initialize;
use crate::state::{Clock, PredicateRegistry};

verus! {

/// Creates the registry with the signer as its authority, both timestamps
/// at the clock's time and both counters at zero.
///
/// `AlreadyInitialized`, with nothing changed, when the registry exists.
pub fn initialize(ctx: &mut Initialize, clock: &Clock) -> (result: Result<
    RegistryInitialized,
    PredicateRegistryError,
>)
    ensures
        old(ctx).registry is None ==> result == Ok::<RegistryInitialized, PredicateRegistryError>(
            RegistryInitialized {
                registry: old(ctx).registry_key,
                authority: old(ctx).authority,
                timestamp: clock.unix_timestamp,
            },
        ) && *final(ctx) == (Initialize {
            registry: Some(
                PredicateRegistry {
                    authority: old(ctx).authority,
                    created_at: clock.unix_timestamp,
                    updated_at: clock.unix_timestamp,
                    total_attesters: 0,
                    total_policies: 0,
                },
            ),
            ..*old(ctx)
        }),
        old(ctx).registry is Some ==> result == Err::<RegistryInitialized, PredicateRegistryError>(
            PredicateRegistryError::AlreadyInitialized,
        ) && *final(ctx) == *old(ctx),
{
    if ctx.registry.is_some() {
        return Err(PredicateRegistryError::AlreadyInitialized);
    }
    let mut registry = PredicateRegistry {
        authority: ctx.authority,
        created_at: 0,
        updated_at: 0,
        total_attesters: 0,
        total_policies: 0,
    };
    let _ = registry.initialize(ctx.authority, clock);
    ctx.registry = Some(registry);
    Ok(
        RegistryInitialized {
            registry: ctx.registry_key,
            authority: ctx.authority,
            timestamp: clock.unix_timestamp,
        },
    )
}

} // verus!
