//! Transfer of the registry to a new authority.

use vstd::prelude::*;
use crate::errors::PredicateRegistryError;
use crate::events::AuthorityTransferred;
use crate::instructions::TransferAuthority;
use crate::pubkey::Pubkey;
use crate::state::{Clock, PredicateRegistry};

verus! {

/// Hands the registry to `new_authority`.
///
/// `Unauthorized`, with nothing changed, unless the signer is the
/// registry's authority.
pub fn transfer_authority(ctx: &mut TransferAuthority, new_authority: Pubkey, clock: &Clock) -> (result:
    Result<AuthorityTransferred, PredicateRegistryError>)
    ensures
        old(ctx).registry.authority@ == old(ctx).authority@ ==> result == Ok::<
            AuthorityTransferred,
            PredicateRegistryError,
        >(
            AuthorityTransferred {
                registry: old(ctx).registry_key,
                previous_authority: old(ctx).registry.authority,
                new_authority,
                timestamp: clock.unix_timestamp,
            },
        ) && *final(ctx) == (TransferAuthority {
            registry: PredicateRegistry {
                authority: new_authority,
                updated_at: clock.unix_timestamp,
                ..old(ctx).registry
            },
            ..*old(ctx)
        }),
        old(ctx).registry.authority@ != old(ctx).authority@ ==> result == Err::<
            AuthorityTransferred,
            PredicateRegistryError,
        >(PredicateRegistryError::Unauthorized) && *final(ctx) == *old(ctx),
{
    if ctx.registry.authority != ctx.authority {
        return Err(PredicateRegistryError::Unauthorized);
    }
    let previous_authority = ctx.registry.authority;
    let _ = ctx.registry.transfer_authority(new_authority, clock);
    Ok(
        AuthorityTransferred {
            registry: ctx.registry_key,
            previous_authority,
            new_authority,
            timestamp: clock.unix_timestamp,
        },
    )
}

} // verus!
