//! Deregistration of an attester.

use vstd::prelude::*;
use crate::errors::PredicateRegistryError;
use crate::events::AttesterDeregistered;
use crate::instructions::DeregisterAttester;
use crate::pubkey::Pubkey;
use crate::state::{AttesterAccount, Clock, PredicateRegistry};

verus! {

/// Why a deregistration is refused, if it is.
pub open spec fn spec_deregister_attester_error(ctx: DeregisterAttester, attester: Pubkey) -> Option<
    PredicateRegistryError,
> {
    if ctx.registry.authority@ != ctx.authority@ {
        Some(PredicateRegistryError::Unauthorized)
    } else if ctx.attester_account.attester@ != attester@ {
        Some(PredicateRegistryError::WrongAttester)
    } else if !ctx.attester_account.is_registered {
        Some(PredicateRegistryError::AttesterNotRegistered)
    } else if ctx.registry.total_attesters == 0 {
        Some(PredicateRegistryError::ArithmeticError)
    } else {
        None
    }
}

/// Deregisters `attester`: the account stays and is marked as not
/// registered, and the counter goes down by one.
///
/// `Unauthorized` unless the signer is the registry's authority;
/// `WrongAttester` when the account is another attester's;
/// `AttesterNotRegistered` when the attester is not registered;
/// `ArithmeticError` when the counter is zero. On an error no account
/// changes.
pub fn deregister_attester(ctx: &mut DeregisterAttester, attester: Pubkey, clock: &Clock) -> (result:
    Result<AttesterDeregistered, PredicateRegistryError>)
    ensures
        match result {
            Ok(event) => {
                &&& spec_deregister_attester_error(*old(ctx), attester) is None
                &&& event == (AttesterDeregistered {
                    registry: old(ctx).registry_key,
                    attester,
                    authority: old(ctx).authority,
                    timestamp: clock.unix_timestamp,
                })
                &&& *final(ctx) == (DeregisterAttester {
                    registry: PredicateRegistry {
                        total_attesters: (old(ctx).registry.total_attesters - 1) as u64,
                        updated_at: clock.unix_timestamp,
                        ..old(ctx).registry
                    },
                    attester_account: AttesterAccount {
                        is_registered: false,
                        ..old(ctx).attester_account
                    },
                    ..*old(ctx)
                })
            },
            Err(e) => spec_deregister_attester_error(*old(ctx), attester) == Some(e) && *final(ctx)
                == *old(ctx),
        },
{
    if ctx.registry.authority != ctx.authority {
        return Err(PredicateRegistryError::Unauthorized);
    }
    if ctx.attester_account.attester != attester {
        return Err(PredicateRegistryError::WrongAttester);
    }
    if !ctx.attester_account.is_registered {
        return Err(PredicateRegistryError::AttesterNotRegistered);
    }
    if ctx.registry.total_attesters == 0 {
        return Err(PredicateRegistryError::ArithmeticError);
    }
    let _ = ctx.attester_account.deregister();
    let _ = ctx.registry.decrement_attester_count(clock);
    Ok(
        AttesterDeregistered {
            registry: ctx.registry_key,
            attester,
            authority: ctx.authority,
            timestamp: clock.unix_timestamp,
        },
    )
}

} // verus!
