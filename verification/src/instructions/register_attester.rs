//! Registration of an attester.

use vstd::prelude::*;
use crate::errors::PredicateRegistryError;
use crate::events::AttesterRegistered;
use crate::instructions::RegisterAttester;
use crate::pubkey::Pubkey;
use crate::state::{AttesterAccount, Clock, PredicateRegistry};

verus! {

/// Why a registration of `attester` is refused, if it is.
pub open spec fn spec_register_attester_error(ctx: RegisterAttester, attester: Pubkey) -> Option<
    PredicateRegistryError,
> {
    if ctx.registry.authority@ != ctx.authority@ {
        Some(PredicateRegistryError::Unauthorized)
    } else if ctx.attester_account is Some && ctx.attester_account->0.attester@ != attester@ {
        Some(PredicateRegistryError::WrongAttester)
    } else if ctx.attester_account is Some && ctx.attester_account->0.is_registered {
        Some(PredicateRegistryError::AttesterAlreadyRegistered)
    } else if ctx.registry.total_attesters == u64::MAX {
        Some(PredicateRegistryError::ArithmeticError)
    } else {
        None
    }
}

/// Registers `attester`: creates the attester's account, or marks the
/// account of an attester that was deregistered as registered again, and
/// counts the attester.
///
/// `Unauthorized` unless the signer is the registry's authority;
/// `WrongAttester` when the account is another attester's;
/// `AttesterAlreadyRegistered` when the attester is registered;
/// `ArithmeticError` when the counter is at its maximum. On an error no
/// account changes.
pub fn register_attester(ctx: &mut RegisterAttester, attester: Pubkey, clock: &Clock) -> (result:
    Result<AttesterRegistered, PredicateRegistryError>)
    ensures
        match result {
            Ok(event) => {
                &&& spec_register_attester_error(*old(ctx), attester) is None
                &&& event == (AttesterRegistered {
                    registry: old(ctx).registry_key,
                    attester,
                    authority: old(ctx).authority,
                    timestamp: clock.unix_timestamp,
                })
                &&& *final(ctx) == (RegisterAttester {
                    registry: PredicateRegistry {
                        total_attesters: (old(ctx).registry.total_attesters + 1) as u64,
                        updated_at: clock.unix_timestamp,
                        ..old(ctx).registry
                    },
                    attester_account: Some(
                        AttesterAccount {
                            attester,
                            is_registered: true,
                            registered_at: clock.unix_timestamp,
                        },
                    ),
                    ..*old(ctx)
                })
            },
            Err(e) => spec_register_attester_error(*old(ctx), attester) == Some(e) && *final(ctx)
                == *old(ctx),
        },
{
    if ctx.registry.authority != ctx.authority {
        return Err(PredicateRegistryError::Unauthorized);
    }
    let mut account = match ctx.attester_account {
        Some(existing) => {
            if existing.attester != attester {
                return Err(PredicateRegistryError::WrongAttester);
            }
            if existing.is_registered {
                return Err(PredicateRegistryError::AttesterAlreadyRegistered);
            }
            existing
        },
        None => AttesterAccount { attester, is_registered: false, registered_at: 0 },
    };
    if ctx.registry.total_attesters == u64::MAX {
        return Err(PredicateRegistryError::ArithmeticError);
    }
    proof {
        crate::pubkey::lemma_pubkey_ext(account.attester, attester);
    }
    if ctx.attester_account.is_some() {
        let _ = account.register(clock);
    } else {
        let _ = account.initialize(attester, clock);
    }
    ctx.attester_account = Some(account);
    let _ = ctx.registry.increment_attester_count(clock);
    Ok(
        AttesterRegistered {
            registry: ctx.registry_key,
            attester,
            authority: ctx.authority,
            timestamp: clock.unix_timestamp,
        },
    )
}

} // verus!
