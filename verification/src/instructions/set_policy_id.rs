//! First setting of a client program's policy.

use vstd::prelude::*;
use crate::errors::PredicateRegistryError;
use crate::events::PolicySet;
use crate::instructions::SetPolicyId;
use crate::program_data::{check_program_authority, spec_check_program_authority};
use crate::state::{
    check_policy_id, spec_policy_id_error, Clock, PolicyAccount, PredicateRegistry,
};

verus! {

/// Why a policy is not set, if it is not.
pub open spec fn spec_set_policy_id_error(ctx: SetPolicyId, policy_id: Seq<char>) -> Option<
    PredicateRegistryError,
> {
    if spec_policy_id_error(policy_id) is Some {
        spec_policy_id_error(policy_id)
    } else if spec_check_program_authority(
        ctx.client_program@,
        ctx.program_data.key@,
        ctx.program_data.data@,
        ctx.authority@,
    ) is Err {
        Some(
            spec_check_program_authority(
                ctx.client_program@,
                ctx.program_data.key@,
                ctx.program_data.data@,
                ctx.authority@,
            )->Err_0,
        )
    } else if ctx.policy_account is Some {
        Some(PredicateRegistryError::AlreadyInitialized)
    } else if ctx.registry.total_policies == u64::MAX {
        Some(PredicateRegistryError::ArithmeticError)
    } else {
        None
    }
}

/// Sets the policy of a client program for the first time: creates the
/// program's policy account and counts it.
///
/// The policy belongs to the program, not to the caller: only the program's
/// upgrade authority may set it. `InvalidPolicyId` for an empty identifier,
/// `PolicyIdTooLong` for one of more than 64 bytes; `InvalidProgramData`
/// when the metadata account is not the program's or is malformed;
/// `Unauthorized` when the metadata names no upgrade authority or another
/// one than the signer; `AlreadyInitialized` when the program has a policy
/// account already; `ArithmeticError` when the counter is at its maximum. On
/// an error no account changes.
pub fn set_policy_id(ctx: &mut SetPolicyId, policy_id: String, clock: &Clock) -> (result: Result<
    PolicySet,
    PredicateRegistryError,
>)
    ensures
        match result {
            Ok(event) => {
                &&& spec_set_policy_id_error(*old(ctx), policy_id@) is None
                &&& event.spec_is(
                    old(ctx).registry_key,
                    old(ctx).client_program,
                    old(ctx).authority,
                    policy_id@,
                    clock.unix_timestamp,
                )
                &&& final(ctx).policy_account is Some
                &&& final(ctx).policy_account->0.client_program == old(ctx).client_program
                &&& final(ctx).policy_account->0.authority == old(ctx).authority
                &&& final(ctx).policy_account->0.policy_id@ == policy_id@
                &&& final(ctx).policy_account->0.set_at == clock.unix_timestamp
                &&& final(ctx).policy_account->0.updated_at == clock.unix_timestamp
                &&& final(ctx).policy_account->0.spec_well_formed()
                &&& final(ctx).registry == (PredicateRegistry {
                    total_policies: (old(ctx).registry.total_policies + 1) as u64,
                    updated_at: clock.unix_timestamp,
                    ..old(ctx).registry
                })
                &&& final(ctx).registry_key == old(ctx).registry_key
                &&& final(ctx).client_program == old(ctx).client_program
                &&& final(ctx).program_data == old(ctx).program_data
                &&& final(ctx).authority == old(ctx).authority
            },
            Err(e) => spec_set_policy_id_error(*old(ctx), policy_id@) == Some(e) && *final(ctx)
                == *old(ctx),
        },
{
    match check_policy_id(&policy_id) {
        Ok(()) => {},
        Err(e) => {
            return Err(e);
        },
    }
    match check_program_authority(&ctx.client_program, &ctx.program_data, &ctx.authority) {
        Ok(()) => {},
        Err(e) => {
            return Err(e);
        },
    }
    if ctx.policy_account.is_some() {
        return Err(PredicateRegistryError::AlreadyInitialized);
    }
    if ctx.registry.total_policies == u64::MAX {
        return Err(PredicateRegistryError::ArithmeticError);
    }
    let mut account = PolicyAccount {
        client_program: ctx.client_program,
        authority: ctx.authority,
        policy_id: String::new(),
        set_at: 0,
        updated_at: 0,
    };
    let _ = account.initialize(ctx.client_program, ctx.authority, policy_id.clone(), clock);
    ctx.policy_account = Some(account);
    let _ = ctx.registry.increment_policy_count(clock);
    Ok(
        PolicySet {
            registry: ctx.registry_key,
            client_program: ctx.client_program,
            authority: ctx.authority,
            policy_id,
            timestamp: clock.unix_timestamp,
        },
    )
}

} // verus!
