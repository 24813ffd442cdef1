//! Replacement of a client program's policy.

use vstd::prelude::*;
use crate::errors::PredicateRegistryError;
use crate::events::PolicyUpdated;
use crate::instructions::UpdatePolicyId;
use crate::program_data::{check_program_authority, spec_check_program_authority};
use crate::state::{check_policy_id, spec_policy_id_error, Clock};

verus! {

/// Why a policy is not replaced, if it is not.
pub open spec fn spec_update_policy_id_error(ctx: UpdatePolicyId, policy_id: Seq<char>) -> Option<
    PredicateRegistryError,
> {
    if spec_policy_id_error(policy_id) is Some {
        spec_policy_id_error(policy_id)
    } else if ctx.policy_account.client_program@ != ctx.client_program@ {
        Some(PredicateRegistryError::InvalidClientProgram)
    } else if spec_check_program_authority(
        ctx.client_program@,
        ctx.program_data.key@,
        ctx.program_data.data@,
        ctx.authority@,
    ) is Err {
        Some(
            spec_check_program_authority(
                ctx.client_program@,
                ctx.program_data.key@,
                ctx.program_data.data@,
                ctx.authority@,
            )->Err_0,
        )
    } else {
        None
    }
}

/// Replaces the policy of a client program in place. The account's owner
/// and the time of the first setting stay; the time of the last change
/// becomes the clock's.
///
/// `InvalidPolicyId` for an empty identifier, `PolicyIdTooLong` for one of
/// more than 64 bytes; `InvalidClientProgram` when the policy account
/// belongs to another program; `InvalidProgramData` when the metadata
/// account is not the program's or is malformed; `Unauthorized` when the
/// metadata names no upgrade authority or another one than the signer. On an
/// error no account changes.
pub fn update_policy_id(ctx: &mut UpdatePolicyId, policy_id: String, clock: &Clock) -> (result:
    Result<PolicyUpdated, PredicateRegistryError>)
    ensures
        match result {
            Ok(event) => {
                &&& spec_update_policy_id_error(*old(ctx), policy_id@) is None
                &&& event.spec_is(
                    old(ctx).registry_key,
                    old(ctx).client_program,
                    old(ctx).policy_account.policy_id@,
                    policy_id@,
                    clock.unix_timestamp,
                )
                &&& old(ctx).policy_account.spec_updated_to(
                    final(ctx).policy_account,
                    policy_id@,
                    clock.unix_timestamp,
                )
                &&& final(ctx).policy_account.spec_well_formed()
                &&& final(ctx).registry == old(ctx).registry
                &&& final(ctx).registry_key == old(ctx).registry_key
                &&& final(ctx).client_program == old(ctx).client_program
                &&& final(ctx).program_data == old(ctx).program_data
                &&& final(ctx).authority == old(ctx).authority
            },
            Err(e) => spec_update_policy_id_error(*old(ctx), policy_id@) == Some(e) && *final(ctx)
                == *old(ctx),
        },
{
    match check_policy_id(&policy_id) {
        Ok(()) => {},
        Err(e) => {
            return Err(e);
        },
    }
    if ctx.policy_account.client_program != ctx.client_program {
        return Err(PredicateRegistryError::InvalidClientProgram);
    }
    match check_program_authority(&ctx.client_program, &ctx.program_data, &ctx.authority) {
        Ok(()) => {},
        Err(e) => {
            return Err(e);
        },
    }
    let previous_policy_id = ctx.policy_account.policy_id.clone();
    let _ = ctx.policy_account.update_policy_id(policy_id.clone(), clock);
    Ok(
        PolicyUpdated {
            registry: ctx.registry_key,
            client_program: ctx.client_program,
            previous_policy_id,
            new_policy_id: policy_id,
            timestamp: clock.unix_timestamp,
        },
    )
}

} // verus!
