//! Release of the record of a used identifier.

use vstd::prelude::*;
use crate::errors::PredicateRegistryError;
use crate::instructions::{past_expiry, spec_past_expiry, CleanupExpiredUuid};
use crate::state::Clock;

verus! {

/// Whether a record may be released at `now` with the storage cost going to
/// `signer_recipient`.
pub open spec fn spec_cleanup_expired_uuid(ctx: CleanupExpiredUuid, now: i64) -> Result<
    (),
    PredicateRegistryError,
> {
    if ctx.signer_recipient@ != ctx.used_uuid_account.signer@ {
        Err(PredicateRegistryError::Unauthorized)
    } else if !spec_past_expiry(now, ctx.used_uuid_account.expires_at) {
        Err(PredicateRegistryError::StatementNotExpired)
    } else {
        Ok(())
    }
}

/// Decides whether the record of a used identifier may be released. Anyone
/// may ask.
///
/// `Unauthorized` unless the storage cost goes to the one who paid for the
/// record; `StatementNotExpired` until the clock is past the statement's
/// expiration and the drift buffer.
pub fn cleanup_expired_uuid(ctx: &CleanupExpiredUuid, clock: &Clock) -> (result: Result<
    (),
    PredicateRegistryError,
>)
    ensures
        result == spec_cleanup_expired_uuid(*ctx, clock.unix_timestamp),
{
    if ctx.signer_recipient != ctx.used_uuid_account.signer {
        return Err(PredicateRegistryError::Unauthorized);
    }
    if !past_expiry(clock.unix_timestamp, ctx.used_uuid_account.expires_at) {
        return Err(PredicateRegistryError::StatementNotExpired);
    }
    Ok(())
}

} // verus!
