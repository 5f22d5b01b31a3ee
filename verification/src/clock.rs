use vstd::prelude::*;
use crate::error::AuthError;

verus! {

/// Nanoseconds in one day. Instants are nanoseconds since the Unix epoch, in UTC.
pub const NANOS_PER_DAY: i128 = 86_400_000_000_000;

/// Whether a credential with this expiry is still valid at `now`: it never
/// expires, or it expires strictly later.
pub open spec fn live_at(expires_at: Option<i128>, now: i128) -> bool {
    match expires_at {
        None => true,
        Some(deadline) => deadline > now,
    }
}

/// The expiry of a credential issued at `now` for `ttl_days` days. Without a
/// lifetime the credential never expires. A deadline that no instant can hold
/// is a validation failure.
pub open spec fn expiry_of(now: i128, ttl_days: Option<i64>) -> Result<Option<i128>, AuthError> {
    match ttl_days {
        None => Ok(None),
        Some(days) => {
            let deadline = now + days * NANOS_PER_DAY;
            if i128::MIN <= deadline <= i128::MAX {
                Ok(Some(deadline as i128))
            } else {
                Err(AuthError::Validation)
            }
        },
    }
}

/// The instants that the system clock can give. The clock's dates lie within
/// the years -999999 to 999999, which is well inside 2^80 nanoseconds on either
/// side of the epoch.
pub open spec fn clock_range(now: i128) -> bool {
    -0x1_0000_0000_0000_0000_0000 < now < 0x1_0000_0000_0000_0000_0000
}

/// A credential issued at an instant of the clock has an expiry, whatever its
/// lifetime.
pub proof fn lemma_clock_range_expiry(now: i128, ttl_days: Option<i64>)
    requires
        clock_range(now),
    ensures
        expiry_of(now, ttl_days) is Ok,
        ttl_days matches Some(days) ==> expiry_of(now, ttl_days) == Ok::<Option<i128>, AuthError>(
            Some((now + days * NANOS_PER_DAY) as i128),
        ),
{
}

/// Decides whether a credential with this expiry is valid at `now`.
pub fn is_live(expires_at: Option<i128>, now: i128) -> (r: bool)
    ensures
        r == live_at(expires_at, now),
{
    match expires_at {
        None => true,
        Some(deadline) => deadline > now,
    }
}

/// Computes the expiry of a credential issued at `now`.
pub fn expires_at(now: i128, ttl_days: Option<i64>) -> (r: Result<Option<i128>, AuthError>)
    ensures
        r == expiry_of(now, ttl_days),
{
    match ttl_days {
        None => Ok(None),
        Some(days) => {
            let span: i128 = (days as i128) * NANOS_PER_DAY;
            match now.checked_add(span) {
                Some(deadline) => Ok(Some(deadline)),
                None => Err(AuthError::Validation),
            }
        },
    }
}

/// Reads the system clock through `time::OffsetDateTime::now_utc` and hands the
/// instant back as nanoseconds since the Unix epoch. Trusted: the instant lies
/// in the range of the dates that the `time` crate can hold. Nothing else is
/// claimed of the value: two readings may differ in any way.
#[verifier::external_body]
pub(crate) fn now_utc() -> (now: i128)
    ensures
        clock_range(now),
{
    time::OffsetDateTime::now_utc().unix_timestamp_nanos()
}

} // verus!
