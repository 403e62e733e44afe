//! Calendar rendering of time instants, through an external date-time
//! library.

use vstd::prelude::*;

verus! {

/// A conservative lower bound, in epoch milliseconds, on the instants the
/// external calendar renders (about 253,000 years before the epoch; the
/// library itself reaches to about 262,000).
pub const CALENDAR_MIN_MILLIS: i64 = -8_000_000_000_000_000;

/// A conservative upper bound, in epoch milliseconds, on the instants the
/// external calendar renders (about 253,000 years after the epoch; the
/// library itself reaches to about 262,000).
pub const CALENDAR_MAX_MILLIS: i64 = 8_000_000_000_000_000;

/// The RFC 3339 rendering of an epoch-millisecond instant in UTC. It is
/// a function of the instant alone.
pub uninterp spec fn rfc3339_utc(millis: i64) -> Seq<char>;

/// Relies on chrono's `DateTime::<Utc>::from_timestamp_millis`, which
/// yields a date-time exactly for the instants its calendar represents —
/// it returns `None` only when the resulting year leaves the range of
/// roughly ±262,000, so every instant within the conservative bounds
/// above is rendered — and on `DateTime::to_rfc3339`, whose output
/// depends on the instant alone.
#[verifier::external_body]
pub(crate) fn format_rfc3339_millis(millis: i64) -> (r: Option<String>)
    ensures
        r matches Some(s) ==> s@ == rfc3339_utc(millis),
        CALENDAR_MIN_MILLIS <= millis <= CALENDAR_MAX_MILLIS ==> r is Some,
{
    chrono::DateTime::<chrono::Utc>::from_timestamp_millis(millis).map(|dt| dt.to_rfc3339())
}

} // verus!
