use vstd::prelude::*;

verus! {

/// A bound below every instant the time crate represents, in nanoseconds
/// since the Unix epoch: its dates reach back to the year -999,999 at most
/// (-9999 without its `large-dates` feature), less than 10^23 nanoseconds.
pub open spec fn earliest_instant() -> int {
    -100_000_000_000_000_000_000_000
}

/// A bound above every instant the time crate represents, in nanoseconds
/// since the Unix epoch: its dates reach up to the year 999,999 at most.
pub open spec fn latest_instant() -> int {
    100_000_000_000_000_000_000_000
}

/// The current time in UTC as nanoseconds since the Unix epoch
/// (`OffsetDateTime::now_utc().unix_timestamp_nanos()`). Claimed only that it
/// lies in the range of dates that the time crate represents; the value
/// depends on the clock.
#[verifier::external_body]
pub(crate) fn now_nanos() -> (r: i128)
    ensures
        earliest_instant() <= r <= latest_instant(),
{
    time::OffsetDateTime::now_utc().unix_timestamp_nanos()
}

} // verus!
