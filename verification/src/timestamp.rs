//! Instants on the wire: milliseconds since the Unix epoch, taken from the
//! `time` crate's instants.

use vstd::prelude::*;

verus! {

/// `time::OffsetDateTime`, carried through as it is.
#[verifier::external_type_specification]
#[verifier::external_body]
pub struct ExOffsetDateTime(time::OffsetDateTime);

/// The nanoseconds between the Unix epoch and an instant, as
/// `OffsetDateTime::unix_timestamp_nanos` tells them.
pub uninterp spec fn unix_nanos(instant: time::OffsetDateTime) -> i128;

/// `OffsetDateTime::unix_timestamp_nanos`.
#[verifier::external_body]
fn nanos_of(instant: &time::OffsetDateTime) -> (nanos: i128)
    ensures
        nanos == unix_nanos(*instant),
{
    instant.unix_timestamp_nanos()
}

/// Whole milliseconds of a count of nanoseconds, rounded toward zero.
pub open spec fn truncated_millis(nanos: int) -> int {
    if nanos >= 0 {
        nanos / 1_000_000
    } else {
        -((-nanos) / 1_000_000)
    }
}

/// A number cut to the range of `i64`.
pub open spec fn clamped(value: int) -> int {
    if value < i64::MIN {
        i64::MIN as int
    } else if value > i64::MAX {
        i64::MAX as int
    } else {
        value
    }
}

/// The whole milliseconds of a count of nanoseconds, rounded toward zero
/// and cut to the range of `i64`.
pub fn millis_of_nanos(nanos: i128) -> (millis: i64)
    ensures
        millis == clamped(truncated_millis(nanos as int)),
{
    if nanos >= 0 {
        let whole = (nanos as u128) / 1_000_000;
        if whole > i64::MAX as u128 {
            i64::MAX
        } else {
            whole as i64
        }
    } else if nanos == i128::MIN {
        i64::MIN
    } else {
        let whole = ((-nanos) as u128) / 1_000_000;
        if whole > i64::MAX as u128 {
            i64::MIN
        } else {
            -(whole as i64)
        }
    }
}

/// The instant as milliseconds since the Unix epoch: its nanoseconds in
/// whole milliseconds, rounded toward zero and cut to the range of `i64`.
pub fn unix_millis(instant: &time::OffsetDateTime) -> (millis: i64)
    ensures
        millis == clamped(truncated_millis(unix_nanos(*instant) as int)),
{
    millis_of_nanos(nanos_of(instant))
}

} // verus!
