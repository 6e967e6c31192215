//! Conversion of durations into the native millisecond representation.
//!
//! The native layer takes a signed 32-bit millisecond count, with `0` as the
//! sentinel for "run indefinitely".  A duration is handed to the library as
//! whole seconds plus a sub-second remainder in nanoseconds, exactly the
//! split the standard clock types expose.  A count that does not fit the
//! positive signed 32-bit range is rejected, never wrapped.

use vstd::prelude::*;

use crate::errors::Error;

verus! {

/// The sentinel millisecond value the native layer reads as "forever".
pub const DURATION_INFINITE: i32 = 0;

/// The millisecond count of a duration of `secs` whole seconds plus
/// `nanos` nanoseconds, truncated to whole milliseconds.
pub open spec fn spec_duration_millis(secs: u64, nanos: u32) -> int {
    secs * 1000 + nanos / 1_000_000
}

/// The duration a native millisecond count stands for, in milliseconds.
pub open spec fn spec_decoded_millis(m: i32) -> int {
    m as int
}

/// Truncate a duration to whole milliseconds for the native layer.
///
/// Fails with [`Error::DurationOverflow`] exactly when the millisecond
/// count exceeds `i32::MAX`; it is never wrapped or truncated silently.
pub fn duration_to_millis(secs: u64, subsec_nanos: u32) -> (r: Result<i32, Error>)
    requires
        subsec_nanos < 1_000_000_000,
    ensures
        spec_duration_millis(secs, subsec_nanos) <= i32::MAX as int ==> (r matches Ok(m)
            && m == spec_duration_millis(secs, subsec_nanos)),
        spec_duration_millis(secs, subsec_nanos) > i32::MAX as int ==> (r matches Err(e)
            && e is DurationOverflow),
{
    if secs > i32::MAX as u64 {
        return Err(Error::DurationOverflow);
    }
    let millis: u64 = secs * 1000 + (subsec_nanos / 1_000_000) as u64;
    if millis > i32::MAX as u64 {
        Err(Error::DurationOverflow)
    } else {
        Ok(millis as i32)
    }
}

/// Encode an optional duration, where absence means "run indefinitely" and
/// maps to the sentinel [`DURATION_INFINITE`].
pub fn encode_duration(d: Option<(u64, u32)>) -> (r: Result<i32, Error>)
    requires
        d matches Some(p) ==> p.1 < 1_000_000_000,
    ensures
        d is None ==> (r matches Ok(m) && m == DURATION_INFINITE),
        d matches Some(p) ==> {
            &&& spec_duration_millis(p.0, p.1) <= i32::MAX as int ==> (r matches Ok(m)
                && m == spec_duration_millis(p.0, p.1))
            &&& spec_duration_millis(p.0, p.1) > i32::MAX as int ==> (r matches Err(e)
                && e is DurationOverflow)
        },
{
    match d {
        None => Ok(DURATION_INFINITE),
        Some((secs, nanos)) => duration_to_millis(secs, nanos),
    }
}

/// Law: a duration whose millisecond count fits the native range encodes to
/// exactly that count, so reading the native value back is consistent with
/// millisecond truncation of the original duration.
pub proof fn lemma_duration_round_trip(secs: u64, nanos: u32)
    requires
        spec_duration_millis(secs, nanos) <= i32::MAX as int,
    ensures
        forall|m: i32|
            m == spec_duration_millis(secs, nanos) ==> spec_decoded_millis(m)
                == spec_duration_millis(secs, nanos),
{
}

} // verus!
