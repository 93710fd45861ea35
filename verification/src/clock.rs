use vstd::prelude::*;

verus! {

/// Reads the system clock with `std::time::SystemTime::now`, converts the
/// instant with chrono's `From<SystemTime>` for `DateTime<Utc>`, and hands
/// out `DateTime::timestamp` and `DateTime::timestamp_subsec_nanos`: whole
/// seconds since the Unix epoch and the nanoseconds into that second.
/// Nothing is claimed of the values: two readings may differ in any way.
/// A clock set before 1970 gives a negative count of seconds. The
/// conversion stops only on an instant outside the years that chrono can
/// hold, more than 262,000 years from the epoch, which is farther than
/// operating systems' clocks count.
#[verifier::external_body]
pub(crate) fn now() -> (t: (i64, u32)) {
    let instant = chrono::DateTime::<chrono::Utc>::from(std::time::SystemTime::now());
    (instant.timestamp(), instant.timestamp_subsec_nanos())
}

/// The nanoseconds since the Unix epoch of an instant given as whole
/// seconds and the nanoseconds into that second.
pub open spec fn spec_nanos_since_epoch(seconds: i64, subsec_nanos: u32) -> int {
    seconds * 1_000_000_000 + subsec_nanos
}

/// Joins whole seconds and the nanoseconds into the second to one count of
/// nanoseconds since the Unix epoch. The count always fits.
pub fn nanos_since_epoch(seconds: i64, subsec_nanos: u32) -> (r: i128)
    ensures
        r == spec_nanos_since_epoch(seconds, subsec_nanos),
{
    let whole: i128 = seconds as i128;
    let part: i128 = subsec_nanos as i128;
    whole * 1_000_000_000 + part
}

} // verus!
