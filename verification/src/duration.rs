//! Thin access to `std::time::Duration`, whose value Verus does not see.

use vstd::prelude::*;
use std::time::Duration;

verus! {

/// What `Duration::new(secs, nanos)` returns, for `nanos` below one billion.
pub uninterp spec fn std_duration(secs: u64, nanos: u32) -> Duration;

/// The duration of a nanosecond count, clamped to the largest duration.
pub open spec fn spec_duration_of_nanos(n: int) -> Duration {
    let c = if n > u64::MAX as int * 1_000_000_000 + 999_999_999 {
        u64::MAX as int * 1_000_000_000 + 999_999_999
    } else {
        n
    };
    std_duration((c / 1_000_000_000) as u64, (c % 1_000_000_000) as u32)
}

/// True when `d` is built by `new` from `secs` seconds and some nanosecond
/// part below one billion, and from no other seconds.
pub open spec fn duration_secs_are(d: Duration, secs: u64) -> bool {
    &&& exists|n: u32| n < 1_000_000_000 && d == #[trigger] std_duration(secs, n)
    &&& forall|s: u64, n: u32| n < 1_000_000_000 && d == #[trigger] std_duration(s, n) ==> s == secs
}

/// True when `nanos` is below one billion and no other nanosecond part below
/// one billion builds `d` with `new`.
pub open spec fn duration_subsec_nanos_are(d: Duration, nanos: u32) -> bool {
    &&& nanos < 1_000_000_000
    &&& forall|s: u64, n: u32| n < 1_000_000_000 && d == #[trigger] std_duration(s, n) ==> n == nanos
}

/// `std::time::Duration::new(secs, nanos)`.
///
/// Trusted: std documents that it builds the duration of `secs` seconds and
/// `nanos` nanoseconds; it panics only when the nanoseconds carry the seconds
/// past `u64::MAX`, which `nanos < 1e9` rules out. The result is named.
#[verifier::external_body]
pub(crate) fn duration_new(secs: u64, nanos: u32) -> (r: Duration)
    requires
        nanos < 1_000_000_000,
    ensures
        r == std_duration(secs, nanos),
{
    Duration::new(secs, nanos)
}

/// `Duration::as_secs`.
///
/// Trusted: std documents it as the whole seconds of the duration, whose
/// fractional part `subsec_nanos` gives; so the duration is the one `new`
/// builds from these seconds and some nanosecond part below one billion, and
/// no other seconds build it.
#[verifier::external_body]
pub(crate) fn duration_as_secs(d: &Duration) -> (r: u64)
    ensures
        duration_secs_are(*d, r),
{
    d.as_secs()
}

/// `Duration::subsec_nanos`.
///
/// Trusted: std documents the result to be the fractional part of the
/// duration in nanoseconds, below one billion; so no other nanosecond part
/// below one billion builds the duration with `new`.
#[verifier::external_body]
pub(crate) fn duration_subsec_nanos(d: &Duration) -> (r: u32)
    ensures
        duration_subsec_nanos_are(*d, r),
{
    d.subsec_nanos()
}

} // verus!
