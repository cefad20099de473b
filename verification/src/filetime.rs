//! Timestamps in the Windows FILETIME format.

use vstd::prelude::*;
use crate::bytes::{le_u64, u64_bytes, u64_from_le, u64_to_le, lemma_u64_roundtrip};
use crate::error::WindowsFileTimeError;
use std::time::{Duration, SystemTime};
use crate::duration::{duration_as_secs, duration_new, duration_subsec_nanos, std_duration};

verus! {

#[verifier::external_type_specification]
#[verifier::external_body]
pub struct ExSystemTime(SystemTime);

/// Ticks of 100 ns between 1601-01-01 and the Unix epoch.
pub const FILETIME_TO_UNIX_EPOCH_TICKS: u64 = 116_444_736_000_000_000;

/// Ticks of 100 ns per second.
pub const TICKS_PER_SEC: u64 = 10_000_000;

/// Nanoseconds per tick.
pub const TICKS_PER_NANOS: u64 = 100;

/// The Unix time (whole seconds, nanoseconds) that a tick count denotes,
/// saturating to the Unix epoch for earlier tick counts.
pub open spec fn spec_unix_parts(ticks: u64) -> (u64, u32) {
    if ticks < FILETIME_TO_UNIX_EPOCH_TICKS {
        (0, 0)
    } else {
        let since = ticks - FILETIME_TO_UNIX_EPOCH_TICKS;
        ((since / 10_000_000) as u64, ((since % 10_000_000) * 100) as u32)
    }
}

/// The tick count that a Unix time at or after the epoch denotes.
pub open spec fn spec_ticks_of_unix(secs: u64, nanos: u32) -> int {
    FILETIME_TO_UNIX_EPOCH_TICKS + secs * 10_000_000 + nanos / 100
}

/// What `UNIX_EPOCH + d` gives.
pub uninterp spec fn unix_epoch_plus_result(d: Duration) -> SystemTime;

/// What `t.duration_since(UNIX_EPOCH).ok()` gives.
pub uninterp spec fn duration_since_unix_epoch_result(t: SystemTime) -> Option<Duration>;

/// The tick count of a Unix time at or after the epoch, saturating at `u64::MAX`.
pub open spec fn spec_ticks_of_unix_saturating(secs: u64, nanos: u32) -> u64 {
    if spec_ticks_of_unix(secs, nanos) <= u64::MAX {
        spec_ticks_of_unix(secs, nanos) as u64
    } else {
        u64::MAX
    }
}

/// The tick count that `from_system_time` gives for `t`: zero (the FILETIME
/// epoch) for a time before the Unix epoch, else the tick count of its
/// duration since the Unix epoch, saturating at `u64::MAX`.
pub open spec fn spec_ticks_of_system_time(t: SystemTime) -> u64 {
    match duration_since_unix_epoch_result(t) {
        None => 0,
        Some(d) => {
            let (s, n) = choose|s: u64, n: u32| n < 1_000_000_000 && d == #[trigger] std_duration(s, n);
            spec_ticks_of_unix_saturating(s, n)
        },
    }
}

/// True when `UNIX_EPOCH + d` is a time whose tick count since 1601 fits an
/// `i64`, the narrowest range that std's `SystemTime` has on the platforms it
/// supports (Windows holds a signed 64-bit count of 100 ns intervals).
pub open spec fn duration_fits_system_time(d: Duration) -> bool {
    exists|s: u64, n: u32|
        n < 1_000_000_000 && d == #[trigger] std_duration(s, n) && FILETIME_TO_UNIX_EPOCH_TICKS + s * 10_000_000 + n
            / 100 <= i64::MAX
}

/// A timestamp in the Windows FILETIME format: the number of 100-nanosecond
/// intervals since `1601-01-01 00:00:00 UTC`. 8 bytes little-endian on the wire.
#[derive(Debug, Clone, Copy, PartialEq, Eq, Structural, PartialOrd, Ord, Hash)]
pub struct WindowsFileTime(u64);

impl WindowsFileTime {
    /// Wire size in bytes.
    pub const LENGTH: usize = 8;

    /// The tick count.
    pub closed spec fn spec_ticks(self) -> u64 {
        self.0
    }

    /// Creates a timestamp from a raw tick count.
    pub fn from_raw(ticks: u64) -> (r: WindowsFileTime)
        ensures
            r.spec_ticks() == ticks,
    {
        WindowsFileTime(ticks)
    }

    /// The raw tick count.
    pub fn as_raw(self) -> (r: u64)
        ensures
            r == self.spec_ticks(),
    {
        self.0
    }

    /// Parses a timestamp from a slice of exactly eight bytes.
    pub fn try_from_slice(bytes: &[u8]) -> (r: Result<WindowsFileTime, WindowsFileTimeError>)
        ensures
            bytes@.len() != 8 ==> r == Err::<WindowsFileTime, WindowsFileTimeError>(
                WindowsFileTimeError::UnexpectedLength { expected: 8, got: bytes@.len() as usize },
            ),
            bytes@.len() == 8 ==> (r matches Ok(t) && t.spec_ticks() == le_u64(
                bytes@[0], bytes@[1], bytes@[2], bytes@[3], bytes@[4], bytes@[5], bytes@[6], bytes@[7],
            )),
    {
        if bytes.len() != 8 {
            return Err(WindowsFileTimeError::UnexpectedLength { expected: 8, got: bytes.len() });
        }
        Ok(WindowsFileTime::from_bytes(
            [bytes[0], bytes[1], bytes[2], bytes[3], bytes[4], bytes[5], bytes[6], bytes[7]],
        ))
    }

    /// Creates a timestamp from its 8-byte little-endian encoding.
    pub fn from_bytes(bytes: [u8; 8]) -> (r: WindowsFileTime)
        ensures
            r.spec_ticks() == le_u64(bytes[0], bytes[1], bytes[2], bytes[3], bytes[4], bytes[5], bytes[6], bytes[7]),
    {
        WindowsFileTime(u64_from_le(bytes))
    }

    /// The 8-byte little-endian encoding.
    pub fn to_bytes(self) -> (r: [u8; 8])
        ensures
            r@ == u64_bytes(self.spec_ticks()),
    {
        u64_to_le(self.0)
    }

    /// The Unix time (whole seconds, nanoseconds) of this timestamp, saturating
    /// to the Unix epoch for timestamps before 1970.
    pub fn to_unix_parts(self) -> (r: (u64, u32))
        ensures
            r == spec_unix_parts(self.spec_ticks()),
    {
        if self.0 < FILETIME_TO_UNIX_EPOCH_TICKS {
            return (0, 0);
        }
        let since = self.0 - FILETIME_TO_UNIX_EPOCH_TICKS;
        let secs = since / TICKS_PER_SEC;
        let nanos = (since % TICKS_PER_SEC) * TICKS_PER_NANOS;
        (secs, nanos as u32)
    }

    /// The timestamp of a Unix time given as (whole seconds, nanoseconds)
    /// since the epoch, saturating to the largest tick count when it does not
    /// fit a `u64`; `None` (a time before the Unix epoch) gives the FILETIME
    /// epoch, tick 0.
    pub fn from_unix_parts(parts: Option<(u64, u32)>) -> (r: WindowsFileTime)
        requires
            parts matches Some((_, nanos)) ==> nanos < 1_000_000_000,
        ensures
            r.spec_ticks() == match parts {
                Some((secs, nanos)) => spec_ticks_of_unix_saturating(secs, nanos),
                None => 0,
            },
    {
        match parts {
            Some((secs, nanos)) => WindowsFileTime::from_unix_duration(secs, nanos),
            None => WindowsFileTime(0),
        }
    }

    /// Converts to a [`SystemTime`], saturating to the Unix epoch for timestamps
    /// before 1970. The tick count must fit an `i64`, the range of a
    /// `SystemTime` on Windows (std panics beyond it).
    pub fn to_system_time(self) -> (r: SystemTime)
        requires
            self.spec_ticks() <= i64::MAX,
        ensures
            r == unix_epoch_plus_result(
                std_duration(spec_unix_parts(self.spec_ticks()).0, spec_unix_parts(self.spec_ticks()).1),
            ),
    {
        let (secs, nanos) = self.to_unix_parts();
        let d = duration_new(secs, nanos);
        proof {
            if self.0 >= FILETIME_TO_UNIX_EPOCH_TICKS {
                lemma_unix_parts_roundtrip(self.0);
            }
            assert(FILETIME_TO_UNIX_EPOCH_TICKS + secs * 10_000_000 + nanos / 100 <= i64::MAX);
            assert(d == std_duration(secs, nanos));
        }
        unix_epoch_plus(d)
    }

    /// Converts from a [`SystemTime`], saturating to the FILETIME epoch
    /// (1601-01-01, tick 0) for times before the Unix epoch and to the largest
    /// tick count for times whose tick count does not fit a `u64`.
    pub fn from_system_time(t: SystemTime) -> (r: WindowsFileTime)
        ensures
            r.spec_ticks() == spec_ticks_of_system_time(t),
            duration_since_unix_epoch_result(t) is None ==> r.spec_ticks() == 0,
            duration_since_unix_epoch_result(t) matches Some(d) ==> forall|s: u64, n: u32|
                n < 1_000_000_000 && d == #[trigger] std_duration(s, n) ==> r.spec_ticks()
                    == spec_ticks_of_unix_saturating(s, n),
    {
        match duration_since_unix_epoch(t) {
            Some(d) => {
                let secs = duration_as_secs(&d);
                let nanos = duration_subsec_nanos(&d);
                proof {
                    let n1 = choose|n: u32| n < 1_000_000_000 && d == #[trigger] std_duration(secs, n);
                    assert(n1 == nanos);
                    assert(d == std_duration(secs, nanos));
                    let (s, n) = choose|s: u64, n: u32| n < 1_000_000_000 && d == #[trigger] std_duration(s, n);
                    assert(s == secs && n == nanos);
                }
                WindowsFileTime::from_unix_parts(Some((secs, nanos)))
            },
            None => WindowsFileTime::from_unix_parts(None),
        }
    }

    /// The timestamp of a Unix time at or after the epoch, saturating to the
    /// largest tick count when it does not fit a `u64`.
    pub fn from_unix_duration(secs: u64, nanos: u32) -> (r: WindowsFileTime)
        requires
            nanos < 1_000_000_000,
        ensures
            spec_ticks_of_unix(secs, nanos) <= u64::MAX ==> r.spec_ticks() == spec_ticks_of_unix(secs, nanos),
            spec_ticks_of_unix(secs, nanos) > u64::MAX ==> r.spec_ticks() == u64::MAX,
    {
        match secs.checked_mul(TICKS_PER_SEC) {
            Some(a) => match a.checked_add(nanos as u64 / TICKS_PER_NANOS) {
                Some(b) => match b.checked_add(FILETIME_TO_UNIX_EPOCH_TICKS) {
                    Some(c) => WindowsFileTime(c),
                    None => WindowsFileTime(u64::MAX),
                },
                None => WindowsFileTime(u64::MAX),
            },
            None => WindowsFileTime(u64::MAX),
        }
    }

    /// The current system time, converted as `from_system_time` converts
    /// (tick 0 should the clock read a time before 1970).
    pub fn now() -> (r: WindowsFileTime)
        ensures
            exists|t: SystemTime| r.spec_ticks() == #[trigger] spec_ticks_of_system_time(t),
    {
        let t = system_time_now();
        let r = WindowsFileTime::from_system_time(t);
        assert(r.spec_ticks() == spec_ticks_of_system_time(t));
        r
    }
}

/// Decoding the bytes of a timestamp gives it back.
pub proof fn lemma_windows_file_time_bytes_roundtrip(t: WindowsFileTime)
    ensures
        le_u64(
            u64_bytes(t.spec_ticks())[0], u64_bytes(t.spec_ticks())[1], u64_bytes(t.spec_ticks())[2],
            u64_bytes(t.spec_ticks())[3], u64_bytes(t.spec_ticks())[4], u64_bytes(t.spec_ticks())[5],
            u64_bytes(t.spec_ticks())[6], u64_bytes(t.spec_ticks())[7],
        ) == t.spec_ticks(),
{
    lemma_u64_roundtrip(t.spec_ticks());
}

/// Converting a timestamp at or after the Unix epoch to Unix time and back gives it back.
pub proof fn lemma_unix_parts_roundtrip(ticks: u64)
    requires
        ticks >= FILETIME_TO_UNIX_EPOCH_TICKS,
    ensures
        spec_ticks_of_unix(spec_unix_parts(ticks).0, spec_unix_parts(ticks).1) == ticks,
{
    let since = ticks - FILETIME_TO_UNIX_EPOCH_TICKS;
    assert(since == (since / 10_000_000) * 10_000_000 + since % 10_000_000);
}

/// `UNIX_EPOCH + d` (`<SystemTime as Add<Duration>>::add`).
///
/// Trusted: std panics when the sum cannot be represented by the platform's
/// `SystemTime`; the `requires` keeps the sum within the narrowest of those
/// ranges (a signed 64-bit count of 100 ns intervals since 1601, on Windows).
/// Nothing is stated of the result but its name.
#[verifier::external_body]
fn unix_epoch_plus(d: Duration) -> (r: SystemTime)
    requires
        duration_fits_system_time(d),
    ensures
        r == unix_epoch_plus_result(d),
{
    std::time::UNIX_EPOCH + d
}

/// `SystemTime::duration_since(UNIX_EPOCH)`, with the error mapped to `None`.
///
/// Trusted: a function of `t` alone; the result is named.
#[verifier::external_body]
fn duration_since_unix_epoch(t: SystemTime) -> (r: Option<Duration>)
    ensures
        r == duration_since_unix_epoch_result(t),
{
    t.duration_since(std::time::UNIX_EPOCH).ok()
}

/// `SystemTime::now`.
///
/// Trusted: reads the system clock; nothing is stated of the result.
#[verifier::external_body]
fn system_time_now() -> SystemTime {
    SystemTime::now()
}

impl core::convert::From<u64> for WindowsFileTime {
    fn from(ticks: u64) -> (r: WindowsFileTime)
        ensures
            r.spec_ticks() == ticks,
    {
        WindowsFileTime(ticks)
    }
}

impl vstd::std_specs::convert::FromSpecImpl<u64> for WindowsFileTime {
    open spec fn obeys_from_spec() -> bool {
        true
    }

    closed spec fn from_spec(ticks: u64) -> WindowsFileTime {
        WindowsFileTime(ticks)
    }
}

impl core::convert::From<WindowsFileTime> for u64 {
    fn from(t: WindowsFileTime) -> (r: u64)
        ensures
            r == t.spec_ticks(),
    {
        t.0
    }
}

impl vstd::std_specs::convert::FromSpecImpl<WindowsFileTime> for u64 {
    open spec fn obeys_from_spec() -> bool {
        true
    }

    closed spec fn from_spec(t: WindowsFileTime) -> u64 {
        t.0
    }
}

} // verus!
