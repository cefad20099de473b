//! Attributes of a device notification: size, transmission mode and timing.

use vstd::prelude::*;
use std::time::Duration;
use crate::bytes::{le_u32, seq_u32, u32_bytes, u32_from_le, u32_to_le, lemma_u32_roundtrip, lemma_u32_bytes_roundtrip};
use crate::duration::{duration_as_secs, duration_new, duration_subsec_nanos, spec_duration_of_nanos, std_duration};
use crate::error::AdsNotificationAttribError;
use crate::trans_mode::{ads_trans_mode_code, ads_trans_mode_of, AdsTransMode};

verus! {

/// Nanoseconds per wire tick.
pub const NANOS_PER_TICK: u128 = 100;

/// Nanoseconds per second.
pub const NANOS_PER_SEC: u128 = 1_000_000_000;

/// The largest nanosecond count a std duration can hold.
pub open spec fn max_duration_nanos() -> int {
    u64::MAX as int * 1_000_000_000 + 999_999_999
}

/// The wire tick count (100 ns units) of a nanosecond count, clamped to `u32::MAX`.
pub open spec fn spec_ticks_of_nanos(nanos: int) -> u32 {
    if nanos / 100 > u32::MAX as int {
        u32::MAX
    } else {
        (nanos / 100) as u32
    }
}

/// Attributes of an ADS device notification.
///
/// The two time spans are kept as nanosecond counts; the wire carries them in
/// 100 ns ticks.
#[derive(Debug, Clone, PartialEq, Eq, Structural, Hash)]
pub struct AdsNotificationAttrib {
    length: u32,
    trans_mode: AdsTransMode,
    max_delay_nanos: u128,
    cycle_time_nanos: u128,
}

/// The 16 wire bytes of an attribute with the given plain fields.
pub open spec fn spec_notification_attrib_bytes(length: u32, mode: AdsTransMode, max_delay_nanos: int, cycle_time_nanos: int) -> Seq<u8> {
    u32_bytes(length) + u32_bytes(ads_trans_mode_code(mode)) + u32_bytes(spec_ticks_of_nanos(max_delay_nanos))
        + u32_bytes(spec_ticks_of_nanos(cycle_time_nanos))
}

/// The plain fields (length, mode, max delay ns, cycle time ns) that 16 wire bytes encode.
pub open spec fn spec_notification_attrib_of(b: Seq<u8>) -> (u32, AdsTransMode, u128, u128) {
    (
        seq_u32(b, 0),
        ads_trans_mode_of(seq_u32(b, 4)),
        (seq_u32(b, 8) as int * 100) as u128,
        (seq_u32(b, 12) as int * 100) as u128,
    )
}

/// The nanosecond count of a duration given as whole seconds and sub-second nanoseconds.
pub fn nanos_of_parts(secs: u64, subsec_nanos: u32) -> (r: u128)
    requires
        subsec_nanos < 1_000_000_000,
    ensures
        r == secs as int * 1_000_000_000 + subsec_nanos as int,
        r <= max_duration_nanos(),
{
    assert(secs as int * 1_000_000_000 <= u64::MAX as int * 1_000_000_000) by (nonlinear_arith)
        requires
            secs <= u64::MAX,
    ;
    secs as u128 * NANOS_PER_SEC + subsec_nanos as u128
}

/// The nanosecond count of a std duration: the count whose duration it is,
/// and the only one in the range of durations.
fn nanos_of_duration(d: &Duration) -> (r: u128)
    ensures
        r <= max_duration_nanos(),
        *d == spec_duration_of_nanos(r as int),
        forall|n: int| 0 <= n <= max_duration_nanos() && *d == #[trigger] spec_duration_of_nanos(n) ==> n == r,
{
    let secs = duration_as_secs(d);
    let nanos = duration_subsec_nanos(d);
    proof {
        let n1 = choose|n: u32| n < 1_000_000_000 && *d == #[trigger] std_duration(secs, n);
        assert(n1 == nanos);
    }
    let r = nanos_of_parts(secs, nanos);
    proof {
        lemma_nanos_split(secs as int, nanos as int);
        assert forall|n: int| 0 <= n <= max_duration_nanos() && *d == #[trigger] spec_duration_of_nanos(n) implies n
            == r by {
            let s = (n / 1_000_000_000) as u64;
            let k = (n % 1_000_000_000) as u32;
            assert(0 <= n / 1_000_000_000 <= u64::MAX) by (nonlinear_arith)
                requires
                    0 <= n <= u64::MAX as int * 1_000_000_000 + 999_999_999,
            ;
            assert(*d == std_duration(s, k));
            assert(s == secs);
            assert(k == nanos);
            assert(n == (n / 1_000_000_000) * 1_000_000_000 + n % 1_000_000_000) by (nonlinear_arith);
        }
    }
    r
}

/// A count of whole seconds and nanoseconds below one billion splits back
/// into them.
proof fn lemma_nanos_split(secs: int, nanos: int)
    requires
        0 <= secs <= u64::MAX,
        0 <= nanos < 1_000_000_000,
    ensures
        (secs * 1_000_000_000 + nanos) / 1_000_000_000 == secs,
        (secs * 1_000_000_000 + nanos) % 1_000_000_000 == nanos,
        secs * 1_000_000_000 + nanos <= u64::MAX as int * 1_000_000_000 + 999_999_999,
{
    assert((secs * 1_000_000_000 + nanos) / 1_000_000_000 == secs) by (nonlinear_arith)
        requires
            0 <= nanos < 1_000_000_000,
    ;
    assert((secs * 1_000_000_000 + nanos) % 1_000_000_000 == nanos) by (nonlinear_arith)
        requires
            0 <= nanos < 1_000_000_000,
    ;
    assert(secs * 1_000_000_000 <= u64::MAX as int * 1_000_000_000) by (nonlinear_arith)
        requires
            secs <= u64::MAX,
    ;
}

/// The std duration of a nanosecond count, saturating at the largest duration.
fn duration_of_nanos(nanos: u128) -> (r: Duration)
    ensures
        r == spec_duration_of_nanos(nanos as int),
{
    let nanos = if nanos > u64::MAX as u128 * NANOS_PER_SEC + 999_999_999 {
        u64::MAX as u128 * NANOS_PER_SEC + 999_999_999
    } else {
        nanos
    };
    let secs = nanos / NANOS_PER_SEC;
    assert(secs <= u64::MAX) by (nonlinear_arith)
        requires
            nanos <= u64::MAX as int * 1_000_000_000 + 999_999_999,
            secs == nanos / 1_000_000_000,
    ;
    duration_new(secs as u64, (nanos % NANOS_PER_SEC) as u32)
}

/// The wire tick count of a nanosecond count, clamped to `u32::MAX`.
pub fn ticks_from_nanos(nanos: u128) -> (r: u32)
    ensures
        r == spec_ticks_of_nanos(nanos as int),
{
    let ticks = nanos / NANOS_PER_TICK;
    if ticks > u32::MAX as u128 {
        u32::MAX
    } else {
        ticks as u32
    }
}

impl AdsNotificationAttrib {
    /// Wire size in bytes.
    pub const LENGTH: usize = 16;

    /// The fields as plain values: (length, mode, max delay ns, cycle time ns).
    pub closed spec fn spec_fields(self) -> (u32, AdsTransMode, u128, u128) {
        (self.length, self.trans_mode, self.max_delay_nanos, self.cycle_time_nanos)
    }

    /// Creates notification attributes.
    pub fn new(length: u32, trans_mode: AdsTransMode, max_delay: Duration, cycle_time: Duration) -> (r: AdsNotificationAttrib)
        ensures
            r.spec_fields().0 == length,
            r.spec_fields().1 == trans_mode,
            r.spec_fields().2 <= max_duration_nanos(),
            r.spec_fields().3 <= max_duration_nanos(),
            max_delay == spec_duration_of_nanos(r.spec_fields().2 as int),
            cycle_time == spec_duration_of_nanos(r.spec_fields().3 as int),
    {
        AdsNotificationAttrib {
            length,
            trans_mode,
            max_delay_nanos: nanos_of_duration(&max_delay),
            cycle_time_nanos: nanos_of_duration(&cycle_time),
        }
    }

    /// The number of bytes sent with every notification.
    pub fn length(&self) -> (r: u32)
        ensures
            r == self.spec_fields().0,
    {
        self.length
    }

    /// How and when the notification is sent.
    pub fn trans_mode(&self) -> (r: AdsTransMode)
        ensures
            r == self.spec_fields().1,
    {
        self.trans_mode
    }

    /// The longest time a notification may be buffered before it is sent.
    pub fn max_delay(&self) -> (r: Duration)
        ensures
            r == spec_duration_of_nanos(self.spec_fields().2 as int),
    {
        duration_of_nanos(self.max_delay_nanos)
    }

    /// How often the variable is checked for changes.
    pub fn cycle_time(&self) -> (r: Duration)
        ensures
            r == spec_duration_of_nanos(self.spec_fields().3 as int),
    {
        duration_of_nanos(self.cycle_time_nanos)
    }

    /// The wire tick count (100 ns units) of a duration, clamped to `u32::MAX`.
    pub fn duration_to_ticks(duration: Duration) -> (r: u32)
        ensures
            exists|n: int|
                0 <= n <= max_duration_nanos() && duration == #[trigger] spec_duration_of_nanos(n) && r
                    == spec_ticks_of_nanos(n),
            forall|n: int|
                0 <= n <= max_duration_nanos() && duration == #[trigger] spec_duration_of_nanos(n) ==> r
                    == spec_ticks_of_nanos(n),
    {
        let n = nanos_of_duration(&duration);
        assert(duration == spec_duration_of_nanos(n as int));
        ticks_from_nanos(n)
    }

    /// The duration of a wire tick count (100 ns units).
    pub fn ticks_to_duration(ticks: u32) -> (r: Duration)
        ensures
            r == spec_duration_of_nanos(ticks as int * 100),
    {
        duration_of_nanos(ticks as u128 * NANOS_PER_TICK)
    }

    /// The 16-byte wire encoding: length, mode, max delay ticks, cycle time ticks.
    pub fn to_bytes(&self) -> (r: [u8; 16])
        ensures
            r@ == spec_notification_attrib_bytes(
                self.spec_fields().0,
                self.spec_fields().1,
                self.spec_fields().2 as int,
                self.spec_fields().3 as int,
            ),
    {
        let l = u32_to_le(self.length);
        let m = self.trans_mode.to_bytes();
        let d = u32_to_le(ticks_from_nanos(self.max_delay_nanos));
        let c = u32_to_le(ticks_from_nanos(self.cycle_time_nanos));
        let r = [l[0], l[1], l[2], l[3], m[0], m[1], m[2], m[3], d[0], d[1], d[2], d[3], c[0], c[1], c[2], c[3]];
        assert(r@ =~= spec_notification_attrib_bytes(
            self.spec_fields().0,
            self.spec_fields().1,
            self.spec_fields().2 as int,
            self.spec_fields().3 as int,
        ));
        r
    }

    /// Decodes attributes from their 16-byte wire encoding.
    pub fn from_bytes(bytes: [u8; 16]) -> (r: AdsNotificationAttrib)
        ensures
            r.spec_fields() == spec_notification_attrib_of(bytes@),
    {
        let length = u32_from_le([bytes[0], bytes[1], bytes[2], bytes[3]]);
        let trans_mode = AdsTransMode::from_bytes([bytes[4], bytes[5], bytes[6], bytes[7]]);
        let d = u32_from_le([bytes[8], bytes[9], bytes[10], bytes[11]]);
        let c = u32_from_le([bytes[12], bytes[13], bytes[14], bytes[15]]);
        AdsNotificationAttrib {
            length,
            trans_mode,
            max_delay_nanos: d as u128 * NANOS_PER_TICK,
            cycle_time_nanos: c as u128 * NANOS_PER_TICK,
        }
    }

    /// Parses attributes from a slice of exactly 16 bytes.
    pub fn try_from_slice(data: &[u8]) -> (r: Result<AdsNotificationAttrib, AdsNotificationAttribError>)
        ensures
            data@.len() != 16 ==> r == Err::<AdsNotificationAttrib, AdsNotificationAttribError>(
                AdsNotificationAttribError::UnexpectedLength { expected: 16, got: data@.len() as usize },
            ),
            data@.len() == 16 ==> (r matches Ok(a) && a.spec_fields() == spec_notification_attrib_of(data@)),
    {
        if data.len() != Self::LENGTH {
            return Err(AdsNotificationAttribError::UnexpectedLength { expected: Self::LENGTH, got: data.len() });
        }
        let mut arr = [0u8; 16];
        let mut i: usize = 0;
        while i < 16
            invariant
                data@.len() == 16,
                0 <= i <= 16,
                forall|j: int| 0 <= j < i ==> arr[j] == data@[j],
            decreases 16 - i,
        {
            arr[i] = data[i];
            i = i + 1;
        }
        assert(arr@ =~= data@);
        Ok(AdsNotificationAttrib::from_bytes(arr))
    }
}

/// Decoding a wire encoding and encoding it again gives the same 16 bytes.
pub proof fn lemma_notification_attrib_bytes_roundtrip(b: Seq<u8>)
    requires
        b.len() == 16,
    ensures
        ({
            let f = spec_notification_attrib_of(b);
            spec_notification_attrib_bytes(f.0, f.1, f.2 as int, f.3 as int) == b
        }),
{
    let f = spec_notification_attrib_of(b);
    lemma_u32_bytes_roundtrip(b[0], b[1], b[2], b[3]);
    lemma_u32_bytes_roundtrip(b[4], b[5], b[6], b[7]);
    lemma_u32_bytes_roundtrip(b[8], b[9], b[10], b[11]);
    lemma_u32_bytes_roundtrip(b[12], b[13], b[14], b[15]);
    assert(ads_trans_mode_code(ads_trans_mode_of(seq_u32(b, 4))) == seq_u32(b, 4));
    assert((seq_u32(b, 8) as int * 100) / 100 == seq_u32(b, 8) as int);
    assert((seq_u32(b, 12) as int * 100) / 100 == seq_u32(b, 12) as int);
    assert(spec_notification_attrib_bytes(f.0, f.1, f.2 as int, f.3 as int) =~= b);
}

/// Encoding attributes and decoding the bytes keeps length and mode, and
/// rounds each time span down to whole ticks, clamped to `u32::MAX` ticks.
pub proof fn lemma_notification_attrib_fields_roundtrip(length: u32, mode: AdsTransMode, d: u128, c: u128)
    requires
        ads_trans_mode_of(ads_trans_mode_code(mode)) == mode,
    ensures
        spec_notification_attrib_of(spec_notification_attrib_bytes(length, mode, d as int, c as int))
            == (length, mode, (spec_ticks_of_nanos(d as int) as int * 100) as u128,
                (spec_ticks_of_nanos(c as int) as int * 100) as u128),
{
    let b = spec_notification_attrib_bytes(length, mode, d as int, c as int);
    lemma_u32_roundtrip(length);
    lemma_u32_roundtrip(ads_trans_mode_code(mode));
    lemma_u32_roundtrip(spec_ticks_of_nanos(d as int));
    lemma_u32_roundtrip(spec_ticks_of_nanos(c as int));
    assert(b.subrange(0, 4) =~= u32_bytes(length));
    assert(seq_u32(b, 0) == length);
    assert(seq_u32(b, 4) == ads_trans_mode_code(mode));
    assert(seq_u32(b, 8) == spec_ticks_of_nanos(d as int));
    assert(seq_u32(b, 12) == spec_ticks_of_nanos(c as int));
}

} // verus!
