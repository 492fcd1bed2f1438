//! The 64-bit NTP timestamp.

use crate::endian::{be_bytes, be_value, read_be_u64, write_be_u64};
use std::time::{Duration, SystemTime, UNIX_EPOCH};
use vstd::prelude::*;

verus! {

/// Seconds between 1900-01-01, where NTP time starts, and 1970-01-01.
pub const NTP_EPOCH_OFFSET: u64 = 2208988800;

/// One second in units of 2^-32 s.
pub const ONE_SECOND: u64 = 0x1_0000_0000;

/// Nanoseconds in a second.
pub const NANOS_PER_SECOND: u64 = 1000000000;

/// An NTP time value: the high 32 bits count whole seconds since 1900-01-01,
/// the low 32 bits the fraction of a second.
#[derive(Debug, Copy, Clone, PartialEq, Eq, Structural)]
pub struct Timestamp {
    pub ts: u64,
}

/// The NTP value of the instant `secs` whole seconds and `nanos` nanoseconds
/// after 1970-01-01: the seconds since 1900 modulo 2^32 in the high half, and
/// `nanos * 2^32 / 10^9` in the low half.
pub open spec fn ntp_of_unix(secs: u64, nanos: u32) -> int {
    ((secs + 2208988800) % 0x1_0000_0000) * 0x1_0000_0000 + (nanos * 0x1_0000_0000) / 1000000000
}

/// `x` reduced modulo 2^64 into the signed 64-bit range.
pub open spec fn wrap_signed(x: int) -> int {
    let m = x % 0x1_0000_0000_0000_0000;
    if m >= 0x8000_0000_0000_0000 {
        m - 0x1_0000_0000_0000_0000
    } else {
        m
    }
}

/// `std::time::SystemTime`: the system clock's type for an instant. Nothing
/// inside it is visible here.
#[verifier::external_type_specification]
#[verifier::external_body]
pub struct ExSystemTime(std::time::SystemTime);

/// `std::time::SystemTime::now`: a reading of the system clock. Nothing is
/// claimed of it.
#[verifier::external_body]
fn system_now() -> SystemTime {
    SystemTime::now()
}

/// `std::time::SystemTime::duration_since`, measured from `UNIX_EPOCH`: the
/// time elapsed since 1970-01-01, or `None` where the instant lies before it.
/// Nothing is claimed of which.
#[verifier::external_body]
fn since_unix_epoch(instant: &SystemTime) -> Option<Duration> {
    instant.duration_since(UNIX_EPOCH).ok()
}

/// `Duration::as_secs`: the whole seconds of a duration.
pub assume_specification[ Duration::as_secs ](d: &Duration) -> u64;

/// `Duration::subsec_nanos`: the fractional part of a duration in
/// nanoseconds, which is always less than one second.
pub assume_specification[ Duration::subsec_nanos ](d: &Duration) -> (nanos: u32)
    ensures
        nanos < 1000000000,
;

/// `rand::random::<u64>`: sixty-four bits from the thread's random number
/// generator. Nothing is claimed of them.
#[verifier::external_body]
fn random_u64() -> u64 {
    rand::random()
}

impl Timestamp {
    /// The timestamp with the given raw 64-bit value.
    pub fn new(ts: u64) -> (t: Timestamp)
        ensures
            t.ts == ts,
    {
        Timestamp { ts }
    }

    /// The all-zero timestamp.
    pub fn zero() -> (t: Timestamp)
        ensures
            t.ts == 0,
    {
        Timestamp { ts: 0 }
    }

    /// The timestamp of a wall-clock reading given as whole seconds and
    /// nanoseconds since 1970-01-01.
    pub fn from_unix(secs: u64, nanos: u32) -> (t: Timestamp)
        requires
            nanos < 1000000000,
        ensures
            t.ts as int == ntp_of_unix(secs, nanos),
    {
        let era_secs: u64 = (secs % ONE_SECOND + NTP_EPOCH_OFFSET) % ONE_SECOND;
        let wide: u64 = nanos as u64;
        let frac: u64 = (wide * ONE_SECOND) / NANOS_PER_SECOND;
        Timestamp { ts: era_secs * ONE_SECOND + frac }
    }

    /// The current wall-clock time as an NTP timestamp. A clock that reads
    /// earlier than 1970-01-01 counts as reading 1970-01-01.
    pub fn now() -> (t: Timestamp)
        ensures
            exists|secs: u64, nanos: u32|
                nanos < 1000000000 && t.ts as int == #[trigger] ntp_of_unix(secs, nanos),
    {
        let instant = system_now();
        match since_unix_epoch(&instant) {
            Some(elapsed) => Timestamp::from_unix(elapsed.as_secs(), elapsed.subsec_nanos()),
            None => Timestamp::from_unix(0, 0),
        }
    }

    /// A timestamp of sixty-four random bits, for use as a nonce.
    pub fn random() -> Timestamp {
        Timestamp { ts: random_u64() }
    }

    /// The signed distance from `ts` to `self` in units of 2^-32 s: the
    /// 64-bit difference `self - ts`, wrapped and read as a signed number.
    /// Dividing it by 2^32 gives seconds.
    pub fn diff_to_sec(&self, ts: &Timestamp) -> (delta: i64)
        ensures
            delta as int == wrap_signed(self.ts - ts.ts),
    {
        if self.ts >= ts.ts {
            let d: u64 = self.ts - ts.ts;
            if d > 0x7fff_ffff_ffff_ffff {
                let back: u64 = u64::MAX - d;
                -(back as i64) - 1
            } else {
                d as i64
            }
        } else {
            let d: u64 = ts.ts - self.ts;
            if d > 0x8000_0000_0000_0000 {
                let back: u64 = u64::MAX - d;
                (back as i64) + 1
            } else if d == 0x8000_0000_0000_0000 {
                i64::MIN
            } else {
                -(d as i64)
            }
        }
    }

    /// Decodes a timestamp from an eight-byte big-endian buffer.
    pub fn read(buf: &[u8]) -> (t: Timestamp)
        requires
            buf@.len() == 8,
        ensures
            t.ts as nat == be_value(buf@),
    {
        Timestamp { ts: read_be_u64(buf) }
    }

    /// Encodes the timestamp into an eight-byte big-endian buffer.
    pub fn write(&self, buf: &mut [u8])
        requires
            old(buf)@.len() == 8,
        ensures
            final(buf)@ == be_bytes(self.ts as nat, 8),
    {
        write_be_u64(buf, self.ts);
    }
}

/// Two timestamps are at distance zero exactly when they are equal.
pub proof fn lemma_diff_zero(a: Timestamp, b: Timestamp)
    ensures
        wrap_signed(a.ts - b.ts) == 0 <==> a == b,
{
}

/// The distance from `a` to `b` is the negative of the distance from `b` to
/// `a`, except at half the range, where both are the lowest signed value.
pub proof fn lemma_diff_reverses(a: Timestamp, b: Timestamp)
    ensures
        wrap_signed(a.ts - b.ts) != -0x8000_0000_0000_0000 ==> wrap_signed(b.ts - a.ts)
            == -wrap_signed(a.ts - b.ts),
        wrap_signed(a.ts - b.ts) == -0x8000_0000_0000_0000 ==> wrap_signed(b.ts - a.ts)
            == -0x8000_0000_0000_0000,
{
}

/// Where the later of two timestamps is less than 2^63 units ahead, the
/// distance is the plain difference.
pub proof fn lemma_diff_plain(later: Timestamp, earlier: Timestamp)
    requires
        earlier.ts <= later.ts,
        later.ts - earlier.ts < 0x8000_0000_0000_0000,
    ensures
        wrap_signed(later.ts - earlier.ts) == later.ts - earlier.ts,
        wrap_signed(earlier.ts - later.ts) == earlier.ts - later.ts,
{
}

} // verus!
