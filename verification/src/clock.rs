//! The device clock: 32-bit millisecond timestamps since boot, which wrap
//! round after about seven weeks.

use embassy_time::Instant;
use vstd::prelude::*;

verus! {

/// The 32-bit timestamp of a millisecond count: the count modulo 2^32.
pub open spec fn spec_timestamp(millis: u64) -> u32 {
    (millis % 0x1_0000_0000) as u32
}

/// The milliseconds from the timestamp `since` to the timestamp `now`, on a
/// clock that wraps round at 2^32.
pub open spec fn spec_elapsed(now: u32, since: u32) -> u32 {
    if now >= since {
        (now - since) as u32
    } else {
        (now - since + 0x1_0000_0000) as u32
    }
}

/// Calls `embassy_time::Instant::now` and `Instant::as_millis`: the
/// milliseconds since boot, as the time driver counts them. Nothing is
/// claimed of the value.
#[verifier::external_body]
fn uptime_millis() -> u64 {
    Instant::now().as_millis()
}

/// Reads `embassy_time::Instant::MIN` through `Instant::as_millis`: the
/// earliest instant holds zero ticks, and zero ticks are zero milliseconds.
#[verifier::external_body]
fn earliest_millis() -> (millis: u64)
    ensures
        millis == 0,
{
    Instant::MIN.as_millis()
}

/// Cuts a millisecond count down to a 32-bit timestamp.
pub fn timestamp(millis: u64) -> (t: u32)
    ensures
        t == spec_timestamp(millis),
{
    let t = (millis & 0xffff_ffff) as u32;
    assert(millis & 0xffff_ffff == millis % 0x1_0000_0000) by (bit_vector);
    t
}

/// The timestamp of this moment.
pub(crate) fn now() -> u32 {
    timestamp(uptime_millis())
}

/// The timestamp of the earliest instant that the clock can show.
pub(crate) fn earliest() -> (t: u32)
    ensures
        t == 0,
{
    timestamp(earliest_millis())
}

/// Tells how many milliseconds lie between the timestamp `since` and the
/// timestamp `now`. The clock wraps round, and so does the difference.
pub fn elapsed(now: u32, since: u32) -> (ms: u32)
    ensures
        ms == spec_elapsed(now, since),
        now >= since ==> ms == now - since,
{
    now.wrapping_sub(since)
}

} // verus!
