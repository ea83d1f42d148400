//! Wall-clock time as whole seconds since the Unix epoch, and the age test
//! that the caches share.

use std::time::Duration;
use std::time::SystemTime;
use std::time::UNIX_EPOCH;
use vstd::prelude::*;

verus! {

#[verifier::external_type_specification]
#[verifier::external_body]
pub struct ExSystemTime(std::time::SystemTime);

/// Calls `SystemTime::now`. The reading is the machine's, so nothing is
/// claimed of it.
#[verifier::external_body]
fn system_now() -> SystemTime {
    SystemTime::now()
}

/// Calls `SystemTime::duration_since` with `UNIX_EPOCH`: how long after the
/// epoch `t` lies, or nothing where `t` lies before it. The value is opaque
/// here; nothing is claimed of it.
#[verifier::external_body]
fn since_epoch(t: &SystemTime) -> Option<Duration> {
    t.duration_since(UNIX_EPOCH).ok()
}

/// Calls `Duration::as_secs`: the whole seconds in `d`. The duration is opaque
/// here; nothing is claimed of the count.
#[verifier::external_body]
fn whole_seconds(d: &Duration) -> u64 {
    d.as_secs()
}

/// The timestamp that a count of seconds since the epoch stands for: the count
/// itself where it fits in 32 bits, and nothing where it does not or where the
/// clock could not be read.
pub open spec fn timestamp_of(secs: Option<u64>) -> Option<u32> {
    match secs {
        Some(s) if s <= u32::MAX => Some(s as u32),
        _ => None,
    }
}

/// Whether something fetched at second `hit_at` is younger than `ttl` seconds
/// at second `now`. A fetch that lies in the future of `now` is not fresh.
pub open spec fn fresh(hit_at: u64, now: u64, ttl: u64) -> bool {
    hit_at <= now && now - hit_at < ttl
}

/// The seconds since the epoch by the machine's clock, or nothing where the
/// clock stands before the epoch.
pub fn unix_seconds() -> Option<u64> {
    let now = system_now();
    match since_epoch(&now) {
        Some(d) => Some(whole_seconds(&d)),
        None => None,
    }
}

/// Narrows a reading of the clock to a 32-bit timestamp.
pub fn timestamp_from_secs(secs: Option<u64>) -> (stamp: Option<u32>)
    ensures
        stamp == timestamp_of(secs),
{
    match secs {
        Some(s) => {
            if s <= 0xffff_ffff {
                Some(s as u32)
            } else {
                None
            }
        },
        None => None,
    }
}

/// Decides `fresh`.
pub fn is_fresh(hit_at: u64, now: u64, ttl: u64) -> (yes: bool)
    ensures
        yes == fresh(hit_at, now, ttl),
{
    hit_at <= now && now - hit_at < ttl
}

} // verus!
