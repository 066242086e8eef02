//! The platform time capability and the process-wide recent cache.
//!
//! Exactly one concrete reading strategy is active in this build: monotonic
//! readings are taken as the time elapsed since an anchor captured when the
//! [`TimeSource`] is created, and wall-clock readings come from the host's
//! system clock. Both reach the host through the trusted declarations below;
//! everything that computes on the readings is verified.

use vstd::prelude::*;

verus! {

use crate::helpers::_timespec_to_u64;
use core::sync::atomic::AtomicU64;
use core::sync::atomic::Ordering;

#[verifier::external_type_specification]
#[verifier::external_body]
pub struct ExStdInstant(std::time::Instant);

#[verifier::external_type_specification]
#[verifier::external_body]
pub struct ExSystemTime(std::time::SystemTime);

/// Relies on std::time::Instant::now: one reading of the host's monotonic
/// clock, used only as the fixed anchor that later readings are measured
/// against.
#[verifier::external_body]
fn anchor_now() -> std::time::Instant {
    std::time::Instant::now()
}

/// Relies on std::time::Instant::elapsed: the time from `anchor` to now,
/// split into whole seconds and sub-second nanoseconds; std documents the
/// sub-second part as below one second.
#[verifier::external_body]
fn elapsed_since(anchor: &std::time::Instant) -> (r: (u64, u32))
    ensures
        r.1 < 1_000_000_000,
{
    let d = anchor.elapsed();
    (d.as_secs(), d.subsec_nanos())
}

/// Relies on std::time::SystemTime::now: one reading of the host's wall
/// clock.
#[verifier::external_body]
fn wall_now() -> std::time::SystemTime {
    std::time::SystemTime::now()
}

/// Relies on std::time::SystemTime::duration_since: the span from the UNIX
/// epoch to `at`, split into whole seconds and sub-second nanoseconds, or
/// nothing when the wall clock reads as earlier than the epoch; std documents
/// the sub-second part as below one second.
#[verifier::external_body]
fn since_unix_epoch(at: &std::time::SystemTime) -> (r: Option<(u64, u32)>)
    ensures
        r matches Some(p) ==> p.1 < 1_000_000_000,
{
    match at.duration_since(std::time::UNIX_EPOCH) {
        Ok(d) => Some((d.as_secs(), d.subsec_nanos())),
        Err(_) => None,
    }
}

/// The one concrete time-reading strategy of this build, together with the
/// process-wide cache of the latest published monotonic reading.
///
/// The cache is a single atomic slot: any thread may publish to it, any
/// thread may read it, and concurrent publishers produce a last-write-wins
/// outcome, which is harmless because the value is approximate by design.
/// It starts at zero, the reserved sentinel meaning "never initialized";
/// published readings are never zero.
pub struct TimeSource {
    anchor: std::time::Instant,
    recent: AtomicU64,
}

impl TimeSource {
    /// A fresh source: captures the monotonic anchor and leaves the cache at
    /// the sentinel.
    pub fn new() -> TimeSource {
        TimeSource { anchor: anchor_now(), recent: AtomicU64::new(0) }
    }

    /// One raw monotonic reading, encoded in ticks; never the sentinel value
    /// zero, so a published reading can always be told from an empty cache.
    pub(crate) fn read_ticks(&self) -> (t: u64)
        ensures
            t != 0,
    {
        let (s, n): (u64, u32) = elapsed_since(&self.anchor);
        let raw: u64 = _timespec_to_u64(s, n);
        if raw == 0 {
            1
        } else {
            raw
        }
    }

    /// Publishes a reading to the recent cache. The store is atomic with
    /// relaxed ordering: the cache carries no causal dependency on any other
    /// program state.
    pub(crate) fn store_recent(&self, t: u64) {
        self.recent.store(t, Ordering::Relaxed);
    }

    /// Reads the recent cache; zero means nothing was ever published.
    pub(crate) fn load_recent(&self) -> u64 {
        self.recent.load(Ordering::Relaxed)
    }

    /// One wall-clock reading as a span since the UNIX epoch, or nothing when
    /// the wall clock cannot be read.
    pub(crate) fn wall_reading(&self) -> (r: Option<(u64, u32)>)
        ensures
            r matches Some(p) ==> p.1 < 1_000_000_000,
    {
        let at: std::time::SystemTime = wall_now();
        since_unix_epoch(&at)
    }
}

} // verus!
