//! Wall-clock views derived from the monotonic source via a one-time offset.

use vstd::prelude::*;

verus! {

use crate::duration::Duration;
use crate::helpers::sat64;
use crate::instant::Instant;
use crate::source::TimeSource;

/// Alias for `Duration`: a span since the UNIX epoch.
pub type UnixTimeStamp = Duration;

/// Why a `Clock` could not be built.
#[derive(Copy, Clone, Debug, PartialEq, Eq, Structural)]
pub enum ClockError {
    /// The host wall clock could not be read when the epoch offset was
    /// computed. There is no degraded fallback: every later wall-time value
    /// would depend on that offset.
    WallClockUnavailable,
}

/// System time: a wall-clock view over the monotonic source.
///
/// The epoch offset -- the gap between the wall clock and the monotonic
/// reading, taken as close together as possible -- is computed exactly once,
/// when the `Clock` is built. Every later wall-time value is derived from a
/// monotonic reading plus this fixed offset, with no second wall-clock read.
/// If the operating system steps the wall clock afterwards, the values
/// reported here silently keep the old alignment for the rest of the
/// process's life; that is a documented limitation, not a defect.
#[derive(Debug)]
pub struct Clock {
    offset: u64,
}

impl View for Clock {
    type V = u64;

    closed spec fn view(&self) -> u64 {
        self.offset
    }
}

impl Clock {
    /// Derives the epoch offset from one paired reading: a monotonic instant
    /// and, when the wall clock could be read, the wall-clock span since the
    /// UNIX epoch. Fails exactly when the wall reading is absent.
    pub fn from_readings(mono: Instant, wall: Option<Duration>) -> (r: Result<Clock, ClockError>)
        ensures
            wall matches Some(w) ==> (r matches Ok(c) && c@ == sat64(w@ - mono@)),
            wall is None <==> r == Err::<Clock, ClockError>(ClockError::WallClockUnavailable),
    {
        match wall {
            Some(w) => Ok(Clock { offset: w.as_u64().saturating_sub(mono.as_u64()) }),
            None => Err(ClockError::WallClockUnavailable),
        }
    }

    /// Reads the monotonic source and the wall clock once, as close together
    /// as possible, and fixes the epoch offset from that pair. This is the
    /// fatal-at-initialization point: it fails exactly when the host wall
    /// clock cannot be read, and is neither retried nor defaulted.
    pub fn new(source: &TimeSource) -> (r: Result<Clock, ClockError>)
        ensures
            r is Err ==> r == Err::<Clock, ClockError>(ClockError::WallClockUnavailable),
    {
        let mono: Instant = Instant::now_without_cache_update(source);
        let wall: Option<Duration> = match source.wall_reading() {
            Some((s, n)) => Some(Duration::new(s, n)),
            None => None,
        };
        Clock::from_readings(mono, wall)
    }

    /// The wall-clock view of a given monotonic instant: the instant shifted
    /// by the epoch offset, saturating at the top of the encoding.
    pub fn since_epoch_of(&self, at: Instant) -> (d: UnixTimeStamp)
        ensures
            d@ == sat64(at@ + self@),
    {
        Duration::from_u64(at.as_u64().saturating_add(self.offset))
    }

    /// Returns the elapsed time since the UNIX epoch: the epoch offset
    /// applied to a fresh monotonic reading. Publishes the reading to the
    /// recent cache. Readings are never the zero sentinel, so the wall view
    /// strictly exceeds the epoch offset except at saturation.
    pub fn now_since_epoch(&self, source: &TimeSource) -> (d: UnixTimeStamp)
        ensures
            d@ > self@ || d@ == u64::MAX,
    {
        self.since_epoch_of(Instant::now(source))
    }

    /// Returns the elapsed time since the UNIX epoch, based on the latest
    /// explicit time update: the epoch offset applied to the cached reading,
    /// with no clock read in the common path. Cached readings are never the
    /// zero sentinel, so the wall view strictly exceeds the epoch offset
    /// except at saturation.
    pub fn recent_since_epoch(&self, source: &TimeSource) -> (d: UnixTimeStamp)
        ensures
            d@ > self@ || d@ == u64::MAX,
    {
        self.since_epoch_of(Instant::recent(source))
    }

    /// Updates the cached reading. Call this frequently, for example from an
    /// event loop or an `Updater` task.
    pub fn update(source: &TimeSource) {
        Instant::update(source);
    }

    /// Sets the cached reading so that `recent_since_epoch` reports
    /// `recent`: intended for testing purposes only, not for production
    /// code. A target at or below the epoch offset cannot be represented in
    /// the cache; it is clamped to one tick above the offset -- the closest
    /// representable value -- rather than stored as the zero sentinel, which
    /// would silently un-pin the cache.
    pub fn set_recent_since_epoch(&self, source: &TimeSource, recent: UnixTimeStamp) {
        let ticks: u64 = recent.as_u64().saturating_sub(self.offset);
        if ticks == 0 {
            source.store_recent(1);
        } else {
            source.store_recent(ticks);
        }
    }
}

/// The wall-clock view preserves the order of monotonic readings: with one
/// fixed epoch offset, a reading at least as late as another never maps to
/// an earlier span since the epoch. In particular, as long as the monotonic
/// source never runs behind the cache, the fresh wall view is never behind
/// the recent wall view.
pub proof fn lemma_since_epoch_monotone(earlier: u64, later: u64, offset: u64)
    requires
        earlier <= later,
    ensures
        sat64(earlier + offset) <= sat64(later + offset),
{
}

} // verus!
