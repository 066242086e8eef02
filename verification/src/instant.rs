//! A measurement of the monotonic clock, and the cache-backed ways to get one.

use vstd::prelude::*;

verus! {

use crate::duration::Duration;
use crate::helpers::TICKS_PER_SEC;
use crate::helpers::whole_secs;
use crate::source::TimeSource;
use vstd::arithmetic::div_mod::lemma_div_is_ordered;
use vstd::arithmetic::div_mod::lemma_div_multiples_vanish;

/// A measurement of a *monotonically* increasing clock. Opaque and useful
/// only with `Duration`.
///
/// Resulting durations are actual spans of time; they are not affected by
/// wall-clock adjustments. An `Instant` is comparable only to other
/// `Instant`s obtained from the same `TimeSource` within one process run;
/// the instant represented by zero ticks is the reserved cache sentinel and
/// is never returned.
#[derive(Copy, Clone, Debug, Hash, PartialEq, Eq, PartialOrd, Ord, Structural)]
pub struct Instant {
    ticks: u64,
}

impl View for Instant {
    type V = u64;

    closed spec fn view(&self) -> u64 {
        self.ticks
    }
}

/// The span from `earlier` to `later`, saturating at zero: coarse clock
/// sources may appear to regress slightly, and that must never surface as a
/// wrapped, huge duration.
pub open spec fn diff_ticks(later: u64, earlier: u64) -> u64 {
    if later >= earlier {
        (later - earlier) as u64
    } else {
        0u64
    }
}

impl Instant {
    /// Returns an instant corresponding to "now": performs the heavy
    /// monotonic read and publishes the reading to the recent cache. The
    /// only operation guaranteed to reflect the current time at call time.
    pub fn now(source: &TimeSource) -> (i: Instant)
        ensures
            i@ != 0,
    {
        let t: u64 = source.read_ticks();
        source.store_recent(t);
        Instant { ticks: t }
    }

    /// Returns an instant corresponding to "now" without updating the cached
    /// value: afterwards, `recent` still returns the old instant.
    pub fn now_without_cache_update(source: &TimeSource) -> (i: Instant)
        ensures
            i@ != 0,
    {
        let t: u64 = source.read_ticks();
        Instant { ticks: t }
    }

    /// Returns the instant of the latest update: a pure cache read, with no
    /// clock read in the common path. If nothing was ever published, falls
    /// back to `now` to seed the cache; that first-call race is benign and
    /// idempotent.
    pub fn recent(source: &TimeSource) -> (i: Instant)
        ensures
            i@ != 0,
    {
        let t: u64 = source.load_recent();
        if t == 0 {
            Instant::now(source)
        } else {
            Instant { ticks: t }
        }
    }

    /// Performs the heavy monotonic read and publishes it, building no
    /// return value: for drivers, such as an event loop or an `Updater`
    /// worker, whose only job is to keep the cache warm.
    pub fn update(source: &TimeSource) {
        let t: u64 = source.read_ticks();
        source.store_recent(t);
    }

    /// Returns the amount of time elapsed from `earlier` to this instant,
    /// saturating at zero when `earlier` is the later of the two.
    pub fn duration_since(&self, earlier: Instant) -> (d: Duration)
        ensures
            d@ == diff_ticks(self@, earlier@),
    {
        Duration::from_u64(self.ticks.saturating_sub(earlier.ticks))
    }

    /// Returns the amount of time between the latest update and the moment
    /// this instant was created: `recent(source) - *self`, saturating at
    /// zero. Whatever the cache held, the span is either the zero of
    /// saturation or fits in the headroom above this instant.
    pub fn elapsed_since_recent(&self, source: &TimeSource) -> (d: Duration)
        ensures
            d@ == 0 || self@ + d@ <= u64::MAX,
    {
        Instant::recent(source).duration_since(*self)
    }

    /// Returns the amount of time elapsed since this instant was created:
    /// `now(source) - *self`, saturating at zero. Also publishes the fresh
    /// reading to the cache. Whatever the clock read, the span is either the
    /// zero of saturation or fits in the headroom above this instant.
    pub fn elapsed(&self, source: &TimeSource) -> (d: Duration)
        ensures
            d@ == 0 || self@ + d@ <= u64::MAX,
    {
        Instant::now(source).duration_since(*self)
    }

    /// A representation of this instant as a number of ticks. The instant
    /// represented by zero ticks is unspecified and reserved; this is mainly
    /// for storing an `Instant` in an atomic 64-bit slot.
    pub fn as_ticks(&self) -> (r: u64)
        ensures
            r == self@,
    {
        self.as_u64()
    }

    /// The raw fixed-point value.
    pub fn as_u64(&self) -> (r: u64)
        ensures
            r == self@,
    {
        self.ticks
    }

    /// The instant shifted forward by `rhs`. Instants are process-local and
    /// bounded in practice; a shift past the top of the encoding is excluded
    /// by contract.
    pub fn add_duration(self, rhs: Duration) -> (i: Instant)
        requires
            self@ + rhs@ <= u64::MAX,
        ensures
            i@ == self@ + rhs@,
    {
        Instant { ticks: self.ticks + rhs.as_u64() }
    }

    /// The instant shifted backward by `rhs`; a shift past the origin of the
    /// encoding is excluded by contract.
    pub fn sub_duration(self, rhs: Duration) -> (i: Instant)
        requires
            rhs@ <= self@,
        ensures
            i@ == self@ - rhs@,
    {
        Instant { ticks: self.ticks - rhs.as_u64() }
    }
}

impl core::ops::Sub for Instant {
    type Output = Duration;

    /// `-` between two instants: the span from `other` to `self`, saturating
    /// at zero.
    fn sub(self, other: Instant) -> (d: Duration)
        ensures
            d@ == diff_ticks(self@, other@),
    {
        let d = self.duration_since(other);
        proof {
            crate::duration::lemma_duration_view(d);
        }
        d
    }
}

impl vstd::std_specs::ops::SubSpecImpl for Instant {
    open spec fn obeys_sub_spec() -> bool {
        true
    }

    open spec fn sub_req(self, other: Instant) -> bool {
        true
    }

    closed spec fn sub_spec(self, other: Instant) -> Duration {
        Duration { ticks: diff_ticks(self@, other@) }
    }
}

impl core::ops::Add<Duration> for Instant {
    type Output = Instant;

    /// `+` shifts the instant forward by a duration; a shift past the top of
    /// the encoding is excluded by contract.
    fn add(self, rhs: Duration) -> (i: Instant)
        ensures
            i@ == self@ + rhs@,
    {
        self.add_duration(rhs)
    }
}

impl vstd::std_specs::ops::AddSpecImpl<Duration> for Instant {
    open spec fn obeys_add_spec() -> bool {
        true
    }

    open spec fn add_req(self, rhs: Duration) -> bool {
        self@ + rhs@ <= u64::MAX
    }

    closed spec fn add_spec(self, rhs: Duration) -> Instant {
        Instant { ticks: (self@ + rhs@) as u64 }
    }
}

impl core::ops::Sub<Duration> for Instant {
    type Output = Instant;

    /// `-` shifts the instant backward by a duration; a shift past the
    /// origin of the encoding is excluded by contract.
    fn sub(self, rhs: Duration) -> (i: Instant)
        ensures
            i@ == self@ - rhs@,
    {
        self.sub_duration(rhs)
    }
}

impl vstd::std_specs::ops::SubSpecImpl<Duration> for Instant {
    open spec fn obeys_sub_spec() -> bool {
        true
    }

    open spec fn sub_req(self, rhs: Duration) -> bool {
        rhs@ <= self@
    }

    closed spec fn sub_spec(self, rhs: Duration) -> Instant {
        Instant { ticks: (self@ - rhs@) as u64 }
    }
}

impl core::ops::AddAssign<Duration> for Instant {
    /// `+=` shifts the instant forward in place; a shift past the top of
    /// the encoding is excluded by contract.
    fn add_assign(&mut self, rhs: Duration)
        requires
            old(self)@ + rhs@ <= u64::MAX,
        ensures
            final(self)@ == old(self)@ + rhs@,
    {
        *self = *self + rhs;
    }
}

impl core::ops::SubAssign<Duration> for Instant {
    /// `-=` shifts the instant backward in place; a shift past the origin
    /// of the encoding is excluded by contract.
    fn sub_assign(&mut self, rhs: Duration)
        requires
            rhs@ <= old(self)@,
        ensures
            final(self)@ == old(self)@ - rhs@,
    {
        *self = *self - rhs;
    }
}

/// Non-negative subtraction: for any two instants, the span from `earlier`
/// to `later` is a well-formed duration that never exceeds `later`, equals
/// the true difference when `later` is the later of the two, and is zero --
/// never an underflowed, huge value -- when `earlier` is.
pub proof fn lemma_duration_since_saturates(later: u64, earlier: u64)
    ensures
        later >= earlier ==> diff_ticks(later, earlier) == later - earlier,
        earlier >= later ==> diff_ticks(later, earlier) == 0,
        diff_ticks(later, earlier) <= later,
{
}

/// Elapsed semantics, one call below `elapsed`: when the fresh reading
/// stands at least two and under one hundred seconds after the start
/// instant, the measured span reads back as at least two and under one
/// hundred whole seconds. That the clock really advances by the slept time
/// is the host's promise, outside these contracts.
pub proof fn lemma_elapsed_secs_range(start: u64, fresh: u64)
    requires
        start + 2 * TICKS_PER_SEC <= fresh,
        fresh < start + 100 * TICKS_PER_SEC,
    ensures
        2 <= whole_secs(diff_ticks(fresh, start)) < 100,
{
    let diff = diff_ticks(fresh, start) as int;
    let k = TICKS_PER_SEC as int;
    lemma_div_is_ordered(2 * k, diff, k);
    lemma_div_multiples_vanish(2, k);
    lemma_div_is_ordered(diff, 100 * k - 1, k);
}

} // verus!
