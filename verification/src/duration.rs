//! A span of time held in the 64-bit fixed-point tick encoding.

use vstd::prelude::*;

verus! {

use crate::helpers::TICKS_PER_SEC;
use crate::helpers::_millis_to_u64;
use crate::helpers::_sec_to_u64;
use crate::helpers::_timespec_to_u64;
use crate::helpers::millis_ticks;
use crate::helpers::sat64;
use crate::helpers::secs_ticks;
use crate::helpers::subsec_nanos_of;
use crate::helpers::timespec_ticks;
use crate::helpers::whole_micros;
use crate::helpers::whole_millis;
use crate::helpers::whole_nanos;
use crate::helpers::whole_secs;
use vstd::arithmetic::div_mod::lemma_div_denominator;
use vstd::arithmetic::div_mod::lemma_div_is_ordered;
use vstd::arithmetic::div_mod::lemma_div_multiples_vanish;
use vstd::arithmetic::div_mod::lemma_fundamental_div_mod;
use vstd::arithmetic::div_mod::lemma_fundamental_div_mod_converse;
use vstd::arithmetic::div_mod::lemma_hoist_over_denominator;
use vstd::arithmetic::power2::lemma2_to64;
use vstd::bits::lemma_u128_shr_is_div;
use vstd::bits::lemma_u64_shr_is_div;

/// A duration type to represent an approximate span of time.
///
/// The value is a tick count: whole seconds in the high 32 bits, the fraction
/// of a second in units of 2^-32 s in the low 32 bits. Every operation is
/// total: sums and products saturate at the largest representable span,
/// differences saturate at zero, and nothing here panics.
#[derive(Copy, Clone, Debug, Hash, PartialEq, Eq, PartialOrd, Ord, Structural)]
pub struct Duration {
    pub(crate) ticks: u64,
}

impl View for Duration {
    type V = u64;

    closed spec fn view(&self) -> u64 {
        self.ticks
    }
}

/// The tick count encoding `sec` whole seconds plus `nanos` nanoseconds,
/// where a nanosecond part of a second or more carries into the seconds
/// (saturating if the carry overflows).
pub open spec fn new_ticks(sec: u64, nanos: u32) -> u64 {
    timespec_ticks(sat64(sec + nanos / 1_000_000_000), (nanos % 1_000_000_000) as u32)
}

impl Duration {
    /// Creates a new `Duration` from the specified number of seconds and
    /// additional nanosecond precision. A nanosecond part of one second or
    /// more is carried into the seconds.
    pub fn new(sec: u64, nanos: u32) -> (d: Duration)
        ensures
            d@ == new_ticks(sec, nanos),
    {
        let carry: u64 = (nanos / 1_000_000_000) as u64;
        let rem: u32 = nanos % 1_000_000_000;
        let secs: u64 = sec.saturating_add(carry);
        Duration { ticks: _timespec_to_u64(secs, rem) }
    }

    /// Creates a new `Duration` from the specified number of days.
    pub fn from_days(days: u64) -> (d: Duration)
        ensures
            d@ == sat64(days * 86400 * TICKS_PER_SEC),
    {
        let secs: u64 = match days.checked_mul(86400) {
            Some(v) => v,
            None => u64::MAX,
        };
        Duration { ticks: _sec_to_u64(secs) }
    }

    /// Creates a new `Duration` from the specified number of hours.
    pub fn from_hours(hours: u64) -> (d: Duration)
        ensures
            d@ == sat64(hours * 3600 * TICKS_PER_SEC),
    {
        let secs: u64 = match hours.checked_mul(3600) {
            Some(v) => v,
            None => u64::MAX,
        };
        Duration { ticks: _sec_to_u64(secs) }
    }

    /// Creates a new `Duration` from the specified number of minutes.
    pub fn from_mins(mins: u64) -> (d: Duration)
        ensures
            d@ == sat64(mins * 60 * TICKS_PER_SEC),
    {
        let secs: u64 = match mins.checked_mul(60) {
            Some(v) => v,
            None => u64::MAX,
        };
        Duration { ticks: _sec_to_u64(secs) }
    }

    /// Creates a new `Duration` from the specified number of seconds.
    pub fn from_secs(secs: u64) -> (d: Duration)
        ensures
            d@ == secs_ticks(secs),
    {
        Duration { ticks: _sec_to_u64(secs) }
    }

    /// Creates a new `Duration` from the specified number of milliseconds.
    pub fn from_millis(millis: u64) -> (d: Duration)
        ensures
            d@ == millis_ticks(millis),
    {
        Duration { ticks: _millis_to_u64(millis) }
    }

    /// Returns the number of whole days represented by this duration.
    pub fn as_days(&self) -> (r: u64)
        ensures
            r == whole_secs(self@) / 86400,
    {
        self.as_secs() / 86400
    }

    /// Returns the number of whole hours represented by this duration.
    pub fn as_hours(&self) -> (r: u64)
        ensures
            r == whole_secs(self@) / 3600,
    {
        self.as_secs() / 3600
    }

    /// Returns the number of whole minutes represented by this duration.
    pub fn as_mins(&self) -> (r: u64)
        ensures
            r == whole_secs(self@) / 60,
    {
        self.as_secs() / 60
    }

    /// Returns the number of whole seconds represented by this duration.
    pub fn as_secs(&self) -> (r: u64)
        ensures
            r == whole_secs(self@),
    {
        proof {
            lemma_u64_shr_is_div(self.ticks, 32);
            lemma2_to64();
        }
        self.ticks >> 32u64
    }

    /// Returns the number of whole milliseconds represented by this duration.
    /// The product is widened to 128 bits, so even the largest tick count
    /// converts without overflow.
    pub fn as_millis(&self) -> (r: u64)
        ensures
            r == whole_millis(self@),
    {
        let wide: u128 = (self.ticks as u128) * 125;
        let shifted: u128 = wide >> 29u128;
        proof {
            lemma_u128_shr_is_div(wide, 29);
            lemma2_to64();
            lemma_div_multiples_vanish((self@ as int) * 125, 8);
            lemma_div_denominator((self@ as int) * 1000, 8, 0x2000_0000);
            lemma_div_is_ordered(wide as int, 0xFFFF_FFFF_FFFF_FFFFint * 125, 0x2000_0000);
        }
        shifted as u64
    }

    /// Returns the number of whole microseconds represented by this duration.
    pub fn as_micros(&self) -> (r: u64)
        ensures
            r == whole_micros(self@),
    {
        let wide: u128 = (self.ticks as u128) * 125_000;
        let shifted: u128 = wide >> 29u128;
        proof {
            lemma_u128_shr_is_div(wide, 29);
            lemma2_to64();
            lemma_div_multiples_vanish((self@ as int) * 125_000, 8);
            lemma_div_denominator((self@ as int) * 1_000_000, 8, 0x2000_0000);
            lemma_div_is_ordered(wide as int, 0xFFFF_FFFF_FFFF_FFFFint * 125_000, 0x2000_0000);
        }
        shifted as u64
    }

    /// Returns the number of whole nanoseconds represented by this duration.
    pub fn as_nanos(&self) -> (r: u64)
        ensures
            r == whole_nanos(self@),
    {
        let wide: u128 = (self.ticks as u128) * 125_000_000;
        let shifted: u128 = wide >> 29u128;
        proof {
            lemma_u128_shr_is_div(wide, 29);
            lemma2_to64();
            lemma_div_multiples_vanish((self@ as int) * 125_000_000, 8);
            lemma_div_denominator((self@ as int) * 1_000_000_000, 8, 0x2000_0000);
            lemma_div_is_ordered(wide as int, 0xFFFF_FFFF_FFFF_FFFFint * 125_000_000, 0x2000_0000);
        }
        shifted as u64
    }

    /// Returns the nanosecond precision represented by this duration: the
    /// sub-second part alone, always below one second.
    pub fn subsec_nanos(&self) -> (r: u32)
        ensures
            r == subsec_nanos_of(self@),
            r < 1_000_000_000,
    {
        let low: u64 = self.ticks % TICKS_PER_SEC;
        let prod: u64 = low * 125_000_000;
        let shifted: u64 = prod >> 29u64;
        proof {
            lemma_u64_shr_is_div(prod, 29);
            lemma2_to64();
            lemma_div_multiples_vanish((low as int) * 125_000_000, 8);
            lemma_div_denominator((low as int) * 1_000_000_000, 8, 0x2000_0000);
            lemma_div_is_ordered(prod as int, 0xFFFF_FFFFint * 125_000_000, 0x2000_0000);
        }
        shifted as u32
    }

    /// Return this duration as a number of "ticks": the raw fixed-point value.
    pub fn as_ticks(&self) -> (r: u64)
        ensures
            r == self@,
    {
        self.as_u64()
    }

    /// Creates a new `Duration` from the specified number of "ticks".
    pub fn from_ticks(ticks: u64) -> (d: Duration)
        ensures
            d@ == ticks,
    {
        Self::from_u64(ticks)
    }

    /// The raw fixed-point value.
    pub fn as_u64(&self) -> (r: u64)
        ensures
            r == self@,
    {
        self.ticks
    }

    /// A `Duration` built directly from a raw fixed-point value.
    pub fn from_u64(ts: u64) -> (d: Duration)
        ensures
            d@ == ts,
    {
        Duration { ticks: ts }
    }

    /// Returns the absolute difference between two durations.
    pub fn abs_diff(&self, other: Duration) -> (r: Duration)
        ensures
            r@ == (if self@ >= other@ {
                (self@ - other@) as u64
            } else {
                (other@ - self@) as u64
            }),
    {
        if self.ticks >= other.ticks {
            Duration { ticks: self.ticks - other.ticks }
        } else {
            Duration { ticks: other.ticks - self.ticks }
        }
    }

    /// Adds two durations, saturating at the largest representable span.
    pub fn saturating_add(self, rhs: Duration) -> (r: Duration)
        ensures
            r@ == sat64(self@ + rhs@),
    {
        Duration { ticks: self.ticks.saturating_add(rhs.ticks) }
    }

    /// Subtracts a duration, saturating at zero.
    pub fn saturating_sub(self, rhs: Duration) -> (r: Duration)
        ensures
            r@ == sat64(self@ - rhs@),
    {
        Duration { ticks: self.ticks.saturating_sub(rhs.ticks) }
    }

    /// Multiplies a duration by an integer scalar, saturating at the largest
    /// representable span.
    pub fn saturating_mul(self, rhs: u32) -> (r: Duration)
        ensures
            r@ == sat64(self@ * rhs),
    {
        let ticks: u64 = match self.ticks.checked_mul(rhs as u64) {
            Some(v) => v,
            None => u64::MAX,
        };
        Duration { ticks }
    }

    /// Divides a duration by an integer scalar. Division by zero yields the
    /// largest representable span instead of trapping.
    pub fn saturating_div(self, rhs: u32) -> (r: Duration)
        ensures
            r@ == (if rhs == 0 {
                u64::MAX
            } else {
                (self@ / (rhs as u64)) as u64
            }),
    {
        let ticks: u64 = match self.ticks.checked_div(rhs as u64) {
            Some(v) => v,
            None => u64::MAX,
        };
        Duration { ticks }
    }
}

impl From<u64> for Duration {
    /// A `Duration` built directly from a raw fixed-point value.
    fn from(ts: u64) -> (d: Duration)
        ensures
            d@ == ts,
    {
        Duration::from_u64(ts)
    }
}

impl vstd::std_specs::convert::FromSpecImpl<u64> for Duration {
    open spec fn obeys_from_spec() -> bool {
        true
    }

    closed spec fn from_spec(ts: u64) -> Duration {
        Duration { ticks: ts }
    }
}

impl core::ops::Add for Duration {
    type Output = Duration;

    /// `+` adds two durations, saturating at the largest representable span.
    fn add(self, rhs: Duration) -> (r: Duration)
        ensures
            r@ == sat64(self@ + rhs@),
    {
        self.saturating_add(rhs)
    }
}

impl vstd::std_specs::ops::AddSpecImpl for Duration {
    open spec fn obeys_add_spec() -> bool {
        true
    }

    open spec fn add_req(self, rhs: Duration) -> bool {
        true
    }

    closed spec fn add_spec(self, rhs: Duration) -> Duration {
        Duration { ticks: sat64(self@ + rhs@) }
    }
}

impl core::ops::AddAssign for Duration {
    /// `+=` adds a duration in place, saturating at the largest
    /// representable span.
    fn add_assign(&mut self, rhs: Duration)
        ensures
            final(self)@ == sat64(old(self)@ + rhs@),
    {
        *self = *self + rhs;
    }
}

impl core::ops::Sub for Duration {
    type Output = Duration;

    /// `-` subtracts one duration from another, saturating at zero.
    fn sub(self, rhs: Duration) -> (r: Duration)
        ensures
            r@ == sat64(self@ - rhs@),
    {
        self.saturating_sub(rhs)
    }
}

impl vstd::std_specs::ops::SubSpecImpl for Duration {
    open spec fn obeys_sub_spec() -> bool {
        true
    }

    open spec fn sub_req(self, rhs: Duration) -> bool {
        true
    }

    closed spec fn sub_spec(self, rhs: Duration) -> Duration {
        Duration { ticks: sat64(self@ - rhs@) }
    }
}

impl core::ops::SubAssign for Duration {
    /// `-=` subtracts a duration in place, saturating at zero.
    fn sub_assign(&mut self, rhs: Duration)
        ensures
            final(self)@ == sat64(old(self)@ - rhs@),
    {
        *self = *self - rhs;
    }
}

impl core::ops::Mul<u32> for Duration {
    type Output = Duration;

    /// `*` scales a duration by an integer, saturating at the largest
    /// representable span.
    fn mul(self, rhs: u32) -> (r: Duration)
        ensures
            r@ == sat64(self@ * rhs),
    {
        self.saturating_mul(rhs)
    }
}

impl vstd::std_specs::ops::MulSpecImpl<u32> for Duration {
    open spec fn obeys_mul_spec() -> bool {
        true
    }

    open spec fn mul_req(self, rhs: u32) -> bool {
        true
    }

    closed spec fn mul_spec(self, rhs: u32) -> Duration {
        Duration { ticks: sat64(self@ * rhs) }
    }
}

impl core::ops::MulAssign<u32> for Duration {
    /// `*=` scales a duration in place, saturating at the largest
    /// representable span.
    fn mul_assign(&mut self, rhs: u32)
        ensures
            final(self)@ == sat64(old(self)@ * rhs),
    {
        *self = *self * rhs;
    }
}

impl core::ops::Div<u32> for Duration {
    type Output = Duration;

    /// `/` divides a duration by an integer; division by zero yields the
    /// largest representable span instead of trapping.
    fn div(self, rhs: u32) -> (r: Duration)
        ensures
            r@ == (if rhs == 0 {
                u64::MAX
            } else {
                (self@ / (rhs as u64)) as u64
            }),
    {
        self.saturating_div(rhs)
    }
}

impl vstd::std_specs::ops::DivSpecImpl<u32> for Duration {
    open spec fn obeys_div_spec() -> bool {
        true
    }

    open spec fn div_req(self, rhs: u32) -> bool {
        true
    }

    closed spec fn div_spec(self, rhs: u32) -> Duration {
        Duration {
            ticks: if rhs == 0 {
                u64::MAX
            } else {
                (self@ / (rhs as u64)) as u64
            },
        }
    }
}

impl core::ops::DivAssign<u32> for Duration {
    /// `/=` divides a duration in place; division by zero yields the
    /// largest representable span instead of trapping.
    fn div_assign(&mut self, rhs: u32)
        ensures
            final(self)@ == (if rhs == 0 {
                u64::MAX
            } else {
                (old(self)@ / (rhs as u64)) as u64
            }),
    {
        *self = *self / rhs;
    }
}

impl Default for Duration {
    /// The empty span.
    fn default() -> (d: Duration)
        ensures
            d@ == 0,
    {
        Duration { ticks: 0 }
    }
}

/// Crate-internal bridge from the view to the underlying field, for sibling
/// modules whose operator specs build `Duration` values directly.
pub(crate) proof fn lemma_duration_view(d: Duration)
    ensures
        d@ == d.ticks,
{
}

/// Round trip for whole seconds: encoding any number of seconds within the
/// representable range and reading the whole seconds back returns the same
/// value.
pub proof fn lemma_secs_round_trip(secs: u64)
    requires
        secs < TICKS_PER_SEC,
    ensures
        whole_secs(secs_ticks(secs)) == secs,
{
    lemma_div_multiples_vanish(secs as int, TICKS_PER_SEC as int);
    assert(secs * TICKS_PER_SEC == TICKS_PER_SEC * (secs as int));
}

/// Round trip for whole milliseconds: encoding any number of milliseconds
/// below the saturation point and reading the whole milliseconds back
/// returns the same value.
pub proof fn lemma_millis_round_trip(ms: u64)
    requires
        ms < 1000 * TICKS_PER_SEC,
    ensures
        whole_millis(millis_ticks(ms)) == ms,
{
    let s = (ms / 1000) as int;
    let r = (ms % 1000) as int;
    let k = TICKS_PER_SEC as int;
    let f = (r * k + 999) / 1000;
    lemma_fundamental_div_mod(r * k + 999, 1000);
    assert(r * k <= 1000 * f <= r * k + 999);
    let t = s * k + f;
    assert(millis_ticks(ms) == t as u64);
    lemma_hoist_over_denominator(1000 * f, s * 1000, TICKS_PER_SEC as nat);
    assert((1000 * f) / k + s * 1000 == (1000 * f + (s * 1000) * k) / k);
    lemma_fundamental_div_mod_converse(1000 * f, k, r, 1000 * f - r * k);
    assert((1000 * f) / k == r);
    assert(t * 1000 == 1000 * f + (s * 1000) * k);
    lemma_fundamental_div_mod(ms as int, 1000);
}

/// Equality on durations is equality of the raw encoded value, which is
/// exactly equality of the spans they stand for.
pub proof fn lemma_eq_is_raw_value(a: Duration, b: Duration)
    ensures
        (a == b) <==> (a@ == b@),
{
}

/// Saturation: a sum whose mathematical value does not fit in the encoding
/// comes out as the largest representable span, not as a wrapped small one.
pub proof fn lemma_add_saturates(a: u64, b: u64)
    requires
        a + b > u64::MAX,
    ensures
        sat64(a + b) == u64::MAX,
{
}

} // verus!
