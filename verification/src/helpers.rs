//! The fixed-point tick encoding shared by `Duration` and `Instant`.
//!
//! A reading or a span is a single `u64`: the high 32 bits are whole seconds,
//! the low 32 bits are the fraction of a second in ticks of 2^-32 s. The spec
//! functions below are the reference meaning of the encoding; the executable
//! helpers are proved equal to them.

use vstd::prelude::*;

verus! {

use vstd::arithmetic::div_mod::lemma_div_is_ordered;
use vstd::arithmetic::power2::lemma2_to64;
use vstd::bits::lemma_u64_shr_is_div;

/// Number of ticks in one second: one tick is 2^-32 of a second.
pub const TICKS_PER_SEC: u64 = 0x1_0000_0000;

/// Clamps a mathematical integer into the `u64` range.
pub open spec fn sat64(x: int) -> u64 {
    if x > u64::MAX {
        u64::MAX
    } else if x < 0 {
        0u64
    } else {
        x as u64
    }
}

/// Tick count standing for `nanos` nanoseconds, `nanos` below one second:
/// a multiply-then-shift approximation of `nanos * 2^32 / 10^9`, using the
/// rounded-up scale `ceil(2^63 / 10^9) = 9_223_372_037` over `2^31`.
pub open spec fn nanos_frac(nanos: u32) -> int {
    (nanos as int) * 9_223_372_037 / 0x8000_0000
}

/// Tick count standing for `usec` microseconds, `usec` below one second:
/// the same approximation with the scale `ceil(2^63 / 10^6)`.
pub open spec fn micros_frac(usec: u32) -> int {
    (usec as int) * 9_223_372_036_855 / 0x8000_0000
}

/// Tick count standing for `ms` milliseconds, `ms` below one second: rounded
/// up, so that whole milliseconds survive the trip through the encoding.
pub open spec fn millis_frac(ms: u64) -> int {
    ((ms as int) * TICKS_PER_SEC + 999) / 1000
}

/// The encoding of a whole number of seconds, saturating at the top of the
/// representable range.
pub open spec fn secs_ticks(sec: u64) -> u64 {
    sat64(sec * TICKS_PER_SEC)
}

/// The encoding of seconds plus a sub-second number of nanoseconds.
pub open spec fn timespec_ticks(sec: u64, nanos: u32) -> u64 {
    sat64(sec * TICKS_PER_SEC + nanos_frac(nanos))
}

/// The encoding of seconds plus a sub-second number of microseconds.
pub open spec fn timeval_ticks(sec: u64, usec: u32) -> u64 {
    sat64(sec * TICKS_PER_SEC + micros_frac(usec))
}

/// The encoding of a number of milliseconds.
pub open spec fn millis_ticks(ms: u64) -> u64 {
    sat64((ms / 1000) * TICKS_PER_SEC + millis_frac(ms % 1000))
}

/// The encoding of a number of nanoseconds.
pub open spec fn nanos_ticks(ns: u64) -> u64 {
    timespec_ticks(ns / 1_000_000_000, (ns % 1_000_000_000) as u32)
}

/// Whole seconds represented by a tick count.
pub open spec fn whole_secs(t: u64) -> u64 {
    (t / TICKS_PER_SEC) as u64
}

/// Whole milliseconds represented by a tick count.
pub open spec fn whole_millis(t: u64) -> u64 {
    ((t as int) * 1000 / (TICKS_PER_SEC as int)) as u64
}

/// Whole microseconds represented by a tick count.
pub open spec fn whole_micros(t: u64) -> u64 {
    ((t as int) * 1_000_000 / (TICKS_PER_SEC as int)) as u64
}

/// Whole nanoseconds represented by a tick count.
pub open spec fn whole_nanos(t: u64) -> u64 {
    ((t as int) * 1_000_000_000 / (TICKS_PER_SEC as int)) as u64
}

/// The sub-second part of a tick count, in whole nanoseconds.
pub open spec fn subsec_nanos_of(t: u64) -> u32 {
    ((t % TICKS_PER_SEC) * 1_000_000_000 / (TICKS_PER_SEC as int)) as u32
}

/// Encodes a whole number of seconds.
pub fn _sec_to_u64(sec: u64) -> (r: u64)
    ensures
        r == secs_ticks(sec),
{
    match sec.checked_mul(TICKS_PER_SEC) {
        Some(v) => v,
        None => u64::MAX,
    }
}

/// Encodes seconds plus a sub-second number of nanoseconds.
pub fn _timespec_to_u64(tp_sec: u64, tp_nsec: u32) -> (r: u64)
    requires
        tp_nsec < 1_000_000_000,
    ensures
        r == timespec_ticks(tp_sec, tp_nsec),
{
    let prod: u64 = (tp_nsec as u64) * 9_223_372_037;
    let frac: u64 = prod >> 31u64;
    proof {
        lemma_u64_shr_is_div(prod, 31);
        lemma2_to64();
        lemma_div_is_ordered(prod as int, 999_999_999int * 9_223_372_037, 0x8000_0000);
        assert(frac == nanos_frac(tp_nsec));
        assert(frac < TICKS_PER_SEC);
    }
    if tp_sec < TICKS_PER_SEC {
        tp_sec * TICKS_PER_SEC + frac
    } else {
        u64::MAX
    }
}

/// Encodes a number of milliseconds.
pub fn _millis_to_u64(millis: u64) -> (r: u64)
    ensures
        r == millis_ticks(millis),
{
    let secs: u64 = millis / 1000;
    let rem: u64 = millis % 1000;
    let frac: u64 = (rem * TICKS_PER_SEC + 999) / 1000;
    proof {
        lemma_div_is_ordered(
            rem * TICKS_PER_SEC + 999,
            999 * TICKS_PER_SEC + 999,
            1000,
        );
        assert(frac < TICKS_PER_SEC);
    }
    if secs < TICKS_PER_SEC {
        secs * TICKS_PER_SEC + frac
    } else {
        u64::MAX
    }
}

/// Encodes a number of nanoseconds.
pub fn _nsecs_to_u64(nsecs: u64) -> (r: u64)
    ensures
        r == nanos_ticks(nsecs),
{
    let secs: u64 = nsecs / 1_000_000_000;
    let rem: u32 = (nsecs % 1_000_000_000) as u32;
    _timespec_to_u64(secs, rem)
}

/// Encodes seconds plus a sub-second number of microseconds.
pub fn _timeval_to_u64(tv_sec: u64, tv_usec: u32) -> (r: u64)
    requires
        tv_usec < 1_000_000,
    ensures
        r == timeval_ticks(tv_sec, tv_usec),
{
    let prod: u64 = (tv_usec as u64) * 9_223_372_036_855;
    let frac: u64 = prod >> 31u64;
    proof {
        lemma_u64_shr_is_div(prod, 31);
        lemma2_to64();
        lemma_div_is_ordered(prod as int, 999_999int * 9_223_372_036_855, 0x8000_0000);
        assert(frac == micros_frac(tv_usec));
        assert(frac < TICKS_PER_SEC);
    }
    if tv_sec < TICKS_PER_SEC {
        tv_sec * TICKS_PER_SEC + frac
    } else {
        u64::MAX
    }
}

} // verus!
