//! Fixed-point time units and the bucket thresholds.
//!
//! One tick is 0.1 ms (one ten-thousandth of a second). At that
//! resolution every unit constant and every bucket threshold of the
//! formatter is a whole number of ticks, so the whole algorithm runs on
//! exact integer arithmetic.

use vstd::prelude::*;

verus! {

/// Ticks per second: one tick is 0.1 ms.
pub const TICKS_PER_SECOND: u64 = 10_000;

/// Ticks per minute (60 s).
pub const MINUTE: u64 = 600_000;

/// Ticks per hour (3600 s).
pub const HOUR: u64 = 36_000_000;

/// Ticks per day (86 400 s).
pub const DAY: u64 = 864_000_000;

/// Ticks per week (7 days).
pub const WEEK: u64 = 6_048_000_000;

/// Ticks per mean Gregorian year (365.2425 days, or 31 556 952 s).
pub const YEAR: u64 = 315_569_520_000;

/// The tail of a year beyond 51 whole weeks: `YEAR - 51 * WEEK`
/// (712 152 s). How far a remainder reaches into this tail decides the
/// rounding direction at the year/week seam.
pub const END_OF_YEAR: u64 = 7_121_520_000;

/// Exclusive upper limit of the zero bucket: 0.0005 s.
pub const LIMIT_ZERO: u64 = 5;

/// Exclusive upper limit of the milliseconds bucket: 0.9995 s.
pub const LIMIT_MILLIS: u64 = 9_995;

/// Exclusive upper limit of the two-decimal seconds bucket: 9.995 s.
pub const LIMIT_CENTI: u64 = 99_950;

/// Exclusive upper limit of the one-decimal seconds bucket: 99.95 s.
pub const LIMIT_DECI: u64 = 999_500;

/// Exclusive upper limit of the minutes bucket: 9 min 59.5 s.
pub const LIMIT_MINUTES: u64 = 5_995_000;

/// Exclusive upper limit of the hours bucket: 9 h 59.5 min.
pub const LIMIT_HOURS: u64 = 359_700_000;

/// Exclusive upper limit of the days bucket: 9 d 23.5 h.
pub const LIMIT_DAYS: u64 = 8_622_000_000;

/// Exclusive upper limit of the weeks bucket: 99 w 6.5 d.
pub const LIMIT_WEEKS: u64 = 604_368_000_000;

/// Exclusive upper limit of the years-with-weeks bucket:
/// `10 * YEAR - END_OF_YEAR / 2`.
pub const LIMIT_YEARS_WEEKS: u64 = 3_152_134_440_000;

/// Exclusive upper limit of the whole-years bucket: 9999.5 years.
pub const LIMIT_YEARS: u64 = 3_155_537_415_240_000;

/// A non-negative duration, measured in ticks of 0.1 ms.
#[derive(Clone, Copy, PartialEq, Eq, Structural, Debug)]
pub struct Duration {
    pub ticks: u64,
}

impl Duration {
    /// Build a duration from a tick count (0.1 ms units).
    pub fn from_ticks(ticks: u64) -> (d: Duration)
        ensures
            d.ticks == ticks,
    {
        Duration { ticks }
    }

    /// Build a duration from whole seconds.
    pub fn from_seconds(seconds: u64) -> (d: Duration)
        requires
            seconds * TICKS_PER_SECOND <= u64::MAX,
        ensures
            d.ticks == seconds * TICKS_PER_SECOND,
    {
        Duration { ticks: seconds * TICKS_PER_SECOND }
    }
}

} // verus!
