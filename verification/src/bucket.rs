//! Classification of a duration into one of eleven display buckets.
//!
//! Buckets are totally ordered by coarseness; a duration selects the
//! first bucket whose exclusive upper limit lies strictly above it. The
//! limits are strictly increasing and jointly exhaustive, so exactly one
//! bucket applies to every duration.

use vstd::prelude::*;

verus! {

use crate::units::Duration;
use crate::units::LIMIT_CENTI;
use crate::units::LIMIT_DAYS;
use crate::units::LIMIT_DECI;
use crate::units::LIMIT_HOURS;
use crate::units::LIMIT_MILLIS;
use crate::units::LIMIT_MINUTES;
use crate::units::LIMIT_WEEKS;
use crate::units::LIMIT_YEARS;
use crate::units::LIMIT_YEARS_WEEKS;
use crate::units::LIMIT_ZERO;

/// The eleven display buckets, from finest to coarsest. The derived
/// order follows the declaration order, so it agrees with
/// `coarseness`.
#[derive(Clone, Copy, PartialEq, Eq, Structural, PartialOrd, Ord, Debug)]
pub enum Bucket {
    /// Below half a millisecond: the literal `000ms`.
    ZeroMs,
    /// Whole milliseconds, three digits.
    Millis,
    /// Seconds with two decimals.
    CentiSeconds,
    /// Seconds with one decimal.
    DeciSeconds,
    /// Minutes and seconds.
    Minutes,
    /// Hours and minutes.
    Hours,
    /// Days and hours.
    Days,
    /// Weeks and days.
    Weeks,
    /// Years and weeks, with the year/week seam correction.
    YearsWeeks,
    /// Whole years, four digits.
    Years,
    /// At or beyond 9999.5 years: the literal `10ky+`.
    Overflow,
}

/// The half-open tick range that a bucket covers.
pub open spec fn in_bucket(b: Bucket, t: nat) -> bool {
    match b {
        Bucket::ZeroMs => t < LIMIT_ZERO,
        Bucket::Millis => LIMIT_ZERO <= t < LIMIT_MILLIS,
        Bucket::CentiSeconds => LIMIT_MILLIS <= t < LIMIT_CENTI,
        Bucket::DeciSeconds => LIMIT_CENTI <= t < LIMIT_DECI,
        Bucket::Minutes => LIMIT_DECI <= t < LIMIT_MINUTES,
        Bucket::Hours => LIMIT_MINUTES <= t < LIMIT_HOURS,
        Bucket::Days => LIMIT_HOURS <= t < LIMIT_DAYS,
        Bucket::Weeks => LIMIT_DAYS <= t < LIMIT_WEEKS,
        Bucket::YearsWeeks => LIMIT_WEEKS <= t < LIMIT_YEARS_WEEKS,
        Bucket::Years => LIMIT_YEARS_WEEKS <= t < LIMIT_YEARS,
        Bucket::Overflow => LIMIT_YEARS <= t,
    }
}

/// A bucket's rank in the coarseness order, finest first.
pub open spec fn coarseness(b: Bucket) -> int {
    match b {
        Bucket::ZeroMs => 0,
        Bucket::Millis => 1,
        Bucket::CentiSeconds => 2,
        Bucket::DeciSeconds => 3,
        Bucket::Minutes => 4,
        Bucket::Hours => 5,
        Bucket::Days => 6,
        Bucket::Weeks => 7,
        Bucket::YearsWeeks => 8,
        Bucket::Years => 9,
        Bucket::Overflow => 10,
    }
}

/// The bucket a tick count selects: the first whose upper limit lies
/// strictly above it.
pub open spec fn classify(t: nat) -> Bucket {
    if t < LIMIT_ZERO {
        Bucket::ZeroMs
    } else if t < LIMIT_MILLIS {
        Bucket::Millis
    } else if t < LIMIT_CENTI {
        Bucket::CentiSeconds
    } else if t < LIMIT_DECI {
        Bucket::DeciSeconds
    } else if t < LIMIT_MINUTES {
        Bucket::Minutes
    } else if t < LIMIT_HOURS {
        Bucket::Hours
    } else if t < LIMIT_DAYS {
        Bucket::Days
    } else if t < LIMIT_WEEKS {
        Bucket::Weeks
    } else if t < LIMIT_YEARS_WEEKS {
        Bucket::YearsWeeks
    } else if t < LIMIT_YEARS {
        Bucket::Years
    } else {
        Bucket::Overflow
    }
}

/// Select the display bucket for a duration.
pub fn select_bucket(d: Duration) -> (b: Bucket)
    ensures
        b == classify(d.ticks as nat),
{
    let t = d.ticks;
    if t < LIMIT_ZERO {
        Bucket::ZeroMs
    } else if t < LIMIT_MILLIS {
        Bucket::Millis
    } else if t < LIMIT_CENTI {
        Bucket::CentiSeconds
    } else if t < LIMIT_DECI {
        Bucket::DeciSeconds
    } else if t < LIMIT_MINUTES {
        Bucket::Minutes
    } else if t < LIMIT_HOURS {
        Bucket::Hours
    } else if t < LIMIT_DAYS {
        Bucket::Days
    } else if t < LIMIT_WEEKS {
        Bucket::Weeks
    } else if t < LIMIT_YEARS_WEEKS {
        Bucket::YearsWeeks
    } else if t < LIMIT_YEARS {
        Bucket::Years
    } else {
        Bucket::Overflow
    }
}

/// Totality and uniqueness: every duration lies in the bucket it
/// selects, and in no other bucket.
pub proof fn lemma_bucket_exactly_one(t: nat)
    ensures
        in_bucket(classify(t), t),
        forall|b: Bucket| in_bucket(b, t) ==> b == classify(t),
{
}

/// Monotonic coarsening: a longer duration never selects a finer
/// bucket than a shorter one.
pub proof fn lemma_coarsening_monotonic(t1: nat, t2: nat)
    requires
        t1 <= t2,
    ensures
        coarseness(classify(t1)) <= coarseness(classify(t2)),
{
}

} // verus!
