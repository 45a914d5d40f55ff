//! The boundary correction at the year/week seam.
//!
//! In the years-with-weeks bucket the week remainder lies below 52
//! weeks, yet rounding it to a whole number could print 52 — one more
//! than the two-digit week field can mean. A remainder past the 51-week
//! mark is therefore resolved by hand: if it reaches into the last half
//! of the year-end tail, it counts as the start of the next year;
//! otherwise the week field saturates at 51.

use vstd::prelude::*;

verus! {

use crate::arith::lemma_round_div_le;
use crate::arith::round_div;
use crate::arith::round_to_nearest;
use crate::arith::split;
use crate::units::END_OF_YEAR;
use crate::units::LIMIT_YEARS_WEEKS;
use crate::units::WEEK;
use crate::units::YEAR;

/// The (year, week) pair displayed in the years-with-weeks bucket,
/// after the correction at the year/week seam.
pub open spec fn corrected_year_week(t: nat) -> (nat, nat) {
    let y = t / (YEAR as nat);
    let r = t % (YEAR as nat);
    if r > 51 * (WEEK as nat) {
        if YEAR - r <= END_OF_YEAR / 2 {
            (y + 1, 0 as nat)
        } else {
            (y, 51 as nat)
        }
    } else {
        (y, round_div(r, WEEK as nat))
    }
}

/// Split off whole years and correct the week remainder at the seam.
pub fn correct_year_week(t: u64) -> (yw: (u64, u64))
    requires
        t < LIMIT_YEARS_WEEKS,
    ensures
        yw.0 == corrected_year_week(t as nat).0,
        yw.1 == corrected_year_week(t as nat).1,
        yw.0 <= 9,
        yw.1 <= 51,
{
    let (y, r) = split(t, YEAR);
    if r > 51 * WEEK {
        if YEAR - r <= END_OF_YEAR / 2 {
            (y + 1, 0)
        } else {
            (y, 51)
        }
    } else {
        proof {
            lemma_round_div_le(r as nat, WEEK as nat, 51);
        }
        let w = round_to_nearest(r, WEEK);
        (y, w)
    }
}

/// Week-field saturation: the corrected week count always fits the
/// two-digit field, between 00 and 51.
pub proof fn lemma_week_field_saturated(t: nat)
    ensures
        corrected_year_week(t).1 <= 51,
{
    if t % (YEAR as nat) <= 51 * (WEEK as nat) {
        lemma_round_div_le(t % (YEAR as nat), WEEK as nat, 51);
    }
}

} // verus!
