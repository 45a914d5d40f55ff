//! Short fixed-width formatting for time durations.
//!
//! A non-negative duration is classified into one of eleven display
//! buckets by magnitude, split into a major/minor unit pair for that
//! bucket, corrected at the year/week seam, and rendered as a compact
//! string of about five characters (`016ms`, `2.07s`, `7h07m`, `1y51w`,
//! `10ky+`).
//!
//! Durations are measured in ticks of one ten-thousandth of a second:
//! at that resolution every bucket threshold is a whole number of
//! ticks, so classification, splitting and rounding are exact integer
//! arithmetic.

pub mod arith;
pub mod bucket;
pub mod render;
pub mod seam;
pub mod units;

use vstd::prelude::*;

verus! {

use vstd::string::StringExecFns;

use crate::arith::lemma_round_div_le;
use crate::arith::round_div;
use crate::arith::round_to_nearest;
use crate::arith::split;
use crate::bucket::Bucket;
use crate::bucket::classify;
use crate::bucket::select_bucket;
use crate::render::centi_text;
use crate::render::deci_text;
use crate::render::millis_text;
use crate::render::pair_text;
use crate::render::push_digit;
use crate::render::push_four;
use crate::render::push_three;
use crate::render::push_two;
use crate::render::render_pair;
use crate::render::weeks_text;
use crate::render::years_text;
use crate::seam::corrected_year_week;
use crate::seam::correct_year_week;
use crate::units::DAY;
use crate::units::Duration;
use crate::units::HOUR;
use crate::units::MINUTE;
use crate::units::TICKS_PER_SECOND;
use crate::units::WEEK;
use crate::units::YEAR;

/// The exact character sequence displayed for a duration of `t` ticks.
pub open spec fn rendered(t: nat) -> Seq<char> {
    match classify(t) {
        Bucket::ZeroMs => seq!['0', '0', '0', 'm', 's'],
        Bucket::Millis => millis_text(round_div(t, 10)),
        Bucket::CentiSeconds => centi_text(round_div(t, 100)),
        Bucket::DeciSeconds => deci_text(round_div(t, 1000)),
        Bucket::Minutes => pair_text(
            t / (MINUTE as nat),
            'm',
            round_div(t % (MINUTE as nat), TICKS_PER_SECOND as nat),
            's',
        ),
        Bucket::Hours => pair_text(
            t / (HOUR as nat),
            'h',
            round_div(t % (HOUR as nat), MINUTE as nat),
            'm',
        ),
        Bucket::Days => pair_text(
            t / (DAY as nat),
            'd',
            round_div(t % (DAY as nat), HOUR as nat),
            'h',
        ),
        Bucket::Weeks => weeks_text(t / (WEEK as nat), round_div(t % (WEEK as nat), DAY as nat)),
        Bucket::YearsWeeks => pair_text(
            corrected_year_week(t).0,
            'y',
            corrected_year_week(t).1,
            'w',
        ),
        Bucket::Years => years_text(round_div(t, YEAR as nat)),
        Bucket::Overflow => seq!['1', '0', 'k', 'y', '+'],
    }
}

/// Every bucket's pattern is exactly five characters wide.
pub proof fn lemma_rendered_width(t: nat)
    ensures
        rendered(t).len() == 5,
{
}

/// Format a duration as a short fixed-width string.
///
/// The result is exactly `rendered(d.ticks)`: the bucket selected by
/// magnitude, split into its unit pair, corrected at the year/week
/// seam, and printed with the bucket's fixed pattern.
pub fn present(d: Duration) -> (s: String)
    ensures
        s@ == rendered(d.ticks as nat),
{
    let t = d.ticks;
    match select_bucket(d) {
        Bucket::ZeroMs => {
            let out = String::from_str("000ms");
            proof {
                reveal_strlit("000ms");
                assert(out@ =~= rendered(t as nat));
            }
            out
        },
        Bucket::Millis => {
            proof {
                lemma_round_div_le(t as nat, 10, 999);
            }
            let ms = round_to_nearest(t, 10);
            let mut out = String::new();
            push_three(&mut out, ms);
            out.append("ms");
            proof {
                reveal_strlit("ms");
                assert(out@ =~= rendered(t as nat));
            }
            out
        },
        Bucket::CentiSeconds => {
            proof {
                lemma_round_div_le(t as nat, 100, 999);
            }
            let c = round_to_nearest(t, 100);
            let mut out = String::new();
            push_digit(&mut out, c / 100);
            out.append(".");
            push_digit(&mut out, c / 10 % 10);
            push_digit(&mut out, c % 10);
            out.append("s");
            proof {
                reveal_strlit(".");
                reveal_strlit("s");
                assert(out@ =~= rendered(t as nat));
            }
            out
        },
        Bucket::DeciSeconds => {
            proof {
                lemma_round_div_le(t as nat, 1000, 999);
            }
            let ds = round_to_nearest(t, 1000);
            let mut out = String::new();
            push_digit(&mut out, ds / 100);
            push_digit(&mut out, ds / 10 % 10);
            out.append(".");
            push_digit(&mut out, ds % 10);
            out.append("s");
            proof {
                reveal_strlit(".");
                reveal_strlit("s");
                assert(out@ =~= rendered(t as nat));
            }
            out
        },
        Bucket::Minutes => {
            let (m, rem) = split(t, MINUTE);
            proof {
                lemma_round_div_le(rem as nat, TICKS_PER_SECOND as nat, 60);
                reveal_strlit("m");
                reveal_strlit("s");
            }
            let sec = round_to_nearest(rem, TICKS_PER_SECOND);
            let out = render_pair(m, "m", sec, "s");
            proof {
                assert(out@ =~= rendered(t as nat));
            }
            out
        },
        Bucket::Hours => {
            let (h, rem) = split(t, HOUR);
            proof {
                lemma_round_div_le(rem as nat, MINUTE as nat, 60);
                reveal_strlit("h");
                reveal_strlit("m");
            }
            let min = round_to_nearest(rem, MINUTE);
            let out = render_pair(h, "h", min, "m");
            proof {
                assert(out@ =~= rendered(t as nat));
            }
            out
        },
        Bucket::Days => {
            let (dd, rem) = split(t, DAY);
            proof {
                lemma_round_div_le(rem as nat, HOUR as nat, 24);
                reveal_strlit("d");
                reveal_strlit("h");
            }
            let hh = round_to_nearest(rem, HOUR);
            let out = render_pair(dd, "d", hh, "h");
            proof {
                assert(out@ =~= rendered(t as nat));
            }
            out
        },
        Bucket::Weeks => {
            let (w, rem) = split(t, WEEK);
            proof {
                lemma_round_div_le(rem as nat, DAY as nat, 7);
            }
            let wd = round_to_nearest(rem, DAY);
            let mut out = String::new();
            push_two(&mut out, w);
            out.append("w");
            push_digit(&mut out, wd);
            out.append("d");
            proof {
                reveal_strlit("w");
                reveal_strlit("d");
                assert(out@ =~= rendered(t as nat));
            }
            out
        },
        Bucket::YearsWeeks => {
            let (y, w) = correct_year_week(t);
            proof {
                reveal_strlit("y");
                reveal_strlit("w");
            }
            let out = render_pair(y, "y", w, "w");
            proof {
                assert(out@ =~= rendered(t as nat));
            }
            out
        },
        Bucket::Years => {
            proof {
                lemma_round_div_le(t as nat, YEAR as nat, 9999);
            }
            let n = round_to_nearest(t, YEAR);
            let mut out = String::new();
            push_four(&mut out, n);
            out.append("y");
            proof {
                reveal_strlit("y");
                assert(out@ =~= rendered(t as nat));
            }
            out
        },
        Bucket::Overflow => {
            let out = String::from_str("10ky+");
            proof {
                reveal_strlit("10ky+");
                assert(out@ =~= rendered(t as nat));
            }
            out
        },
    }
}

} // verus!
