//! Exact splitting and rounding of tick counts.
//!
//! Each rendered field is a quotient of tick counts rounded to the
//! nearest integer, ties to even — the rounding that fixed-precision
//! decimal formatting applies. Splitting a duration into a major/minor
//! unit pair is plain Euclidean division.

use vstd::prelude::*;
use vstd::arithmetic::div_mod::lemma_fundamental_div_mod;
use vstd::arithmetic::mul::lemma_mul_is_commutative;

verus! {

/// `p / q` rounded to the nearest integer, ties to even.
pub open spec fn round_div(p: nat, q: nat) -> nat
    recommends
        q > 0,
{
    let d = p / q;
    let r = p % q;
    if 2 * r < q {
        d
    } else if 2 * r > q {
        d + 1
    } else if d % 2 == 0 {
        d
    } else {
        d + 1
    }
}

/// Compute `round_div(p, q)` on machine integers.
pub fn round_to_nearest(p: u64, q: u64) -> (r: u64)
    requires
        0 < q,
        p < 0x4000_0000_0000_0000,
        q < 0x4000_0000_0000_0000,
    ensures
        r == round_div(p as nat, q as nat),
{
    let d = p / q;
    let r = p % q;
    assert(d <= p) by (nonlinear_arith)
        requires d == p / q && q >= 1 && p >= 0,
    ;
    if 2 * r < q {
        d
    } else if 2 * r > q {
        d + 1
    } else if d % 2 == 0 {
        d
    } else {
        d + 1
    }
}

/// Split a tick count into whole greater units and the remaining ticks.
pub fn split(t: u64, greater: u64) -> (r: (u64, u64))
    requires
        0 < greater,
    ensures
        r.0 == t as nat / greater as nat,
        r.1 == t as nat % greater as nat,
        t == r.0 * greater + r.1,
        r.1 < greater,
{
    proof {
        lemma_fundamental_div_mod(t as int, greater as int);
        lemma_mul_is_commutative(t as int / greater as int, greater as int);
    }
    (t / greater, t % greater)
}

/// The rounded quotient stays at or below `n` while `p` lies below
/// `(n + 1/2) * q`.
pub proof fn lemma_round_div_le(p: nat, q: nat, n: nat)
    requires
        q > 0,
        2 * p < (2 * n + 1) * q,
    ensures
        round_div(p, q) <= n,
{
    lemma_fundamental_div_mod(p as int, q as int);
    let m = round_div(p, q);
    let d = p / q;
    let r = p % q;
    assert(m == d || (m == d + 1 && 2 * r >= q));
    assert(m <= n) by (nonlinear_arith)
        requires
            p == q * d + r,
            0 <= r < q,
            2 * p < (2 * n + 1) * q,
            0 <= n,
            m == d || (m == d + 1 && 2 * r >= q),
    ;
}

/// Rounding error bound: `round_div(p, q) * q` differs from `p` by at
/// most half of `q`.
pub proof fn lemma_round_div_close(p: nat, q: nat)
    requires
        q > 0,
    ensures
        2 * (round_div(p, q) * q) <= 2 * p + q,
        2 * p <= 2 * (round_div(p, q) * q) + q,
{
    lemma_fundamental_div_mod(p as int, q as int);
    let m = round_div(p, q);
    let d = p / q;
    let r = p % q;
    assert((m == d && 2 * r <= q) || (m == d + 1 && 2 * r >= q));
    assert(2 * (m * q) <= 2 * p + q && 2 * p <= 2 * (m * q) + q) by (nonlinear_arith)
        requires
            p == q * d + r,
            0 <= r < q,
            (m == d && 2 * r <= q) || (m == d + 1 && 2 * r >= q),
    ;
}

/// Reconstruction tolerance: reading a rendered pair back as
/// `major * greater + minor * lesser` recovers the duration to within
/// half a lesser unit.
pub proof fn lemma_split_reconstruction(t: nat, greater: nat, lesser: nat)
    requires
        greater > 0,
        lesser > 0,
    ensures
        ({
            let major = t / greater;
            let minor = round_div(t % greater, lesser);
            2 * (major * greater + minor * lesser) <= 2 * t + lesser && 2 * t <= 2 * (major
                * greater + minor * lesser) + lesser
        }),
{
    lemma_fundamental_div_mod(t as int, greater as int);
    lemma_mul_is_commutative(t as int / greater as int, greater as int);
    lemma_round_div_close(t % greater, lesser);
}

} // verus!
