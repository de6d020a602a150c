//! Presentation time: a decoder timestamp counted in units of the stream's
//! time base, turned into whole seconds.

use vstd::prelude::*;

verus! {

/// The quotient of `a` by `d` rounded toward zero, for `d` other than zero.
pub open spec fn truncated_quotient(a: int, d: int) -> int {
    if a >= 0 && d > 0 {
        a / d
    } else if a < 0 && d < 0 {
        (-a) / (-d)
    } else if a < 0 {
        -((-a) / d)
    } else {
        -(a / (-d))
    }
}

/// The whole seconds that the timestamp `pts` stands for in a time base of
/// `numerator / denominator` seconds per unit: `pts * numerator / denominator`,
/// rounded toward zero. There is none for a denominator of zero.
pub open spec fn seconds_of(pts: int, numerator: int, denominator: int) -> Option<int> {
    if denominator == 0 {
        None
    } else {
        Some(truncated_quotient(pts * numerator, denominator))
    }
}

/// Converts a timestamp into whole seconds. The product is formed without
/// overflow; the outcome is `None` exactly when the denominator is zero or the
/// seconds do not fit `i64`.
pub fn presentation_seconds(pts: i64, numerator: i32, denominator: i32) -> (seconds: Option<i64>)
    ensures
        seconds == match seconds_of(pts as int, numerator as int, denominator as int) {
            Some(s) => if i64::MIN <= s <= i64::MAX {
                Some(s as i64)
            } else {
                None
            },
            None => None,
        },
{
    assert(-0x8000_0000_0000_0000 * 0x8000_0000 <= pts * numerator <= 0x8000_0000_0000_0000
        * 0x8000_0000) by (nonlinear_arith)
        requires
            -0x8000_0000_0000_0000 <= pts <= 0x7FFF_FFFF_FFFF_FFFF,
            -0x8000_0000 <= numerator <= 0x7FFF_FFFF,
    ;
    let product: i128 = (pts as i128) * (numerator as i128);
    proof {
        let x = product as int;
        let d = denominator as int;
        if d > 0 && x >= 0 {
            assert(0 <= x / d <= x) by (nonlinear_arith)
                requires
                    x >= 0,
                    d > 0,
            ;
        } else if d > 0 {
            assert(0 <= (-x) / d <= -x) by (nonlinear_arith)
                requires
                    -x >= 0,
                    d > 0,
            ;
        } else if d < 0 && x >= 0 {
            assert(0 <= x / (-d) <= x) by (nonlinear_arith)
                requires
                    x >= 0,
                    -d > 0,
            ;
        } else if d < 0 {
            assert(0 <= (-x) / (-d) <= -x) by (nonlinear_arith)
                requires
                    -x >= 0,
                    -d > 0,
            ;
        }
    }
    match product.checked_div(denominator as i128) {
        None => None,
        Some(quotient) => {
            if quotient < i64::MIN as i128 || quotient > i64::MAX as i128 {
                None
            } else {
                Some(quotient as i64)
            }
        },
    }
}

/// On a linear, gapless clock the conversion gives the seconds since the
/// start: a timestamp that stands for exactly `t` seconds, that is one with
/// `pts * numerator == t * denominator`, is converted to `t`.
pub proof fn lemma_linear_clock(pts: int, numerator: int, denominator: int, t: int)
    requires
        denominator != 0,
        pts * numerator == t * denominator,
    ensures
        seconds_of(pts, numerator, denominator) == Some(t),
{
    let a = pts * numerator;
    let d = denominator;
    if a >= 0 && d > 0 {
        assert((t * d) / d == t) by (nonlinear_arith)
            requires
                d > 0,
        ;
    } else if a < 0 && d < 0 {
        assert(-a == t * (-d)) by (nonlinear_arith)
            requires
                a == t * d,
        ;
        assert((t * (-d)) / (-d) == t) by (nonlinear_arith)
            requires
                -d > 0,
        ;
    } else if a < 0 {
        assert(-a == (-t) * d) by (nonlinear_arith)
            requires
                a == t * d,
        ;
        assert(((-t) * d) / d == -t) by (nonlinear_arith)
            requires
                d > 0,
        ;
    } else {
        assert(a == (-t) * (-d)) by (nonlinear_arith)
            requires
                a == t * d,
        ;
        assert(((-t) * (-d)) / (-d) == -t) by (nonlinear_arith)
            requires
                -d > 0,
        ;
    }
}

/// With a positive time base, later timestamps never give earlier seconds.
pub proof fn lemma_seconds_monotonic(earlier: int, later: int, numerator: int, denominator: int)
    requires
        earlier <= later,
        numerator > 0,
        denominator > 0,
    ensures
        seconds_of(earlier, numerator, denominator)->0 <= seconds_of(
            later,
            numerator,
            denominator,
        )->0,
{
    let a = earlier * numerator;
    let b = later * numerator;
    let d = denominator;
    assert(a <= b) by (nonlinear_arith)
        requires
            a == earlier * numerator,
            b == later * numerator,
            earlier <= later,
            numerator > 0,
    ;
    if a >= 0 {
        assert(a / d <= b / d) by (nonlinear_arith)
            requires
                0 <= a <= b,
                d > 0,
        ;
    } else if b < 0 {
        assert((-b) / d <= (-a) / d) by (nonlinear_arith)
            requires
                0 <= -b <= -a,
                d > 0,
        ;
    } else {
        assert((-a) / d >= 0) by (nonlinear_arith)
            requires
                -a >= 0,
                d > 0,
        ;
        assert(b / d >= 0) by (nonlinear_arith)
            requires
                b >= 0,
                d > 0,
        ;
    }
}

} // verus!
