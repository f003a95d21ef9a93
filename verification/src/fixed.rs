//! The numeric representation carried across the call surface.
//!
//! Every series value, optional-parameter default and computed output is a
//! [`Fixed`]: a real quantity held exactly as a signed count of millionths.

use vstd::prelude::*;

verus! {

/// Number of units in one whole value.
pub const SCALE: i64 = 1_000_000;

/// A real quantity held as `units / SCALE`.
#[derive(Clone, Copy, Debug, PartialEq, Eq, Structural, Hash)]
pub struct Fixed {
    pub units: i64,
}

impl Fixed {
    /// The quantity `units / SCALE`.
    pub fn from_scaled(units: i64) -> (r: Fixed)
        ensures
            r.units == units,
    {
        Fixed { units }
    }

    /// The whole quantity `v`.
    pub fn from_int(v: i64) -> (r: Fixed)
        requires
            -9_223_372_036_854 <= v <= 9_223_372_036_854,
        ensures
            r.units == v * SCALE,
    {
        Fixed { units: v * SCALE }
    }

    pub fn units(&self) -> (r: i64)
        ensures
            r == self.units,
    {
        self.units
    }
}

/// Truncating division: the quotient of `a` by `b`, rounded toward zero.
pub open spec fn div_trunc(a: int, b: int) -> int
    recommends
        b != 0,
{
    let q = (vstd::math::abs(a) / vstd::math::abs(b)) as int;
    if (a < 0) != (b < 0) {
        -q
    } else {
        q
    }
}

/// On an exact multiple, truncating division agrees with Euclidean division
/// and multiplying back recovers the dividend.
pub proof fn lemma_div_trunc_exact(a: int, b: int)
    requires
        b > 0,
        a % b == 0,
    ensures
        div_trunc(a, b) == a / b,
        b * (a / b) == a,
{
    vstd::arithmetic::div_mod::lemma_fundamental_div_mod(a, b);
    if a >= 0 {
        assert(div_trunc(a, b) == a / b);
    } else {
        let k = a / b;
        assert(a == b * k);
        assert(-a == b * (-k)) by {
            vstd::arithmetic::mul::lemma_mul_unary_negation(b, k);
        }
        assert((b * (-k)) / b == -k) by {
            vstd::arithmetic::div_mod::lemma_div_multiples_vanish(-k, b);
        }
        assert(vstd::math::abs(a) == -a);
        assert(div_trunc(a, b) == -((-a) / b));
    }
}

/// A dividend between `b * lo` and `b * hi` has its truncated quotient
/// between `lo` and `hi`.
pub proof fn lemma_div_trunc_bound(a: int, b: int, lo: int, hi: int)
    requires
        b > 0,
        lo <= 0 <= hi,
        b * lo <= a <= b * hi,
    ensures
        lo <= div_trunc(a, b) <= hi,
{
    if a >= 0 {
        assert(vstd::math::abs(a) == a);
        assert(a / b <= hi) by {
            vstd::arithmetic::div_mod::lemma_multiply_divide_le(a, b, hi);
        }
        assert(a / b >= 0) by {
            vstd::arithmetic::div_mod::lemma_div_pos_is_pos(a, b);
        }
    } else {
        assert(vstd::math::abs(a) == -a);
        assert(-a <= b * (-lo)) by {
            vstd::arithmetic::mul::lemma_mul_unary_negation(b, lo);
        }
        assert((-a) / b <= -lo) by {
            vstd::arithmetic::div_mod::lemma_multiply_divide_le(-a, b, -lo);
        }
        assert((-a) / b >= 0) by {
            vstd::arithmetic::div_mod::lemma_div_pos_is_pos(-a, b);
        }
    }
}

/// The magnitude of a truncated quotient is the magnitude of the dividend
/// divided by the divisor.
pub proof fn lemma_div_trunc_abs(a: int, b: int)
    requires
        b > 0,
    ensures
        vstd::math::abs(div_trunc(a, b)) as int == vstd::math::abs(a) as int / b,
{
    assert((vstd::math::abs(a) / vstd::math::abs(b)) as int >= 0);
}

/// Truncating division on machine integers, as the native call surface
/// performs it.
pub(crate) fn div_trunc_i128(a: i128, b: i128) -> (r: i128)
    requires
        b != 0,
        a != i128::MIN,
        b != i128::MIN,
    ensures
        r == div_trunc(a as int, b as int),
{
    let neg = (a < 0) != (b < 0);
    let mag_a: u128 = if a < 0 {
        (-a) as u128
    } else {
        a as u128
    };
    let mag_b: u128 = if b < 0 {
        (-b) as u128
    } else {
        b as u128
    };
    let q = mag_a / mag_b;
    proof {
        assert(mag_a == vstd::math::abs(a as int));
        assert(mag_b == vstd::math::abs(b as int));
        assert(q <= mag_a) by {
            vstd::arithmetic::div_mod::lemma_div_nonincreasing(mag_a as int, mag_b as int);
        }
    }
    if neg {
        -(q as i128)
    } else {
        q as i128
    }
}

} // verus!
