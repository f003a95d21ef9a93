//! The computations behind the registry's functions, stated exactly.
//!
//! Each function's output is defined element by element over the units of
//! its input series; the exec kernels prove their loops against these
//! definitions.

use vstd::prelude::*;

use crate::fixed::{div_trunc, div_trunc_i128, Fixed, SCALE};
use crate::types::{TaError, TaResult};

verus! {

/// Sum of the units of `xs[lo..hi]`.
pub open spec fn sum_units(xs: Seq<Fixed>, lo: int, hi: int) -> int
    decreases hi - lo,
{
    if lo >= hi {
        0
    } else {
        xs[lo].units + sum_units(xs, lo + 1, hi)
    }
}

/// Extending a sum by one trailing element adds that element's units.
pub proof fn lemma_sum_units_extend(xs: Seq<Fixed>, lo: int, hi: int)
    requires
        lo <= hi,
    ensures
        sum_units(xs, lo, hi + 1) == sum_units(xs, lo, hi) + xs[hi].units,
    decreases hi - lo,
{
    if lo < hi {
        lemma_sum_units_extend(xs, lo + 1, hi);
    } else {
        assert(sum_units(xs, lo, hi + 1) == xs[lo].units + sum_units(xs, lo + 1, hi + 1));
        assert(sum_units(xs, lo + 1, hi + 1) == 0);
    }
}

/// The simple moving average at index `i`: the truncated mean of the
/// `period` units ending at `i`.
pub open spec fn sma_at(xs: Seq<Fixed>, period: int, i: int) -> int {
    div_trunc(sum_units(xs, i + 1 - period, i + 1), period)
}

/// The median price at index `i`: the truncated mean of high and low.
pub open spec fn medprice_at(high: Seq<Fixed>, low: Seq<Fixed>, i: int) -> int {
    div_trunc(high[i].units + low[i].units, 2)
}

/// The typical price at index `i`: the truncated mean of high, low and
/// close.
pub open spec fn typprice_at(high: Seq<Fixed>, low: Seq<Fixed>, close: Seq<Fixed>, i: int) -> int {
    div_trunc(high[i].units + low[i].units + close[i].units, 3)
}

/// The elementwise sum at index `i`, as unbounded units.
pub open spec fn add_at(a: Seq<Fixed>, b: Seq<Fixed>, i: int) -> int {
    a[i].units + b[i].units
}

/// Whether every elementwise sum over the window fits the unit type.
pub open spec fn add_fits(a: Seq<Fixed>, b: Seq<Fixed>, begin: int, count: int) -> bool {
    forall|j: int| 0 <= j < count ==> i64::MIN <= #[trigger] add_at(a, b, begin + j) <= i64::MAX
}

/// The elementwise quotient at index `i`, as unbounded units.
pub open spec fn div_at(a: Seq<Fixed>, b: Seq<Fixed>, i: int) -> int {
    div_trunc(a[i].units * SCALE, b[i].units as int)
}

/// Whether every elementwise quotient over the window is defined and fits
/// the unit type.
pub open spec fn div_fits(a: Seq<Fixed>, b: Seq<Fixed>, begin: int, count: int) -> bool {
    forall|j: int|
        0 <= j < count ==> (#[trigger] b[begin + j]).units != 0 && i64::MIN <= div_at(
            a,
            b,
            begin + j,
        ) <= i64::MAX
}

/// Sum of squared deviations of `xs[lo..hi]` from `mu`.
pub open spec fn sq_dev_sum(xs: Seq<Fixed>, mu: int, lo: int, hi: int) -> int
    decreases hi - lo,
{
    if lo >= hi {
        0
    } else {
        (xs[lo].units - mu) * (xs[lo].units - mu) + sq_dev_sum(xs, mu, lo + 1, hi)
    }
}

/// Extending a squared-deviation sum by one trailing element adds that
/// element's squared deviation.
pub proof fn lemma_sq_dev_sum_extend(xs: Seq<Fixed>, mu: int, lo: int, hi: int)
    requires
        lo <= hi,
    ensures
        sq_dev_sum(xs, mu, lo, hi + 1) == sq_dev_sum(xs, mu, lo, hi) + (xs[hi].units - mu) * (
        xs[hi].units - mu),
    decreases hi - lo,
{
    if lo < hi {
        lemma_sq_dev_sum_extend(xs, mu, lo + 1, hi);
    } else {
        assert(sq_dev_sum(xs, mu, lo + 1, hi + 1) == 0);
    }
}

/// A squared-deviation sum is nonnegative and grows with its window.
pub proof fn lemma_sq_dev_sum_nonneg(xs: Seq<Fixed>, mu: int, lo: int, hi: int)
    ensures
        sq_dev_sum(xs, mu, lo, hi) >= 0,
    decreases hi - lo,
{
    if lo < hi {
        lemma_sq_dev_sum_nonneg(xs, mu, lo + 1, hi);
        assert((xs[lo].units - mu) * (xs[lo].units - mu) >= 0) by (nonlinear_arith);
    }
}

/// A squared-deviation sum splits at any midpoint of its window.
pub proof fn lemma_sq_dev_sum_split(xs: Seq<Fixed>, mu: int, lo: int, mid: int, hi: int)
    requires
        lo <= mid <= hi,
    ensures
        sq_dev_sum(xs, mu, lo, hi) == sq_dev_sum(xs, mu, lo, mid) + sq_dev_sum(xs, mu, mid, hi),
    decreases mid - lo,
{
    if lo < mid {
        lemma_sq_dev_sum_split(xs, mu, lo + 1, mid, hi);
    }
}

/// The floor of the square root of `n`, for nonnegative `n`.
pub open spec fn isqrt_spec(n: int) -> int
    decreases n,
{
    if n <= 0 {
        0
    } else {
        let r = isqrt_spec(n - 1);
        if (r + 1) * (r + 1) <= n {
            r + 1
        } else {
            r
        }
    }
}

/// The floor square root is nonnegative, and squares to at most `n` with
/// the next square above `n`.
pub proof fn lemma_isqrt_props(n: int)
    requires
        n >= 0,
    ensures
        isqrt_spec(n) >= 0,
        isqrt_spec(n) * isqrt_spec(n) <= n,
        (isqrt_spec(n) + 1) * (isqrt_spec(n) + 1) > n,
    decreases n,
{
    if n == 0 {
        assert(isqrt_spec(0) == 0);
    } else {
        lemma_isqrt_props(n - 1);
        let r = isqrt_spec(n - 1);
        if (r + 1) * (r + 1) <= n {
            assert(isqrt_spec(n) == r + 1);
            assert((r + 2) * (r + 2) > n) by (nonlinear_arith)
                requires
                    r >= 0,
                    (r + 1) * (r + 1) > n - 1,
            ;
            assert((isqrt_spec(n) + 1) * (isqrt_spec(n) + 1) == (r + 2) * (r + 2));
        } else {
            assert(isqrt_spec(n) == r);
            assert(isqrt_spec(n) * isqrt_spec(n) <= n);
            assert((isqrt_spec(n) + 1) * (isqrt_spec(n) + 1) > n);
        }
    }
}

/// Any value whose square brackets `n` is the floor square root of `n`.
pub proof fn lemma_isqrt_unique(n: int, r: int)
    requires
        n >= 0,
        r >= 0,
        r * r <= n,
        (r + 1) * (r + 1) > n,
    ensures
        isqrt_spec(n) == r,
{
    lemma_isqrt_props(n);
    let s = isqrt_spec(n);
    if s < r {
        assert((s + 1) * (s + 1) <= r * r) by (nonlinear_arith)
            requires
                0 <= s < r,
        ;
    }
    if s > r {
        assert((r + 1) * (r + 1) <= s * s) by (nonlinear_arith)
            requires
                0 <= r < s,
        ;
    }
}

/// The floor square root of a `u128`, by bisection.
pub(crate) fn isqrt_u128(n: u128) -> (r: u128)
    ensures
        r as int == isqrt_spec(n as int),
        r <= 0xffff_ffff_ffff_ffffu128,
{
    let mut lo: u128 = 0;
    let mut hi: u128 = 0xffff_ffff_ffff_ffff;
    proof {
        assert((hi as int + 1) * (hi as int + 1) > n as int) by (nonlinear_arith)
            requires
                hi == 0xffff_ffff_ffff_ffffu128,
                n <= u128::MAX,
        ;
    }
    while lo < hi
        invariant
            lo <= hi,
            hi <= 0xffff_ffff_ffff_ffffu128,
            lo as int * lo as int <= n as int,
            (hi as int + 1) * (hi as int + 1) > n as int,
        decreases hi - lo,
    {
        let mid = lo + (hi - lo + 1) / 2;
        proof {
            assert(mid <= hi);
            assert((mid as int) * (mid as int) <= u128::MAX as int) by (nonlinear_arith)
                requires
                    mid <= 0xffff_ffff_ffff_ffffu128,
            ;
        }
        let sq = mid * mid;
        if sq <= n {
            lo = mid;
        } else {
            hi = mid - 1;
        }
    }
    proof {
        lemma_isqrt_unique(n as int, lo as int);
    }
    lo
}

/// The spread measure of a window: the floor square root of the truncated
/// mean of squared deviations from the window's simple moving average.
pub open spec fn bbands_sigma(xs: Seq<Fixed>, period: int, i: int) -> int {
    isqrt_spec(
        div_trunc(sq_dev_sum(xs, sma_at(xs, period, i), i + 1 - period, i + 1), period),
    )
}

/// The upper band at index `i`: the moving average plus `dev_up` spreads.
pub open spec fn bbands_upper_at(xs: Seq<Fixed>, period: int, dev_up: int, i: int) -> int {
    sma_at(xs, period, i) + div_trunc(dev_up * bbands_sigma(xs, period, i), SCALE as int)
}

/// The lower band at index `i`: the moving average minus `dev_dn` spreads.
pub open spec fn bbands_lower_at(xs: Seq<Fixed>, period: int, dev_dn: int, i: int) -> int {
    sma_at(xs, period, i) - div_trunc(dev_dn * bbands_sigma(xs, period, i), SCALE as int)
}

/// Whether every band value over the window is computable: the squared
/// deviations accumulate within the machine's widest integer and both bands
/// fit the unit type.
pub open spec fn bbands_fits(
    xs: Seq<Fixed>,
    period: int,
    dev_up: int,
    dev_dn: int,
    begin: int,
    count: int,
) -> bool {
    forall|j: int|
        0 <= j < count ==> {
            &&& #[trigger] sq_dev_sum(
                xs,
                sma_at(xs, period, begin + j),
                begin + j + 1 - period,
                begin + j + 1,
            ) <= u128::MAX
            &&& i64::MIN <= bbands_upper_at(xs, period, dev_up, begin + j) <= i64::MAX
            &&& i64::MIN <= bbands_lower_at(xs, period, dev_dn, begin + j) <= i64::MAX
        }
}

/// Computes the simple moving average for `count` consecutive indices
/// starting at `begin`.
pub(crate) fn kernel_sma(xs: &Vec<Fixed>, period: i32, begin: usize, count: usize) -> (out: Vec<
    Fixed,
>)
    requires
        period >= 2,
        begin as int >= period - 1,
        begin + count <= xs@.len(),
    ensures
        out@.len() == count,
        forall|j: int|
            0 <= j < count ==> (#[trigger] out@[j]).units == sma_at(
                xs@,
                period as int,
                begin + j,
            ),
{
    let p_usize = period as usize;
    let n = xs.len();
    let mut out: Vec<Fixed> = Vec::new();
    for j in 0..count
        invariant
            period >= 2,
            p_usize == period as usize,
            begin as int >= period - 1,
            n == xs@.len(),
            begin + count <= n,
            out@.len() == j,
            forall|j2: int|
                0 <= j2 < j ==> (#[trigger] out@[j2]).units == sma_at(
                    xs@,
                    period as int,
                    begin + j2,
                ),
    {
        let lo = begin + j + 1 - p_usize;
        let hi = begin + j + 1;
        let mut sum: i128 = 0;
        let mut k = lo;
        while k < hi
            invariant
                lo <= k <= hi,
                hi <= xs@.len(),
                hi - lo == period,
                period >= 2,
                sum == sum_units(xs@, lo as int, k as int),
                (k - lo) as int * (i64::MIN as int) <= sum <= (k - lo) as int * (i64::MAX as int),
            decreases hi - k,
        {
            proof {
                lemma_sum_units_extend(xs@, lo as int, k as int);
            }
            sum = sum + xs[k].units as i128;
            k = k + 1;
        }
        proof {
            assert(sum == sum_units(xs@, (begin + j + 1 - period) as int, (begin + j + 1) as int));
            crate::fixed::lemma_div_trunc_bound(
                sum as int,
                period as int,
                i64::MIN as int,
                i64::MAX as int,
            );
        }
        let q = div_trunc_i128(sum, period as i128);
        out.push(Fixed::from_scaled(q as i64));
    }
    out
}

/// Computes the median price for `count` consecutive indices starting at
/// `begin`.
pub(crate) fn kernel_medprice(high: &Vec<Fixed>, low: &Vec<Fixed>, begin: usize, count: usize) -> (
    out: Vec<Fixed>)
    requires
        begin + count <= high@.len(),
        begin + count <= low@.len(),
    ensures
        out@.len() == count,
        forall|j: int|
            0 <= j < count ==> (#[trigger] out@[j]).units == medprice_at(high@, low@, begin + j),
{
    let nh = high.len();
    let nl = low.len();
    let mut out: Vec<Fixed> = Vec::new();
    for j in 0..count
        invariant
            nh == high@.len(),
            nl == low@.len(),
            begin + count <= nh,
            begin + count <= nl,
            out@.len() == j,
            forall|j2: int|
                0 <= j2 < j ==> (#[trigger] out@[j2]).units == medprice_at(
                    high@,
                    low@,
                    begin + j2,
                ),
    {
        let i = begin + j;
        let s: i128 = high[i].units as i128 + low[i].units as i128;
        proof {
            crate::fixed::lemma_div_trunc_bound(s as int, 2, i64::MIN as int, i64::MAX as int);
        }
        let q = div_trunc_i128(s, 2);
        out.push(Fixed::from_scaled(q as i64));
    }
    out
}

/// Computes the typical price for `count` consecutive indices starting at
/// `begin`.
pub(crate) fn kernel_typprice(
    high: &Vec<Fixed>,
    low: &Vec<Fixed>,
    close: &Vec<Fixed>,
    begin: usize,
    count: usize,
) -> (out: Vec<Fixed>)
    requires
        begin + count <= high@.len(),
        begin + count <= low@.len(),
        begin + count <= close@.len(),
    ensures
        out@.len() == count,
        forall|j: int|
            0 <= j < count ==> (#[trigger] out@[j]).units == typprice_at(
                high@,
                low@,
                close@,
                begin + j,
            ),
{
    let nh = high.len();
    let nl = low.len();
    let nc = close.len();
    let mut out: Vec<Fixed> = Vec::new();
    for j in 0..count
        invariant
            nh == high@.len(),
            nl == low@.len(),
            nc == close@.len(),
            begin + count <= nh,
            begin + count <= nl,
            begin + count <= nc,
            out@.len() == j,
            forall|j2: int|
                0 <= j2 < j ==> (#[trigger] out@[j2]).units == typprice_at(
                    high@,
                    low@,
                    close@,
                    begin + j2,
                ),
    {
        let i = begin + j;
        let s: i128 = high[i].units as i128 + low[i].units as i128 + close[i].units as i128;
        proof {
            crate::fixed::lemma_div_trunc_bound(s as int, 3, i64::MIN as int, i64::MAX as int);
        }
        let q = div_trunc_i128(s, 3);
        out.push(Fixed::from_scaled(q as i64));
    }
    out
}

/// Computes the elementwise sum for `count` consecutive indices starting at
/// `begin`. Fails — with no partial output — when a sum leaves the unit
/// type's range.
pub(crate) fn kernel_add(a: &Vec<Fixed>, b: &Vec<Fixed>, begin: usize, count: usize) -> (r:
    TaResult<Vec<Fixed>>)
    requires
        begin + count <= a@.len(),
        begin + count <= b@.len(),
    ensures
        r.is_ok() == add_fits(a@, b@, begin as int, count as int),
        r matches Err(e) ==> (e matches TaError::Misc(m) && m@ == "Error calling func"@),
        r matches Ok(out) ==> out@.len() == count && forall|j: int|
            0 <= j < count ==> (#[trigger] out@[j]).units == add_at(a@, b@, begin + j),
{
    let na = a.len();
    let nb = b.len();
    let mut out: Vec<Fixed> = Vec::new();
    for j in 0..count
        invariant
            na == a@.len(),
            nb == b@.len(),
            begin + count <= na,
            begin + count <= nb,
            out@.len() == j,
            forall|j2: int|
                0 <= j2 < j ==> i64::MIN <= #[trigger] add_at(a@, b@, begin + j2) <= i64::MAX,
            forall|j2: int|
                0 <= j2 < j ==> (#[trigger] out@[j2]).units == add_at(a@, b@, begin + j2),
    {
        let i = begin + j;
        let s: i128 = a[i].units as i128 + b[i].units as i128;
        if s < i64::MIN as i128 || s > i64::MAX as i128 {
            proof {
                assert(add_at(a@, b@, begin + j) == s as int);
                assert(!add_fits(a@, b@, begin as int, count as int));
            }
            return Err(TaError::Misc("Error calling func".to_owned()));
        }
        out.push(Fixed::from_scaled(s as i64));
    }
    Ok(out)
}

/// Computes the elementwise quotient for `count` consecutive indices
/// starting at `begin`. Fails — with no partial output — on a zero divisor
/// or a quotient outside the unit type's range.
pub(crate) fn kernel_div(a: &Vec<Fixed>, b: &Vec<Fixed>, begin: usize, count: usize) -> (r:
    TaResult<Vec<Fixed>>)
    requires
        begin + count <= a@.len(),
        begin + count <= b@.len(),
    ensures
        r.is_ok() == div_fits(a@, b@, begin as int, count as int),
        r matches Err(e) ==> (e matches TaError::Misc(m) && m@ == "Error calling func"@),
        r matches Ok(out) ==> out@.len() == count && forall|j: int|
            0 <= j < count ==> (#[trigger] out@[j]).units == div_at(a@, b@, begin + j),
{
    let na = a.len();
    let nb = b.len();
    let mut out: Vec<Fixed> = Vec::new();
    for j in 0..count
        invariant
            na == a@.len(),
            nb == b@.len(),
            begin + count <= na,
            begin + count <= nb,
            out@.len() == j,
            forall|j2: int|
                0 <= j2 < j ==> (#[trigger] b@[begin + j2]).units != 0 && i64::MIN <= div_at(
                    a@,
                    b@,
                    begin + j2,
                ) <= i64::MAX,
            forall|j2: int|
                0 <= j2 < j ==> (#[trigger] out@[j2]).units == div_at(a@, b@, begin + j2),
    {
        let i = begin + j;
        if b[i].units == 0 {
            proof {
                assert(b@[begin + j as int].units == 0);
                assert(!div_fits(a@, b@, begin as int, count as int));
            }
            return Err(TaError::Misc("Error calling func".to_owned()));
        }
        let num: i128 = a[i].units as i128 * SCALE as i128;
        let q = div_trunc_i128(num, b[i].units as i128);
        proof {
            assert(q as int == div_at(a@, b@, begin + j as int));
        }
        if q < i64::MIN as i128 || q > i64::MAX as i128 {
            proof {
                assert(b@[begin + j as int].units != 0);
                assert(!div_fits(a@, b@, begin as int, count as int));
            }
            return Err(TaError::Misc("Error calling func".to_owned()));
        }
        out.push(Fixed::from_scaled(q as i64));
        proof {
            assert(b@[begin + j as int].units != 0);
        }
    }
    Ok(out)
}

/// Computes the three bands — upper, middle (the moving average), lower —
/// for `count` consecutive indices starting at `begin`. Fails — with no
/// partial output — when a squared-deviation sum leaves the machine's
/// widest integer or a band leaves the unit type's range.
pub(crate) fn kernel_bbands(
    xs: &Vec<Fixed>,
    period: i32,
    dev_up: Fixed,
    dev_dn: Fixed,
    begin: usize,
    count: usize,
) -> (r: TaResult<(Vec<Fixed>, Vec<Fixed>, Vec<Fixed>)>)
    requires
        period >= 2,
        begin as int >= period - 1,
        begin + count <= xs@.len(),
    ensures
        r.is_ok() == bbands_fits(
            xs@,
            period as int,
            dev_up.units as int,
            dev_dn.units as int,
            begin as int,
            count as int,
        ),
        r matches Err(e) ==> (e matches TaError::Misc(m) && m@ == "Error calling func"@),
        r matches Ok(out) ==> {
            &&& out.0@.len() == count
            &&& out.1@.len() == count
            &&& out.2@.len() == count
            &&& forall|j: int|
                0 <= j < count ==> (#[trigger] out.0@[j]).units == bbands_upper_at(
                    xs@,
                    period as int,
                    dev_up.units as int,
                    begin + j,
                )
            &&& forall|j: int|
                0 <= j < count ==> (#[trigger] out.1@[j]).units == sma_at(
                    xs@,
                    period as int,
                    begin + j,
                )
            &&& forall|j: int|
                0 <= j < count ==> (#[trigger] out.2@[j]).units == bbands_lower_at(
                    xs@,
                    period as int,
                    dev_dn.units as int,
                    begin + j,
                )
        },
{
    let p_usize = period as usize;
    let n = xs.len();
    let mut up: Vec<Fixed> = Vec::new();
    let mut mid_out: Vec<Fixed> = Vec::new();
    let mut low_out: Vec<Fixed> = Vec::new();
    for j in 0..count
        invariant
            period >= 2,
            p_usize == period as usize,
            begin as int >= period - 1,
            n == xs@.len(),
            begin + count <= n,
            up@.len() == j,
            mid_out@.len() == j,
            low_out@.len() == j,
            forall|j2: int|
                0 <= j2 < j ==> #[trigger] sq_dev_sum(
                    xs@,
                    sma_at(xs@, period as int, begin + j2),
                    begin + j2 + 1 - period,
                    begin + j2 + 1,
                ) <= u128::MAX && i64::MIN <= bbands_upper_at(
                    xs@,
                    period as int,
                    dev_up.units as int,
                    begin + j2,
                ) <= i64::MAX && i64::MIN <= bbands_lower_at(
                    xs@,
                    period as int,
                    dev_dn.units as int,
                    begin + j2,
                ) <= i64::MAX,
            forall|j2: int|
                0 <= j2 < j ==> (#[trigger] up@[j2]).units == bbands_upper_at(
                    xs@,
                    period as int,
                    dev_up.units as int,
                    begin + j2,
                ),
            forall|j2: int|
                0 <= j2 < j ==> (#[trigger] mid_out@[j2]).units == sma_at(
                    xs@,
                    period as int,
                    begin + j2,
                ),
            forall|j2: int|
                0 <= j2 < j ==> (#[trigger] low_out@[j2]).units == bbands_lower_at(
                    xs@,
                    period as int,
                    dev_dn.units as int,
                    begin + j2,
                ),
    {
        let lo = begin + j + 1 - p_usize;
        let hi = begin + j + 1;

        // First pass: the window's moving average.
        let mut sum: i128 = 0;
        let mut k = lo;
        while k < hi
            invariant
                lo <= k <= hi,
                hi <= xs@.len(),
                hi - lo == period,
                period >= 2,
                sum == sum_units(xs@, lo as int, k as int),
                (k - lo) as int * (i64::MIN as int) <= sum <= (k - lo) as int * (i64::MAX as int),
            decreases hi - k,
        {
            proof {
                lemma_sum_units_extend(xs@, lo as int, k as int);
            }
            sum = sum + xs[k].units as i128;
            k = k + 1;
        }
        proof {
            crate::fixed::lemma_div_trunc_bound(
                sum as int,
                period as int,
                i64::MIN as int,
                i64::MAX as int,
            );
        }
        let mu128 = div_trunc_i128(sum, period as i128);
        let mu: i64 = mu128 as i64;
        proof {
            assert(mu as int == sma_at(xs@, period as int, (begin + j) as int));
        }

        // Second pass: the sum of squared deviations from that average.
        let mut acc: u128 = 0;
        let mut k2 = lo;
        while k2 < hi
            invariant
                lo <= k2 <= hi,
                hi <= xs@.len(),
                hi - lo == period,
                period >= 2,
                j < count,
                begin + count <= xs@.len(),
                lo as int == begin + j + 1 - period,
                hi as int == begin + j + 1,
                mu as int == sma_at(xs@, period as int, (begin + j) as int),
                acc == sq_dev_sum(xs@, mu as int, lo as int, k2 as int),
            decreases hi - k2,
        {
            let d: i128 = xs[k2].units as i128 - mu as i128;
            let du: u128 = if d < 0 {
                (-d) as u128
            } else {
                d as u128
            };
            proof {
                assert((du as int) * (du as int) == (d as int) * (d as int)) by (nonlinear_arith)
                    requires
                        du as int == if d < 0 {
                            -(d as int)
                        } else {
                            d as int
                        },
                ;
                assert(du as int <= 0xffff_ffff_ffff_ffffint);
                assert((du as int) * (du as int) <= u128::MAX as int) by (nonlinear_arith)
                    requires
                        0 <= du as int <= 0xffff_ffff_ffff_ffffint,
                ;
                lemma_sq_dev_sum_extend(xs@, mu as int, lo as int, k2 as int);
            }
            let sq: u128 = du * du;
            if acc > u128::MAX - sq {
                proof {
                    // The whole window's sum is at least this partial sum,
                    // so it leaves the machine's widest integer too.
                    lemma_sq_dev_sum_split(
                        xs@,
                        mu as int,
                        lo as int,
                        (k2 + 1) as int,
                        hi as int,
                    );
                    lemma_sq_dev_sum_nonneg(xs@, mu as int, (k2 + 1) as int, hi as int);
                    assert(sq_dev_sum(xs@, mu as int, lo as int, hi as int) > u128::MAX);
                    assert(sq_dev_sum(
                        xs@,
                        sma_at(xs@, period as int, begin + j),
                        begin + j + 1 - period,
                        begin + j + 1,
                    ) > u128::MAX);
                    assert(!bbands_fits(
                        xs@,
                        period as int,
                        dev_up.units as int,
                        dev_dn.units as int,
                        begin as int,
                        count as int,
                    ));
                }
                return Err(TaError::Misc("Error calling func".to_owned()));
            }
            acc = acc + sq;
            k2 = k2 + 1;
        }

        // Spread, then the bands.
        let variance: u128 = acc / (period as u128);
        proof {
            assert(variance as int == div_trunc(acc as int, period as int));
        }
        let sigma: u128 = isqrt_u128(variance);
        proof {
            assert(sigma as int == bbands_sigma(xs@, period as int, (begin + j) as int));
        }

        let kup: i128 = dev_up.units as i128;
        let kdn: i128 = dev_dn.units as i128;
        proof {
            assert(-0x8000_0000_0000_0000_0000_0000_0000_0000int < (kup as int) * (sigma as int)
                < 0x8000_0000_0000_0000_0000_0000_0000_0000int) by (nonlinear_arith)
                requires
                    -0x8000_0000_0000_0000int <= kup as int <= 0x7fff_ffff_ffff_ffffint,
                    0 <= sigma as int <= 0xffff_ffff_ffff_ffffint,
            ;
            assert(-0x8000_0000_0000_0000_0000_0000_0000_0000int < (kdn as int) * (sigma as int)
                < 0x8000_0000_0000_0000_0000_0000_0000_0000int) by (nonlinear_arith)
                requires
                    -0x8000_0000_0000_0000int <= kdn as int <= 0x7fff_ffff_ffff_ffffint,
                    0 <= sigma as int <= 0xffff_ffff_ffff_ffffint,
            ;
        }
        let prod_up: i128 = kup * (sigma as i128);
        let prod_dn: i128 = kdn * (sigma as i128);
        proof {
            crate::fixed::lemma_div_trunc_abs(prod_up as int, SCALE as int);
            crate::fixed::lemma_div_trunc_abs(prod_dn as int, SCALE as int);
            vstd::arithmetic::div_mod::lemma_div_is_ordered(
                vstd::math::abs(prod_up as int) as int,
                0x8000_0000_0000_0000_0000_0000_0000_0000int,
                SCALE as int,
            );
            vstd::arithmetic::div_mod::lemma_div_is_ordered(
                vstd::math::abs(prod_dn as int) as int,
                0x8000_0000_0000_0000_0000_0000_0000_0000int,
                SCALE as int,
            );
        }
        let off_up: i128 = div_trunc_i128(prod_up, SCALE as i128);
        let off_dn: i128 = div_trunc_i128(prod_dn, SCALE as i128);
        let upper: i128 = mu as i128 + off_up;
        let lower: i128 = mu as i128 - off_dn;
        proof {
            assert(upper as int == bbands_upper_at(
                xs@,
                period as int,
                dev_up.units as int,
                (begin + j) as int,
            ));
            assert(lower as int == bbands_lower_at(
                xs@,
                period as int,
                dev_dn.units as int,
                (begin + j) as int,
            ));
        }
        if upper < i64::MIN as i128 || upper > i64::MAX as i128 || lower < i64::MIN as i128
            || lower > i64::MAX as i128 {
            proof {
                assert(!bbands_fits(
                    xs@,
                    period as int,
                    dev_up.units as int,
                    dev_dn.units as int,
                    begin as int,
                    count as int,
                ));
            }
            return Err(TaError::Misc("Error calling func".to_owned()));
        }
        up.push(Fixed::from_scaled(upper as i64));
        mid_out.push(Fixed::from_scaled(mu));
        low_out.push(Fixed::from_scaled(lower as i64));
    }
    Ok((up, mid_out, low_out))
}

} // verus!
