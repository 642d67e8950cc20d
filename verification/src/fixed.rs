//! Q16.16 fixed-point scalars stored in `i64`.
//!
//! Every operation is total and saturates at `FX_MAX` in magnitude, so the
//! whole arithmetic layer is a deterministic function of its inputs: two
//! equal argument tuples always give bit-equal results, on any build.

use vstd::prelude::*;

verus! {

/// The fixed-point representation of 1.0 (one in Q16.16).
pub const FX_ONE: i64 = 65536;

/// Saturation bound for every operation result: 2^39 raw, about 8.4e6 as a value.
pub const FX_MAX: i64 = 549755813888;

/// Magnitude of an integer.
pub open spec fn int_abs(x: int) -> int {
    if x < 0 {
        -x
    } else {
        x
    }
}

/// Saturate a mathematical result into the representable band.
pub open spec fn fx_clip(x: int) -> int {
    if x > FX_MAX {
        FX_MAX as int
    } else if x < -(FX_MAX as int) {
        -(FX_MAX as int)
    } else {
        x
    }
}

/// Division truncating toward zero, with magnitude semantics; `q` must not be zero
/// for the result to be meaningful.
pub open spec fn tdiv(p: int, q: int) -> int
    recommends
        q != 0,
{
    if (p < 0) == (q < 0) {
        int_abs(p) / int_abs(q)
    } else {
        -(int_abs(p) / int_abs(q))
    }
}

/// Fixed-point sum.
pub open spec fn fx_add_s(a: int, b: int) -> int {
    fx_clip(a + b)
}

/// Fixed-point difference.
pub open spec fn fx_sub_s(a: int, b: int) -> int {
    fx_clip(a - b)
}

/// Fixed-point negation.
pub open spec fn fx_neg_s(a: int) -> int {
    fx_clip(-a)
}

/// Fixed-point product: the wide product rescaled by one, truncated toward zero.
pub open spec fn fx_mul_s(a: int, b: int) -> int {
    fx_clip(tdiv(a * b, FX_ONE as int))
}

/// Fixed-point quotient; division by zero is defined as zero.
pub open spec fn fx_div_s(a: int, b: int) -> int {
    if b == 0 {
        0
    } else {
        fx_clip(tdiv(a * (FX_ONE as int), b))
    }
}

/// `r` is the integer square root of `m`.
pub open spec fn is_isqrt(m: int, r: int) -> bool {
    0 <= r && r * r <= m && m < (r + 1) * (r + 1)
}

/// The integer square root of a nonnegative integer.
pub open spec fn isqrt(m: int) -> int {
    choose|r: int| is_isqrt(m, r)
}

/// Fixed-point square root; nonpositive inputs are defined to map to zero.
pub open spec fn fx_sqrt_s(a: int) -> int {
    if a <= 0 {
        0
    } else {
        fx_clip(isqrt(a * (FX_ONE as int)))
    }
}

/// Embed a small integer (a pixel count, a coordinate) as a fixed-point value.
pub open spec fn fx_of_int_s(n: int) -> int {
    fx_clip(n * (FX_ONE as int))
}

/// There is at most one integer square root.
pub proof fn lemma_isqrt_unique(m: int, r1: int, r2: int)
    requires
        is_isqrt(m, r1),
        is_isqrt(m, r2),
    ensures
        r1 == r2,
{
    assert(r1 == r2) by (nonlinear_arith)
        requires
            0 <= r1 && r1 * r1 <= m && m < (r1 + 1) * (r1 + 1),
            0 <= r2 && r2 * r2 <= m && m < (r2 + 1) * (r2 + 1),
    ;
}

fn fx_clip_exec(x: i128) -> (r: i64)
    ensures
        r as int == fx_clip(x as int),
{
    if x > FX_MAX as i128 {
        FX_MAX
    } else if x < -(FX_MAX as i128) {
        -FX_MAX
    } else {
        x as i64
    }
}

/// Saturating fixed-point addition.
pub fn fx_add(a: i64, b: i64) -> (r: i64)
    ensures
        r as int == fx_add_s(a as int, b as int),
{
    fx_clip_exec(a as i128 + b as i128)
}

/// Saturating fixed-point subtraction.
pub fn fx_sub(a: i64, b: i64) -> (r: i64)
    ensures
        r as int == fx_sub_s(a as int, b as int),
{
    fx_clip_exec(a as i128 - b as i128)
}

/// Saturating fixed-point negation.
pub fn fx_neg(a: i64) -> (r: i64)
    ensures
        r as int == fx_neg_s(a as int),
{
    fx_clip_exec(-(a as i128))
}

fn abs_u128(a: i64) -> (r: u128)
    ensures
        r as int == int_abs(a as int),
{
    if a >= 0 {
        a as u128
    } else {
        (-(a as i128)) as u128
    }
}

/// Saturating fixed-point multiplication, truncating toward zero.
pub fn fx_mul(a: i64, b: i64) -> (r: i64)
    ensures
        r as int == fx_mul_s(a as int, b as int),
{
    let ua: u128 = abs_u128(a);
    let ub: u128 = abs_u128(b);
    proof {
        assert(ua * ub <= 0x8000_0000_0000_0000u128 * 0x8000_0000_0000_0000u128)
            by (nonlinear_arith)
            requires
                ua <= 0x8000_0000_0000_0000u128,
                ub <= 0x8000_0000_0000_0000u128,
        ;
    }
    let m: u128 = (ua * ub) / 65536;
    let neg: bool = (a < 0) != (b < 0);
    proof {
        assert(ua * ub == int_abs(a as int * b as int)) by (nonlinear_arith)
            requires
                ua as int == int_abs(a as int),
                ub as int == int_abs(b as int),
        ;
        if neg {
            assert(a as int * b as int <= 0) by (nonlinear_arith)
                requires
                    (a < 0) != (b < 0),
            ;
        } else {
            assert(a as int * b as int >= 0) by (nonlinear_arith)
                requires
                    (a < 0) == (b < 0),
            ;
        }
    }
    let mag: i64 = if m > FX_MAX as u128 {
        FX_MAX
    } else {
        m as i64
    };
    if neg {
        -mag
    } else {
        mag
    }
}

/// Saturating fixed-point division, truncating toward zero; zero when `b` is zero.
pub fn fx_div(a: i64, b: i64) -> (r: i64)
    ensures
        r as int == fx_div_s(a as int, b as int),
{
    if b == 0 {
        return 0;
    }
    let ua: u128 = abs_u128(a);
    let ub: u128 = abs_u128(b);
    let m: u128 = (ua * 65536) / ub;
    let neg: bool = (a < 0) != (b < 0);
    proof {
        assert(ua * 65536 == int_abs(a as int * 65536)) by (nonlinear_arith)
            requires
                ua as int == int_abs(a as int),
        ;
        if neg {
            assert((a as int * 65536 < 0) != ((b as int) < 0)) by (nonlinear_arith)
                requires
                    (a < 0) != (b < 0),
                    b != 0,
                    ua as int == int_abs(a as int),
                    ua != 0 || a == 0,
        ;
        }
    }
    let mag: i64 = if m > FX_MAX as u128 {
        FX_MAX
    } else {
        m as i64
    };
    if neg {
        -mag
    } else {
        mag
    }
}

fn isqrt_u128(m: u128) -> (r: u128)
    requires
        m < 1208925819614629174706176u128,  // 2^80
    ensures
        is_isqrt(m as int, r as int),
{
    let mut lo: u128 = 0;
    let mut hi: u128 = 1099511627776u128;  // 2^40
    proof {
        assert(1099511627776u128 * 1099511627776u128 == 1208925819614629174706176u128)
            by (nonlinear_arith);
    }
    while lo + 1 < hi
        invariant
            lo < hi <= 1099511627776u128,
            lo * lo <= m as int,
            (m as int) < hi * hi,
        decreases hi - lo,
    {
        let mid: u128 = lo + (hi - lo) / 2;
        proof {
            assert(mid * mid <= 1099511627776u128 * 1099511627776u128) by (nonlinear_arith)
                requires
                    mid <= 1099511627776u128,
            ;
        }
        if mid * mid <= m {
            lo = mid;
        } else {
            hi = mid;
        }
    }
    lo
}

/// Saturating fixed-point square root; zero on nonpositive inputs.
pub fn fx_sqrt(a: i64) -> (r: i64)
    ensures
        r as int == fx_sqrt_s(a as int),
{
    if a <= 0 {
        return 0;
    }
    let m: u128 = (a as u128) * 65536;
    let s: u128 = isqrt_u128(m);
    proof {
        lemma_isqrt_unique(m as int, s as int, isqrt(m as int));
    }
    if s > FX_MAX as u128 {
        FX_MAX
    } else {
        s as i64
    }
}

/// Embed a small integer as a saturating fixed-point value.
pub fn fx_of_int(n: i64) -> (r: i64)
    ensures
        r as int == fx_of_int_s(n as int),
{
    fx_clip_exec(n as i128 * 65536)
}

} // verus!
