use vstd::prelude::*;

verus! {

/// Signed fixed-point scalar arithmetic.
///
/// Every scalar the renderer works with is an `i64` holding a real number
/// scaled by `FX_ONE` (so `FX_ONE` itself stands for 1.0). All operations
/// truncate toward zero and saturate into the `i64` range, so they are total:
/// no input can make them overflow or panic. `fx_div` of anything by zero is
/// defined to be zero, mirroring the convention that a degenerate quotient
/// yields a harmless value rather than an error.

/// The fixed-point representation of 1.0.
pub const FX_ONE: i64 = 65536;

/// The fixed-point representation of 0.5.
pub const FX_HALF: i64 = 32768;

/// The largest representable scalar, standing in for "plus infinity".
pub const FX_MAX: i64 = i64::MAX;

/// The smallest representable scalar, standing in for "minus infinity".
/// `intersect_ray_sphere` returns it as the no-intersection sentinel.
pub const FX_MIN: i64 = i64::MIN;

/// Absolute value of a mathematical integer.
pub open spec fn iabs(x: int) -> int {
    if x >= 0 {
        x
    } else {
        -x
    }
}

/// Saturate a mathematical integer into the `i64` range.
pub open spec fn sat64(x: int) -> int {
    if x > i64::MAX as int {
        i64::MAX as int
    } else if x < i64::MIN as int {
        i64::MIN as int
    } else {
        x
    }
}

/// Division truncating toward zero, the semantics of Rust's `/` on integers.
pub open spec fn tdiv(a: int, b: int) -> int
    recommends
        b != 0,
{
    if (a >= 0) == (b >= 0) {
        iabs(a) / iabs(b)
    } else {
        -(iabs(a) / iabs(b))
    }
}

/// What `fx_mul` returns: the product at scale `FX_ONE`, truncated and saturated.
pub open spec fn fx_mul_spec(a: int, b: int) -> int {
    sat64(tdiv(a * b, FX_ONE as int))
}

/// What `fx_div` returns: the quotient at scale `FX_ONE`, truncated and
/// saturated, with a zero divisor yielding zero.
pub open spec fn fx_div_spec(a: int, b: int) -> int {
    if b == 0 {
        0
    } else {
        sat64(tdiv(a * (FX_ONE as int), b))
    }
}

/// `r` is the floor of the square root of `n`.
pub open spec fn is_sqrt_floor(n: int, r: int) -> bool {
    0 <= r && r * r <= n && n < (r + 1) * (r + 1)
}

/// The floor of the square root of a non-negative integer.
pub open spec fn sqrt_floor(n: int) -> int {
    choose|r: int| is_sqrt_floor(n, r)
}

/// What `fx_sqrt` returns: the square root at scale `FX_ONE` (the root of a
/// scalar x is the integer root of x * FX_ONE), zero on non-positive input.
pub open spec fn fx_sqrt_spec(x: int) -> int {
    if x <= 0 {
        0
    } else {
        sqrt_floor(x * (FX_ONE as int))
    }
}

/// Every non-negative integer has a floor square root.
pub proof fn lemma_sqrt_floor_exists(n: int)
    requires
        n >= 0,
    ensures
        is_sqrt_floor(n, sqrt_floor(n)),
    decreases n,
{
    if n == 0 {
        assert(is_sqrt_floor(0, 0));
    } else {
        lemma_sqrt_floor_exists(n - 1);
        let r = sqrt_floor(n - 1);
        if (r + 1) * (r + 1) <= n {
            assert((r + 2) * (r + 2) > n) by (nonlinear_arith)
                requires
                    is_sqrt_floor(n - 1, r);
            assert(is_sqrt_floor(n, r + 1));
        } else {
            assert(is_sqrt_floor(n, r));
        }
    }
    assert(exists|r: int| is_sqrt_floor(n, r));
}

/// The floor square root is unique.
pub proof fn lemma_sqrt_floor_unique(n: int, r1: int, r2: int)
    requires
        is_sqrt_floor(n, r1),
        is_sqrt_floor(n, r2),
    ensures
        r1 == r2,
{
    assert(r1 == r2) by (nonlinear_arith)
        requires
            is_sqrt_floor(n, r1),
            is_sqrt_floor(n, r2);
}

/// Saturate an `i128` into the `i64` range.
pub fn sat_to_i64(x: i128) -> (r: i64)
    ensures
        r as int == sat64(x as int),
{
    if x > i64::MAX as i128 {
        i64::MAX
    } else if x < i64::MIN as i128 {
        i64::MIN
    } else {
        x as i64
    }
}

/// Saturating fixed-point addition.
pub fn fx_add(a: i64, b: i64) -> (r: i64)
    ensures
        r as int == sat64(a + b),
{
    sat_to_i64(a as i128 + b as i128)
}

/// Saturating fixed-point subtraction.
pub fn fx_sub(a: i64, b: i64) -> (r: i64)
    ensures
        r as int == sat64(a - b),
{
    sat_to_i64(a as i128 - b as i128)
}

/// Saturating fixed-point negation.
pub fn fx_neg(a: i64) -> (r: i64)
    ensures
        r as int == sat64(-a),
{
    if a == i64::MIN {
        i64::MAX
    } else {
        -a
    }
}

/// The product of two `i64`-range values fits comfortably inside `i128`.
pub proof fn lemma_mul_i64_fits(a: int, b: int)
    by (nonlinear_arith)
    requires
        -0x8000_0000_0000_0000 <= a < 0x8000_0000_0000_0000,
        -0x8000_0000_0000_0000 <= b < 0x8000_0000_0000_0000,
    ensures
        -0x4000_0000_0000_0000_0000_0000_0000_0000 <= a * b,
        a * b <= 0x4000_0000_0000_0000_0000_0000_0000_0000,
{
}

/// Fixed-point multiplication: truncates toward zero, saturates.
pub fn fx_mul(a: i64, b: i64) -> (r: i64)
    ensures
        r as int == fx_mul_spec(a as int, b as int),
{
    proof {
        lemma_mul_i64_fits(a as int, b as int);
    }
    let p: i128 = (a as i128) * (b as i128);
    let q: i128 = p / 65536;
    sat_to_i64(q)
}

/// Fixed-point division: truncates toward zero, saturates, zero divisor
/// yields zero.
pub fn fx_div(a: i64, b: i64) -> (r: i64)
    ensures
        r as int == fx_div_spec(a as int, b as int),
{
    if b == 0 {
        0
    } else {
        let n: i128 = (a as i128) * 65536;
        let bb: i128 = b as i128;
        let mag: u128 = if n >= 0 {
            n as u128
        } else {
            (-n) as u128
        } / if bb >= 0 {
            bb as u128
        } else {
            (-bb) as u128
        };
        let q: i128 = if (n >= 0) == (bb >= 0) {
            mag as i128
        } else {
            -(mag as i128)
        };
        sat_to_i64(q)
    }
}

/// Floor square root of an arbitrary `u128`, by bisection.
fn isqrt_u128(n: u128) -> (r: u64)
    ensures
        is_sqrt_floor(n as int, r as int),
{
    let mut lo: u128 = 0;
    let mut hi: u128 = 0x1_0000_0000_0000_0000;
    assert((hi as int) * (hi as int) > n as int) by (nonlinear_arith)
        requires
            hi == 0x1_0000_0000_0000_0000u128,
            n <= u128::MAX;
    while lo + 1 < hi
        invariant
            0 <= lo < hi <= 0x1_0000_0000_0000_0000u128,
            (lo as int) * (lo as int) <= n as int,
            (hi as int) * (hi as int) > n as int,
        decreases hi - lo,
    {
        let mid: u128 = lo + (hi - lo) / 2;
        assert(lo < mid < hi);
        assert((mid as int) * (mid as int) < u128::MAX as int) by (nonlinear_arith)
            requires
                mid < 0x1_0000_0000_0000_0000u128;
        if mid * mid <= n {
            lo = mid;
        } else {
            hi = mid;
        }
    }
    assert(hi == lo + 1);
    lo as u64
}

/// Fixed-point square root: the floor root at scale `FX_ONE`, zero on
/// non-positive input.
pub fn fx_sqrt(x: i64) -> (r: i64)
    ensures
        r as int == fx_sqrt_spec(x as int),
{
    if x <= 0 {
        0
    } else {
        let n: u128 = (x as u128) * 65536;
        let s: u64 = isqrt_u128(n);
        proof {
            lemma_sqrt_floor_exists(n as int);
            lemma_sqrt_floor_unique(n as int, s as int, sqrt_floor(n as int));
            assert(s as int * (s as int) <= n as int);
            assert((s as int) < 0x100_0000_0000int) by (nonlinear_arith)
                requires
                    (s as int) * (s as int) <= n as int,
                    (n as int) < 0x10000_0000_0000_0000_0000int;
        }
        s as i64
    }
}

/// Truncating division of non-negatives is non-negative.
pub proof fn lemma_tdiv_nonneg(a: int, b: int)
    by (nonlinear_arith)
    requires
        a >= 0,
        b > 0,
    ensures
        tdiv(a, b) >= 0,
{
}

/// The fixed-point product of non-negatives is non-negative.
pub proof fn lemma_fx_mul_nonneg(a: int, b: int)
    requires
        a >= 0,
        b >= 0,
    ensures
        fx_mul_spec(a, b) >= 0,
{
    assert(a * b >= 0) by (nonlinear_arith)
        requires
            a >= 0,
            b >= 0;
    lemma_tdiv_nonneg(a * b, FX_ONE as int);
}

/// The fixed-point quotient of non-negatives is non-negative.
pub proof fn lemma_fx_div_nonneg(a: int, b: int)
    requires
        a >= 0,
        b >= 0,
    ensures
        fx_div_spec(a, b) >= 0,
{
    if b != 0 {
        lemma_tdiv_nonneg(a * (FX_ONE as int), b);
    }
}

/// The fixed-point square root is non-negative.
pub proof fn lemma_fx_sqrt_nonneg(x: int)
    ensures
        fx_sqrt_spec(x) >= 0,
{
    if x > 0 {
        lemma_sqrt_floor_exists(x * (FX_ONE as int));
    }
}

/// What `fx_pow` returns: the `e`-th fixed-point power of `base`
/// (`fx_mul` iterated, so truncation compounds as in the executable code).
pub open spec fn fx_pow_spec(base: int, e: nat) -> int
    decreases e,
{
    if e == 0 {
        FX_ONE as int
    } else {
        fx_mul_spec(base, fx_pow_spec(base, (e - 1) as nat))
    }
}

/// Fixed-point powers of a non-negative base are non-negative.
pub proof fn lemma_fx_pow_nonneg(base: int, e: nat)
    requires
        base >= 0,
    ensures
        fx_pow_spec(base, e) >= 0,
    decreases e,
{
    if e > 0 {
        lemma_fx_pow_nonneg(base, (e - 1) as nat);
        lemma_fx_mul_nonneg(base, fx_pow_spec(base, (e - 1) as nat));
    }
}

/// Fixed-point power with a non-negative integer exponent.
pub fn fx_pow(base: i64, e: u64) -> (r: i64)
    ensures
        r as int == fx_pow_spec(base as int, e as nat),
{
    let mut r: i64 = FX_ONE;
    let mut i: u64 = 0;
    while i < e
        invariant
            0 <= i <= e,
            r as int == fx_pow_spec(base as int, i as nat),
        decreases e - i,
    {
        let ghost r0 = r as int;
        r = fx_mul(r, base);
        proof {
            // the specification multiplies in the other order
            assert(r0 * (base as int) == (base as int) * r0) by (nonlinear_arith);
        }
        i = i + 1;
    }
    r
}

} // verus!
