//! Fixed-point scalars: an `i64` counts units of `1 / SCALE`.
//!
//! Each arithmetic operation is specified exactly, including its rounding:
//! multiplication and division round toward zero, like Rust's integer `/`.

use vstd::prelude::*;
use vstd::arithmetic::div_mod::{
    lemma_div_is_ordered, lemma_div_multiples_vanish, lemma_div_nonincreasing,
    lemma_div_pos_is_pos,
};
use vstd::arithmetic::mul::{lemma_mul_is_associative, lemma_mul_is_commutative, lemma_mul_unary_negation};

verus! {

/// Number of raw units in 1.0.
pub const SCALE: i64 = 65536;

/// Raw value of one half.
pub const HALF: i64 = 32768;

/// Largest raw magnitude any fixed-point operation here ever returns:
/// operations promise results in `[-MAX_RAW, MAX_RAW]`, so sums of a few
/// results never overflow an `i64`.
pub const MAX_RAW: i64 = 0x4000_0000_0000_0000;

/// Truncating (round-toward-zero) integer division: the semantics of Rust's
/// `/` on signed integers, written over the Euclidean `/` of specifications.
pub open spec fn tdiv(x: int, d: int) -> int {
    if x == 0 {
        0
    } else if x > 0 && d > 0 {
        x / d
    } else if x < 0 && d < 0 {
        (x * -1) / (d * -1)
    } else if x < 0 {
        ((x * -1) / d) * -1
    } else {
        (x / (d * -1)) * -1
    }
}

/// The exact result of fixed-point multiplication.
pub open spec fn fmul_s(a: int, b: int) -> int {
    tdiv(a * b, SCALE as int)
}

/// The exact result of fixed-point division.
pub open spec fn fdiv_s(a: int, b: int) -> int {
    tdiv(a * (SCALE as int), b)
}

/// Integer square root, specified by counting up: the largest `r` with
/// `r * r <= n` (and 0 for negative arguments).
pub open spec fn sqrt_floor(n: int) -> int
    decreases n,
{
    if n <= 0 {
        0
    } else {
        let s = sqrt_floor(n - 1);
        if (s + 1) * (s + 1) <= n {
            s + 1
        } else {
            s
        }
    }
}

/// The exact result of fixed-point square root: `sqrt(x / SCALE) * SCALE`,
/// rounded down.
pub open spec fn fsqrt_s(x: int) -> int {
    sqrt_floor(x * (SCALE as int))
}

/// The exact result of raising a fixed-point base to a natural power.
pub open spec fn fpow_s(b: int, n: nat) -> int
    decreases n,
{
    if n == 0 {
        SCALE as int
    } else {
        fmul_s(b, fpow_s(b, (n - 1) as nat))
    }
}

/// Truncating division by a positive divisor keeps a symmetric bound:
/// if `|x| <= k * d` then `|tdiv(x, d)| <= k`.
pub proof fn lemma_tdiv_bound(x: int, d: int, k: int)
    requires
        d >= 1,
        k >= 0,
        -(k * d) <= x <= k * d,
    ensures
        -k <= tdiv(x, d) <= k,
{
    if x > 0 {
        lemma_div_pos_is_pos(x, d);
        lemma_div_is_ordered(x, k * d, d);
        lemma_div_multiples_vanish(k, d);
        lemma_mul_is_commutative(k, d);
    } else if x < 0 {
        let y = x * -1;
        lemma_div_pos_is_pos(y, d);
        lemma_div_is_ordered(y, k * d, d);
        lemma_div_multiples_vanish(k, d);
        lemma_mul_is_commutative(k, d);
    }
}

/// Truncating division never grows the magnitude of the dividend.
pub proof fn lemma_tdiv_abs_le(x: int, d: int)
    requires
        d != 0,
    ensures
        tdiv(x, d) <= (if x >= 0 { x } else { x * -1 }),
        -1 * (if x >= 0 { x } else { x * -1 }) <= tdiv(x, d),
{
    let m = if x >= 0 { x } else { x * -1 };
    let dd = if d > 0 { d } else { d * -1 };
    if x != 0 {
        lemma_div_pos_is_pos(m, dd);
        lemma_div_nonincreasing(m, dd);
    }
}

/// Multiplying by one is exact: `fmul_s(SCALE, c) == c`.
pub proof fn lemma_fmul_one(c: int)
    ensures
        fmul_s(SCALE as int, c) == c,
        fmul_s(c, SCALE as int) == c,
{
    if c > 0 {
        lemma_div_multiples_vanish(c, SCALE as int);
    } else if c < 0 {
        lemma_div_multiples_vanish(-c, SCALE as int);
        assert((SCALE as int) * c * -1 == (SCALE as int) * (-c));
        assert(c * (SCALE as int) * -1 == (SCALE as int) * (-c));
    }
}

/// Multiplying by a whole number of units is exact:
/// `fmul_s(c, k * SCALE) == c * k`.
pub proof fn lemma_fmul_multiple(c: int, k: int)
    ensures
        fmul_s(c, k * (SCALE as int)) == c * k,
{
    let s = SCALE as int;
    let p = c * k;
    lemma_mul_is_associative(c, k, s);
    if p > 0 {
        lemma_div_multiples_vanish(p, s);
        lemma_mul_is_commutative(p, s);
    } else if p < 0 {
        lemma_div_multiples_vanish(-p, s);
        lemma_mul_is_commutative(p, s);
        lemma_mul_unary_negation(s, p);
    }
}

/// Multiplying by zero is exact.
pub proof fn lemma_fmul_zero(c: int)
    ensures
        fmul_s(0, c) == 0,
        fmul_s(c, 0) == 0,
{
}

/// A product of two bounded factors is bounded by the product of the bounds.
pub proof fn lemma_abs_mul_le(a: int, b: int, ma: int, mb: int)
    requires
        -ma <= a <= ma,
        -mb <= b <= mb,
        0 <= ma,
        0 <= mb,
    ensures
        -(ma * mb) <= a * b <= ma * mb,
{
    assert(-(ma * mb) <= a * b <= ma * mb) by (nonlinear_arith)
        requires
            -ma <= a <= ma,
            -mb <= b <= mb,
            0 <= ma,
            0 <= mb,
    {}
}

/// `sqrt_floor(n)` really is the floor of the square root.
pub proof fn lemma_sqrt_floor(n: int)
    requires
        n >= 0,
    ensures
        sqrt_floor(n) >= 0,
        sqrt_floor(n) * sqrt_floor(n) <= n,
        n < (sqrt_floor(n) + 1) * (sqrt_floor(n) + 1),
    decreases n,
{
    if n > 0 {
        lemma_sqrt_floor(n - 1);
        let s = sqrt_floor(n - 1);
        if (s + 1) * (s + 1) <= n {
            assert(n < (s + 2) * (s + 2)) by (nonlinear_arith)
                requires
                    s >= 0,
                    n - 1 < (s + 1) * (s + 1),
            {}
        }
    }
}

/// The integer square root is below any `b` whose square exceeds `n`.
pub proof fn lemma_sqrt_floor_lt(n: int, b: int)
    requires
        0 <= n,
        0 <= b,
        n < b * b,
    ensures
        sqrt_floor(n) < b,
{
    lemma_sqrt_floor(n);
    let r = sqrt_floor(n);
    if r >= b {
        assert(r * r >= b * b) by (nonlinear_arith)
            requires
                r >= b >= 0,
        {}
    }
}

/// Two nonnegative integers whose squares bracket `n` the same way are equal.
pub proof fn lemma_sqrt_unique(n: int, a: int, b: int)
    requires
        a >= 0,
        b >= 0,
        a * a <= n < (a + 1) * (a + 1),
        b * b <= n < (b + 1) * (b + 1),
    ensures
        a == b,
{
    assert(a == b) by (nonlinear_arith)
        requires
            a >= 0,
            b >= 0,
            a * a <= n < (a + 1) * (a + 1),
            b * b <= n < (b + 1) * (b + 1),
    {}
}

/// Fixed-point multiplication: `(a * b) / SCALE`, rounded toward zero.
pub fn fmul(a: i64, b: i64) -> (r: i64)
    requires
        -0x4000_0000_0000_0000_0000 <= a * b <= 0x4000_0000_0000_0000_0000,
    ensures
        r == fmul_s(a as int, b as int),
        -MAX_RAW <= r <= MAX_RAW,
{
    let p: i128 = (a as i128) * (b as i128);
    proof {
        lemma_tdiv_bound(p as int, SCALE as int, MAX_RAW as int);
    }
    match p.checked_div(65536) {
        Some(q) => q as i64,
        None => {
            assert(false);
            0
        },
    }
}

/// Fixed-point division: `(a * SCALE) / b`, rounded toward zero.
pub fn fdiv(a: i64, b: i64) -> (r: i64)
    requires
        -0x7FFF_FFFF_FFFF <= a <= 0x7FFF_FFFF_FFFF,
        b != 0,
    ensures
        r == fdiv_s(a as int, b as int),
        -0x7FFF_FFFF_FFFF_0000 <= r <= 0x7FFF_FFFF_FFFF_0000,
{
    let n: i128 = (a as i128) * 65536;
    proof {
        lemma_tdiv_abs_le(n as int, b as int);
    }
    match n.checked_div(b as i128) {
        Some(q) => q as i64,
        None => {
            assert(false);
            0
        },
    }
}

/// Integer square root of an unsigned value below `2^126`.
pub fn isqrt(n: u128) -> (r: u128)
    requires
        n < 0x4000_0000_0000_0000_0000_0000_0000_0000,
    ensures
        r == sqrt_floor(n as int),
        r * r <= n,
        n < (r + 1) * (r + 1),
        r < 0x8000_0000_0000_0000,
{
    let mut lo: u128 = 0;
    let mut hi: u128 = 0x8000_0000_0000_0000;
    proof {
        assert((0x8000_0000_0000_0000 as int) * (0x8000_0000_0000_0000 as int)
            == 0x4000_0000_0000_0000_0000_0000_0000_0000) by (nonlinear_arith) {}
    }
    while hi - lo > 1
        invariant
            0 <= lo < hi <= 0x8000_0000_0000_0000,
            lo * lo <= n,
            n < hi * hi,
        decreases hi - lo,
    {
        let mid: u128 = lo + (hi - lo) / 2;
        proof {
            assert(mid * mid <= 0x4000_0000_0000_0000_0000_0000_0000_0000)
                by (nonlinear_arith)
                requires
                    0 <= mid as int <= 0x8000_0000_0000_0000,
            {}
        }
        if mid * mid <= n {
            lo = mid;
        } else {
            hi = mid;
        }
    }
    proof {
        lemma_sqrt_floor(n as int);
        lemma_sqrt_unique(n as int, lo as int, sqrt_floor(n as int));
    }
    lo
}

/// Fixed-point square root of a nonnegative scalar.
pub fn fsqrt(x: i64) -> (r: i64)
    requires
        0 <= x <= MAX_RAW,
    ensures
        r == fsqrt_s(x as int),
        0 <= r <= 0x8000_0000_0000,
{
    let n: u128 = (x as u128) * 65536;
    let r = isqrt(n);
    proof {
        assert(r as int <= 0x8000_0000_0000) by (nonlinear_arith)
            requires
                r as int >= 0,
                (r as int) * (r as int) <= n as int,
                n as int <= 0x4000_0000_0000_0000_0000,
        {}
    }
    r as i64
}

/// Fixed-point power with a natural exponent; the base must lie in `[0, 1]`,
/// so the result does too.
pub fn fpow(b: i64, n: u32) -> (r: i64)
    requires
        0 <= b <= SCALE,
    ensures
        r == fpow_s(b as int, n as nat),
        0 <= r <= SCALE,
{
    let mut r: i64 = SCALE;
    let mut i: u32 = 0;
    while i < n
        invariant
            i <= n,
            0 <= b <= SCALE,
            0 <= r <= SCALE,
            r == fpow_s(b as int, i as nat),
        decreases n - i,
    {
        proof {
            assert(0 <= b * r <= 65536 * 65536) by (nonlinear_arith)
                requires
                    0 <= b <= 65536,
                    0 <= r <= 65536,
            {}
            lemma_tdiv_bound(b * r, SCALE as int, SCALE as int);
        }
        r = fmul(b, r);
        i = i + 1;
    }
    r
}

/// Conservative fixed-point rounding bound for a computation of `n` steps:
/// each step rounds by at most one raw unit.
pub fn gamma(n: u32) -> (r: i64)
    ensures
        r == n,
{
    n as i64
}

/// Clamp a scalar into `[lo, hi]`.
pub fn fclamp(x: i64, lo: i64, hi: i64) -> (r: i64)
    requires
        lo <= hi,
    ensures
        r == if x < lo { lo as int } else if x > hi { hi as int } else { x as int },
{
    if x < lo {
        lo
    } else if x > hi {
        hi
    } else {
        x
    }
}

} // verus!
