//! The separable Mitchell reconstruction filter: a rectangular filter
//! centered at (0, 0) that, when evaluated for a given offset, returns a
//! weight, and returns exactly zero outside its support rectangle.

use vstd::prelude::*;
use crate::fixed::{
    fdiv, fdiv_s, fmul, fmul_s, lemma_abs_mul_le, lemma_tdiv_bound, SCALE,
};
use crate::vector::Vec2;

verus! {

/// Largest filter radius the evaluation accepts.
pub const FILTER_R_MAX: i64 = 0x100_0000;

/// Largest offset magnitude the evaluation accepts.
pub const FILTER_P_MAX: i64 = 0x4000_0000_0000;

/// A filter whose shape and radii make `eval_at` well defined.
pub open spec fn wf_filter(f: MitchellFilter) -> bool {
    &&& 1 <= f.half_width <= FILTER_R_MAX
    &&& 1 <= f.half_height <= FILTER_R_MAX
    &&& 0 <= f.b <= SCALE
    &&& 0 <= f.c <= SCALE
}

/// The Mitchell 1D kernel on the normalized offset `t` (support `[-1, 1]`):
/// a piecewise cubic in `x = |2t|`, zero beyond `x = 2`.
pub open spec fn mitchell1d_s(bb: int, cc: int, t: int) -> int {
    let x = if 2 * t >= 0 { 2 * t } else { -(2 * t) };
    let x2 = fmul_s(x, x);
    let x3 = fmul_s(x2, x);
    if x > 2 * SCALE {
        0
    } else if x > SCALE {
        fdiv_s(
            fmul_s(-bb - 6 * cc, x3) + fmul_s(6 * bb + 30 * cc, x2) + fmul_s(
                -12 * bb - 48 * cc,
                x,
            ) + 8 * bb + 24 * cc,
            6 * SCALE,
        )
    } else {
        fdiv_s(
            fmul_s(12 * SCALE - 9 * bb - 6 * cc, x3) + fmul_s(-18 * SCALE + 12 * bb + 6 * cc, x2)
                + 6 * SCALE - 2 * bb,
            6 * SCALE,
        )
    }
}

/// The filter weight at offset `p`: zero outside the support rectangle,
/// else the product of the two 1D kernels of the normalized offsets.
pub open spec fn eval_at_s(f: MitchellFilter, p: Vec2) -> int {
    if p.x > f.half_width || p.x < -f.half_width || p.y > f.half_height || p.y
        < -f.half_height {
        0
    } else {
        fmul_s(
            mitchell1d_s(f.b as int, f.c as int, fdiv_s(p.x as int, f.half_width as int)),
            mitchell1d_s(f.b as int, f.c as int, fdiv_s(p.y as int, f.half_height as int)),
        )
    }
}

/// A separable Mitchell cubic reconstruction filter with shape
/// coefficients `b` and `c` and independent x/y radii.
#[derive(Clone, Copy, Debug, PartialEq, Eq, Structural)]
pub struct MitchellFilter {
    pub half_width: i64,
    pub half_height: i64,
    pub b: i64,
    pub c: i64,
}

/// Fixed-point product of two kernel-scale values.
fn kmul(a: i64, b: i64) -> (r: i64)
    requires
        -0x100_0000 <= a <= 0x100_0000,
        -0x100_0000 <= b <= 0x100_0000,
    ensures
        r == fmul_s(a as int, b as int),
        -0x1_0000_0000 <= r <= 0x1_0000_0000,
{
    proof {
        lemma_abs_mul_le(a as int, b as int, 0x100_0000, 0x100_0000);
        lemma_tdiv_bound((a as int) * (b as int), SCALE as int, 0x1_0000_0000);
    }
    fmul(a, b)
}

/// The Mitchell 1D kernel of the normalized offset `t`.
fn mitchell_1d(bb: i64, cc: i64, t: i64) -> (r: i64)
    requires
        0 <= bb <= SCALE,
        0 <= cc <= SCALE,
        -SCALE <= t <= SCALE,
    ensures
        r == mitchell1d_s(bb as int, cc as int, t as int),
{
    let x: i64 = if 2 * t >= 0 { 2 * t } else { -(2 * t) };
    proof {
        lemma_abs_mul_le(x as int, x as int, 131072, 131072);
        lemma_tdiv_bound((x as int) * (x as int), 65536, 262144);
    }
    let x2 = kmul(x, x);
    proof {
        lemma_abs_mul_le(x2 as int, x as int, 262144, 131072);
        lemma_tdiv_bound((x2 as int) * (x as int), 65536, 524288);
    }
    let x3 = kmul(x2, x);
    if x > 2 * SCALE {
        0
    } else if x > SCALE {
        let c3: i64 = -bb - 6 * cc;
        let c2: i64 = 6 * bb + 30 * cc;
        let c1: i64 = 0 - 12 * bb - 48 * cc;
        let c0: i64 = 8 * bb + 24 * cc;
        let sum = kmul(c3, x3) + kmul(c2, x2) + kmul(c1, x) + c0;
        fdiv(sum, 6 * SCALE)
    } else {
        let d3: i64 = 12 * SCALE - 9 * bb - 6 * cc;
        let d2: i64 = -18 * SCALE + 12 * bb + 6 * cc;
        let d0: i64 = 6 * SCALE - 2 * bb;
        let sum = kmul(d3, x3) + kmul(d2, x2) + d0;
        fdiv(sum, 6 * SCALE)
    }
}

impl MitchellFilter {
    /// A filter with the given radii and shape coefficients.
    pub fn new(half_width: i64, half_height: i64, b: i64, c: i64) -> (r: MitchellFilter)
        ensures
            r.half_width == half_width,
            r.half_height == half_height,
            r.b == b,
            r.c == c,
    {
        MitchellFilter { half_width, half_height, b, c }
    }

    /// Half the width of the filter's support.
    pub fn half_width(&self) -> (r: i64)
        ensures
            r == self.half_width,
    {
        self.half_width
    }

    /// Half the height of the filter's support.
    pub fn half_height(&self) -> (r: i64)
        ensures
            r == self.half_height,
    {
        self.half_height
    }

    /// The filter weight for the given offset from the filter's center.
    /// Outside the support rectangle the weight is exactly zero.
    pub fn eval_at(&self, p: Vec2) -> (r: i64)
        requires
            wf_filter(*self),
            -FILTER_P_MAX <= p.x <= FILTER_P_MAX,
            -FILTER_P_MAX <= p.y <= FILTER_P_MAX,
        ensures
            r == eval_at_s(*self, p),
            (p.x > self.half_width || p.x < -self.half_width || p.y > self.half_height || p.y
                < -self.half_height) ==> r == 0,
    {
        if p.x > self.half_width || p.x < -self.half_width || p.y > self.half_height || p.y
            < -self.half_height {
            return 0;
        }
        proof {
            lemma_tdiv_bound((p.x as int) * (SCALE as int), self.half_width as int, SCALE as int);
            lemma_tdiv_bound((p.y as int) * (SCALE as int), self.half_height as int, SCALE as int);
        }
        let tx = fdiv(p.x, self.half_width);
        let ty = fdiv(p.y, self.half_height);
        let wx = mitchell_1d(self.b, self.c, tx);
        let wy = mitchell_1d(self.b, self.c, ty);
        proof {
            lemma_m1d_bound(self.b as int, self.c as int, tx as int);
            lemma_m1d_bound(self.b as int, self.c as int, ty as int);
            lemma_abs_mul_le(wx as int, wy as int, 0x400_0000, 0x400_0000);
        }
        fmul(wx, wy)
    }
}

/// The filter weight is bounded by `2^36` raw units, wherever it is
/// evaluated.
pub proof fn lemma_eval_bound(f: MitchellFilter, p: Vec2)
    requires
        wf_filter(f),
    ensures
        -0x10_0000_0000 <= eval_at_s(f, p) <= 0x10_0000_0000,
{
    if !(p.x > f.half_width || p.x < -f.half_width || p.y > f.half_height || p.y
        < -f.half_height) {
        let tx = fdiv_s(p.x as int, f.half_width as int);
        let ty = fdiv_s(p.y as int, f.half_height as int);
        lemma_m1d_bound(f.b as int, f.c as int, tx);
        lemma_m1d_bound(f.b as int, f.c as int, ty);
        lemma_abs_mul_le(
            mitchell1d_s(f.b as int, f.c as int, tx),
            mitchell1d_s(f.b as int, f.c as int, ty),
            0x400_0000,
            0x400_0000,
        );
        lemma_tdiv_bound(
            mitchell1d_s(f.b as int, f.c as int, tx) * mitchell1d_s(f.b as int, f.c as int, ty),
            65536,
            0x10_0000_0000,
        );
    }
}

/// The 1D kernel value is bounded by `2^26` raw units.
proof fn lemma_m1d_bound(bb: int, cc: int, t: int)
    requires
        0 <= bb <= SCALE,
        0 <= cc <= SCALE,
    ensures
        -0x400_0000 <= mitchell1d_s(bb, cc, t) <= 0x400_0000,
{
    let x = if 2 * t >= 0 { 2 * t } else { -(2 * t) };
    let x2 = fmul_s(x, x);
    let x3 = fmul_s(x2, x);
    if x > 2 * SCALE {
    } else if x > SCALE {
        let sum = fmul_s(-bb - 6 * cc, x3) + fmul_s(6 * bb + 30 * cc, x2) + fmul_s(
            -12 * bb - 48 * cc,
            x,
        ) + 8 * bb + 24 * cc;
        lemma_small_terms(bb, cc, x, x2, x3);
        lemma_tdiv_bound(sum * 65536, 393216, 0x400_0000);
    } else {
        let sum = fmul_s(12 * SCALE - 9 * bb - 6 * cc, x3) + fmul_s(
            -18 * SCALE + 12 * bb + 6 * cc,
            x2,
        ) + 6 * SCALE - 2 * bb;
        lemma_small_terms(bb, cc, x, x2, x3);
        lemma_tdiv_bound(sum * 65536, 393216, 0x400_0000);
    }
}

/// Bounds on the powers and products appearing in the kernel cubics when
/// the normalized offset is within support.
proof fn lemma_small_terms(bb: int, cc: int, x: int, x2: int, x3: int)
    requires
        0 <= bb <= SCALE,
        0 <= cc <= SCALE,
        0 <= x <= 2 * SCALE,
        x2 == fmul_s(x, x),
        x3 == fmul_s(x2, x),
    ensures
        -0x200_0000 <= fmul_s(-bb - 6 * cc, x3) <= 0x200_0000,
        -0x800_0000 <= fmul_s(6 * bb + 30 * cc, x2) <= 0x800_0000,
        -0x800_0000 <= fmul_s(-12 * bb - 48 * cc, x) <= 0x800_0000,
        -0x800_0000 <= fmul_s(12 * SCALE - 9 * bb - 6 * cc, x3) <= 0x800_0000,
        -0x800_0000 <= fmul_s(-18 * SCALE + 12 * bb + 6 * cc, x2) <= 0x800_0000,
        -262144 <= x2 <= 262144,
        -524288 <= x3 <= 524288,
{
    lemma_abs_mul_le(x, x, 131072, 131072);
    lemma_tdiv_bound(x * x, 65536, 262144);
    lemma_abs_mul_le(x2, x, 262144, 131072);
    lemma_tdiv_bound(x2 * x, 65536, 524288);
    lemma_abs_mul_le(-bb - 6 * cc, x3, 458752, 524288);
    lemma_tdiv_bound((-bb - 6 * cc) * x3, 65536, 3670016);
    lemma_abs_mul_le(6 * bb + 30 * cc, x2, 2359296, 262144);
    lemma_tdiv_bound((6 * bb + 30 * cc) * x2, 65536, 9437184);
    lemma_abs_mul_le(-12 * bb - 48 * cc, x, 3932160, 131072);
    lemma_tdiv_bound((-12 * bb - 48 * cc) * x, 65536, 7864320);
    lemma_abs_mul_le(12 * SCALE - 9 * bb - 6 * cc, x3, 983040, 524288);
    lemma_tdiv_bound((12 * SCALE - 9 * bb - 6 * cc) * x3, 65536, 7864320);
    lemma_abs_mul_le(-18 * SCALE + 12 * bb + 6 * cc, x2, 1179648, 262144);
    lemma_tdiv_bound((-18 * SCALE + 12 * bb + 6 * cc) * x2, 65536, 4718592);
}

} // verus!
