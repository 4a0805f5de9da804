//! Three-component fixed-point vectors and points, with exact contracts for
//! every operation.

use vstd::prelude::*;
use crate::fixed::{
    fdiv, fdiv_s, fmul, fmul_s, fsqrt, fsqrt_s, lemma_abs_mul_le, lemma_tdiv_bound, sqrt_floor,
    SCALE,
};
use vstd::arithmetic::div_mod::{
    lemma_div_pos_is_pos, lemma_fundamental_div_mod, lemma_mod_division_less_than_divisor,
};

verus! {

/// Bound on the components of a scene-scale vector: products of two such
/// components stay inside the range `fmul` accepts.
pub const VMAX: i64 = 0x40_0000_0000;

/// Bound on the components of a unit-scale vector (a normalized direction or
/// a color channel): long chains of products of such components stay in range.
pub const UMAX: i64 = 0x100_0000;

/// Bound on every component an operation here ever returns.
pub const CMAX: i64 = 0x1000_0000_0000_0000;

/// A point or vector in 3-space; each component is a fixed-point scalar.
#[derive(Clone, Copy, Debug, PartialEq, Eq, Structural)]
pub struct Vec3 {
    pub x: i64,
    pub y: i64,
    pub z: i64,
}

/// A point in 2-space; each component is a fixed-point scalar.
#[derive(Clone, Copy, Debug, PartialEq, Eq, Structural)]
pub struct Vec2 {
    pub x: i64,
    pub y: i64,
}

/// An integer pixel coordinate on the film.
#[derive(Clone, Copy, Debug, PartialEq, Eq, Structural)]
pub struct Pixel {
    pub x: i32,
    pub y: i32,
}

/// One of the three coordinate axes.
#[derive(Clone, Copy, Debug, PartialEq, Eq, Structural)]
pub enum Axis3 {
    X,
    Y,
    Z,
}

/// Every component of `v` lies in `[-m, m]`.
pub open spec fn okv(v: Vec3, m: i64) -> bool {
    &&& -m <= v.x <= m
    &&& -m <= v.y <= m
    &&& -m <= v.z <= m
}

/// The exact fixed-point dot product.
pub open spec fn dot_s(a: Vec3, b: Vec3) -> int {
    fmul_s(a.x as int, b.x as int) + fmul_s(a.y as int, b.y as int) + fmul_s(
        a.z as int,
        b.z as int,
    )
}

/// The x component of the exact fixed-point cross product.
pub open spec fn cross_x_s(a: Vec3, b: Vec3) -> int {
    fmul_s(a.y as int, b.z as int) - fmul_s(a.z as int, b.y as int)
}

/// The y component of the exact fixed-point cross product.
pub open spec fn cross_y_s(a: Vec3, b: Vec3) -> int {
    fmul_s(a.z as int, b.x as int) - fmul_s(a.x as int, b.z as int)
}

/// The z component of the exact fixed-point cross product.
pub open spec fn cross_z_s(a: Vec3, b: Vec3) -> int {
    fmul_s(a.x as int, b.y as int) - fmul_s(a.y as int, b.x as int)
}

/// The componentwise difference of two points, as a value (the components
/// stay in range whenever both points are scene-scale).
pub open spec fn sub_v_s(a: Vec3, b: Vec3) -> Vec3 {
    Vec3 { x: (a.x - b.x) as i64, y: (a.y - b.y) as i64, z: (a.z - b.z) as i64 }
}

/// The componentwise negation, as a value.
pub open spec fn neg_v_s(v: Vec3) -> Vec3 {
    Vec3 { x: (-v.x) as i64, y: (-v.y) as i64, z: (-v.z) as i64 }
}

/// The exact fixed-point cross product, as a value.
pub open spec fn cross_vec_s(a: Vec3, b: Vec3) -> Vec3 {
    Vec3 { x: cross_x_s(a, b) as i64, y: cross_y_s(a, b) as i64, z: cross_z_s(a, b) as i64 }
}

/// The exact length of the fixed-point normalization divisor.
pub open spec fn mag_s(v: Vec3) -> int {
    fsqrt_s(dot_s(v, v))
}

/// Whether every component of `v` lies in `[-m, m]`.
pub fn okv_check(v: Vec3, m: i64) -> (r: bool)
    requires
        m >= 0,
    ensures
        r == okv(v, m),
{
    -m <= v.x && v.x <= m && -m <= v.y && v.y <= m && -m <= v.z && v.z <= m
}

/// Fixed-point multiplication of two scene-scale components, with the
/// result bound needed to sum three products without overflow.
pub(crate) fn cmul(a: i64, b: i64) -> (r: i64)
    requires
        -VMAX <= a <= VMAX,
        -VMAX <= b <= VMAX,
    ensures
        r == fmul_s(a as int, b as int),
        -CMAX <= r <= CMAX,
{
    proof {
        lemma_abs_mul_le(a as int, b as int, VMAX as int, VMAX as int);
        lemma_tdiv_bound((a as int) * (b as int), SCALE as int, CMAX as int);
    }
    fmul(a, b)
}

impl Vec3 {
    /// Build a vector from its components.
    pub fn new(x: i64, y: i64, z: i64) -> (r: Vec3)
        ensures
            r.x == x,
            r.y == y,
            r.z == z,
    {
        Vec3 { x, y, z }
    }

    /// Componentwise sum.
    pub fn add(self, o: Vec3) -> (r: Vec3)
        requires
            okv(self, 0x2000_0000_0000_0000),
            okv(o, 0x2000_0000_0000_0000),
        ensures
            r.x == self.x + o.x,
            r.y == self.y + o.y,
            r.z == self.z + o.z,
    {
        Vec3 { x: self.x + o.x, y: self.y + o.y, z: self.z + o.z }
    }

    /// Componentwise difference.
    pub fn sub(self, o: Vec3) -> (r: Vec3)
        requires
            okv(self, 0x2000_0000_0000_0000),
            okv(o, 0x2000_0000_0000_0000),
        ensures
            r.x == self.x - o.x,
            r.y == self.y - o.y,
            r.z == self.z - o.z,
    {
        Vec3 { x: self.x - o.x, y: self.y - o.y, z: self.z - o.z }
    }

    /// Componentwise negation.
    pub fn neg(self) -> (r: Vec3)
        requires
            okv(self, 0x2000_0000_0000_0000),
        ensures
            r.x == -self.x,
            r.y == -self.y,
            r.z == -self.z,
    {
        Vec3 { x: -self.x, y: -self.y, z: -self.z }
    }

    /// Multiply every component by the scalar `s`.
    pub fn scale(self, s: i64) -> (r: Vec3)
        requires
            okv(self, VMAX),
            -VMAX <= s <= VMAX,
        ensures
            r.x == fmul_s(self.x as int, s as int),
            r.y == fmul_s(self.y as int, s as int),
            r.z == fmul_s(self.z as int, s as int),
            okv(r, CMAX),
    {
        Vec3 { x: cmul(self.x, s), y: cmul(self.y, s), z: cmul(self.z, s) }
    }

    /// Fixed-point dot product.
    pub fn dot(self, o: Vec3) -> (r: i64)
        requires
            okv(self, VMAX),
            okv(o, VMAX),
        ensures
            r == dot_s(self, o),
            -0x3000_0000_0000_0000 <= r <= 0x3000_0000_0000_0000,
    {
        cmul(self.x, o.x) + cmul(self.y, o.y) + cmul(self.z, o.z)
    }

    /// Fixed-point squared length; never negative.
    pub fn magnitude2(self) -> (r: i64)
        requires
            okv(self, VMAX),
        ensures
            r == dot_s(self, self),
            0 <= r <= 0x3000_0000_0000_0000,
    {
        proof {
            lemma_sq_term_nonneg(self.x as int);
            lemma_sq_term_nonneg(self.y as int);
            lemma_sq_term_nonneg(self.z as int);
        }
        self.dot(self)
    }

    /// Fixed-point cross product.
    pub fn cross(self, o: Vec3) -> (r: Vec3)
        requires
            okv(self, VMAX),
            okv(o, VMAX),
        ensures
            r.x == cross_x_s(self, o),
            r.y == cross_y_s(self, o),
            r.z == cross_z_s(self, o),
            okv(r, 0x2000_0000_0000_0000),
    {
        Vec3 {
            x: cmul(self.y, o.z) - cmul(self.z, o.y),
            y: cmul(self.z, o.x) - cmul(self.x, o.z),
            z: cmul(self.x, o.y) - cmul(self.y, o.x),
        }
    }

    /// Divide every component by the fixed-point length; the length must not
    /// round to zero. The result's components have magnitude at most two.
    pub fn normalize(self) -> (r: Vec3)
        requires
            okv(self, VMAX),
            mag_s(self) != 0,
        ensures
            r.x == fdiv_s(self.x as int, mag_s(self)),
            r.y == fdiv_s(self.y as int, mag_s(self)),
            r.z == fdiv_s(self.z as int, mag_s(self)),
            okv(r, 0x2_0000),
    {
        proof {
            lemma_normalize_bound(self);
        }
        let m2 = self.magnitude2();
        let m = fsqrt(m2);
        Vec3 { x: fdiv(self.x, m), y: fdiv(self.y, m), z: fdiv(self.z, m) }
    }
}

/// A vector divided by its own fixed-point length has components of
/// magnitude at most two (`2 * SCALE` raw); the length itself is at least
/// `1/256`.
pub proof fn lemma_normalize_bound(v: Vec3)
    requires
        mag_s(v) != 0,
    ensures
        -0x2_0000 <= fdiv_s(v.x as int, mag_s(v)) <= 0x2_0000,
        -0x2_0000 <= fdiv_s(v.y as int, mag_s(v)) <= 0x2_0000,
        -0x2_0000 <= fdiv_s(v.z as int, mag_s(v)) <= 0x2_0000,
        mag_s(v) >= 256,
{
    let q = dot_s(v, v);
    lemma_sq_term_nonneg(v.x as int);
    lemma_sq_term_nonneg(v.y as int);
    lemma_sq_term_nonneg(v.z as int);
    if q == 0 {
        assert(mag_s(v) == 0);
    }
    lemma_norm_comp(v.x as int, q);
    lemma_norm_comp(v.y as int, q);
    lemma_norm_comp(v.z as int, q);
}

/// One component of a vector, divided by the fixed-point length of the whole
/// vector, has magnitude at most two.
proof fn lemma_norm_comp(c: int, q: int)
    requires
        q >= 1,
        fmul_s(c, c) <= q,
        fmul_s(c, c) >= 0,
    ensures
        -0x2_0000 <= crate::fixed::tdiv(c * (SCALE as int), sqrt_floor(q * (SCALE as int)))
            <= 0x2_0000,
        sqrt_floor(q * (SCALE as int)) >= 256,
{
    let s = SCALE as int;
    let m = sqrt_floor(q * s);
    crate::fixed::lemma_sqrt_floor(q * s);
    // The length is at least 1/256: q >= 1 so q * SCALE >= 256 * 256.
    if m < 256 {
        assert((m + 1) * (m + 1) <= 65536) by (nonlinear_arith)
            requires
                0 <= m < 256,
        {}
    }
    // c^2 is within one rounding step of fmul_s(c, c) * SCALE.
    let cc = c * c;
    assert(c * c >= 0) by (nonlinear_arith) {}
    lemma_fundamental_div_mod(cc, s);
    lemma_mod_division_less_than_divisor(cc, s);
    assert(crate::fixed::tdiv(cc, s) == cc / s);
    assert(cc <= q * s + s - 1);
    // So c^2 < (m+1)^2 + m^2 <= (2m+1)^2, hence |c| <= 2m.
    assert(cc < (m + 1) * (m + 1) + m * m) by (nonlinear_arith)
        requires
            cc <= q * s + s - 1,
            q * s < (m + 1) * (m + 1),
            s == 65536,
            m >= 256,
    {}
    assert(-(2 * m) <= c <= 2 * m) by (nonlinear_arith)
        requires
            c * c < (m + 1) * (m + 1) + m * m,
            m >= 256,
    {}
    lemma_tdiv_bound(c * s, m, 0x2_0000);
}

/// The dot product of two unit-scale vectors stays below `3 * 2^32`.
pub proof fn lemma_dot_unit(a: Vec3, b: Vec3)
    requires
        okv(a, UMAX),
        okv(b, UMAX),
    ensures
        -0x3_0000_0000 <= dot_s(a, b) <= 0x3_0000_0000,
{
    lemma_unit_product(a.x as int, b.x as int);
    lemma_unit_product(a.y as int, b.y as int);
    lemma_unit_product(a.z as int, b.z as int);
}

/// One product of two unit-scale components stays below `2^32`.
proof fn lemma_unit_product(a: int, b: int)
    requires
        -UMAX <= a <= UMAX,
        -UMAX <= b <= UMAX,
    ensures
        -0x1_0000_0000 <= fmul_s(a, b) <= 0x1_0000_0000,
{
    lemma_abs_mul_le(a, b, UMAX as int, UMAX as int);
    lemma_tdiv_bound(a * b, SCALE as int, 0x1_0000_0000);
}

/// The fixed-point square of one component is never negative.
proof fn lemma_sq_term_nonneg(a: int)
    ensures
        fmul_s(a, a) >= 0,
{
    assert(a * a >= 0) by (nonlinear_arith) {}
    if a * a > 0 {
        lemma_div_pos_is_pos(a * a, SCALE as int);
    }
}

/// Returns the point's component on the given axis.
pub fn component(p: Vec3, axis: Axis3) -> (r: i64)
    ensures
        r == component_s(p, axis),
{
    match axis {
        Axis3::X => p.x,
        Axis3::Y => p.y,
        Axis3::Z => p.z,
    }
}

/// The component of `p` on `axis`.
pub open spec fn component_s(p: Vec3, axis: Axis3) -> int {
    match axis {
        Axis3::X => p.x as int,
        Axis3::Y => p.y as int,
        Axis3::Z => p.z as int,
    }
}

/// Returns a new point whose components are taken from the components of the
/// given point.
pub fn permute(p: Vec3, new_x: Axis3, new_y: Axis3, new_z: Axis3) -> (r: Vec3)
    ensures
        r.x == component_s(p, new_x),
        r.y == component_s(p, new_y),
        r.z == component_s(p, new_z),
{
    Vec3 { x: component(p, new_x), y: component(p, new_y), z: component(p, new_z) }
}

/// The componentwise sum of a sequence of points.
pub open spec fn sum_points_s(s: Seq<Vec3>) -> (int, int, int)
    decreases s.len(),
{
    if s.len() == 0 {
        (0, 0, 0)
    } else {
        let rest = sum_points_s(s.drop_last());
        (rest.0 + s.last().x, rest.1 + s.last().y, rest.2 + s.last().z)
    }
}

/// Componentwise sum of a list of points.
pub fn add_point3(points: Vec<Vec3>) -> (r: Vec3)
    requires
        points@.len() <= 0x40_0000,
        forall|i: int| 0 <= i < points@.len() ==> okv(#[trigger] points@[i], VMAX),
    ensures
        r.x == sum_points_s(points@).0,
        r.y == sum_points_s(points@).1,
        r.z == sum_points_s(points@).2,
{
    let mut acc = Vec3 { x: 0, y: 0, z: 0 };
    let mut i: usize = 0;
    proof {
        lemma_sum_points_bound(points@.take(0), VMAX as int);
    }
    while i < points.len()
        invariant
            i <= points@.len(),
            points@.len() <= 0x40_0000,
            forall|j: int| 0 <= j < points@.len() ==> okv(#[trigger] points@[j], VMAX),
            acc.x == sum_points_s(points@.take(i as int)).0,
            acc.y == sum_points_s(points@.take(i as int)).1,
            acc.z == sum_points_s(points@.take(i as int)).2,
            okv(acc, 0x2000_0000_0000_0000),
        decreases points@.len() - i,
    {
        proof {
            assert(points@.take(i + 1).drop_last() =~= points@.take(i as int));
            lemma_sum_points_bound(points@.take(i + 1), VMAX as int);
        }
        let p = points[i];
        acc = Vec3 { x: acc.x + p.x, y: acc.y + p.y, z: acc.z + p.z };
        i = i + 1;
    }
    proof {
        assert(points@.take(points@.len() as int) =~= points@);
    }
    acc
}

/// The sum of `n` points bounded by `m` is bounded by `n * m`.
proof fn lemma_sum_points_bound(s: Seq<Vec3>, m: int)
    requires
        m >= 0,
        forall|i: int| 0 <= i < s.len() ==> okv(#[trigger] s[i], VMAX),
        m == VMAX,
    ensures
        -(s.len() * m) <= sum_points_s(s).0 <= s.len() * m,
        -(s.len() * m) <= sum_points_s(s).1 <= s.len() * m,
        -(s.len() * m) <= sum_points_s(s).2 <= s.len() * m,
    decreases s.len(),
{
    if s.len() > 0 {
        lemma_sum_points_bound(s.drop_last(), m);
        assert((s.len() - 1) * m == s.len() * m - m) by (nonlinear_arith) {}
    }
}

} // verus!
