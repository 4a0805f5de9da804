//! Rays, ray differentials, and how affine transforms act on them.

use vstd::prelude::*;
use crate::fixed::{fmul_s, lemma_fmul_multiple, lemma_fmul_zero, SCALE};
use crate::matrix::{
    lemma_scale_exact, lemma_translation_exact, nonuniform_scale_s, okm, tp_x_s, tp_y_s, tp_z_s,
    translation_s, tv_x_s, tv_y_s, tv_z_s, Matrix4,
};
use crate::vector::{okv, Vec3, UMAX, VMAX};

verus! {

/// A parametric ray `r(t) = origin + t * direction`, limited to `0 < t <=
/// t_max`. The direction is deliberately left un-normalized so that scaling
/// transforms are representable.
#[derive(Clone, Copy, Debug, PartialEq, Eq, Structural)]
pub struct Ray {
    pub origin: Vec3,
    pub direction: Vec3,
    pub t_max: i64,
}

/// The x component of the point a ray reaches at parameter `t`.
pub open spec fn at_t_x_s(r: Ray, t: int) -> int {
    r.origin.x + fmul_s(r.direction.x as int, t)
}

/// The y component of the point a ray reaches at parameter `t`.
pub open spec fn at_t_y_s(r: Ray, t: int) -> int {
    r.origin.y + fmul_s(r.direction.y as int, t)
}

/// The z component of the point a ray reaches at parameter `t`.
pub open spec fn at_t_z_s(r: Ray, t: int) -> int {
    r.origin.z + fmul_s(r.direction.z as int, t)
}

/// The point a ray reaches at parameter `t`, as a value.
pub open spec fn at_t_vec_s(r: Ray, t: int) -> Vec3 {
    Vec3 { x: at_t_x_s(r, t) as i64, y: at_t_y_s(r, t) as i64, z: at_t_z_s(r, t) as i64 }
}

impl Ray {
    /// Build a ray from its origin, direction and parametric bound.
    pub fn new(origin: Vec3, direction: Vec3, t_max: i64) -> (r: Ray)
        ensures
            r.origin == origin,
            r.direction == direction,
            r.t_max == t_max,
    {
        Ray { origin, direction, t_max }
    }

    /// Get the position along the ray for a given parametric value `t`.
    pub fn at_t(&self, t: i64) -> (p: Vec3)
        requires
            okv(self.origin, 0x2000_0000_0000_0000),
            okv(self.direction, VMAX),
            -VMAX <= t <= VMAX,
        ensures
            p.x == at_t_x_s(*self, t as int),
            p.y == at_t_y_s(*self, t as int),
            p.z == at_t_z_s(*self, t as int),
    {
        self.origin.add(self.direction.scale(t))
    }
}

/// At parameter zero a ray is at its origin.
pub proof fn lemma_at_t_zero(r: Ray)
    ensures
        at_t_x_s(r, 0) == r.origin.x,
        at_t_y_s(r, 0) == r.origin.y,
        at_t_z_s(r, 0) == r.origin.z,
{
    lemma_fmul_zero(r.direction.x as int);
    lemma_fmul_zero(r.direction.y as int);
    lemma_fmul_zero(r.direction.z as int);
}

/// `at_t` interpolates linearly along the direction: at every whole
/// parameter `k` (raw value `k * SCALE`) the position is exactly
/// `origin + k * direction`, so each step of one whole unit moves the
/// position by exactly one direction vector.
pub proof fn lemma_at_t_affine(r: Ray, k: int)
    ensures
        at_t_x_s(r, k * (SCALE as int)) == r.origin.x + r.direction.x * k,
        at_t_y_s(r, k * (SCALE as int)) == r.origin.y + r.direction.y * k,
        at_t_z_s(r, k * (SCALE as int)) == r.origin.z + r.direction.z * k,
{
    lemma_fmul_multiple(r.direction.x as int, k);
    lemma_fmul_multiple(r.direction.y as int, k);
    lemma_fmul_multiple(r.direction.z as int, k);
}

impl Matrix4 {
    /// Transform a ray: the origin as a point, the direction as a vector.
    /// The direction stays un-normalized so that scaling transforms can
    /// shrink or grow the ray.
    pub fn transform(&self, ray: &Ray) -> (r: Ray)
        requires
            okm(*self, VMAX),
            okv(ray.origin, VMAX),
            okv(ray.direction, VMAX),
        ensures
            r.origin.x == tp_x_s(*self, ray.origin),
            r.origin.y == tp_y_s(*self, ray.origin),
            r.origin.z == tp_z_s(*self, ray.origin),
            r.direction.x == tv_x_s(*self, ray.direction),
            r.direction.y == tv_y_s(*self, ray.direction),
            r.direction.z == tv_z_s(*self, ray.direction),
            r.t_max == ray.t_max,
            okm(*self, UMAX) && okv(ray.origin, UMAX) ==> okv(r.origin, 0x4_0000_0000),
            okm(*self, UMAX) && okv(ray.direction, UMAX) ==> okv(r.direction, 0x4_0000_0000),
    {
        Ray {
            origin: self.transform_point(ray.origin),
            direction: self.transform_vector(ray.direction),
            t_max: ray.t_max,
        }
    }
}

/// Transforming a ray by a translation moves its origin by exactly `d` and
/// leaves its direction unchanged.
pub proof fn lemma_translate_ray(m: Matrix4, d: Vec3, r: Ray)
    requires
        m == translation_s(d),
    ensures
        tp_x_s(m, r.origin) == r.origin.x + d.x,
        tp_y_s(m, r.origin) == r.origin.y + d.y,
        tp_z_s(m, r.origin) == r.origin.z + d.z,
        tv_x_s(m, r.direction) == r.direction.x,
        tv_y_s(m, r.direction) == r.direction.y,
        tv_z_s(m, r.direction) == r.direction.z,
{
    lemma_translation_exact(d, r.origin);
    lemma_translation_exact(d, r.direction);
}

/// Transforming a ray by a scale multiplies both its origin and its
/// direction componentwise by the scale factors.
pub proof fn lemma_scale_ray(m: Matrix4, sx: i64, sy: i64, sz: i64, r: Ray)
    requires
        m == nonuniform_scale_s(sx, sy, sz),
    ensures
        tp_x_s(m, r.origin) == fmul_s(sx as int, r.origin.x as int),
        tp_y_s(m, r.origin) == fmul_s(sy as int, r.origin.y as int),
        tp_z_s(m, r.origin) == fmul_s(sz as int, r.origin.z as int),
        tv_x_s(m, r.direction) == fmul_s(sx as int, r.direction.x as int),
        tv_y_s(m, r.direction) == fmul_s(sy as int, r.direction.y as int),
        tv_z_s(m, r.direction) == fmul_s(sz as int, r.direction.z as int),
{
    lemma_scale_exact(sx, sy, sz, r.origin);
    lemma_scale_exact(sx, sy, sz, r.direction);
}

/// The origin and direction of two auxiliary rays for some primary ray,
/// offset from the primary in the x and y directions on the film plane.
#[derive(Clone, Copy, Debug, PartialEq, Eq, Structural)]
pub struct RayDifferential {
    /// Origin of a ray offset from the primary in the film x direction.
    pub dx_origin: Vec3,
    /// Direction of a ray offset from the primary in the film x direction.
    pub dx_direction: Vec3,
    /// Origin of a ray offset from the primary in the film y direction.
    pub dy_origin: Vec3,
    /// Direction of a ray offset from the primary in the film y direction.
    pub dy_direction: Vec3,
}

impl RayDifferential {
    /// Build a ray differential from the two auxiliary rays.
    pub fn new(dx_origin: Vec3, dx_direction: Vec3, dy_origin: Vec3, dy_direction: Vec3) -> (r:
        RayDifferential)
        ensures
            r.dx_origin == dx_origin,
            r.dx_direction == dx_direction,
            r.dy_origin == dy_origin,
            r.dy_direction == dy_direction,
    {
        RayDifferential { dx_origin, dx_direction, dy_origin, dy_direction }
    }
}

impl Matrix4 {
    /// Transform both auxiliary rays of a ray differential.
    pub fn transform_differential(&self, rd: &RayDifferential) -> (r: RayDifferential)
        requires
            okm(*self, VMAX),
            okv(rd.dx_origin, VMAX),
            okv(rd.dx_direction, VMAX),
            okv(rd.dy_origin, VMAX),
            okv(rd.dy_direction, VMAX),
        ensures
            r.dx_origin.x == tp_x_s(*self, rd.dx_origin),
            r.dx_origin.y == tp_y_s(*self, rd.dx_origin),
            r.dx_origin.z == tp_z_s(*self, rd.dx_origin),
            r.dx_direction.x == tv_x_s(*self, rd.dx_direction),
            r.dx_direction.y == tv_y_s(*self, rd.dx_direction),
            r.dx_direction.z == tv_z_s(*self, rd.dx_direction),
            r.dy_origin.x == tp_x_s(*self, rd.dy_origin),
            r.dy_origin.y == tp_y_s(*self, rd.dy_origin),
            r.dy_origin.z == tp_z_s(*self, rd.dy_origin),
            r.dy_direction.x == tv_x_s(*self, rd.dy_direction),
            r.dy_direction.y == tv_y_s(*self, rd.dy_direction),
            r.dy_direction.z == tv_z_s(*self, rd.dy_direction),
    {
        RayDifferential {
            dx_origin: self.transform_point(rd.dx_origin),
            dx_direction: self.transform_vector(rd.dx_direction),
            dy_origin: self.transform_point(rd.dy_origin),
            dy_direction: self.transform_vector(rd.dy_direction),
        }
    }
}

} // verus!
