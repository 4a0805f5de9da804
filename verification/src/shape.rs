//! Analytic shapes: the unit sphere at the origin and the y = 0 plane,
//! with exact fixed-point intersection contracts.

use vstd::prelude::*;
use crate::fixed::{
    fdiv, fdiv_s, fmul, fmul_s, fsqrt, fsqrt_s, lemma_abs_mul_le, lemma_fmul_one,
    lemma_fmul_zero, lemma_tdiv_bound, SCALE,
};
use crate::interaction::SurfaceInteraction;
use crate::matrix::{okm, tp_vec_s, tv_vec_s, tv_y_s, Matrix4};
use crate::ray::{at_t_vec_s, Ray};
use crate::vector::{dot_s, lemma_dot_unit, mag_s, okv, okv_check, Vec3, UMAX, VMAX};

verus! {

/// A parametric hit along a ray.
#[derive(Clone, Copy, Debug, PartialEq, Eq, Structural)]
pub struct Intersection {
    pub t: i64,
}

/// The ordered hits of one ray against one shape.
pub struct Intersections {
    pub values: Vec<Intersection>,
}

impl Intersections {
    /// No hits.
    pub fn empty() -> (r: Intersections)
        ensures
            r.values@.len() == 0,
    {
        Intersections { values: Vec::new() }
    }

    /// The given hits, in the given order.
    pub fn new(values: Vec<Intersection>) -> (r: Intersections)
        ensures
            r.values@ == values@,
    {
        Intersections { values }
    }
}

/// The quadratic coefficient of the unit-sphere intersection equation.
pub open spec fn sphere_a_s(r: Ray) -> int {
    dot_s(r.direction, r.direction)
}

/// The linear coefficient of the unit-sphere intersection equation.
pub open spec fn sphere_b_s(r: Ray) -> int {
    2 * dot_s(r.direction, r.origin)
}

/// The constant coefficient of the unit-sphere intersection equation.
pub open spec fn sphere_c_s(r: Ray) -> int {
    dot_s(r.origin, r.origin) - SCALE
}

/// The discriminant of the unit-sphere intersection equation.
pub open spec fn sphere_disc_s(r: Ray) -> int {
    fmul_s(sphere_b_s(r), sphere_b_s(r)) - 4 * fmul_s(sphere_a_s(r), sphere_c_s(r))
}

/// The smaller root of the unit-sphere intersection equation.
pub open spec fn sphere_t1_s(r: Ray) -> int {
    fdiv_s(-sphere_b_s(r) - fsqrt_s(sphere_disc_s(r)), 2 * sphere_a_s(r))
}

/// The larger root of the unit-sphere intersection equation.
pub open spec fn sphere_t2_s(r: Ray) -> int {
    fdiv_s(-sphere_b_s(r) + fsqrt_s(sphere_disc_s(r)), 2 * sphere_a_s(r))
}

/// A unit sphere at the origin of object space, carrying the transforms
/// between object space and world space.
#[derive(Clone, Copy, Debug, PartialEq, Eq, Structural)]
pub struct Sphere {
    pub object_to_world: Matrix4,
    pub world_to_object: Matrix4,
}

impl Sphere {
    /// A sphere from its object-to-world and world-to-object transforms.
    pub fn new(object_to_world: Matrix4, world_to_object: Matrix4) -> (r: Sphere)
        ensures
            r.object_to_world == object_to_world,
            r.world_to_object == world_to_object,
    {
        Sphere { object_to_world, world_to_object }
    }

    /// The matrix that transforms the shape from object space to world
    /// space.
    pub fn object_to_world(&self) -> (r: &Matrix4)
        ensures
            r == self.object_to_world,
    {
        &self.object_to_world
    }

    /// The matrix that transforms the shape from world space to object
    /// space.
    pub fn world_to_object(&self) -> (r: &Matrix4)
        ensures
            r == self.world_to_object,
    {
        &self.world_to_object
    }

    /// Both intersections of the ray with the unit sphere, smaller `t`
    /// first, or none when the discriminant is negative. A ray with a
    /// degenerate quadratic coefficient (a direction whose squared length
    /// rounds to zero) is treated as a miss, never as a division fault.
    pub fn ray_intersections(&self, ray: &Ray) -> (r: Intersections)
        requires
            okv(ray.origin, UMAX),
            okv(ray.direction, UMAX),
        ensures
            (sphere_a_s(*ray) != 0 && sphere_disc_s(*ray) >= 0) ==> (r.values@.len() == 2
                && r.values@[0].t == sphere_t1_s(*ray) && r.values@[1].t == sphere_t2_s(*ray)),
            (sphere_a_s(*ray) == 0 || sphere_disc_s(*ray) < 0) ==> r.values@.len() == 0,
    {
        proof {
            lemma_dot_unit(ray.direction, ray.direction);
            lemma_dot_unit(ray.direction, ray.origin);
            lemma_dot_unit(ray.origin, ray.origin);
        }
        let a = ray.direction.dot(ray.direction);
        let b = 2 * ray.direction.dot(ray.origin);
        let c = ray.origin.dot(ray.origin) - SCALE;
        proof {
            lemma_abs_mul_le(b as int, b as int, 0x6_0000_0000, 0x6_0000_0000);
            lemma_tdiv_bound((b as int) * (b as int), SCALE as int, 0x40_0000_0000_0000);
            lemma_abs_mul_le(a as int, c as int, 0x3_0000_0000, 0x3_0001_0000);
            lemma_tdiv_bound((a as int) * (c as int), SCALE as int, 0x10_0000_0000_0000);
        }
        let disc = fmul(b, b) - 4 * fmul(a, c);
        if disc < 0 || a == 0 {
            Intersections::empty()
        } else {
            let sqrt_d = fsqrt(disc);
            proof {
                crate::fixed::lemma_sqrt_floor_lt((disc as int) * (SCALE as int), 0x10_0000_0000);
            }
            let t1 = fdiv(-b - sqrt_d, 2 * a);
            let t2 = fdiv(-b + sqrt_d, 2 * a);
            let mut values: Vec<Intersection> = Vec::new();
            values.push(Intersection { t: t1 });
            values.push(Intersection { t: t2 });
            Intersections::new(values)
        }
    }
}

/// The tolerance below which a transformed ray direction's y component is
/// treated as parallel to the plane.
pub const PLANE_EPS: i64 = 7;

/// Upper bound on the plane-hit parameter the intersection code accepts;
/// hits farther along the ray leave the fixed-point working range and are
/// treated as misses.
pub const PLANE_T_MAX: i64 = 0x80_0000;

/// The world-space normal of the y = 0 object-space plane before
/// normalization: the middle row of the world-to-object matrix.
pub open spec fn plane_normal_raw_s(world_to_object: Matrix4) -> Vec3 {
    Vec3 { x: world_to_object.m10, y: world_to_object.m11, z: world_to_object.m12 }
}

/// Returns the plane's unit normal in world space: the object-space normal
/// `(0, 1, 0)` taken through the transpose of the world-to-object matrix
/// and normalized. The orientation flag does not change the result.
pub fn normal(world_to_object: &Matrix4, reverse_orientation: bool) -> (r: Vec3)
    requires
        okm(*world_to_object, VMAX),
        mag_s(plane_normal_raw_s(*world_to_object)) != 0,
    ensures
        ({
            let raw = plane_normal_raw_s(*world_to_object);
            &&& r.x == fdiv_s(raw.x as int, mag_s(raw))
            &&& r.y == fdiv_s(raw.y as int, mag_s(raw))
            &&& r.z == fdiv_s(raw.z as int, mag_s(raw))
        }),
        okv(r, 0x2_0000),
{
    let mt = world_to_object.transpose();
    let obj_n = Vec3::new(0, SCALE, 0);
    let n = mt.transform_vector(obj_n);
    proof {
        lemma_fmul_zero(mt.m00 as int);
        lemma_fmul_zero(mt.m02 as int);
        lemma_fmul_zero(mt.m10 as int);
        lemma_fmul_zero(mt.m12 as int);
        lemma_fmul_zero(mt.m20 as int);
        lemma_fmul_zero(mt.m22 as int);
        lemma_fmul_one(mt.m01 as int);
        lemma_fmul_one(mt.m11 as int);
        lemma_fmul_one(mt.m21 as int);
        assert(n == plane_normal_raw_s(*world_to_object));
    }
    let _ = reverse_orientation;
    n.normalize()
}

/// The plane-hit parameter: where the world ray's y coordinate reaches
/// zero.
pub open spec fn plane_t_s(r: Ray) -> int {
    fdiv_s(-r.origin.y, r.direction.y as int)
}

/// Whether the plane intersection reports a hit for this ray: the
/// object-space direction must not be near-parallel to the plane, the
/// world direction's y must not be zero, and both the hit parameter and
/// the object-space hit point must stay inside the fixed-point working
/// range.
pub open spec fn plane_hit_ok_s(r: Ray, world_to_object: Matrix4) -> bool {
    let ody = tv_y_s(world_to_object, r.direction);
    let obj_ray = Ray {
        origin: tp_vec_s(world_to_object, r.origin),
        direction: tv_vec_s(world_to_object, r.direction),
        t_max: r.t_max,
    };
    &&& (ody >= PLANE_EPS || ody <= -PLANE_EPS)
    &&& r.direction.y != 0
    &&& -PLANE_T_MAX <= plane_t_s(r) <= PLANE_T_MAX
    &&& okv(at_t_vec_s(obj_ray, plane_t_s(r)), VMAX)
}

/// Returns the intersection between the ray and the y = 0 object-space
/// plane, in world space: at most one hit, at the parameter where the
/// world ray's y coordinate reaches zero. Near-parallel configurations
/// and hits outside the fixed-point working range are misses, never
/// division faults.
pub fn ray_intersections(
    ray: &Ray,
    object_to_world: &Matrix4,
    world_to_object: &Matrix4,
    reverse_orientation: bool,
) -> (r: Vec<(i64, SurfaceInteraction)>)
    requires
        okm(*object_to_world, UMAX),
        okm(*world_to_object, UMAX),
        okv(ray.origin, UMAX),
        okv(ray.direction, UMAX),
        mag_s(plane_normal_raw_s(*world_to_object)) != 0,
    ensures
        !plane_hit_ok_s(*ray, *world_to_object) ==> r@.len() == 0,
        plane_hit_ok_s(*ray, *world_to_object) ==> {
            let obj_ray = Ray {
                origin: tp_vec_s(*world_to_object, ray.origin),
                direction: tv_vec_s(*world_to_object, ray.direction),
                t_max: ray.t_max,
            };
            let raw = plane_normal_raw_s(*world_to_object);
            &&& r@.len() == 1
            &&& r@[0].0 == plane_t_s(*ray)
            &&& r@[0].1.point == tp_vec_s(
                *object_to_world,
                at_t_vec_s(obj_ray, plane_t_s(*ray)),
            )
            &&& r@[0].1.neg_ray_direction.x == -ray.direction.x
            &&& r@[0].1.neg_ray_direction.y == -ray.direction.y
            &&& r@[0].1.neg_ray_direction.z == -ray.direction.z
            &&& r@[0].1.original_geometry.normal.x == fdiv_s(raw.x as int, mag_s(raw))
            &&& r@[0].1.original_geometry.normal.y == fdiv_s(raw.y as int, mag_s(raw))
            &&& r@[0].1.original_geometry.normal.z == fdiv_s(raw.z as int, mag_s(raw))
        },
{
    let obj_ray = world_to_object.transform(ray);
    let ody = obj_ray.direction.y;
    if -PLANE_EPS < ody && ody < PLANE_EPS {
        return Vec::new();
    }
    if ray.direction.y == 0 {
        return Vec::new();
    }
    let t = fdiv(-ray.origin.y, ray.direction.y);
    if t < -PLANE_T_MAX || t > PLANE_T_MAX {
        return Vec::new();
    }
    let obj_p = obj_ray.at_t(t);
    if !okv_check(obj_p, VMAX) {
        return Vec::new();
    }
    let world_p = object_to_world.transform_point(obj_p);
    let n = normal(world_to_object, reverse_orientation);
    let intr = SurfaceInteraction::new_with_normal(
        world_p,
        Vec3::new(0, 0, 0),
        ray.direction.neg(),
        Vec3::new(0, 0, 0),
        Vec3::new(0, 0, 0),
        n,
    );
    let mut out: Vec<(i64, SurfaceInteraction)> = Vec::new();
    out.push((t, intr));
    out
}

} // verus!
