//! The geometric record produced at a ray/surface hit point.

use vstd::prelude::*;
use crate::fixed::{lemma_abs_mul_le, lemma_tdiv_bound, SCALE};
use crate::vector::{cross_x_s, cross_y_s, cross_z_s, okv, Vec3, UMAX};

verus! {

/// Bound on the partial derivative vectors handed to `SurfaceInteraction::new`:
/// their cross product then stays unit-scale.
pub const DPMAX: i64 = 0x8_0000;

/// The geometry at a specific point on a surface: a normal and the partial
/// derivatives of position with respect to the two surface parameters.
#[derive(Clone, Copy, Debug, PartialEq, Eq, Structural)]
pub struct SurfaceGeometry {
    pub normal: Vec3,
    /// The partial derivative of the position with respect to U.
    pub dpdu: Vec3,
    /// The partial derivative of the position with respect to V.
    pub dpdv: Vec3,
}

/// A ray/surface interaction record with a conservative bound on the
/// fixed-point rounding in the hit point.
#[derive(Clone, Copy, Debug, PartialEq, Eq, Structural)]
pub struct SurfaceInteraction {
    /// The point in world space where the interaction with a surface occurs.
    pub point: Vec3,
    /// A conservative bound on the accumulated rounding in `point`.
    pub point_error_bound: Vec3,
    /// The direction of the negative/outgoing ray.
    pub neg_ray_direction: Vec3,
    /// The original geometry of the surface at the intersection point.
    pub original_geometry: SurfaceGeometry,
    /// A second copy of the surface geometry. It starts identical to the
    /// original and may be perturbed (by bump mapping, for example) before
    /// shading, so the true geometric normal is never corrupted.
    pub shading_geometry: SurfaceGeometry,
}

/// The bounds every interaction handed to the shading code satisfies.
pub open spec fn wf_interaction(si: SurfaceInteraction) -> bool {
    &&& okv(si.point, UMAX)
    &&& okv(si.neg_ray_direction, UMAX)
    &&& okv(si.original_geometry.normal, UMAX)
    &&& okv(si.shading_geometry.normal, UMAX)
}

impl SurfaceInteraction {
    /// Build an interaction whose normal is the cross product of the two
    /// partial derivatives; the shading geometry starts as a copy of the
    /// original geometry.
    pub fn new(
        point: Vec3,
        point_error_bound: Vec3,
        neg_ray_direction: Vec3,
        dpdu: Vec3,
        dpdv: Vec3,
    ) -> (si: SurfaceInteraction)
        requires
            okv(dpdu, DPMAX),
            okv(dpdv, DPMAX),
        ensures
            si.point == point,
            si.point_error_bound == point_error_bound,
            si.neg_ray_direction == neg_ray_direction,
            si.original_geometry.normal.x == cross_x_s(dpdu, dpdv),
            si.original_geometry.normal.y == cross_y_s(dpdu, dpdv),
            si.original_geometry.normal.z == cross_z_s(dpdu, dpdv),
            si.original_geometry.dpdu == dpdu,
            si.original_geometry.dpdv == dpdv,
            si.shading_geometry == si.original_geometry,
            okv(si.original_geometry.normal, UMAX),
    {
        proof {
            lemma_small_cross(dpdu, dpdv);
        }
        let normal = dpdu.cross(dpdv);
        SurfaceInteraction {
            point,
            point_error_bound,
            neg_ray_direction,
            original_geometry: SurfaceGeometry { normal, dpdu, dpdv },
            shading_geometry: SurfaceGeometry { normal, dpdu, dpdv },
        }
    }

    /// Build an interaction with an explicitly supplied normal.
    pub fn new_with_normal(
        point: Vec3,
        point_error_bound: Vec3,
        neg_ray_direction: Vec3,
        dpdu: Vec3,
        dpdv: Vec3,
        normal: Vec3,
    ) -> (si: SurfaceInteraction)
        ensures
            si.point == point,
            si.point_error_bound == point_error_bound,
            si.neg_ray_direction == neg_ray_direction,
            si.original_geometry.normal == normal,
            si.original_geometry.dpdu == dpdu,
            si.original_geometry.dpdv == dpdv,
            si.shading_geometry == si.original_geometry,
    {
        SurfaceInteraction {
            point,
            point_error_bound,
            neg_ray_direction,
            original_geometry: SurfaceGeometry { normal, dpdu, dpdv },
            shading_geometry: SurfaceGeometry { normal, dpdu, dpdv },
        }
    }
}

/// The cross product of two vectors bounded by `DPMAX` is unit-scale.
proof fn lemma_small_cross(a: Vec3, b: Vec3)
    requires
        okv(a, DPMAX),
        okv(b, DPMAX),
    ensures
        -UMAX <= cross_x_s(a, b) <= UMAX,
        -UMAX <= cross_y_s(a, b) <= UMAX,
        -UMAX <= cross_z_s(a, b) <= UMAX,
{
    lemma_small_product(a.y as int, b.z as int);
    lemma_small_product(a.z as int, b.y as int);
    lemma_small_product(a.z as int, b.x as int);
    lemma_small_product(a.x as int, b.z as int);
    lemma_small_product(a.x as int, b.y as int);
    lemma_small_product(a.y as int, b.x as int);
}

/// One product of two `DPMAX`-bounded components stays below `2^22`.
proof fn lemma_small_product(a: int, b: int)
    requires
        -DPMAX <= a <= DPMAX,
        -DPMAX <= b <= DPMAX,
    ensures
        -0x40_0000 <= crate::fixed::fmul_s(a, b) <= 0x40_0000,
{
    lemma_abs_mul_le(a, b, DPMAX as int, DPMAX as int);
    lemma_tdiv_bound(a * b, SCALE as int, 0x40_0000);
}

} // verus!
