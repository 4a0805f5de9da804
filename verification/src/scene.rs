//! Shaded geometry and the scene's accelerated nearest-hit query: materials,
//! primitives binding mesh triangles to materials, the flat primitive
//! aggregate, and the scene holding meshes, primitives and lights.
//!
//! Meshes are owned by the scene and referenced by integer handles, so no
//! lifetime couples the geometry to the renderer.

use vstd::prelude::*;
use crate::color::{okc, RgbaSpectrum};
use crate::fixed::{fdiv, fdiv_s, SCALE};
use crate::interaction::{SurfaceGeometry, SurfaceInteraction};
use crate::light::{wf_light, Light};
use crate::mesh::{mesh_bounded, wf_mesh, Mesh};
use crate::ray::{at_t_vec_s, Ray};
use crate::vector::{
    cross_vec_s, dot_s, okv, okv_check, sub_v_s, Vec3, UMAX, VMAX,
};

verus! {

/// A surface material for the local shading model.
#[derive(Clone, Copy, Debug, PartialEq, Eq, Structural)]
pub struct Material {
    pub color: RgbaSpectrum,
    pub ambient: i64,
    pub diffuse: i64,
    pub specular: i64,
    /// The Phong exponent, a whole number.
    pub shininess: u32,
    /// Reserved for recursive transport; the reference integrator ignores
    /// it.
    pub reflectiveness: i64,
}

/// The bounds every material satisfies: colors and coefficients in
/// `[0, 1]`.
pub open spec fn wf_material(m: Material) -> bool {
    &&& okc(m.color, SCALE)
    &&& 0 <= m.color.r && 0 <= m.color.g && 0 <= m.color.b && 0 <= m.color.a
    &&& 0 <= m.ambient <= SCALE
    &&& 0 <= m.diffuse <= SCALE
    &&& 0 <= m.specular <= SCALE
    &&& 0 <= m.reflectiveness <= SCALE
}

impl Material {
    /// A material from its color, shading coefficients, Phong exponent
    /// and reflectiveness.
    pub fn new(
        color: RgbaSpectrum,
        ambient: i64,
        diffuse: i64,
        specular: i64,
        shininess: u32,
        reflectiveness: i64,
    ) -> (r: Material)
        ensures
            r == (Material { color, ambient, diffuse, specular, shininess, reflectiveness }),
    {
        Material { color, ambient, diffuse, specular, shininess, reflectiveness }
    }
}

/// One piece of geometry (a triangle of a mesh, by handle) bound to one
/// material.
#[derive(Clone, Copy, Debug, PartialEq, Eq, Structural)]
pub struct Primitive {
    pub mesh_index: usize,
    pub triangle_index: usize,
    pub material: Material,
}

/// The hit parameter of a ray against one triangle, by the fixed-point
/// barycentric (Moller-Trumbore) test: `None` for a degenerate
/// determinant, a barycentric miss, a parameter outside `(0, t_max)`, or a
/// hit point outside the working range.
pub open spec fn triangle_t_s(a: Vec3, b: Vec3, c: Vec3, r: Ray) -> Option<int> {
    let e1 = sub_v_s(b, a);
    let e2 = sub_v_s(c, a);
    let p = cross_vec_s(r.direction, e2);
    let det = dot_s(e1, p);
    if det == 0 {
        None
    } else {
        let tv = sub_v_s(r.origin, a);
        let u = fdiv_s(dot_s(tv, p), det);
        let q = cross_vec_s(tv, e1);
        let v = fdiv_s(dot_s(r.direction, q), det);
        let t = fdiv_s(dot_s(e2, q), det);
        if 0 <= u && u <= SCALE && 0 <= v && u + v <= SCALE && 0 < t && t < r.t_max && okv(
            at_t_vec_s(r, t),
            UMAX,
        ) {
            Some(t)
        } else {
            None
        }
    }
}

/// The interaction record of a triangle hit at parameter `t`: the hit
/// point with a small conservative rounding bound, the negated ray
/// direction, the mesh normal of the triangle's first vertex, and the two
/// triangle edges as the position's partial derivatives.
pub open spec fn triangle_interaction_s(m: Mesh, tri: (usize, usize, usize), r: Ray, t: int)
    -> SurfaceInteraction {
    let a = m.positions@[tri.0 as int];
    let b = m.positions@[tri.1 as int];
    let c = m.positions@[tri.2 as int];
    let geom = SurfaceGeometry {
        normal: m.normals@[tri.0 as int],
        dpdu: sub_v_s(b, a),
        dpdv: sub_v_s(c, a),
    };
    SurfaceInteraction {
        point: at_t_vec_s(r, t),
        point_error_bound: Vec3 { x: 7, y: 7, z: 7 },
        neg_ray_direction: Vec3 {
            x: (-r.direction.x) as i64,
            y: (-r.direction.y) as i64,
            z: (-r.direction.z) as i64,
        },
        original_geometry: geom,
        shading_geometry: geom,
    }
}

/// The hit parameter of a ray against one primitive, or `None` when the
/// primitive's handles do not resolve.
pub open spec fn primitive_t_s(p: Primitive, meshes: Seq<Mesh>, r: Ray) -> Option<int> {
    if p.mesh_index < meshes.len() && p.triangle_index
        < meshes[p.mesh_index as int].triangle_vertex_indices@.len() {
        let m = meshes[p.mesh_index as int];
        let tri = m.triangle_vertex_indices@[p.triangle_index as int];
        if tri.0 < m.positions@.len() && tri.1 < m.positions@.len() && tri.2
            < m.positions@.len() {
            triangle_t_s(
                m.positions@[tri.0 as int],
                m.positions@[tri.1 as int],
                m.positions@[tri.2 as int],
                r,
            )
        } else {
            None
        }
    } else {
        None
    }
}

/// The nearest hit over a prefix of the primitive list: the least hit
/// parameter, with the earliest primitive winning ties.
pub open spec fn nearest_s(prims: Seq<Primitive>, meshes: Seq<Mesh>, r: Ray) -> Option<(int, int)>
    decreases prims.len(),
{
    if prims.len() == 0 {
        None
    } else {
        let rest = nearest_s(prims.drop_last(), meshes, r);
        let i = prims.len() - 1;
        match primitive_t_s(prims.last(), meshes, r) {
            None => rest,
            Some(t) => match rest {
                None => Some((t, i)),
                Some(best) => if t < best.0 {
                    Some((t, i))
                } else {
                    rest
                },
            },
        }
    }
}

/// A reported nearest hit is the hit of the primitive it names.
pub proof fn lemma_nearest_valid(prims: Seq<Primitive>, meshes: Seq<Mesh>, r: Ray)
    requires
        nearest_s(prims, meshes, r) is Some,
    ensures
        ({
            let (t, i) = nearest_s(prims, meshes, r)->Some_0;
            &&& 0 <= i < prims.len()
            &&& primitive_t_s(prims[i], meshes, r) == Some(t)
        }),
    decreases prims.len(),
{
    if prims.len() > 0 {
        let rest = nearest_s(prims.drop_last(), meshes, r);
        if rest is Some {
            lemma_nearest_valid(prims.drop_last(), meshes, r);
            let (rt, ri) = rest->Some_0;
            assert(prims.drop_last()[ri] == prims[ri]);
        }
    }
}

/// The reported hit really is the nearest: no primitive's hit parameter
/// is below it. Together with `lemma_nearest_valid` this pins the
/// nearest-hit query completely, so any accelerated aggregate must agree
/// with the exhaustive one on every ray.
pub proof fn lemma_nearest_is_min(prims: Seq<Primitive>, meshes: Seq<Mesh>, r: Ray, j: int)
    requires
        0 <= j < prims.len(),
        primitive_t_s(prims[j], meshes, r) is Some,
    ensures
        nearest_s(prims, meshes, r) is Some,
        nearest_s(prims, meshes, r)->Some_0.0 <= primitive_t_s(prims[j], meshes, r)->Some_0,
    decreases prims.len(),
{
    if j < prims.len() - 1 {
        assert(prims.drop_last()[j] == prims[j]);
        lemma_nearest_is_min(prims.drop_last(), meshes, r, j);
    }
}

/// A collection of primitives answering nearest-hit queries. The flat
/// variant tests every primitive exhaustively and keeps the least hit
/// parameter. A bounding-volume-hierarchy variant is reserved but not yet
/// implemented: it is a performance optimization only, and the contract
/// here (`nearest_s`, with `lemma_nearest_valid` and
/// `lemma_nearest_is_min`) pins the one result any such variant must
/// return on every ray.
pub enum PrimitiveAggregate {
    Vector(Vec<Primitive>),
}

/// The primitives of an aggregate, in query order.
pub open spec fn aggregate_prims(a: PrimitiveAggregate) -> Seq<Primitive> {
    match a {
        PrimitiveAggregate::Vector(v) => v@,
    }
}

impl PrimitiveAggregate {
    /// A flat aggregate over the given primitives.
    pub fn vector(prims: Vec<Primitive>) -> (r: PrimitiveAggregate)
        ensures
            aggregate_prims(r) == prims@,
    {
        PrimitiveAggregate::Vector(prims)
    }

    /// One primitive per triangle of the mesh with the given handle, all
    /// bound to one material.
    pub fn from_mesh(mesh_index: usize, triangle_count: usize, material: Material) -> (r:
        PrimitiveAggregate)
        ensures
            aggregate_prims(r).len() == triangle_count,
            forall|i: int|
                0 <= i < triangle_count ==> #[trigger] aggregate_prims(r)[i] == (Primitive {
                    mesh_index,
                    triangle_index: i as usize,
                    material,
                }),
    {
        let mut prims: Vec<Primitive> = Vec::new();
        let mut i: usize = 0;
        while i < triangle_count
            invariant
                i <= triangle_count,
                prims@.len() == i,
                forall|j: int| 0 <= j < i ==> #[trigger] prims@[j] == (Primitive {
                    mesh_index,
                    triangle_index: j as usize,
                    material,
                }),
            decreases triangle_count - i,
        {
            prims.push(Primitive { mesh_index, triangle_index: i, material });
            i = i + 1;
        }
        PrimitiveAggregate::Vector(prims)
    }

    /// The nearest hit of the ray against the primitives, with `t` in
    /// `(0, t_max)`: the hit parameter, the primitive hit, and the surface
    /// interaction at the hit point; `None` when nothing is hit.
    pub fn ray_intersection(&self, meshes: &Vec<Mesh>, ray: &Ray) -> (r: Option<
        (i64, Primitive, SurfaceInteraction),
    >)
        requires
            okv(ray.origin, UMAX),
            okv(ray.direction, UMAX),
            0 <= ray.t_max <= VMAX,
            forall|i: int|
                0 <= i < meshes@.len() ==> wf_mesh(#[trigger] meshes@[i]) && mesh_bounded(
                    meshes@[i],
                    UMAX,
                ),
        ensures
            (r is None) <==> (nearest_s(aggregate_prims(*self), meshes@, *ray) is None),
            r is Some ==> ({
                let (t, prim, si) = r->Some_0;
                let best = nearest_s(aggregate_prims(*self), meshes@, *ray)->Some_0;
                &&& t == best.0
                &&& prim == aggregate_prims(*self)[best.1]
                &&& prim.mesh_index < meshes@.len()
                &&& prim.triangle_index
                    < meshes@[prim.mesh_index as int].triangle_vertex_indices@.len()
                &&& si == triangle_interaction_s(
                    meshes@[prim.mesh_index as int],
                    meshes@[prim.mesh_index as int].triangle_vertex_indices@[prim.triangle_index as int],
                    *ray,
                    t as int,
                )
            }),
    {
        let prims = match self {
            PrimitiveAggregate::Vector(v) => v,
        };
        let mut best: Option<(i64, Primitive, SurfaceInteraction)> = None;
        let mut i: usize = 0;
        while i < prims.len()
            invariant
                i <= prims@.len(),
                okv(ray.origin, UMAX),
                okv(ray.direction, UMAX),
                0 <= ray.t_max <= VMAX,
                forall|k: int|
                    0 <= k < meshes@.len() ==> wf_mesh(#[trigger] meshes@[k]) && mesh_bounded(
                        meshes@[k],
                        UMAX,
                    ),
                (best is None) <==> (nearest_s(aggregate_prims(*self).take(i as int), meshes@, *ray)
                    is None),
                best is Some ==> ({
                    let (t, prim, si) = best->Some_0;
                    let b = nearest_s(aggregate_prims(*self).take(i as int), meshes@, *ray)->Some_0;
                    &&& t == b.0
                    &&& prim == aggregate_prims(*self)[b.1]
                    &&& prim.mesh_index < meshes@.len()
                    &&& prim.triangle_index
                        < meshes@[prim.mesh_index as int].triangle_vertex_indices@.len()
                    &&& si == triangle_interaction_s(
                        meshes@[prim.mesh_index as int],
                        meshes@[prim.mesh_index as int].triangle_vertex_indices@[prim.triangle_index as int],
                        *ray,
                        t as int,
                    )
                }),
                aggregate_prims(*self) == prims@,
            decreases prims@.len() - i,
        {
            proof {
                assert(aggregate_prims(*self).take(i + 1).drop_last() =~= aggregate_prims(
                    *self,
                ).take(i as int));
            }
            let p = prims[i];
            if p.mesh_index < meshes.len() {
                let m = &meshes[p.mesh_index];
                if p.triangle_index < m.triangle_vertex_indices.len() {
                    let tri = m.triangle_vertex_indices[p.triangle_index];
                    let hit = triangle_intersect(m, tri, ray);
                    match hit {
                        Some((t, si)) => {
                            let better = match &best {
                                None => true,
                                Some(b) => t < b.0,
                            };
                            if better {
                                best = Some((t, p, si));
                            }
                        },
                        None => {},
                    }
                }
            }
            i = i + 1;
        }
        proof {
            assert(aggregate_prims(*self).take(prims@.len() as int) =~= aggregate_prims(*self));
        }
        best
    }
}

/// The barycentric ray/triangle test of the triangle with the given vertex
/// indices, building the interaction record on a hit.
fn triangle_intersect(m: &Mesh, tri: (usize, usize, usize), ray: &Ray) -> (r: Option<
    (i64, SurfaceInteraction),
>)
    requires
        wf_mesh(*m),
        mesh_bounded(*m, UMAX),
        tri.0 < m.positions@.len(),
        tri.1 < m.positions@.len(),
        tri.2 < m.positions@.len(),
        okv(ray.origin, UMAX),
        okv(ray.direction, UMAX),
        0 <= ray.t_max <= VMAX,
    ensures
        (r is None) <==> (triangle_t_s(
            m.positions@[tri.0 as int],
            m.positions@[tri.1 as int],
            m.positions@[tri.2 as int],
            *ray,
        ) is None),
        r is Some ==> ({
            let (t, si) = r->Some_0;
            &&& Some(t as int) == triangle_t_s(
                m.positions@[tri.0 as int],
                m.positions@[tri.1 as int],
                m.positions@[tri.2 as int],
                *ray,
            )
            &&& si == triangle_interaction_s(*m, tri, *ray, t as int)
        }),
{
    let a = m.positions[tri.0];
    let b = m.positions[tri.1];
    let c = m.positions[tri.2];
    let e1 = b.sub(a);
    let e2 = c.sub(a);
    let pvec = ray.direction.cross(e2);
    proof {
        lemma_tri_ranges(a, b, c, *ray);
    }
    let det = e1.dot(pvec);
    if det == 0 {
        return None;
    }
    let tvec = ray.origin.sub(a);
    let qvec = tvec.cross(e1);
    let u = fdiv(tvec.dot(pvec), det);
    let v = fdiv(ray.direction.dot(qvec), det);
    let t = fdiv(e2.dot(qvec), det);
    if u < 0 || u > SCALE || v < 0 || v > SCALE {
        return None;
    }
    if u + v > SCALE || t <= 0 || t >= ray.t_max {
        return None;
    }
    let point = ray.at_t(t);
    if !okv_check(point, UMAX) {
        return None;
    }
    let normal = m.normals[tri.0];
    let geom = SurfaceGeometry { normal, dpdu: e1, dpdv: e2 };
    let si = SurfaceInteraction {
        point,
        point_error_bound: Vec3 { x: 7, y: 7, z: 7 },
        neg_ray_direction: Vec3 { x: -ray.direction.x, y: -ray.direction.y, z: -ray.direction.z },
        original_geometry: geom,
        shading_geometry: geom,
    };
    Some((t, si))
}

/// The ranges of the intermediate values of the barycentric test: with
/// unit-scale vertices and ray, every dot product stays well inside the
/// division range.
proof fn lemma_tri_ranges(a: Vec3, b: Vec3, c: Vec3, r: Ray)
    requires
        okv(a, UMAX),
        okv(b, UMAX),
        okv(c, UMAX),
        okv(r.origin, UMAX),
        okv(r.direction, UMAX),
    ensures
        ({
            let e1 = sub_v_s(b, a);
            let e2 = sub_v_s(c, a);
            let p = cross_vec_s(r.direction, e2);
            let tv = sub_v_s(r.origin, a);
            let q = cross_vec_s(tv, e1);
            &&& okv(e1, 0x200_0000)
            &&& okv(e2, 0x200_0000)
            &&& okv(tv, 0x200_0000)
            &&& okv(p, 0x8_0000_0000)
            &&& okv(q, 0x10_0000_0000)
            &&& -0x4000_0000_0000 <= dot_s(e1, p) <= 0x4000_0000_0000
            &&& -0x4000_0000_0000 <= dot_s(tv, p) <= 0x4000_0000_0000
            &&& -0x4000_0000_0000 <= dot_s(r.direction, q) <= 0x4000_0000_0000
            &&& -0x7FFF_FFFF_FFFF <= dot_s(e2, q) <= 0x7FFF_FFFF_FFFF
        }),
{
    let e1 = sub_v_s(b, a);
    let e2 = sub_v_s(c, a);
    let p = cross_vec_s(r.direction, e2);
    let tv = sub_v_s(r.origin, a);
    let q = cross_vec_s(tv, e1);
    lemma_cross_range(r.direction, e2, 0x100_0000, 0x200_0000, 0x8_0000_0000);
    lemma_cross_range(tv, e1, 0x200_0000, 0x200_0000, 0x10_0000_0000);
    lemma_dot_range(e1, p, 0x200_0000, 0x8_0000_0000, 0x4000_0000_0000);
    lemma_dot_range(tv, p, 0x200_0000, 0x8_0000_0000, 0x4000_0000_0000);
    lemma_dot_range(r.direction, q, 0x100_0000, 0x10_0000_0000, 0x4000_0000_0000);
    lemma_dot_range(e2, q, 0x200_0000, 0x10_0000_0000, 0x7FFF_FFFF_FFFF);
}

/// A cross product of vectors bounded by `ma` and `mb` has components
/// bounded by `2 * ma * mb / SCALE <= k`.
proof fn lemma_cross_range(a: Vec3, b: Vec3, ma: i64, mb: i64, k: i64)
    requires
        okv(a, ma),
        okv(b, mb),
        0 <= ma,
        0 <= mb,
        0 <= k,
        2 * ((ma * mb) / 65536) + 2 <= k,
        ma * mb <= 0x4000_0000_0000_0000_0000,
    ensures
        okv(cross_vec_s(a, b), k),
{
    lemma_prod_half(a.y as int, b.z as int, ma as int, mb as int);
    lemma_prod_half(a.z as int, b.y as int, ma as int, mb as int);
    lemma_prod_half(a.z as int, b.x as int, ma as int, mb as int);
    lemma_prod_half(a.x as int, b.z as int, ma as int, mb as int);
    lemma_prod_half(a.x as int, b.y as int, ma as int, mb as int);
    lemma_prod_half(a.y as int, b.x as int, ma as int, mb as int);
}

/// A dot product of vectors bounded by `ma` and `mb` is bounded by
/// `3 * ma * mb / SCALE <= k`.
pub(crate) proof fn lemma_dot_range(a: Vec3, b: Vec3, ma: i64, mb: i64, k: i64)
    requires
        okv(a, ma),
        okv(b, mb),
        0 <= ma,
        0 <= mb,
        0 <= k,
        3 * ((ma * mb) / 65536) + 3 <= k,
        ma * mb <= 0x4000_0000_0000_0000_0000,
    ensures
        -k <= dot_s(a, b) <= k,
{
    lemma_prod_half(a.x as int, b.x as int, ma as int, mb as int);
    lemma_prod_half(a.y as int, b.y as int, ma as int, mb as int);
    lemma_prod_half(a.z as int, b.z as int, ma as int, mb as int);
}

/// One product of bounded components, after the fixed-point scale-down,
/// is bounded by the scaled product of the bounds.
proof fn lemma_prod_half(x: int, y: int, mx: int, my: int)
    requires
        -mx <= x <= mx,
        -my <= y <= my,
        0 <= mx,
        0 <= my,
    ensures
        -((mx * my) / 65536) - 1 <= crate::fixed::fmul_s(x, y) <= (mx * my) / 65536 + 1,
{
    crate::fixed::lemma_abs_mul_le(x, y, mx, my);
    vstd::arithmetic::div_mod::lemma_div_pos_is_pos(mx * my, 65536);
    crate::fixed::lemma_tdiv_bound(x * y, 65536, (mx * my) / 65536 + 1);
    assert(mx * my <= ((mx * my) / 65536 + 1) * 65536) by (nonlinear_arith)
        requires
            0 <= mx * my,
    {}
}

/// The scene: meshes owned by handle, shaded geometry with its
/// acceleration structure, and the light list.
pub struct Scene {
    pub meshes: Vec<Mesh>,
    pub primitives: PrimitiveAggregate,
    pub lights: Vec<Light>,
}

/// The bounds every scene satisfies: well-formed, unit-scale meshes,
/// primitives whose handles resolve, and at most 256 well-formed lights.
pub open spec fn wf_scene(s: Scene) -> bool {
    &&& forall|i: int|
        0 <= i < s.meshes@.len() ==> wf_mesh(#[trigger] s.meshes@[i]) && mesh_bounded(
            s.meshes@[i],
            UMAX,
        )
    &&& forall|i: int|
        0 <= i < aggregate_prims(s.primitives).len() ==> wf_material(
            (#[trigger] aggregate_prims(s.primitives)[i]).material,
        )
    &&& s.lights@.len() <= 256
    &&& forall|i: int| 0 <= i < s.lights@.len() ==> wf_light(#[trigger] s.lights@[i])
}

impl Scene {
    /// A scene from its meshes, primitive aggregate and lights.
    pub fn new(meshes: Vec<Mesh>, primitives: PrimitiveAggregate, lights: Vec<Light>) -> (r: Scene)
        ensures
            r.meshes@ == meshes@,
            aggregate_prims(r.primitives) == aggregate_prims(primitives),
            r.lights@ == lights@,
    {
        Scene { meshes, primitives, lights }
    }

    /// The nearest hit of the ray against the scene's primitives; see
    /// `PrimitiveAggregate::ray_intersection`.
    pub fn ray_intersection(&self, ray: &Ray) -> (r: Option<(i64, Primitive, SurfaceInteraction)>)
        requires
            wf_scene(*self),
            okv(ray.origin, UMAX),
            okv(ray.direction, UMAX),
            0 <= ray.t_max <= VMAX,
        ensures
            (r is None) <==> (nearest_s(aggregate_prims(self.primitives), self.meshes@, *ray)
                is None),
            r is Some ==> ({
                let (t, prim, si) = r->Some_0;
                let best = nearest_s(aggregate_prims(self.primitives), self.meshes@, *ray)->Some_0;
                &&& t == best.0
                &&& prim == aggregate_prims(self.primitives)[best.1]
                &&& prim.mesh_index < self.meshes@.len()
                &&& prim.triangle_index
                    < self.meshes@[prim.mesh_index as int].triangle_vertex_indices@.len()
                &&& si == triangle_interaction_s(
                    self.meshes@[prim.mesh_index as int],
                    self.meshes@[prim.mesh_index as int].triangle_vertex_indices@[prim.triangle_index as int],
                    *ray,
                    t as int,
                )
            }),
    {
        self.primitives.ray_intersection(&self.meshes, ray)
    }
}

} // verus!
