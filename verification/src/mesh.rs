//! Triangle meshes: vertex arrays indexed by triples, a builder for
//! incremental construction, and exact transforms over the vertex data.

use vstd::prelude::*;
use crate::error::Error;
use crate::matrix::{okm, tp_vec_s, tv_vec_s, Matrix4};
use crate::vector::{dot_s, mag_s, okv, okv_check, Vec2, Vec3, VMAX};
use crate::fixed::{fdiv_s, fsqrt_s};

verus! {

/// A mesh of triangles.
#[derive(Debug)]
pub struct Mesh {
    /// A position for each vertex in the mesh.
    pub positions: Vec<Vec3>,
    /// A normal vector for each vertex in the mesh.
    pub normals: Vec<Vec3>,
    /// A UV coordinate for each vertex in the mesh, if any.
    pub uvs: Option<Vec<Vec2>>,
    /// Each element is a triple of indices into the vertex arrays,
    /// describing one triangle.
    pub triangle_vertex_indices: Vec<(usize, usize, usize)>,
    pub transformation_swaps_handedness: bool,
    pub reverse_orientation: bool,
}

/// Structural well-formedness: position and normal arrays have equal length,
/// UVs (if present) match, and every index triple is in range.
pub open spec fn wf_mesh(m: Mesh) -> bool {
    &&& m.normals@.len() == m.positions@.len()
    &&& (m.uvs is Some ==> m.uvs->Some_0@.len() == m.positions@.len())
    &&& forall|i: int|
        0 <= i < m.triangle_vertex_indices@.len() ==> {
            let t = #[trigger] m.triangle_vertex_indices@[i];
            t.0 < m.positions@.len() && t.1 < m.positions@.len() && t.2 < m.positions@.len()
        }
}

/// Every vertex position and normal lies within `[-b, b]` on each axis.
pub open spec fn mesh_bounded(m: Mesh, b: i64) -> bool {
    &&& forall|i: int| 0 <= i < m.positions@.len() ==> okv(#[trigger] m.positions@[i], b)
    &&& forall|i: int| 0 <= i < m.normals@.len() ==> okv(#[trigger] m.normals@[i], b)
}

/// `v` divided by its fixed-point length, or `v` itself where the length
/// rounds to zero or `v` leaves the scene-scale working range (a degenerate
/// normal is kept rather than divided by zero).
pub open spec fn unitized_s(v: Vec3) -> Vec3 {
    if okv(v, VMAX) && dot_s(v, v) != 0 {
        Vec3 {
            x: fdiv_s(v.x as int, mag_s(v)) as i64,
            y: fdiv_s(v.y as int, mag_s(v)) as i64,
            z: fdiv_s(v.z as int, mag_s(v)) as i64,
        }
    } else {
        v
    }
}

impl Mesh {
    /// Apply the transformation matrix to the position and normal of each
    /// vertex in the mesh; normals are re-normalized unless the transformed
    /// normal rounds to zero.
    pub fn transform(&mut self, transformation: Matrix4)
        requires
            okm(transformation, VMAX),
            mesh_bounded(*old(self), VMAX),
        ensures
            final(self).positions@.len() == old(self).positions@.len(),
            final(self).normals@.len() == old(self).normals@.len(),
            forall|i: int|
                0 <= i < old(self).positions@.len() ==> #[trigger] final(self).positions@[i]
                    == tp_vec_s(transformation, old(self).positions@[i]),
            forall|i: int|
                0 <= i < old(self).normals@.len() ==> #[trigger] final(self).normals@[i]
                    == unitized_s(tv_vec_s(transformation, old(self).normals@[i])),
            final(self).uvs == old(self).uvs,
            final(self).triangle_vertex_indices == old(self).triangle_vertex_indices,
            final(self).transformation_swaps_handedness == old(
                self,
            ).transformation_swaps_handedness,
            final(self).reverse_orientation == old(self).reverse_orientation,
    {
        let ghost orig = *self;
        let mut new_positions: Vec<Vec3> = Vec::new();
        let mut i: usize = 0;
        while i < self.positions.len()
            invariant
                *self == orig,
                okm(transformation, VMAX),
                mesh_bounded(orig, VMAX),
                i <= orig.positions@.len(),
                new_positions@.len() == i,
                forall|j: int|
                    0 <= j < i ==> #[trigger] new_positions@[j] == tp_vec_s(
                        transformation,
                        orig.positions@[j],
                    ),
            decreases self.positions.len() - i,
        {
            let p = self.positions[i];
            new_positions.push(transformation.transform_point(p));
            i = i + 1;
        }
        let mut new_normals: Vec<Vec3> = Vec::new();
        let mut k: usize = 0;
        while k < self.normals.len()
            invariant
                *self == orig,
                okm(transformation, VMAX),
                mesh_bounded(orig, VMAX),
                k <= orig.normals@.len(),
                new_normals@.len() == k,
                forall|j: int|
                    0 <= j < k ==> #[trigger] new_normals@[j] == unitized_s(
                        tv_vec_s(transformation, orig.normals@[j]),
                    ),
            decreases self.normals.len() - k,
        {
            let n = self.normals[k];
            let tn = transformation.transform_vector(n);
            let mut keep = tn;
            if okv_check(tn, VMAX) {
                let m2 = tn.magnitude2();
                if m2 > 0 {
                    proof {
                        assert(m2 as int == dot_s(tn, tn));
                        assert(mag_s(tn) == crate::fixed::sqrt_floor(
                            dot_s(tn, tn) * (crate::fixed::SCALE as int),
                        ));
                        assert(dot_s(tn, tn) * (crate::fixed::SCALE as int) == (m2 as int)
                            * 65536);
                        crate::fixed::lemma_sqrt_floor((m2 as int) * 65536);
                        if mag_s(tn) == 0 {
                            assert((m2 as int) * 65536 < (0 + 1) * (0 + 1));
                            assert(false);
                        }
                    }
                    keep = tn.normalize();
                }
            }
            new_normals.push(keep);
            k = k + 1;
        }
        self.positions = new_positions;
        self.normals = new_normals;
    }

    /// Apply the transformation and flip
    /// `transformation_swaps_handedness`, for transforms (such as a
    /// reflection) that change the coordinate system's handedness.
    pub fn transform_swapping_handedness(&mut self, transformation: Matrix4)
        requires
            okm(transformation, VMAX),
            mesh_bounded(*old(self), VMAX),
        ensures
            final(self).positions@.len() == old(self).positions@.len(),
            final(self).normals@.len() == old(self).normals@.len(),
            forall|i: int|
                0 <= i < old(self).positions@.len() ==> #[trigger] final(self).positions@[i]
                    == tp_vec_s(transformation, old(self).positions@[i]),
            forall|i: int|
                0 <= i < old(self).normals@.len() ==> #[trigger] final(self).normals@[i]
                    == unitized_s(tv_vec_s(transformation, old(self).normals@[i])),
            final(self).uvs == old(self).uvs,
            final(self).triangle_vertex_indices == old(self).triangle_vertex_indices,
            final(self).transformation_swaps_handedness == !old(
                self,
            ).transformation_swaps_handedness,
            final(self).reverse_orientation == old(self).reverse_orientation,
    {
        self.transform(transformation);
        self.transformation_swaps_handedness = !self.transformation_swaps_handedness;
    }

    /// The minimum and maximum corners of an axis-aligned bounding box
    /// around the mesh, or `None` for an empty mesh.
    pub fn bounding_box(&self) -> (r: Option<(Vec3, Vec3)>)
        ensures
            (r is None) <==> self.positions@.len() == 0,
            r is Some ==> {
                let (mn, mx) = r->Some_0;
                &&& forall|i: int|
                    0 <= i < self.positions@.len() ==> {
                        let p = #[trigger] self.positions@[i];
                        mn.x <= p.x && mn.y <= p.y && mn.z <= p.z && p.x <= mx.x && p.y <= mx.y
                            && p.z <= mx.z
                    }
                &&& (exists|i: int|
                    0 <= i < self.positions@.len() && #[trigger] self.positions@[i].x == mn.x)
                &&& (exists|i: int|
                    0 <= i < self.positions@.len() && #[trigger] self.positions@[i].y == mn.y)
                &&& (exists|i: int|
                    0 <= i < self.positions@.len() && #[trigger] self.positions@[i].z == mn.z)
                &&& (exists|i: int|
                    0 <= i < self.positions@.len() && #[trigger] self.positions@[i].x == mx.x)
                &&& (exists|i: int|
                    0 <= i < self.positions@.len() && #[trigger] self.positions@[i].y == mx.y)
                &&& (exists|i: int|
                    0 <= i < self.positions@.len() && #[trigger] self.positions@[i].z == mx.z)
            },
    {
        if self.positions.len() == 0 {
            return None;
        }
        let first = self.positions[0];
        let mut mn = first;
        let mut mx = first;
        proof {
            assert(self.positions@[0].x == mn.x);
            assert(self.positions@[0].y == mn.y);
            assert(self.positions@[0].z == mn.z);
            assert(self.positions@[0].x == mx.x);
            assert(self.positions@[0].y == mx.y);
            assert(self.positions@[0].z == mx.z);
        }
        let mut i: usize = 1;
        while i < self.positions.len()
            invariant
                1 <= i <= self.positions@.len(),
                forall|j: int|
                    0 <= j < i ==> {
                        let p = #[trigger] self.positions@[j];
                        mn.x <= p.x && mn.y <= p.y && mn.z <= p.z && p.x <= mx.x && p.y <= mx.y
                            && p.z <= mx.z
                    },
                exists|j: int| 0 <= j < i && #[trigger] self.positions@[j].x == mn.x,
                exists|j: int| 0 <= j < i && #[trigger] self.positions@[j].y == mn.y,
                exists|j: int| 0 <= j < i && #[trigger] self.positions@[j].z == mn.z,
                exists|j: int| 0 <= j < i && #[trigger] self.positions@[j].x == mx.x,
                exists|j: int| 0 <= j < i && #[trigger] self.positions@[j].y == mx.y,
                exists|j: int| 0 <= j < i && #[trigger] self.positions@[j].z == mx.z,
            decreases self.positions@.len() - i,
        {
            let p = self.positions[i];
            if p.x < mn.x {
                mn.x = p.x;
            }
            if p.y < mn.y {
                mn.y = p.y;
            }
            if p.z < mn.z {
                mn.z = p.z;
            }
            if p.x > mx.x {
                mx.x = p.x;
            }
            if p.y > mx.y {
                mx.y = p.y;
            }
            if p.z > mx.z {
                mx.z = p.z;
            }
            i = i + 1;
        }
        Some((mn, mx))
    }

    /// The bounding box of a mesh that is about to be rendered; an empty
    /// mesh is a degenerate scene and is reported distinctly. The box is
    /// tight: every face is attained by some vertex.
    pub fn checked_bounding_box(&self) -> (r: Result<(Vec3, Vec3), Error>)
        ensures
            (r is Err) <==> self.positions@.len() == 0,
            r is Err ==> r->Err_0 == Error::EmptyMesh,
            r is Ok ==> ({
                let (mn, mx) = r->Ok_0;
                &&& (forall|i: int|
                    0 <= i < self.positions@.len() ==> {
                        let p = #[trigger] self.positions@[i];
                        mn.x <= p.x && mn.y <= p.y && mn.z <= p.z && p.x <= mx.x && p.y <= mx.y
                            && p.z <= mx.z
                    })
                &&& (exists|i: int|
                    0 <= i < self.positions@.len() && #[trigger] self.positions@[i].x == mn.x)
                &&& (exists|i: int|
                    0 <= i < self.positions@.len() && #[trigger] self.positions@[i].y == mn.y)
                &&& (exists|i: int|
                    0 <= i < self.positions@.len() && #[trigger] self.positions@[i].z == mn.z)
                &&& (exists|i: int|
                    0 <= i < self.positions@.len() && #[trigger] self.positions@[i].x == mx.x)
                &&& (exists|i: int|
                    0 <= i < self.positions@.len() && #[trigger] self.positions@[i].y == mx.y)
                &&& (exists|i: int|
                    0 <= i < self.positions@.len() && #[trigger] self.positions@[i].z == mx.z)
            }),
    {
        match self.bounding_box() {
            Some(bb) => Ok(bb),
            None => Err(Error::EmptyMesh),
        }
    }

    /// Whether every position and normal fits within `[-b, b]` on each
    /// axis, so that callers can re-establish the bounds the intersection
    /// code needs after an arbitrary transform.
    pub fn bounded(&self, b: i64) -> (r: bool)
        requires
            b >= 0,
        ensures
            r == mesh_bounded(*self, b),
    {
        let mut i: usize = 0;
        while i < self.positions.len()
            invariant
                i <= self.positions@.len(),
                b >= 0,
                forall|j: int| 0 <= j < i ==> okv(#[trigger] self.positions@[j], b),
            decreases self.positions@.len() - i,
        {
            let p = self.positions[i];
            if p.x < -b || p.x > b || p.y < -b || p.y > b || p.z < -b || p.z > b {
                return false;
            }
            i = i + 1;
        }
        let mut k: usize = 0;
        while k < self.normals.len()
            invariant
                k <= self.normals@.len(),
                b >= 0,
                forall|j: int| 0 <= j < self.positions@.len() ==> okv(#[trigger] self.positions@[j], b),
                forall|j: int| 0 <= j < k ==> okv(#[trigger] self.normals@[j], b),
            decreases self.normals@.len() - k,
        {
            let n = self.normals[k];
            if n.x < -b || n.x > b || n.y < -b || n.y > b || n.z < -b || n.z > b {
                return false;
            }
            k = k + 1;
        }
        true
    }
}

/// The greatest fixed-point squared vertex distance from the origin, with
/// zero for an empty mesh.
pub open spec fn max_mag2_s(s: Seq<Vec3>) -> int
    decreases s.len(),
{
    if s.len() == 0 {
        0
    } else {
        let rest = max_mag2_s(s.drop_last());
        let d = dot_s(s.last(), s.last());
        if d >= rest {
            d
        } else {
            rest
        }
    }
}

/// The maximum fixed-point distance between any vertex and the origin.
pub fn max_distance_from_origin(mesh: &Mesh) -> (r: i64)
    requires
        mesh_bounded(*mesh, VMAX),
    ensures
        r == fsqrt_s(max_mag2_s(mesh.positions@)),
{
    let mut acc: i64 = 0;
    let mut i: usize = 0;
    while i < mesh.positions.len()
        invariant
            i <= mesh.positions@.len(),
            mesh_bounded(*mesh, VMAX),
            acc == max_mag2_s(mesh.positions@.take(i as int)),
            0 <= acc <= 0x3000_0000_0000_0000,
        decreases mesh.positions@.len() - i,
    {
        proof {
            assert(mesh.positions@.take(i + 1).drop_last() =~= mesh.positions@.take(i as int));
        }
        let p = mesh.positions[i];
        let d2 = p.magnitude2();
        if d2 > acc {
            acc = d2;
        }
        i = i + 1;
    }
    proof {
        assert(mesh.positions@.take(mesh.positions@.len() as int) =~= mesh.positions@);
    }
    crate::fixed::fsqrt(acc)
}

/// One triangle of a triangle soup: three vertex positions and one face
/// normal shared by all three vertices.
#[derive(Clone, Copy, Debug, PartialEq, Eq, Structural)]
pub struct SoupTriangle {
    pub v0: Vec3,
    pub v1: Vec3,
    pub v2: Vec3,
    pub normal: Vec3,
}

/// Builds a mesh incrementally: vertex data first, then optional UVs, a
/// transformation, and orientation flags; `build` applies the
/// transformation once.
pub struct MeshBuilder {
    pub positions: Vec<Vec3>,
    pub normals: Vec<Vec3>,
    pub uvs: Option<Vec<Vec2>>,
    pub triangle_vertex_indices: Vec<(usize, usize, usize)>,
    pub transformation: Matrix4,
    pub transformation_swaps_handedness: bool,
    pub reverse_orientation: bool,
}

impl MeshBuilder {
    /// Start a builder from vertex positions, normals and index triples;
    /// the transformation starts as the identity.
    pub fn new(
        positions: Vec<Vec3>,
        normals: Vec<Vec3>,
        triangle_vertex_indices: Vec<(usize, usize, usize)>,
    ) -> (r: MeshBuilder)
        ensures
            r@ == (MeshBuilderView {
                positions: positions@,
                normals: normals@,
                uvs: None,
                triangle_vertex_indices: triangle_vertex_indices@,
                transformation: crate::matrix::nonuniform_scale_s(65536, 65536, 65536),
                transformation_swaps_handedness: false,
                reverse_orientation: false,
            }),
    {
        MeshBuilder {
            positions,
            normals,
            uvs: None,
            triangle_vertex_indices,
            transformation: Matrix4::identity(),
            transformation_swaps_handedness: false,
            reverse_orientation: false,
        }
    }

    /// Attach UV coordinates.
    pub fn uvs(self, uvs: Vec<Vec2>) -> (r: MeshBuilder)
        ensures
            r@ == (MeshBuilderView { uvs: Some(uvs@), ..self@ }),
    {
        MeshBuilder { uvs: Some(uvs), ..self }
    }

    /// Set the transformation `build` will apply.
    pub fn transformation(self, transformation: Matrix4) -> (r: MeshBuilder)
        ensures
            r@ == (MeshBuilderView { transformation, ..self@ }),
    {
        MeshBuilder { transformation, ..self }
    }

    /// Record whether the transformation swaps handedness.
    pub fn transformation_swaps_handedness(self, transform_swaps_handedness: bool) -> (r:
        MeshBuilder)
        ensures
            r@ == (MeshBuilderView {
                transformation_swaps_handedness: transform_swaps_handedness,
                ..self@
            }),
    {
        MeshBuilder { transformation_swaps_handedness: transform_swaps_handedness, ..self }
    }

    /// Record whether the surface orientation is reversed.
    pub fn reverse_orientation(self, reverse_orientation: bool) -> (r: MeshBuilder)
        ensures
            r@ == (MeshBuilderView { reverse_orientation, ..self@ }),
    {
        MeshBuilder { reverse_orientation, ..self }
    }

    /// Build the mesh and apply the recorded transformation to every
    /// vertex.
    pub fn build(self) -> (r: Mesh)
        requires
            okm(self@.transformation, VMAX),
            forall|i: int| 0 <= i < self@.positions.len() ==> okv(#[trigger] self@.positions[i], VMAX),
            forall|i: int| 0 <= i < self@.normals.len() ==> okv(#[trigger] self@.normals[i], VMAX),
        ensures
            r.positions@.len() == self@.positions.len(),
            r.normals@.len() == self@.normals.len(),
            forall|i: int|
                0 <= i < self@.positions.len() ==> #[trigger] r.positions@[i] == tp_vec_s(
                    self@.transformation,
                    self@.positions[i],
                ),
            forall|i: int|
                0 <= i < self@.normals.len() ==> #[trigger] r.normals@[i] == unitized_s(
                    tv_vec_s(self@.transformation, self@.normals[i]),
                ),
            r.uvs is Some <==> self@.uvs is Some,
            r.uvs is Some ==> r.uvs->Some_0@ == self@.uvs->Some_0,
            r.triangle_vertex_indices@ == self@.triangle_vertex_indices,
            r.transformation_swaps_handedness == self@.transformation_swaps_handedness,
            r.reverse_orientation == self@.reverse_orientation,
    {
        let ghost bview = self@;
        let mut mesh = Mesh {
            positions: self.positions,
            normals: self.normals,
            uvs: self.uvs,
            triangle_vertex_indices: self.triangle_vertex_indices,
            transformation_swaps_handedness: self.transformation_swaps_handedness,
            reverse_orientation: self.reverse_orientation,
        };
        proof {
            assert forall|i: int| 0 <= i < mesh.positions@.len() implies okv(
                #[trigger] mesh.positions@[i],
                VMAX,
            ) by {
                assert(mesh.positions@[i] == bview.positions[i]);
            }
            assert forall|i: int| 0 <= i < mesh.normals@.len() implies okv(
                #[trigger] mesh.normals@[i],
                VMAX,
            ) by {
                assert(mesh.normals@[i] == bview.normals[i]);
            }
        }
        mesh.transform(self.transformation);
        mesh
    }

    /// Start a builder from a triangle soup: three fresh vertices per
    /// triangle, each carrying the triangle's face normal.
    pub fn from_triangles(triangles: &Vec<SoupTriangle>) -> (r: MeshBuilder)
        requires
            triangles@.len() <= 0x100_0000,
        ensures
            r@.positions.len() == 3 * triangles@.len(),
            r@.normals.len() == 3 * triangles@.len(),
            r@.triangle_vertex_indices.len() == triangles@.len(),
            forall|i: int|
                0 <= i < triangles@.len() ==> {
                    let t = #[trigger] triangles@[i];
                    &&& r@.positions[3 * i] == t.v0
                    &&& r@.positions[3 * i + 1] == t.v1
                    &&& r@.positions[3 * i + 2] == t.v2
                    &&& r@.normals[3 * i] == t.normal
                    &&& r@.normals[3 * i + 1] == t.normal
                    &&& r@.normals[3 * i + 2] == t.normal
                    &&& r@.triangle_vertex_indices[i] == ((3 * i) as usize, (3 * i + 1) as usize, (
                        3 * i + 2) as usize)
                },
            r@.uvs is None,
            r@.transformation == crate::matrix::nonuniform_scale_s(65536, 65536, 65536),
            r@.transformation_swaps_handedness == false,
            r@.reverse_orientation == false,
    {
        let n = triangles.len();
        let mut positions: Vec<Vec3> = Vec::new();
        let mut normals: Vec<Vec3> = Vec::new();
        let mut triangle_vertex_indices: Vec<(usize, usize, usize)> = Vec::new();
        let mut i: usize = 0;
        while i < n
            invariant
                i <= n,
                n == triangles@.len(),
                n <= 0x100_0000,
                positions@.len() == 3 * i,
                normals@.len() == 3 * i,
                triangle_vertex_indices@.len() == i,
                forall|j: int|
                    0 <= j < i ==> {
                        let t = #[trigger] triangles@[j];
                        &&& positions@[3 * j] == t.v0
                        &&& positions@[3 * j + 1] == t.v1
                        &&& positions@[3 * j + 2] == t.v2
                        &&& normals@[3 * j] == t.normal
                        &&& normals@[3 * j + 1] == t.normal
                        &&& normals@[3 * j + 2] == t.normal
                        &&& triangle_vertex_indices@[j] == ((3 * j) as usize, (3 * j + 1) as usize,
                        (3 * j + 2) as usize)
                    },
            decreases n - i,
        {
            let t = triangles[i];
            positions.push(t.v0);
            positions.push(t.v1);
            positions.push(t.v2);
            normals.push(t.normal);
            normals.push(t.normal);
            normals.push(t.normal);
            triangle_vertex_indices.push((3 * i, 3 * i + 1, 3 * i + 2));
            i = i + 1;
        }
        MeshBuilder::new(positions, normals, triangle_vertex_indices)
    }
}

/// The abstract contents of a `MeshBuilder`.
pub struct MeshBuilderView {
    pub positions: Seq<Vec3>,
    pub normals: Seq<Vec3>,
    pub uvs: Option<Seq<Vec2>>,
    pub triangle_vertex_indices: Seq<(usize, usize, usize)>,
    pub transformation: Matrix4,
    pub transformation_swaps_handedness: bool,
    pub reverse_orientation: bool,
}

impl View for MeshBuilder {
    type V = MeshBuilderView;

    open spec fn view(&self) -> MeshBuilderView {
        MeshBuilderView {
            positions: self.positions@,
            normals: self.normals@,
            uvs: match self.uvs {
                Some(u) => Some(u@),
                None => None,
            },
            triangle_vertex_indices: self.triangle_vertex_indices@,
            transformation: self.transformation,
            transformation_swaps_handedness: self.transformation_swaps_handedness,
            reverse_orientation: self.reverse_orientation,
        }
    }
}

} // verus!
