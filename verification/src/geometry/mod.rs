//! The scene's data: shapes, what they are made of, and what lights them.
use vstd::prelude::*;
use crate::color::Rgba;
use crate::scalar::Scalar;
use crate::vector::Vec2;
use crate::vector::Vec3;

mod material;
mod storage;

pub use material::Material;
pub use storage::all_loaded;
pub use storage::answered;
pub use storage::finished;
pub use storage::named_by;
pub use storage::taken;
pub use storage::assemble;
pub use storage::index_geometry;
pub use storage::lemma_assemble_distinct;
pub use storage::lemma_assemble_sound;
pub use storage::lemma_sample_color_succeeds;
pub use storage::BuiltScene;
pub use storage::ColorSample;
pub use storage::SampleError;
pub use storage::Scene;
pub use storage::SceneError;

verus! {

#[derive(Clone, Copy, Debug)]
pub struct SphereGeometry {
    pub radius: Scalar,
    pub center: Vec3,
}

/// A triangle mesh: vertex positions, triangles as triples of vertex
/// indices, and texture coordinates, either none or one per vertex.
#[derive(Clone, Debug)]
pub struct MeshGeometry {
    pub verts: Vec<(Scalar, Scalar, Scalar)>,
    pub indices: Vec<(u32, u32, u32)>,
    pub tex_coords: Vec<Vec2>,
}

#[derive(Clone, Debug)]
pub enum GeomInfo {
    Mesh(MeshGeometry),
    Sphere(SphereGeometry),
}

#[derive(Clone, Debug)]
pub struct Geometry {
    pub info: GeomInfo,
    pub material: Material,
}

/// A colour that is the same everywhere, or an image of the texture table.
#[derive(Clone, Copy, Debug)]
pub enum Texture {
    Solid(Rgba),
    Image(u32),
}

#[derive(Clone, Copy, Debug)]
pub struct Light {
    pub light_type: LightType,
    pub color: Rgba,
}

#[derive(Clone, Copy, Debug)]
pub enum LightType {
    Ambient,
    /// A point light at a position.
    Point(Vec3),
    AreaQuad(LightQuad),
}

/// A rectangular light: `bottom_left + u * u_vec + v * v_vec` for `u`, `v`
/// in `[0, 1]`.
#[derive(Clone, Copy, Debug)]
pub struct LightQuad {
    pub bottom_left: Vec3,
    pub u_vec: Vec3,
    pub v_vec: Vec3,
    pub normal: Vec3,
}

/// Where the texture coordinate of a point on a surface comes from.
#[derive(Clone, Copy, Debug)]
pub enum UvSource {
    /// The coordinates at the three corners of the triangle that was hit, in
    /// the order of the triangle's indices.
    Corners(Vec2, Vec2, Vec2),
    /// The shape has one coordinate everywhere.
    Fixed(Vec2),
    /// The mesh has no such triangle.
    NoTriangle,
    /// The triangle names a vertex that has no texture coordinate.
    NoCoordinate,
}

/// Whether the three indices of a triangle are below `n`.
pub open spec fn triple_below(t: (u32, u32, u32), n: int) -> bool {
    t.0 < n && t.1 < n && t.2 < n
}

/// The triangles that a flat list of indices spells, three indices each.
pub open spec fn triples_of(flat: Seq<u32>) -> Seq<(u32, u32, u32)>
    recommends
        flat.len() % 3 == 0,
{
    Seq::new(flat.len() / 3, |i: int| (flat[3 * i], flat[3 * i + 1], flat[3 * i + 2]))
}

impl MeshGeometry {
    /// Every triangle names existing vertices, and texture coordinates are
    /// absent or one per vertex.
    pub open spec fn well_formed(&self) -> bool {
        &&& forall|t: int|
            0 <= t < self.indices@.len() ==> triple_below(
                #[trigger] self.indices@[t],
                self.verts@.len() as int,
            )
        &&& (self.tex_coords@.len() == 0 || self.tex_coords@.len() == self.verts@.len())
    }

    /// Where the texture coordinate of a point on triangle `prim_id` comes
    /// from.
    pub open spec fn uv_source(&self, prim_id: u32) -> UvSource {
        if prim_id >= self.indices@.len() {
            UvSource::NoTriangle
        } else {
            let t = self.indices@[prim_id as int];
            if triple_below(t, self.tex_coords@.len() as int) {
                UvSource::Corners(
                    self.tex_coords@[t.0 as int],
                    self.tex_coords@[t.1 as int],
                    self.tex_coords@[t.2 as int],
                )
            } else {
                UvSource::NoCoordinate
            }
        }
    }

    /// Groups a flat list of indices by three. `None` when the list's length
    /// is no multiple of three.
    pub fn triangles(flat: &Vec<u32>) -> (r: Option<Vec<(u32, u32, u32)>>)
        ensures
            r is Some <==> flat@.len() % 3 == 0,
            r is Some ==> r->0@ == triples_of(flat@),
    {
        if flat.len() % 3 != 0 {
            return None;
        }
        let mut out: Vec<(u32, u32, u32)> = Vec::new();
        let mut j: usize = 0;
        while j < flat.len()
            invariant
                j <= flat@.len(),
                j % 3 == 0,
                flat@.len() % 3 == 0,
                out@.len() == j / 3,
                forall|k: int|
                    0 <= k < out@.len() ==> out@[k] == (
                        flat@[3 * k],
                        flat@[3 * k + 1],
                        flat@[3 * k + 2],
                    ),
            decreases flat@.len() - j,
        {
            out.push((flat[j], flat[j + 1], flat[j + 2]));
            j = j + 3;
        }
        assert(out@ =~= triples_of(flat@));
        Some(out)
    }

    /// Whether the mesh is well formed.
    pub fn is_well_formed(&self) -> (r: bool)
        ensures
            r == self.well_formed(),
    {
        let n: usize = self.verts.len();
        if self.tex_coords.len() != 0 && self.tex_coords.len() != n {
            return false;
        }
        let mut t: usize = 0;
        while t < self.indices.len()
            invariant
                t <= self.indices@.len(),
                n == self.verts@.len(),
                forall|k: int|
                    0 <= k < t ==> triple_below(#[trigger] self.indices@[k], n as int),
            decreases self.indices@.len() - t,
        {
            let tri = self.indices[t];
            if tri.0 as usize >= n || tri.1 as usize >= n || tri.2 as usize >= n {
                assert(!triple_below(self.indices@[t as int], n as int));
                return false;
            }
            t = t + 1;
        }
        true
    }

    /// Looks up the texture coordinates at the corners of triangle `prim_id`.
    pub fn compute_uv(&self, prim_id: u32) -> (r: UvSource)
        ensures
            r == self.uv_source(prim_id),
            !(r is Fixed),
    {
        if prim_id as usize >= self.indices.len() {
            return UvSource::NoTriangle;
        }
        let (i0, i1, i2) = self.indices[prim_id as usize];
        let n: usize = self.tex_coords.len();
        if (i0 as usize) < n && (i1 as usize) < n && (i2 as usize) < n {
            UvSource::Corners(
                self.tex_coords[i0 as usize],
                self.tex_coords[i1 as usize],
                self.tex_coords[i2 as usize],
            )
        } else {
            UvSource::NoCoordinate
        }
    }
}

impl Default for MeshGeometry {
    /// A mesh without vertices.
    fn default() -> (m: MeshGeometry)
        ensures
            m.verts@.len() == 0,
            m.indices@.len() == 0,
            m.tex_coords@.len() == 0,
            m.well_formed(),
    {
        MeshGeometry { verts: Vec::new(), indices: Vec::new(), tex_coords: Vec::new() }
    }
}

impl Geometry {
    /// A shape is well formed when its mesh is; a sphere always is.
    pub open spec fn well_formed(&self) -> bool {
        match self.info {
            GeomInfo::Mesh(mesh) => mesh.well_formed(),
            GeomInfo::Sphere(_) => true,
        }
    }

    /// Where the texture coordinate of a point of primitive `prim_id` comes
    /// from: the corners of a mesh's triangle, or the origin for a sphere.
    pub open spec fn uv_source(&self, prim_id: u32) -> UvSource {
        match self.info {
            GeomInfo::Mesh(mesh) => mesh.uv_source(prim_id),
            GeomInfo::Sphere(_) => UvSource::Fixed(
                Vec2 { x: Scalar { bits: 0 }, y: Scalar { bits: 0 } },
            ),
        }
    }

    /// Whether the shape is well formed.
    pub fn is_well_formed(&self) -> (r: bool)
        ensures
            r == self.well_formed(),
    {
        match &self.info {
            GeomInfo::Mesh(mesh) => mesh.is_well_formed(),
            GeomInfo::Sphere(_) => true,
        }
    }

    pub fn with_material(material: Material, info: GeomInfo) -> (g: Geometry)
        ensures
            g.material == material,
            g.info == info,
    {
        Geometry { material, info }
    }

    /// Whether the shape is a mesh, the one shape that a matrix can move.
    pub fn is_mesh(&self) -> (r: bool)
        ensures
            r == (self.info is Mesh),
    {
        match &self.info {
            GeomInfo::Mesh(_) => true,
            GeomInfo::Sphere(_) => false,
        }
    }

    /// Looks up where the texture coordinate of a point of primitive
    /// `prim_id` comes from.
    pub fn compute_uv(&self, prim_id: u32) -> (r: UvSource)
        ensures
            r == self.uv_source(prim_id),
    {
        match &self.info {
            GeomInfo::Mesh(mesh) => mesh.compute_uv(prim_id),
            GeomInfo::Sphere(_) => UvSource::Fixed(Vec2::new(Scalar::zero(), Scalar::zero())),
        }
    }
}

impl LightQuad {
    pub fn with_normal(bottom_left: Vec3, u_vec: Vec3, v_vec: Vec3, normal: Vec3) -> (q: LightQuad)
        ensures
            q == (LightQuad { bottom_left, u_vec, v_vec, normal }),
    {
        LightQuad { bottom_left, u_vec, v_vec, normal }
    }
}

/// In a well-formed mesh that has texture coordinates, every triangle has
/// them at its three corners.
pub proof fn lemma_well_formed_mesh_has_corners(mesh: MeshGeometry, prim_id: u32)
    requires
        mesh.well_formed(),
        mesh.tex_coords@.len() > 0,
        prim_id < mesh.indices@.len(),
    ensures
        mesh.uv_source(prim_id) is Corners,
{
    assert(triple_below(mesh.indices@[prim_id as int], mesh.verts@.len() as int));
}

} // verus!
