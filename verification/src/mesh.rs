//! The mesh data model: what a parsed asset holds, what the renderer is
//! given, and the mathematical description of how one becomes the other.

use vstd::prelude::*;
use crate::scalar::Scalar;
use crate::vector::{Vector3, Vector4};

verus! {

/// Bit pattern of 0.8, each channel of the diffuse colour of a sub-mesh
/// that names no material.
pub const DEFAULT_DIFFUSE_BITS: u32 = 0x3F4C_CCCD;

/// Bit pattern of 0.15, each channel of the specular colour of a sub-mesh
/// that names no material.
pub const DEFAULT_SPECULAR_BITS: u32 = 0x3E19_999A;

/// Bit pattern of 15.0, the shininess of a sub-mesh that names no material.
pub const DEFAULT_SHININESS_BITS: u32 = 0x4170_0000;

/// One entry of the material table.
#[derive(Clone, Copy, Debug, PartialEq, Eq, Structural)]
pub struct MaterialEntry {
    pub diffuse: Vector3,
    pub specular: Vector3,
    pub shininess: Scalar,
}

/// One named group of geometry within an asset.
#[derive(Clone, Debug)]
pub struct SubMesh {
    /// Positions, three scalars to a vertex.
    pub positions: Vec<Scalar>,
    /// Normals, three scalars to a vertex, or nothing at all.
    pub normals: Vec<Scalar>,
    /// Indices into this sub-mesh's own vertices.
    pub indices: Vec<u32>,
    /// Index into the material table, if the sub-mesh names a material.
    pub material: Option<usize>,
}

/// A parsed asset: sub-meshes and the material table they refer to.
#[derive(Clone, Debug)]
pub struct RawMeshSource {
    pub sub_meshes: Vec<SubMesh>,
    pub materials: Vec<MaterialEntry>,
}

/// One vertex as the renderer takes it.
#[derive(Clone, Copy, Debug, PartialEq, Eq, Structural)]
pub struct Vertex {
    pub position: Vector3,
    /// All zero where the sub-mesh has no normals.
    pub normal: Vector3,
    pub color_diffuse: Vector3,
    /// Specular colour, then shininess.
    pub color_specular: Vector4,
}

/// How the indices of a sub-mesh enter the one index list.
#[derive(Clone, Copy, Debug, PartialEq, Eq, Structural)]
pub enum IndexPolicy {
    /// Each index is copied as it stands. Right for an asset of one sub-mesh;
    /// with more, the indices of later sub-meshes still count from zero.
    Verbatim,
    /// Each index is raised by the number of vertices that the sub-meshes
    /// before its own contribute, so that it points into the one vertex list.
    Rebased,
}

/// Diffuse colour of a vertex whose sub-mesh names no material.
pub open spec fn default_diffuse() -> Vector3 {
    Vector3::splat(Scalar { bits: DEFAULT_DIFFUSE_BITS })
}

/// Specular colour and shininess of a vertex whose sub-mesh names no material.
pub open spec fn default_specular() -> Vector4 {
    Vector4::extend(
        Vector3::splat(Scalar { bits: DEFAULT_SPECULAR_BITS }),
        Scalar { bits: DEFAULT_SHININESS_BITS },
    )
}

/// The zero vector, the normal of a vertex whose sub-mesh has no normals.
pub open spec fn zero_normal() -> Vector3 {
    Vector3::splat(Scalar { bits: 0 })
}

/// The three scalars of `flat` that start at `3 * i`.
pub open spec fn triple_at(flat: Seq<Scalar>, i: int) -> Vector3 {
    Vector3 { x: flat[3 * i], y: flat[3 * i + 1], z: flat[3 * i + 2] }
}

impl MaterialEntry {
    /// Specular colour with the shininess appended.
    pub open spec fn specular_with_shininess(self) -> Vector4 {
        Vector4::extend(self.specular, self.shininess)
    }
}

impl SubMesh {
    /// Number of vertices: whole triples of position scalars.
    pub open spec fn vertex_count(self) -> nat {
        self.positions@.len() / 3
    }

    /// The normals, if there are any, cover every vertex, and the material,
    /// if one is named, is in a table of `material_count` entries.
    pub open spec fn well_formed(self, material_count: nat) -> bool {
        &&& self.normals@.len() == 0 || self.normals@.len() >= 3 * self.vertex_count()
        &&& self.material matches Some(m) ==> m < material_count
    }

    /// Normal of vertex `i`.
    pub open spec fn normal_at(self, i: int) -> Vector3 {
        if self.normals@.len() == 0 {
            zero_normal()
        } else {
            triple_at(self.normals@, i)
        }
    }

    /// Diffuse colour of every vertex of the sub-mesh.
    pub open spec fn diffuse(self, materials: Seq<MaterialEntry>) -> Vector3 {
        match self.material {
            Some(m) => materials[m as int].diffuse,
            None => default_diffuse(),
        }
    }

    /// Specular colour and shininess of every vertex of the sub-mesh.
    pub open spec fn specular(self, materials: Seq<MaterialEntry>) -> Vector4 {
        match self.material {
            Some(m) => materials[m as int].specular_with_shininess(),
            None => default_specular(),
        }
    }

    /// Vertex `i` of the sub-mesh, as the renderer takes it.
    pub open spec fn vertex(self, materials: Seq<MaterialEntry>, i: int) -> Vertex {
        Vertex {
            position: triple_at(self.positions@, i),
            normal: self.normal_at(i),
            color_diffuse: self.diffuse(materials),
            color_specular: self.specular(materials),
        }
    }

    /// The vertices of the sub-mesh, in their own order.
    pub open spec fn vertices(self, materials: Seq<MaterialEntry>) -> Seq<Vertex> {
        Seq::new(self.vertex_count(), |i: int| self.vertex(materials, i))
    }

    /// The indices of the sub-mesh, each raised by `base` where the policy
    /// asks for it.
    pub open spec fn placed_indices(self, policy: IndexPolicy, base: nat) -> Seq<u32> {
        match policy {
            IndexPolicy::Verbatim => self.indices@,
            IndexPolicy::Rebased => Seq::new(
                self.indices@.len(),
                |j: int| (self.indices@[j] + base) as u32,
            ),
        }
    }

    /// Raised by `base`, every index of the sub-mesh still fits 32 bits.
    pub open spec fn fits_above(self, base: nat) -> bool {
        forall|j: int| 0 <= j < self.indices@.len() ==> #[trigger] self.indices@[j] + base <= u32::MAX
    }
}

/// Number of vertices that `subs` contribute together.
pub open spec fn vertex_total(subs: Seq<SubMesh>) -> nat
    decreases subs.len(),
{
    if subs.len() == 0 {
        0
    } else {
        vertex_total(subs.drop_last()) + subs.last().vertex_count()
    }
}

/// Number of indices that `subs` contribute together.
pub open spec fn index_total(subs: Seq<SubMesh>) -> nat
    decreases subs.len(),
{
    if subs.len() == 0 {
        0
    } else {
        index_total(subs.drop_last()) + subs.last().indices@.len()
    }
}

/// The one vertex list: the vertices of each sub-mesh, sub-mesh after
/// sub-mesh, nothing reordered and nothing merged.
pub open spec fn flat_vertices(subs: Seq<SubMesh>, materials: Seq<MaterialEntry>) -> Seq<Vertex>
    decreases subs.len(),
{
    if subs.len() == 0 {
        Seq::empty()
    } else {
        flat_vertices(subs.drop_last(), materials) + subs.last().vertices(materials)
    }
}

/// The one index list: the indices of each sub-mesh, sub-mesh after sub-mesh,
/// each placed as the policy says.
pub open spec fn flat_indices(subs: Seq<SubMesh>, policy: IndexPolicy) -> Seq<u32>
    decreases subs.len(),
{
    if subs.len() == 0 {
        Seq::empty()
    } else {
        flat_indices(subs.drop_last(), policy) + subs.last().placed_indices(
            policy,
            vertex_total(subs.drop_last()),
        )
    }
}

/// Under the policy, every index can be placed without leaving 32 bits.
pub open spec fn indices_fit(subs: Seq<SubMesh>, policy: IndexPolicy) -> bool {
    policy == IndexPolicy::Rebased ==> forall|s: int|
        0 <= s < subs.len() ==> (#[trigger] subs[s]).fits_above(vertex_total(subs.take(s)))
}

/// The positions of a vertex list, in order.
pub open spec fn positions_of(vertices: Seq<Vertex>) -> Seq<Vector3> {
    Seq::new(vertices.len(), |i: int| vertices[i].position)
}

impl RawMeshSource {
    /// Every sub-mesh is well formed against the material table.
    pub open spec fn well_formed(self) -> bool {
        forall|s: int|
            0 <= s < self.sub_meshes@.len() ==> (#[trigger] self.sub_meshes@[s]).well_formed(
                self.materials@.len(),
            )
    }
}

} // verus!
