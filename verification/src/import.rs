//! The importer: from a parsed asset to one vertex list, one index list and
//! the bounding box of all positions.

use vstd::prelude::*;
use crate::bounds::BoundingBox;
use crate::flatten::{
    law_flat_lengths, lemma_no_vertices_fit, lemma_vertex_total_prefix,
};
use crate::mesh::{
    default_diffuse, default_specular, flat_indices, flat_vertices, index_total, indices_fit,
    positions_of, triple_at, vertex_total, IndexPolicy, MaterialEntry, RawMeshSource, SubMesh,
    Vertex, DEFAULT_DIFFUSE_BITS, DEFAULT_SHININESS_BITS, DEFAULT_SPECULAR_BITS,
};
use crate::scalar::Scalar;
use crate::vector::{Vector3, Vector4};

verus! {

/// Why an asset was not imported.
#[derive(Clone, Copy, Debug, PartialEq, Eq, Structural)]
pub enum ImportError {
    /// The asset holds no vertex at all, so it has no bounding box.
    EmptyMesh,
    /// Under `IndexPolicy::Rebased`, some index no longer fits 32 bits.
    IndexOverflow,
}

/// What the renderer is handed: all vertices, all indices, and the box
/// around all positions.
#[derive(Clone, Debug)]
pub struct FlattenedMesh {
    pub vertices: Vec<Vertex>,
    pub indices: Vec<u32>,
    pub bounds: BoundingBox,
}

impl FlattenedMesh {
    /// `self` is what flattening `source` under `policy` gives.
    pub open spec fn flattens(self, source: RawMeshSource, policy: IndexPolicy) -> bool {
        &&& self.vertices@ == flat_vertices(source.sub_meshes@, source.materials@)
        &&& self.indices@ == flat_indices(source.sub_meshes@, policy)
        &&& self.bounds == BoundingBox::of(positions_of(self.vertices@))
    }
}

impl ImportError {
    /// A short description of the failure.
    pub fn message(&self) -> (text: &'static str)
        ensures
            text@ == match *self {
                ImportError::EmptyMesh => "empty mesh"@,
                ImportError::IndexOverflow => "index overflow"@,
            },
    {
        match self {
            ImportError::EmptyMesh => "empty mesh",
            ImportError::IndexOverflow => "index overflow",
        }
    }
}

/// Diffuse colour of a vertex whose sub-mesh names no material.
pub fn matte_diffuse() -> (c: Vector3)
    ensures
        c == default_diffuse(),
{
    let s = Scalar::from_bits(DEFAULT_DIFFUSE_BITS);
    Vector3::new(s, s, s)
}

/// Specular colour and shininess of a vertex whose sub-mesh names no material.
pub fn matte_specular() -> (c: Vector4)
    ensures
        c == default_specular(),
{
    let s = Scalar::from_bits(DEFAULT_SPECULAR_BITS);
    Vector4::new(s, s, s, Scalar::from_bits(DEFAULT_SHININESS_BITS))
}

/// The three scalars of `flat` that start at `3 * i`.
fn read_triple(flat: &Vec<Scalar>, i: usize) -> (v: Vector3)
    requires
        3 * i + 2 < flat@.len(),
    ensures
        v == triple_at(flat@, i as int),
{
    let limit: usize = flat.len();
    assert(3 * i + 2 < limit);
    let first: usize = 3 * i;
    Vector3::new(flat[first], flat[first + 1], flat[first + 2])
}

impl SubMesh {
    /// Number of vertices of the sub-mesh.
    pub fn len(&self) -> (n: usize)
        ensures
            n == self.vertex_count(),
    {
        self.positions.len() / 3
    }

    /// Whether the normals cover every vertex (or are absent) and the
    /// material, if named, is one of `material_count`.
    pub fn is_well_formed(&self, material_count: usize) -> (ok: bool)
        ensures
            ok == self.well_formed(material_count as nat),
    {
        let count: usize = self.positions.len() / 3;
        let normals_ok = self.normals.len() == 0 || self.normals.len() / 3 >= count;
        let material_ok = match self.material {
            Some(m) => m < material_count,
            None => true,
        };
        normals_ok && material_ok
    }

    /// Diffuse colour, and specular colour with shininess, of the sub-mesh's
    /// vertices: the material's where one is named, the defaults where not.
    pub fn colours(&self, materials: &Vec<MaterialEntry>) -> (c: (Vector3, Vector4))
        requires
            self.material matches Some(m) ==> m < materials@.len(),
        ensures
            c.0 == self.diffuse(materials@),
            c.1 == self.specular(materials@),
    {
        match self.material {
            Some(m) => {
                let entry = materials[m];
                (
                    entry.diffuse,
                    Vector4::new(
                        entry.specular.x,
                        entry.specular.y,
                        entry.specular.z,
                        entry.shininess,
                    ),
                )
            },
            None => (matte_diffuse(), matte_specular()),
        }
    }

    /// Vertex `i` of the sub-mesh, as the renderer takes it.
    pub fn vertex_at(&self, materials: &Vec<MaterialEntry>, i: usize) -> (v: Vertex)
        requires
            self.well_formed(materials@.len()),
            i < self.vertex_count(),
        ensures
            v == self.vertex(materials@, i as int),
    {
        let position = read_triple(&self.positions, i);
        let normal = if self.normals.len() != 0 {
            read_triple(&self.normals, i)
        } else {
            let zero = Scalar::zero();
            Vector3::new(zero, zero, zero)
        };
        let (color_diffuse, color_specular) = self.colours(materials);
        Vertex { position, normal, color_diffuse, color_specular }
    }
}

impl RawMeshSource {
    /// Whether every sub-mesh is well formed against the material table.
    pub fn is_well_formed(&self) -> (ok: bool)
        ensures
            ok == self.well_formed(),
    {
        let mut s: usize = 0;
        while s < self.sub_meshes.len()
            invariant
                s <= self.sub_meshes@.len(),
                forall|t: int|
                    0 <= t < s ==> (#[trigger] self.sub_meshes@[t]).well_formed(
                        self.materials@.len(),
                    ),
            decreases self.sub_meshes@.len() - s,
        {
            if !self.sub_meshes[s].is_well_formed(self.materials.len()) {
                return false;
            }
            s += 1;
        }
        true
    }
}

/// Where index `index` goes under `policy`, `base` vertices standing before
/// its sub-mesh: `None` where it would leave 32 bits.
pub fn place_index(index: u32, base: usize, policy: IndexPolicy) -> (placed: Option<u32>)
    ensures
        policy == IndexPolicy::Verbatim ==> placed == Some(index),
        policy == IndexPolicy::Rebased ==> placed == (if index + base <= u32::MAX {
            Some((index + base) as u32)
        } else {
            None
        }),
{
    match policy {
        IndexPolicy::Verbatim => Some(index),
        IndexPolicy::Rebased => {
            let room: u32 = u32::MAX - index;
            if base <= room as usize {
                Some(index + base as u32)
            } else {
                None
            }
        },
    }
}

/// Appends the vertices of `sub` to `vertices`, in their own order, and
/// takes each position into `bounds`.
fn append_vertices(
    sub: &SubMesh,
    materials: &Vec<MaterialEntry>,
    vertices: &mut Vec<Vertex>,
    bounds: &mut BoundingBox,
)
    requires
        sub.well_formed(materials@.len()),
        *old(bounds) == BoundingBox::of(positions_of(old(vertices)@)),
    ensures
        final(vertices)@ == old(vertices)@ + sub.vertices(materials@),
        *final(bounds) == BoundingBox::of(positions_of(final(vertices)@)),
{
    let ghost before = vertices@;
    let count: usize = sub.len();
    let mut i: usize = 0;
    while i < count
        invariant
            i <= count,
            count == sub.vertex_count(),
            sub.well_formed(materials@.len()),
            vertices@ == before + sub.vertices(materials@).take(i as int),
            *bounds == BoundingBox::of(positions_of(vertices@)),
        decreases count - i,
    {
        let v = sub.vertex_at(materials, i);
        let ghost seen = vertices@;
        vertices.push(v);
        bounds.enclose(v.position);
        proof {
            assert(vertices@ =~= before + sub.vertices(materials@).take(i + 1));
            assert(positions_of(vertices@).drop_last() =~= positions_of(seen));
            assert(positions_of(vertices@).last() == v.position);
        }
        i += 1;
    }
    proof {
        assert(sub.vertices(materials@).take(count as int) =~= sub.vertices(materials@));
    }
}

/// Appends the indices of `sub` to `indices`, each placed as `policy` says
/// with `base` vertices standing before the sub-mesh. Gives up, and says so,
/// at the first index that cannot be placed.
fn append_indices(sub: &SubMesh, base: usize, policy: IndexPolicy, indices: &mut Vec<u32>) -> (done:
    bool)
    ensures
        done == (policy == IndexPolicy::Rebased ==> sub.fits_above(base as nat)),
        done ==> final(indices)@ == old(indices)@ + sub.placed_indices(policy, base as nat),
{
    let ghost before = indices@;
    let mut j: usize = 0;
    while j < sub.indices.len()
        invariant
            j <= sub.indices@.len(),
            indices@ == before + sub.placed_indices(policy, base as nat).take(j as int),
            policy == IndexPolicy::Rebased ==> forall|k: int|
                0 <= k < j ==> #[trigger] sub.indices@[k] + base <= u32::MAX,
        decreases sub.indices@.len() - j,
    {
        match place_index(sub.indices[j], base, policy) {
            Some(placed) => {
                indices.push(placed);
                proof {
                    assert(indices@ =~= before + sub.placed_indices(policy, base as nat).take(
                        j + 1,
                    ));
                }
            },
            None => {
                proof {
                    assert(sub.indices@[j as int] + base > u32::MAX);
                }
                return false;
            },
        }
        j += 1;
    }
    proof {
        assert(sub.placed_indices(policy, base as nat).take(sub.indices@.len() as int)
            =~= sub.placed_indices(policy, base as nat));
    }
    true
}

/// Flattens `source` into one vertex list and one index list and finds the
/// bounding box of all positions.
///
/// Vertices keep their order, sub-mesh after sub-mesh. Indices keep their
/// order too, and are copied or rebased as `policy` says. An asset without a
/// vertex is refused, and so is one whose indices cannot be rebased.
pub fn import(source: &RawMeshSource, policy: IndexPolicy) -> (r: Result<
    FlattenedMesh,
    ImportError,
>)
    requires
        source.well_formed(),
    ensures
        r == Err::<FlattenedMesh, ImportError>(ImportError::EmptyMesh) <==> vertex_total(
            source.sub_meshes@,
        ) == 0,
        r == Err::<FlattenedMesh, ImportError>(ImportError::IndexOverflow) <==> !indices_fit(
            source.sub_meshes@,
            policy,
        ),
        r matches Ok(mesh) ==> {
            &&& mesh.flattens(*source, policy)
            &&& mesh.vertices@.len() == vertex_total(source.sub_meshes@)
            &&& mesh.indices@.len() == index_total(source.sub_meshes@)
            &&& mesh.bounds.numeric()
        },
{
    let ghost subs = source.sub_meshes@;
    let ghost mats = source.materials@;
    let mut vertices: Vec<Vertex> = Vec::new();
    let mut indices: Vec<u32> = Vec::new();
    let mut bounds = BoundingBox::empty();
    proof {
        assert(positions_of(vertices@) =~= Seq::<Vector3>::empty());
    }
    let mut s: usize = 0;
    while s < source.sub_meshes.len()
        invariant
            subs == source.sub_meshes@,
            mats == source.materials@,
            source.well_formed(),
            s <= subs.len(),
            vertices@ == flat_vertices(subs.take(s as int), mats),
            indices@ == flat_indices(subs.take(s as int), policy),
            bounds == BoundingBox::of(positions_of(vertices@)),
            policy == IndexPolicy::Rebased ==> forall|t: int|
                0 <= t < s ==> (#[trigger] subs[t]).fits_above(vertex_total(subs.take(t))),
        decreases subs.len() - s,
    {
        let sub = &source.sub_meshes[s];
        let base: usize = vertices.len();
        proof {
            law_flat_lengths(subs.take(s as int), mats, policy);
            assert(subs.take(s + 1).drop_last() =~= subs.take(s as int));
            assert(subs.take(s + 1).last() == subs[s as int]);
        }
        append_vertices(sub, &source.materials, &mut vertices, &mut bounds);
        if !append_indices(sub, base, policy, &mut indices) {
            proof {
                lemma_vertex_total_prefix(subs, s as int);
                if vertex_total(subs) == 0 {
                    lemma_no_vertices_fit(subs, policy);
                }
            }
            return Err(ImportError::IndexOverflow);
        }
        s += 1;
    }
    proof {
        assert(subs.take(s as int) =~= subs);
        law_flat_lengths(subs, mats, policy);
        BoundingBox::law_of_numeric(positions_of(vertices@));
        if vertex_total(subs) == 0 {
            lemma_no_vertices_fit(subs, policy);
        }
    }
    if vertices.len() == 0 {
        return Err(ImportError::EmptyMesh);
    }
    Ok(FlattenedMesh { vertices, indices, bounds })
}

} // verus!
