//! Facts about the one vertex list and the one index list: how long they
//! are, and where in them each sub-mesh's vertices and indices stand.

use vstd::prelude::*;
use crate::mesh::{
    default_diffuse, default_specular, flat_indices, flat_vertices, index_total, indices_fit,
    vertex_total, zero_normal, IndexPolicy, MaterialEntry, SubMesh,
};

verus! {

/// The vertex count of a prefix never exceeds that of the whole.
pub proof fn lemma_vertex_total_prefix(subs: Seq<SubMesh>, s: int)
    requires
        0 <= s <= subs.len(),
    ensures
        vertex_total(subs.take(s)) <= vertex_total(subs),
    decreases subs.len(),
{
    if s == subs.len() {
        assert(subs.take(s) =~= subs);
    } else {
        lemma_vertex_total_prefix(subs.drop_last(), s);
        assert(subs.drop_last().take(s) =~= subs.take(s));
    }
}

/// Flattening neither drops nor invents anything: the vertex list is as long
/// as the sub-meshes' vertex counts together, the index list as long as
/// their index counts together, whatever the policy.
pub proof fn law_flat_lengths(
    subs: Seq<SubMesh>,
    materials: Seq<MaterialEntry>,
    policy: IndexPolicy,
)
    ensures
        flat_vertices(subs, materials).len() == vertex_total(subs),
        flat_indices(subs, policy).len() == index_total(subs),
    decreases subs.len(),
{
    if subs.len() > 0 {
        law_flat_lengths(subs.drop_last(), materials, policy);
    }
}

/// Vertex `i` of sub-mesh `s` stands in the vertex list behind all vertices
/// of the sub-meshes before `s`, at its own place `i` among those of `s`.
pub proof fn law_vertex_placement(
    subs: Seq<SubMesh>,
    materials: Seq<MaterialEntry>,
    s: int,
    i: int,
)
    requires
        0 <= s < subs.len(),
        0 <= i < subs[s].vertex_count(),
    ensures
        vertex_total(subs.take(s)) + i < flat_vertices(subs, materials).len(),
        flat_vertices(subs, materials)[vertex_total(subs.take(s)) + i] == subs[s].vertex(
            materials,
            i,
        ),
    decreases subs.len(),
{
    let rest = subs.drop_last();
    law_flat_lengths(rest, materials, IndexPolicy::Verbatim);
    law_flat_lengths(subs, materials, IndexPolicy::Verbatim);
    if s == subs.len() - 1 {
        assert(subs.take(s) =~= rest);
    } else {
        law_vertex_placement(rest, materials, s, i);
        assert(rest.take(s) =~= subs.take(s));
    }
}

/// Index `j` of sub-mesh `s` stands in the index list behind all indices of
/// the sub-meshes before `s`, at its own place `j`, and holds what the policy
/// makes of it: itself, or itself raised by the number of vertices before `s`.
pub proof fn law_index_placement(subs: Seq<SubMesh>, policy: IndexPolicy, s: int, j: int)
    requires
        0 <= s < subs.len(),
        0 <= j < subs[s].indices@.len(),
    ensures
        index_total(subs.take(s)) + j < flat_indices(subs, policy).len(),
        flat_indices(subs, policy)[index_total(subs.take(s)) + j] == subs[s].placed_indices(
            policy,
            vertex_total(subs.take(s)),
        )[j],
        policy == IndexPolicy::Verbatim ==> flat_indices(subs, policy)[index_total(subs.take(s))
            + j] == subs[s].indices@[j],
    decreases subs.len(),
{
    let rest = subs.drop_last();
    law_flat_lengths(rest, Seq::empty(), policy);
    law_flat_lengths(subs, Seq::empty(), policy);
    if s == subs.len() - 1 {
        assert(subs.take(s) =~= rest);
    } else {
        law_index_placement(rest, policy, s, j);
        assert(rest.take(s) =~= subs.take(s));
    }
}

/// Rebased, an index still means the vertex it meant in its own sub-mesh:
/// an index that is within its sub-mesh and can be placed is, in the index
/// list, the place of that same vertex in the vertex list.
pub proof fn law_rebased_index_resolves(
    subs: Seq<SubMesh>,
    materials: Seq<MaterialEntry>,
    s: int,
    j: int,
)
    requires
        0 <= s < subs.len(),
        0 <= j < subs[s].indices@.len(),
        subs[s].indices@[j] < subs[s].vertex_count(),
        subs[s].fits_above(vertex_total(subs.take(s))),
    ensures
        flat_indices(subs, IndexPolicy::Rebased)[index_total(subs.take(s)) + j] < flat_vertices(
            subs,
            materials,
        ).len(),
        flat_vertices(subs, materials)[flat_indices(subs, IndexPolicy::Rebased)[index_total(
            subs.take(s),
        ) + j] as int] == subs[s].vertex(materials, subs[s].indices@[j] as int),
{
    law_index_placement(subs, IndexPolicy::Rebased, s, j);
    law_vertex_placement(subs, materials, s, subs[s].indices@[j] as int);
    assert(subs[s].indices@[j] + vertex_total(subs.take(s)) <= u32::MAX);
}

/// For an asset of one sub-mesh the policy makes no difference: every index
/// can be placed, and the index list is the sub-mesh's own.
pub proof fn law_one_sub_mesh_needs_no_rebasing(subs: Seq<SubMesh>)
    requires
        subs.len() == 1,
    ensures
        indices_fit(subs, IndexPolicy::Rebased),
        flat_indices(subs, IndexPolicy::Rebased) == subs[0].indices@,
        flat_indices(subs, IndexPolicy::Verbatim) == subs[0].indices@,
{
    let none = subs.drop_last();
    assert(none.len() == 0);
    assert(vertex_total(none) == 0);
    assert(subs.take(0) =~= none);
    assert(flat_indices(none, IndexPolicy::Rebased) =~= Seq::<u32>::empty());
    assert(flat_indices(none, IndexPolicy::Verbatim) =~= Seq::<u32>::empty());
    assert(subs.last().placed_indices(IndexPolicy::Rebased, 0) =~= subs[0].indices@);
    assert(flat_indices(subs, IndexPolicy::Rebased) =~= subs[0].indices@);
    assert(flat_indices(subs, IndexPolicy::Verbatim) =~= subs[0].indices@);
}

/// Every vertex of a sub-mesh that names no material carries the default
/// colours, exactly.
pub proof fn law_default_colours(
    subs: Seq<SubMesh>,
    materials: Seq<MaterialEntry>,
    s: int,
    i: int,
)
    requires
        0 <= s < subs.len(),
        0 <= i < subs[s].vertex_count(),
        subs[s].material is None,
    ensures
        flat_vertices(subs, materials)[vertex_total(subs.take(s)) + i].color_diffuse
            == default_diffuse(),
        flat_vertices(subs, materials)[vertex_total(subs.take(s)) + i].color_specular
            == default_specular(),
{
    law_vertex_placement(subs, materials, s, i);
}

/// Every vertex of a sub-mesh that names a material carries that material's
/// diffuse colour, and its specular colour followed by its shininess.
pub proof fn law_material_colours(
    subs: Seq<SubMesh>,
    materials: Seq<MaterialEntry>,
    s: int,
    i: int,
)
    requires
        0 <= s < subs.len(),
        0 <= i < subs[s].vertex_count(),
        subs[s].material is Some,
    ensures
        flat_vertices(subs, materials)[vertex_total(subs.take(s)) + i].color_diffuse
            == materials[subs[s].material->0 as int].diffuse,
        flat_vertices(subs, materials)[vertex_total(subs.take(s)) + i].color_specular
            == materials[subs[s].material->0 as int].specular_with_shininess(),
{
    law_vertex_placement(subs, materials, s, i);
}

/// Every vertex of a sub-mesh without normals has the zero vector as its
/// normal, exactly.
pub proof fn law_absent_normals(
    subs: Seq<SubMesh>,
    materials: Seq<MaterialEntry>,
    s: int,
    i: int,
)
    requires
        0 <= s < subs.len(),
        0 <= i < subs[s].vertex_count(),
        subs[s].normals@.len() == 0,
    ensures
        flat_vertices(subs, materials)[vertex_total(subs.take(s)) + i].normal == zero_normal(),
{
    law_vertex_placement(subs, materials, s, i);
}

/// An asset without a single vertex has nothing to rebase: its indices fit
/// under either policy.
pub proof fn lemma_no_vertices_fit(subs: Seq<SubMesh>, policy: IndexPolicy)
    requires
        vertex_total(subs) == 0,
    ensures
        indices_fit(subs, policy),
{
    assert forall|s: int| 0 <= s < subs.len() implies (#[trigger] subs[s]).fits_above(
        vertex_total(subs.take(s)),
    ) by {
        lemma_vertex_total_prefix(subs, s);
    }
}

} // verus!
