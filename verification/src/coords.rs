//! Up-axis conversion: rewrite positions and normals from the editor's z-up
//! convention to the renderer's y-up convention.

use vstd::prelude::*;

use crate::mesh::{BlenderMesh, BoneInfluencesPerVertex};

verus! {

/// The bit pattern of a single-precision value with its sign flipped. IEEE-754
/// negation toggles exactly the sign bit, so this is the exact bit pattern of
/// the negated value, whatever the value.
pub open spec fn flip_sign(b: u32) -> u32 {
    b ^ 0x8000_0000
}

/// A flat array of 3-component vectors rewritten from z-up to y-up: each
/// `(x, y, z)` becomes `(x, z, -y)`.
pub open spec fn y_upped(s: Seq<u32>) -> Seq<u32> {
    Seq::new(
        s.len(),
        |i: int|
            if i % 3 == 1 {
                s[i + 1]
            } else if i % 3 == 2 {
                flip_sign(s[i - 1])
            } else {
                s[i]
            },
    )
}

/// Rewrite one flat 3-component array from z-up to y-up.
fn y_up_stream(src: &Vec<u32>) -> (r: Vec<u32>)
    requires
        src@.len() % 3 == 0,
    ensures
        r@ == y_upped(src@),
{
    let mut out: Vec<u32> = Vec::new();
    let n = src.len();
    let mut v: usize = 0;
    while v < n / 3
        invariant
            n == src@.len(),
            n % 3 == 0,
            v <= n / 3,
            out@.len() == 3 * v,
            forall|i: int| 0 <= i < 3 * v ==> out@[i] == y_upped(src@)[i],
        decreases n / 3 - v,
    {
        out.push(src[3 * v]);
        out.push(src[3 * v + 2]);
        out.push(src[3 * v + 1] ^ 0x8000_0000);
        v = v + 1;
    }
    proof {
        assert(out@ =~= y_upped(src@));
    }
    out
}

/// What `y_up` leaves behind: positions and normals rewritten to y-up, every
/// other field untouched.
pub open spec fn y_upped_rel(pre: BlenderMesh, post: BlenderMesh) -> bool {
    &&& post.vertex_positions@ == y_upped(pre.vertex_positions@)
    &&& post.vertex_normals@ == y_upped(pre.vertex_normals@)
    &&& post.vertex_position_indices == pre.vertex_position_indices
    &&& post.num_vertices_in_each_face == pre.num_vertices_in_each_face
    &&& post.vertex_normal_indices == pre.vertex_normal_indices
    &&& post.vertex_uvs == pre.vertex_uvs
    &&& post.vertex_uv_indices == pre.vertex_uv_indices
    &&& post.vertex_group_indices == pre.vertex_group_indices
    &&& post.vertex_group_weights == pre.vertex_group_weights
    &&& post.bone_influences_per_vertex == pre.bone_influences_per_vertex
}

impl BlenderMesh {
    /// Rewrite the position and normal components from the editor's z-up
    /// convention to the renderer's y-up convention: each `(x, y, z)` vector
    /// becomes `(x, z, -y)`. The negation is a sign-bit flip, which is exact,
    /// so the pass commutes with consolidation. UVs and every other field are
    /// untouched.
    pub fn y_up(&mut self)
        requires
            old(self).vertex_positions@.len() % 3 == 0,
            old(self).vertex_normals@.len() % 3 == 0,
        ensures
            final(self).vertex_positions@ == y_upped(old(self).vertex_positions@),
            final(self).vertex_normals@ == y_upped(old(self).vertex_normals@),
            final(self).vertex_position_indices == old(self).vertex_position_indices,
            final(self).num_vertices_in_each_face == old(self).num_vertices_in_each_face,
            final(self).vertex_normal_indices == old(self).vertex_normal_indices,
            final(self).vertex_uvs == old(self).vertex_uvs,
            final(self).vertex_uv_indices == old(self).vertex_uv_indices,
            final(self).vertex_group_indices == old(self).vertex_group_indices,
            final(self).vertex_group_weights == old(self).vertex_group_weights,
            final(self).bone_influences_per_vertex == old(self).bone_influences_per_vertex,
            y_upped_rel(*old(self), *final(self)),
    {
        let new_positions = y_up_stream(&self.vertex_positions);
        let new_normals = y_up_stream(&self.vertex_normals);
        self.vertex_positions = new_positions;
        self.vertex_normals = new_normals;
    }
}

/// Splitting a flat vector array at a whole-vector boundary splits the up-axis
/// conversion with it.
proof fn lemma_y_up_splits(a: Seq<u32>, b: Seq<u32>)
    requires
        a.len() % 3 == 0,
        b.len() % 3 == 0,
    ensures
        y_upped(a + b) == y_upped(a) + y_upped(b),
{
    assert forall|i: int| 0 <= i < a.len() + b.len() implies y_upped(a + b)[i] == (y_upped(a)
        + y_upped(b))[i] by {
        if i < a.len() {
            if i % 3 == 1 {
                assert((a + b)[i + 1] == a[i + 1]);
            } else if i % 3 == 2 {
                assert((a + b)[i - 1] == a[i - 1]);
            } else {
                assert((a + b)[i] == a[i]);
            }
        } else {
            let j = i - a.len();
            assert(j % 3 == i % 3);
            if i % 3 == 1 {
                assert((a + b)[i + 1] == b[j + 1]);
            } else if i % 3 == 2 {
                assert((a + b)[i - 1] == b[j - 1]);
            } else {
                assert((a + b)[i] == b[j]);
            }
        }
    }
    assert(y_upped(a + b) =~= y_upped(a) + y_upped(b));
}

/// Resolving the per-output-vertex positions commutes with the up-axis
/// conversion: each output vertex copies a whole aligned 3-entry vector, and
/// the conversion rewrites vectors independently.
proof fn lemma_resolved_positions_y_up(src: Seq<u32>, d: Seq<crate::combine::CornerKey>)
    requires
        src.len() % 3 == 0,
        forall|t: int| 0 <= t < d.len() ==> 3 * ((#[trigger] d[t]).pos as int) + 3 <= src.len(),
    ensures
        crate::combine::resolved_positions(y_upped(src), d) == y_upped(
            crate::combine::resolved_positions(src, d),
        ),
    decreases d.len(),
{
    if d.len() == 0 {
        assert(crate::combine::resolved_positions(y_upped(src), d) =~= y_upped(
            crate::combine::resolved_positions(src, d),
        ));
    } else {
        assert(forall|t: int| 0 <= t < d.drop_last().len() ==> d.drop_last()[t] == d[t]);
        lemma_resolved_positions_y_up(src, d.drop_last());
        crate::combine::lemma_resolved_lens(src, src, src, d.drop_last());
        let p = d.last().pos as int;
        let r = crate::combine::resolved_positions(src, d.drop_last());
        let triple = seq![src[3 * p], src[3 * p + 1], src[3 * p + 2]];
        lemma_y_up_splits(r, triple);
        assert(y_upped(triple) =~= seq![src[3 * p], src[3 * p + 2], flip_sign(src[3 * p + 1])]);
        assert(y_upped(src)[3 * p] == src[3 * p]);
        assert(y_upped(src)[3 * p + 1] == src[3 * p + 2]);
        assert(y_upped(src)[3 * p + 2] == flip_sign(src[3 * p + 1]));
        assert(crate::combine::resolved_positions(y_upped(src), d) =~= y_upped(
            crate::combine::resolved_positions(src, d),
        ));
    }
}

/// The same commutation for the per-output-vertex normals.
proof fn lemma_resolved_normals_y_up(src: Seq<u32>, d: Seq<crate::combine::CornerKey>)
    requires
        src.len() % 3 == 0,
        forall|t: int| 0 <= t < d.len() ==> 3 * ((#[trigger] d[t]).norm as int) + 3 <= src.len(),
    ensures
        crate::combine::resolved_normals(y_upped(src), d) == y_upped(
            crate::combine::resolved_normals(src, d),
        ),
    decreases d.len(),
{
    if d.len() == 0 {
        assert(crate::combine::resolved_normals(y_upped(src), d) =~= y_upped(
            crate::combine::resolved_normals(src, d),
        ));
    } else {
        assert(forall|t: int| 0 <= t < d.drop_last().len() ==> d.drop_last()[t] == d[t]);
        lemma_resolved_normals_y_up(src, d.drop_last());
        crate::combine::lemma_resolved_lens(src, src, src, d.drop_last());
        let p = d.last().norm as int;
        let r = crate::combine::resolved_normals(src, d.drop_last());
        let triple = seq![src[3 * p], src[3 * p + 1], src[3 * p + 2]];
        lemma_y_up_splits(r, triple);
        assert(y_upped(triple) =~= seq![src[3 * p], src[3 * p + 2], flip_sign(src[3 * p + 1])]);
        assert(y_upped(src)[3 * p] == src[3 * p]);
        assert(y_upped(src)[3 * p + 1] == src[3 * p + 2]);
        assert(y_upped(src)[3 * p + 2] == flip_sign(src[3 * p + 1]));
        assert(crate::combine::resolved_normals(y_upped(src), d) =~= y_upped(
            crate::combine::resolved_normals(src, d),
        ));
    }
}

/// The up-axis conversion is order-independent of consolidation: converting
/// first and consolidating after gives the same mesh as consolidating first
/// and converting after, because the conversion is a per-component rewrite of
/// whole vectors and consolidation only copies whole vectors.
pub proof fn lemma_y_up_commutes_with_consolidation(
    pre: BlenderMesh,
    m1: BlenderMesh,
    q1: BlenderMesh,
    m2: BlenderMesh,
    q2: BlenderMesh,
)
    requires
        pre.streams_wf(),
        pre.vertex_positions@.len() % 3 == 0,
        pre.vertex_normals@.len() % 3 == 0,
        y_upped_rel(pre, m1),
        crate::combine::consolidated_rel(m1, q1),
        crate::combine::consolidated_rel(pre, m2),
        y_upped_rel(m2, q2),
    ensures
        crate::combine::mesh_views_eq(q1, q2),
{
    assert(crate::combine::corner_keys(m1) =~= crate::combine::corner_keys(pre));
    let s = crate::combine::corner_keys(pre);
    let d = crate::combine::dedup(s);
    crate::combine::lemma_dedup_distinct(s);
    assert forall|t: int| 0 <= t < d.len() implies 3 * ((#[trigger] d[t]).pos as int) + 3
        <= pre.vertex_positions@.len() && 3 * (d[t].norm as int) + 3
        <= pre.vertex_normals@.len() by {
        assert(d.to_set().contains(d[t])) by {
            assert(d[t] == d[t]);
        }
        assert(s.to_set().contains(d[t]));
        let w = choose|w: int| 0 <= w < s.len() && s[w] == d[t];
        assert(3 * ((pre.vertex_position_indices@[w]) as int) + 3
            <= pre.vertex_positions@.len());
        assert(3 * ((pre.vertex_normal_indices@[w]) as int) + 3 <= pre.vertex_normals@.len());
    }
    lemma_resolved_positions_y_up(pre.vertex_positions@, d);
    lemma_resolved_normals_y_up(pre.vertex_normals@, d);
    assert(q1.vertex_normal_indices@ =~= q2.vertex_normal_indices@);
    if pre.vertex_uvs is Some {
        assert(q1.uv_data() == q2.uv_data());
    }
    if pre.bone_influences_per_vertex matches Some(BoneInfluencesPerVertex::NonUniform(_)) {
        assert(q1.group_counts() == q2.group_counts());
        assert(q1.group_indices() == q2.group_indices());
        assert(q1.group_weights() == q2.group_weights());
    }
}

/// Converting the up-axis twice more gives back the fourth rotation of the
/// original: four applications are the identity, because each application is
/// a quarter turn about the x axis.
pub proof fn lemma_y_up_fourth_turn(s: Seq<u32>)
    requires
        s.len() % 3 == 0,
    ensures
        y_upped(y_upped(y_upped(y_upped(s)))) == s,
{
    assert forall|b: u32| #[trigger] flip_sign(flip_sign(b)) == b by {
        assert(b ^ 0x8000_0000 ^ 0x8000_0000 == b) by (bit_vector);
    }
    assert(y_upped(y_upped(y_upped(y_upped(s)))) =~= s);
}

} // verus!
