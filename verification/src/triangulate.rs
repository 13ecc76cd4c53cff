//! Fan triangulation: rewrite every face with more than three corners into a
//! fan of triangles, so the whole mesh is made of 3-corner faces.

use vstd::prelude::*;

use crate::mesh::{counts_total, lemma_counts_total_mono, BlenderMesh};

verus! {

/// Which corner of a face the `t`-th output corner of its fan reads: triangle
/// `t / 3` uses the face's corners `0`, `t / 3 + 1` and `t / 3 + 2`.
pub open spec fn fan_step(t: int) -> int {
    if t % 3 == 0 {
        0
    } else {
        t / 3 + t % 3
    }
}

/// The fan of one face: the face's corners sit at `off .. off + c` of the
/// index stream, and each of its `c - 2` triangles keeps corner 0 and walks
/// the rim.
pub open spec fn fan_face(indices: Seq<u16>, off: int, c: int) -> Seq<u16> {
    Seq::new((3 * (c - 2)) as nat, |t: int| indices[off + fan_step(t)])
}

/// The index stream of the first `f` faces, fan-triangulated.
pub open spec fn fan(indices: Seq<u16>, counts: Seq<u8>, f: int) -> Seq<u16>
    decreases f,
{
    if f <= 0 {
        Seq::empty()
    } else {
        fan(indices, counts, f - 1) + fan_face(
            indices,
            counts_total(counts, f - 1),
            counts[f - 1] as int,
        )
    }
}

/// How many triangles the first `f` faces produce: each face of `c` corners
/// yields `c - 2` triangles.
pub open spec fn tri_total(counts: Seq<u8>, f: int) -> int
    decreases f,
{
    if f <= 0 {
        0
    } else {
        tri_total(counts, f - 1) + (counts[f - 1] - 2)
    }
}

/// A fan-triangulated stream holds three corners per triangle.
pub proof fn lemma_fan_len(indices: Seq<u16>, counts: Seq<u8>, f: int)
    requires
        0 <= f <= counts.len(),
        forall|i: int| 0 <= i < counts.len() ==> (#[trigger] counts[i]) >= 3,
    ensures
        fan(indices, counts, f).len() == 3 * tri_total(counts, f),
        tri_total(counts, f) >= 0,
    decreases f,
{
    if f > 0 {
        lemma_fan_len(indices, counts, f - 1);
    }
}

/// The corners of a face list of all-triangle faces: three per face.
pub proof fn lemma_counts_total_const3(s: Seq<u8>, v: int)
    requires
        0 <= v <= s.len(),
        forall|i: int| 0 <= i < s.len() ==> (#[trigger] s[i]) == 3,
    ensures
        counts_total(s, v) == 3 * v,
    decreases v,
{
    if v > 0 {
        lemma_counts_total_const3(s, v - 1);
    }
}

/// What triangulation does to the UV index stream: rewritten by the same fan
/// when it carries one entry per corner, untouched otherwise (it is absent or
/// empty after consolidation).
pub open spec fn uv_stream_triangulated(pre: BlenderMesh, post: BlenderMesh) -> bool {
    if pre.vertex_uv_indices is Some && pre.uv_indices().len() == pre.corner_count() {
        &&& post.vertex_uv_indices is Some
        &&& post.uv_indices() == fan(
            pre.uv_indices(),
            pre.num_vertices_in_each_face@,
            pre.num_vertices_in_each_face@.len() as int,
        )
    } else {
        post.vertex_uv_indices == pre.vertex_uv_indices
    }
}

/// Fan-triangulate one index stream.
fn fan_stream(indices: &Vec<u16>, counts: &Vec<u8>) -> (r: Vec<u16>)
    requires
        counts_total(counts@, counts@.len() as int) == indices@.len(),
        forall|i: int| 0 <= i < counts@.len() ==> (#[trigger] counts@[i]) >= 3,
    ensures
        r@ == fan(indices@, counts@, counts@.len() as int),
{
    let mut out: Vec<u16> = Vec::new();
    let n_idx = indices.len();
    let mut off: usize = 0;
    let mut f: usize = 0;
    while f < counts.len()
        invariant
            counts_total(counts@, counts@.len() as int) == indices@.len(),
            forall|i: int| 0 <= i < counts@.len() ==> (#[trigger] counts@[i]) >= 3,
            f <= counts@.len(),
            n_idx == indices@.len(),
            off == counts_total(counts@, f as int),
            off <= n_idx,
            out@ == fan(indices@, counts@, f as int),
            out@.len() == 3 * tri_total(counts@, f as int),
        decreases counts@.len() - f,
    {
        let c = counts[f] as usize;
        proof {
            lemma_counts_total_mono(counts@, (f + 1) as int, counts@.len() as int);
            lemma_fan_len(indices@, counts@, f as int);
            lemma_fan_len(indices@, counts@, (f + 1) as int);
        }
        let mut q: usize = 0;
        while q < c - 2
            invariant
                forall|i: int| 0 <= i < counts@.len() ==> (#[trigger] counts@[i]) >= 3,
                f < counts@.len(),
                c == counts@[f as int] as usize,
                c >= 3,
                n_idx == indices@.len(),
                off == counts_total(counts@, f as int),
                off + c <= n_idx,
                q <= c - 2,
                out@ == fan(indices@, counts@, f as int) + fan_face(
                    indices@,
                    off as int,
                    c as int,
                ).take(3 * q as int),
            decreases c - 2 - q,
        {
            proof {
                let ff = fan_face(indices@, off as int, c as int);
                assert(ff.take(3 * (q + 1) as int) =~= ff.take(3 * q as int).push(
                    indices@[off as int],
                ).push(indices@[off + q + 1 as int]).push(indices@[off + q + 2 as int])) by {
                    assert(ff[3 * q as int] == indices@[off as int]);
                    assert(ff[3 * q + 1 as int] == indices@[off + q + 1 as int]);
                    assert(ff[3 * q + 2 as int] == indices@[off + q + 2 as int]);
                }
            }
            out.push(indices[off]);
            out.push(indices[off + q + 1]);
            out.push(indices[off + q + 2]);
            q = q + 1;
        }
        proof {
            let ff = fan_face(indices@, off as int, c as int);
            assert(ff.take(3 * (c - 2) as int) =~= ff);
        }
        off = off + c;
        f = f + 1;
    }
    out
}

impl BlenderMesh {
    /// Rewrite every face into a fan of triangles: a face of `c` corners
    /// becomes `c - 2` triangles, each keeping the face's first corner and
    /// walking its rim in order. Every index stream that carries one entry
    /// per face corner is rewritten the same way, so the streams stay in
    /// lockstep; afterwards every face has exactly three corners.
    pub fn triangulate(&mut self)
        requires
            old(self).faces_wf(),
        ensures
            final(self).vertex_position_indices@ == fan(
                old(self).vertex_position_indices@,
                old(self).num_vertices_in_each_face@,
                old(self).num_vertices_in_each_face@.len() as int,
            ),
            final(self).num_vertices_in_each_face@.len() == tri_total(
                old(self).num_vertices_in_each_face@,
                old(self).num_vertices_in_each_face@.len() as int,
            ),
            forall|i: int| 0 <= i < final(self).num_vertices_in_each_face@.len() ==> (
            #[trigger] final(self).num_vertices_in_each_face@[i]) == 3,
            final(self).faces_wf(),
            old(self).vertex_normal_indices@.len() == old(self).corner_count() ==> final(self).vertex_normal_indices@ == fan(
                old(self).vertex_normal_indices@,
                old(self).num_vertices_in_each_face@,
                old(self).num_vertices_in_each_face@.len() as int,
            ),
            old(self).vertex_normal_indices@.len() != old(self).corner_count() ==> final(self).vertex_normal_indices == old(self).vertex_normal_indices,
            uv_stream_triangulated(*old(self), *final(self)),
            final(self).vertex_positions == old(self).vertex_positions,
            final(self).vertex_normals == old(self).vertex_normals,
            final(self).vertex_uvs == old(self).vertex_uvs,
            final(self).vertex_group_indices == old(self).vertex_group_indices,
            final(self).vertex_group_weights == old(self).vertex_group_weights,
            final(self).bone_influences_per_vertex == old(self).bone_influences_per_vertex,
    {
        let counts_len = self.num_vertices_in_each_face.len();
        let new_pos_idx = fan_stream(&self.vertex_position_indices, &self.num_vertices_in_each_face);
        let new_norm_idx: Option<Vec<u16>> = if self.vertex_normal_indices.len()
            == self.vertex_position_indices.len() {
            Some(fan_stream(&self.vertex_normal_indices, &self.num_vertices_in_each_face))
        } else {
            None
        };
        let new_uv_idx: Option<Vec<u16>> = match &self.vertex_uv_indices {
            Some(u) => {
                if u.len() == self.vertex_position_indices.len() {
                    Some(fan_stream(u, &self.num_vertices_in_each_face))
                } else {
                    None
                }
            },
            None => None,
        };
        let mut new_counts: Vec<u8> = Vec::new();
        let mut f: usize = 0;
        while f < counts_len
            invariant
                *self == *old(self),
                counts_len == self.num_vertices_in_each_face@.len(),
                self.faces_wf(),
                f <= counts_len,
                new_counts@.len() == tri_total(
                    self.num_vertices_in_each_face@,
                    f as int,
                ),
                forall|i: int| 0 <= i < new_counts@.len() ==> (#[trigger] new_counts@[i]) == 3,
            decreases counts_len - f,
        {
            proof {
                lemma_fan_len(
                    self.vertex_position_indices@,
                    self.num_vertices_in_each_face@,
                    f as int,
                );
                lemma_fan_len(
                    self.vertex_position_indices@,
                    self.num_vertices_in_each_face@,
                    (f + 1) as int,
                );
                lemma_fan_len(
                    self.vertex_position_indices@,
                    self.num_vertices_in_each_face@,
                    counts_len as int,
                );
                lemma_counts_total_mono(
                    self.num_vertices_in_each_face@,
                    (f + 1) as int,
                    counts_len as int,
                );
            }
            let c = self.num_vertices_in_each_face[f] as usize;
            let mut q: usize = 0;
            while q < c - 2
                invariant
                    c >= 3,
                    q <= c - 2,
                    new_counts@.len() == tri_total(self.num_vertices_in_each_face@, f as int) + q,
                    tri_total(self.num_vertices_in_each_face@, f as int) + (c - 2) == tri_total(
                        self.num_vertices_in_each_face@,
                        (f + 1) as int,
                    ),
                    forall|i: int| 0 <= i < new_counts@.len() ==> (#[trigger] new_counts@[i])
                        == 3,
                decreases c - 2 - q,
            {
                new_counts.push(3);
                q = q + 1;
            }
            f = f + 1;
        }
        proof {
            lemma_fan_len(
                self.vertex_position_indices@,
                self.num_vertices_in_each_face@,
                counts_len as int,
            );
            lemma_counts_total_const3(new_counts@, new_counts@.len() as int);
        }
        self.vertex_position_indices = new_pos_idx;
        match new_norm_idx {
            Some(v) => {
                self.vertex_normal_indices = v;
            },
            None => {},
        }
        match new_uv_idx {
            Some(v) => {
                self.vertex_uv_indices = Some(v);
            },
            None => {},
        }
        self.num_vertices_in_each_face = new_counts;
    }
}

} // verus!
