//! Bone-influence uniformization: give every vertex the same number of
//! (bone index, weight) influences.
//!
//! Weights are carried as the bit patterns of non-negative single-precision
//! values; for such values the unsigned order of the bit patterns is exactly
//! the numeric order of the weights, so the pass orders influences by
//! comparing the patterns directly.

use vstd::prelude::*;

use crate::mesh::{counts_total, lemma_counts_total_mono, BlenderMesh, BoneInfluencesPerVertex};

verus! {

/// The (bone index, weight) pairs of vertex `v`, read from the flat arrays at
/// the offset where that vertex's entries begin.
pub open spec fn vertex_pairs(counts: Seq<u8>, gi: Seq<u8>, gw: Seq<u32>, v: int) -> Seq<
    (u8, u32),
> {
    Seq::new(
        counts[v] as nat,
        |j: int| (gi[counts_total(counts, v) + j], gw[counts_total(counts, v) + j]),
    )
}

/// Where a pair of weight `w` lands in the descending list `s`: after every
/// element whose weight is at least `w` (so equal weights keep their original
/// relative order), before the first strictly smaller one.
pub open spec fn insert_pos(w: u32, s: Seq<(u8, u32)>) -> int
    decreases s.len(),
{
    if s.len() == 0 {
        0
    } else if s[0].1 >= w {
        1 + insert_pos(w, s.drop_first())
    } else {
        0
    }
}

/// The descending list `s` with `x` spliced in at its insertion position.
pub open spec fn insert_desc(x: (u8, u32), s: Seq<(u8, u32)>) -> Seq<(u8, u32)> {
    s.insert(insert_pos(x.1, s), x)
}

/// The pairs of `s` sorted by weight descending; pairs of equal weight keep
/// their original relative order (insertion from the left, each new pair
/// placed after all pairs at least as heavy).
pub open spec fn sort_desc(s: Seq<(u8, u32)>) -> Seq<(u8, u32)>
    decreases s.len(),
{
    if s.len() == 0 {
        Seq::empty()
    } else {
        insert_desc(s.last(), sort_desc(s.drop_last()))
    }
}

/// The bone indices of the first `k` pairs of `s`, padded with bone index 0
/// where `s` runs out.
pub open spec fn padded_firsts(s: Seq<(u8, u32)>, k: nat) -> Seq<u8> {
    Seq::new(
        k,
        |j: int|
            if j < s.len() {
                s[j].0
            } else {
                0u8
            },
    )
}

/// The weights of the first `k` pairs of `s`, padded with weight 0.0 (bit
/// pattern zero) where `s` runs out.
pub open spec fn padded_seconds(s: Seq<(u8, u32)>, k: nat) -> Seq<u32> {
    Seq::new(
        k,
        |j: int|
            if j < s.len() {
                s[j].1
            } else {
                0u32
            },
    )
}

/// The uniformized flat bone-index array of the first `v` vertices: for each
/// vertex, its pairs sorted by weight descending, truncated or padded to
/// exactly `k` entries.
pub open spec fn uniform_indices(counts: Seq<u8>, gi: Seq<u8>, gw: Seq<u32>, k: nat, v: int) -> Seq<
    u8,
>
    decreases v,
{
    if v <= 0 {
        Seq::empty()
    } else {
        uniform_indices(counts, gi, gw, k, v - 1) + padded_firsts(
            sort_desc(vertex_pairs(counts, gi, gw, v - 1)),
            k,
        )
    }
}

/// The uniformized flat weight array of the first `v` vertices.
pub open spec fn uniform_weights(counts: Seq<u8>, gi: Seq<u8>, gw: Seq<u32>, k: nat, v: int) -> Seq<
    u32,
>
    decreases v,
{
    if v <= 0 {
        Seq::empty()
    } else {
        uniform_weights(counts, gi, gw, k, v - 1) + padded_seconds(
            sort_desc(vertex_pairs(counts, gi, gw, v - 1)),
            k,
        )
    }
}

/// The insertion position is inside the list, everything before it is at
/// least as heavy as `w`, and the element at it (if any) is strictly lighter.
pub proof fn lemma_insert_pos_char(w: u32, s: Seq<(u8, u32)>)
    ensures
        0 <= insert_pos(w, s) <= s.len(),
        forall|i: int| 0 <= i < insert_pos(w, s) ==> (#[trigger] s[i]).1 >= w,
        insert_pos(w, s) < s.len() ==> s[insert_pos(w, s)].1 < w,
    decreases s.len(),
{
    if s.len() > 0 {
        lemma_insert_pos_char(w, s.drop_first());
        if s[0].1 >= w {
            let p = insert_pos(w, s);
            assert forall|i: int| 0 <= i < p implies (#[trigger] s[i]).1 >= w by {
                if i > 0 {
                    assert(s.drop_first()[i - 1] == s[i]);
                }
            }
            if p < s.len() {
                assert(s.drop_first()[p - 1] == s[p]);
            }
        }
    }
}

/// The pairs of `s` are in descending weight order.
pub open spec fn sorted_desc(s: Seq<(u8, u32)>) -> bool {
    forall|i: int, j: int| 0 <= i <= j < s.len() ==> (#[trigger] s[i]).1 >= (#[trigger] s[j]).1
}

/// Splicing a pair into a descending list at its insertion position keeps the
/// list descending.
proof fn lemma_insert_desc_sorted(x: (u8, u32), s: Seq<(u8, u32)>)
    requires
        sorted_desc(s),
    ensures
        sorted_desc(insert_desc(x, s)),
{
    lemma_insert_pos_char(x.1, s);
    let p = insert_pos(x.1, s);
    s.insert_ensures(p, x);
    let r = insert_desc(x, s);
    assert forall|i: int, j: int| 0 <= i <= j < r.len() implies (#[trigger] r[i]).1 >= (
    #[trigger] r[j]).1 by {
        if i < p && p < j {
            assert(r[i] == s[i] && r[j] == s[j - 1]);
            assert(s[i].1 >= x.1 && s[j - 1].1 < x.1);
        }
    }
}

/// Splicing a pair into a list adds exactly that pair to its contents.
proof fn lemma_insert_desc_multiset(x: (u8, u32), s: Seq<(u8, u32)>)
    ensures
        insert_desc(x, s).to_multiset() == s.to_multiset().insert(x),
{
    broadcast use vstd::seq_lib::group_to_multiset_ensures;
    broadcast use vstd::multiset::group_multiset_axioms;

    lemma_insert_pos_char(x.1, s);
    let p = insert_pos(x.1, s);
    s.insert_ensures(p, x);
    let r = insert_desc(x, s);
    assert(r.remove(p) =~= s);
    assert(r.contains(x)) by {
        assert(r[p] == x);
    }
    assert(r.remove(p).to_multiset() =~= r.to_multiset().remove(r[p]));
    assert(r.to_multiset() =~= s.to_multiset().insert(x));
}

/// Sorting the influences of a vertex reorders them and nothing more: the
/// sorted list is a permutation of the original pairs, and it descends by
/// weight, so truncating it to the first `k` entries keeps `k` heaviest
/// influences.
pub proof fn lemma_sort_desc_sorts(s: Seq<(u8, u32)>)
    ensures
        sorted_desc(sort_desc(s)),
        sort_desc(s).to_multiset() == s.to_multiset(),
        sort_desc(s).len() == s.len(),
    decreases s.len(),
{
    broadcast use vstd::seq_lib::group_to_multiset_ensures;

    if s.len() == 0 {
        assert(sort_desc(s).to_multiset() =~= s.to_multiset());
    } else {
        lemma_sort_desc_sorts(s.drop_last());
        lemma_insert_desc_sorted(s.last(), sort_desc(s.drop_last()));
        lemma_insert_desc_multiset(s.last(), sort_desc(s.drop_last()));
        let t = sort_desc(s.drop_last());
        lemma_insert_pos_char(s.last().1, t);
        t.insert_ensures(insert_pos(s.last().1, t), s.last());
        assert(s.drop_last().push(s.last()) =~= s);
        assert(s.drop_last().to_multiset().insert(s.last()) =~= s.to_multiset());
    }
}

/// Splice `x` into the weight-descending list `sorted` at its insertion
/// position.
fn insert_sorted(sorted: &mut Vec<(u8, u32)>, x: (u8, u32))
    ensures
        final(sorted)@ == insert_desc(x, old(sorted)@),
{
    let mut p: usize = 0;
    while p < sorted.len() && sorted[p].1 >= x.1
        invariant
            p <= sorted@.len(),
            *sorted == *old(sorted),
            forall|i: int| 0 <= i < p ==> (#[trigger] sorted@[i]).1 >= x.1,
        decreases sorted@.len() - p,
    {
        p = p + 1;
    }
    proof {
        lemma_insert_pos_char(x.1, sorted@);
        let ip = insert_pos(x.1, sorted@);
        if p < ip {
            assert(sorted@[p as int].1 >= x.1);
        }
        if ip < p {
            assert(sorted@[ip].1 >= x.1);
        }
        assert(p == ip);
    }
    sorted.insert(p, x);
}

/// What `set_bone_influences_per_vertex` leaves behind: the vertex-group
/// arrays uniformized to `count` entries per vertex, the influence count
/// recorded as `Uniform(count)`, and every other field untouched.
pub open spec fn uniformized_rel(pre: BlenderMesh, post: BlenderMesh, count: u8) -> bool {
    &&& post.bone_influences_per_vertex == Some(BoneInfluencesPerVertex::Uniform(count))
    &&& post.vertex_group_indices is Some
    &&& post.vertex_group_weights is Some
    &&& post.group_indices() == uniform_indices(
        pre.group_counts(),
        pre.group_indices(),
        pre.group_weights(),
        count as nat,
        pre.group_counts().len() as int,
    )
    &&& post.group_weights() == uniform_weights(
        pre.group_counts(),
        pre.group_indices(),
        pre.group_weights(),
        count as nat,
        pre.group_counts().len() as int,
    )
    &&& post.group_indices().len() == pre.group_counts().len() * (count as int)
    &&& post.group_weights().len() == pre.group_counts().len() * (count as int)
    &&& post.vertex_positions == pre.vertex_positions
    &&& post.vertex_position_indices == pre.vertex_position_indices
    &&& post.num_vertices_in_each_face == pre.num_vertices_in_each_face
    &&& post.vertex_normals == pre.vertex_normals
    &&& post.vertex_normal_indices == pre.vertex_normal_indices
    &&& post.vertex_uvs == pre.vertex_uvs
    &&& post.vertex_uv_indices == pre.vertex_uv_indices
}

impl BlenderMesh {
    /// Convert the variable number of bone influences per vertex into exactly
    /// `count` influences for every vertex. Each vertex's (bone index, weight)
    /// pairs are sorted by weight descending — pairs of equal weight keeping
    /// their original order — then truncated to the `count` heaviest, or
    /// padded with (bone 0, weight 0.0) entries, whichever the vertex needs.
    /// Discarded low-weight influences are lost and the kept weights are not
    /// renormalized; the operation is one-way.
    ///
    /// Expects a mesh whose vertex-group data is still in the non-uniform
    /// form, with consistent flat arrays; afterwards the influence count
    /// becomes `Uniform(count)` and both flat arrays have exactly
    /// `vertex_count * count` entries.
    pub fn set_bone_influences_per_vertex(&mut self, count: u8)
        requires
            old(self).bone_influences_per_vertex matches Some(
                BoneInfluencesPerVertex::NonUniform(_),
            ),
            old(self).vertex_group_indices is Some,
            old(self).vertex_group_weights is Some,
            old(self).groups_wf(),
        ensures
            final(self).bone_influences_per_vertex == Some(
                BoneInfluencesPerVertex::Uniform(count),
            ),
            final(self).vertex_group_indices is Some,
            final(self).vertex_group_weights is Some,
            final(self).group_indices() == uniform_indices(
                old(self).group_counts(),
                old(self).group_indices(),
                old(self).group_weights(),
                count as nat,
                old(self).group_counts().len() as int,
            ),
            final(self).group_weights() == uniform_weights(
                old(self).group_counts(),
                old(self).group_indices(),
                old(self).group_weights(),
                count as nat,
                old(self).group_counts().len() as int,
            ),
            final(self).group_indices().len() == old(self).group_counts().len() * (count as int),
            final(self).group_weights().len() == old(self).group_counts().len() * (count as int),
            final(self).vertex_positions == old(self).vertex_positions,
            final(self).vertex_position_indices == old(self).vertex_position_indices,
            final(self).num_vertices_in_each_face == old(self).num_vertices_in_each_face,
            final(self).vertex_normals == old(self).vertex_normals,
            final(self).vertex_normal_indices == old(self).vertex_normal_indices,
            final(self).vertex_uvs == old(self).vertex_uvs,
            final(self).vertex_uv_indices == old(self).vertex_uv_indices,
            uniformized_rel(*old(self), *final(self), count),
            final(self).groups_wf(),
    {
        let mut normalized_group_indices: Vec<u8> = Vec::new();
        let mut normalized_group_weights: Vec<u32> = Vec::new();
        let mut cursor: usize = 0;
        match (
            &self.bone_influences_per_vertex,
            &self.vertex_group_indices,
            &self.vertex_group_weights,
        ) {
            (Some(BoneInfluencesPerVertex::NonUniform(counts)), Some(gi), Some(gw)) => {
                let total = gi.len();
                let mut v: usize = 0;
                while v < counts.len()
                    invariant
                        *self == *old(self),
                        counts@ == self.group_counts(),
                        gi@ == self.group_indices(),
                        gw@ == self.group_weights(),
                        self.groups_wf(),
                        gi@.len() == gw@.len(),
                        gi@.len() == counts_total(counts@, counts@.len() as int),
                        total == gi@.len(),
                        v <= counts@.len(),
                        cursor == counts_total(counts@, v as int),
                        cursor <= total,
                        normalized_group_indices@ == uniform_indices(
                            counts@,
                            gi@,
                            gw@,
                            count as nat,
                            v as int,
                        ),
                        normalized_group_weights@ == uniform_weights(
                            counts@,
                            gi@,
                            gw@,
                            count as nat,
                            v as int,
                        ),
                        normalized_group_indices@.len() == v * (count as int),
                        normalized_group_weights@.len() == v * (count as int),
                    decreases counts@.len() - v,
                {
                    let c = counts[v] as usize;
                    proof {
                        lemma_counts_total_mono(counts@, (v + 1) as int, counts@.len() as int);
                    }
                    let ghost pairs = vertex_pairs(counts@, gi@, gw@, v as int);
                    let mut sorted: Vec<(u8, u32)> = Vec::new();
                    let mut j: usize = 0;
                    while j < c
                        invariant
                            *self == *old(self),
                            counts@ == self.group_counts(),
                            gi@ == self.group_indices(),
                            gw@ == self.group_weights(),
                            v < counts@.len(),
                            c == counts@[v as int] as usize,
                            cursor == counts_total(counts@, v as int),
                            total == gi@.len(),
                            cursor + c <= total,
                            gi@.len() == gw@.len(),
                            pairs == vertex_pairs(counts@, gi@, gw@, v as int),
                            j <= c,
                            sorted@ == sort_desc(pairs.take(j as int)),
                        decreases c - j,
                    {
                        let pair = (gi[cursor + j], gw[cursor + j]);
                        proof {
                            assert(pairs[j as int] == pair);
                            assert(pairs.take(j + 1).drop_last() =~= pairs.take(j as int));
                            assert(pairs.take(j + 1).last() == pairs[j as int]);
                        }
                        insert_sorted(&mut sorted, pair);
                        j = j + 1;
                    }
                    proof {
                        assert(pairs.take(c as int) =~= pairs);
                    }
                    let ghost before_indices = normalized_group_indices@;
                    let ghost before_weights = normalized_group_weights@;
                    let mut t: usize = 0;
                    while t < count as usize
                        invariant
                            t <= count as usize,
                            sorted@ == sort_desc(vertex_pairs(counts@, gi@, gw@, v as int)),
                            normalized_group_indices@ == before_indices + padded_firsts(
                                sorted@,
                                count as nat,
                            ).take(t as int),
                            normalized_group_weights@ == before_weights + padded_seconds(
                                sorted@,
                                count as nat,
                            ).take(t as int),
                        decreases count as usize - t,
                    {
                        let entry: (u8, u32) = if t < sorted.len() {
                            sorted[t]
                        } else {
                            (0, 0)
                        };
                        proof {
                            assert(padded_firsts(sorted@, count as nat).take(t + 1)
                                =~= padded_firsts(sorted@, count as nat).take(t as int).push(
                                entry.0,
                            ));
                            assert(padded_seconds(sorted@, count as nat).take(t + 1)
                                =~= padded_seconds(sorted@, count as nat).take(t as int).push(
                                entry.1,
                            ));
                        }
                        normalized_group_indices.push(entry.0);
                        normalized_group_weights.push(entry.1);
                        t = t + 1;
                    }
                    proof {
                        assert(padded_firsts(sorted@, count as nat).take(count as int)
                            =~= padded_firsts(sorted@, count as nat));
                        assert(padded_seconds(sorted@, count as nat).take(count as int)
                            =~= padded_seconds(sorted@, count as nat));
                    }
                    proof {
                        assert((v + 1) * (count as int) == v * (count as int) + (count as int))
                            by (nonlinear_arith);
                    }
                    cursor = cursor + c;
                    v = v + 1;
                }
            },
            _ => {
                proof {
                    assert(false);
                }
            },
        }
        proof {
            let v = old(self).group_counts().len() as int;
            let k = count as int;
            if count > 0 {
                assert((v * k) % k == 0) by (nonlinear_arith)
                    requires
                        k > 0,
                ;
            } else {
                assert(v * 0 == 0);
            }
        }
        self.bone_influences_per_vertex = Some(BoneInfluencesPerVertex::Uniform(count));
        self.vertex_group_indices = Some(normalized_group_indices);
        self.vertex_group_weights = Some(normalized_group_weights);
    }
}

} // verus!
