//! Mesh index consolidation: merge the independently indexed per-face-corner
//! attribute streams into one shared index buffer with deduplicated vertices.
//!
//! The editor's export gives each face corner its own position, normal and UV
//! index. Rendering pipelines need a single index per unique *combination* of
//! attribute values, so every corner's index tuple becomes a key; the first
//! corner to use a key is assigned the next output vertex, and later corners
//! with the same key reuse it. The deduplication table keeps insertion order,
//! which makes the output deterministic.

use vstd::prelude::*;

use crate::mesh::{counts_total, lemma_counts_total_mono, BlenderMesh, BoneInfluencesPerVertex};
use crate::influences::uniformized_rel;

verus! {

/// How `combine_vertex_indices` should treat bone influences: when a target
/// count is given, the vertex-group data is uniformized to that count after
/// consolidation.
#[derive(Debug, Clone, PartialEq)]
pub struct CreateSingleIndexConfig {
    pub bone_influences_per_vertex: Option<u8>,
}

/// The index tuple of one face corner. Corners with equal keys reference the
/// same position, normal and UV, and so collapse into one output vertex. For
/// a mesh without UVs the `uv` component is 0 for every corner.
#[derive(Debug, Clone, Copy, PartialEq, Eq, Structural)]
pub struct CornerKey {
    pub pos: u16,
    pub norm: u16,
    pub uv: u16,
}

/// The key of every face corner of the mesh, in export order.
pub open spec fn corner_keys(m: BlenderMesh) -> Seq<CornerKey> {
    Seq::new(
        m.corner_count() as nat,
        |i: int|
            CornerKey {
                pos: m.vertex_position_indices@[i],
                norm: m.vertex_normal_indices@[i],
                uv: if m.vertex_uv_indices is Some {
                    m.uv_indices()[i]
                } else {
                    0u16
                },
            },
    )
}

/// The distinct keys of `s` in order of first occurrence.
pub open spec fn dedup(s: Seq<CornerKey>) -> Seq<CornerKey>
    decreases s.len(),
{
    if s.len() == 0 {
        Seq::empty()
    } else {
        let d = dedup(s.drop_last());
        if d.contains(s.last()) {
            d
        } else {
            d.push(s.last())
        }
    }
}

/// The position of the first occurrence of `key` in `d`.
pub open spec fn key_slot(d: Seq<CornerKey>, key: CornerKey) -> int
    decreases d.len(),
{
    if d.len() == 0 {
        0
    } else if d[0] == key {
        0
    } else {
        1 + key_slot(d.drop_first(), key)
    }
}

/// The single shared index buffer: corner `i` is sent to the output vertex
/// that its key was assigned.
pub open spec fn shared_indices(s: Seq<CornerKey>) -> Seq<u16> {
    Seq::new(s.len(), |i: int| key_slot(dedup(s), s[i]) as u16)
}

/// When `key` occurs in `d`, its slot lies in `d`, holds `key`, and no
/// earlier entry does.
pub proof fn lemma_key_slot_char(d: Seq<CornerKey>, key: CornerKey)
    requires
        d.contains(key),
    ensures
        0 <= key_slot(d, key) < d.len(),
        d[key_slot(d, key)] == key,
        forall|i: int| 0 <= i < key_slot(d, key) ==> d[i] != key,
    decreases d.len(),
{
    if d.len() > 0 && d[0] != key {
        assert(d.drop_first().contains(key)) by {
            let w = choose|w: int| 0 <= w < d.len() && d[w] == key;
            assert(d.drop_first()[w - 1] == key);
        }
        lemma_key_slot_char(d.drop_first(), key);
        let p = key_slot(d, key);
        assert(d[p] == d.drop_first()[p - 1]);
        assert forall|i: int| 0 <= i < p implies d[i] != key by {
            if i > 0 {
                assert(d.drop_first()[i - 1] == d[i]);
            }
        }
    }
}

/// Appending a new entry to the table leaves every existing key's slot alone.
pub proof fn lemma_key_slot_push(d: Seq<CornerKey>, x: CornerKey, key: CornerKey)
    requires
        d.contains(key),
    ensures
        key_slot(d.push(x), key) == key_slot(d, key),
    decreases d.len(),
{
    lemma_key_slot_char(d, key);
    if d.len() > 0 && d[0] != key {
        assert(d.push(x)[0] == d[0]);
        assert(d.drop_first().contains(key)) by {
            let w = choose|w: int| 0 <= w < d.len() && d[w] == key;
            assert(d.drop_first()[w - 1] == key);
        }
        lemma_key_slot_push(d.drop_first(), x, key);
        assert(d.push(x).drop_first() =~= d.drop_first().push(x));
    }
}

/// A key not yet in the table is assigned the next slot.
pub proof fn lemma_key_slot_new(d: Seq<CornerKey>, x: CornerKey)
    requires
        !d.contains(x),
    ensures
        key_slot(d.push(x), x) == d.len(),
    decreases d.len(),
{
    if d.len() == 0 {
        assert(d.push(x)[0] == x);
    } else {
        assert(d.push(x)[0] == d[0]);
        assert(d[0] != x);
        assert(!d.drop_first().contains(x)) by {
            if d.drop_first().contains(x) {
                let w = choose|w: int| 0 <= w < d.drop_first().len() && d.drop_first()[w] == x;
                assert(d[w + 1] == x);
            }
        }
        lemma_key_slot_new(d.drop_first(), x);
        assert(d.push(x).drop_first() =~= d.drop_first().push(x));
    }
}

/// The deduplicated key list has no repeated entries and exactly the keys of
/// its source.
pub proof fn lemma_dedup_distinct(s: Seq<CornerKey>)
    ensures
        dedup(s).no_duplicates(),
        dedup(s).to_set() =~= s.to_set(),
    decreases s.len(),
{
    if s.len() > 0 {
        lemma_dedup_distinct(s.drop_last());
        assert(s.drop_last().to_set().insert(s.last()) =~= s.to_set()) by {
            assert forall|x: CornerKey| s.to_set().contains(x) implies s.drop_last()
                .to_set().insert(s.last()).contains(x) by {
                let w = choose|w: int| 0 <= w < s.len() && s[w] == x;
                if w < s.len() - 1 {
                    assert(s.drop_last()[w] == x);
                }
            }
            assert forall|x: CornerKey| s.drop_last().to_set().insert(s.last()).contains(x)
                implies s.to_set().contains(x) by {
                if s.drop_last().to_set().contains(x) {
                    let w = choose|w: int|
                        0 <= w < s.drop_last().len() && s.drop_last()[w] == x;
                    assert(s[w] == x);
                } else {
                    assert(s[s.len() - 1] == x);
                }
            }
        }
        let d = dedup(s.drop_last());
        if d.contains(s.last()) {
            assert(dedup(s).to_set() =~= s.to_set());
        } else {
            assert(d.push(s.last()).to_set() =~= d.to_set().insert(s.last())) by {
                assert forall|x: CornerKey| d.push(s.last()).to_set().contains(x) implies d
                    .to_set().insert(s.last()).contains(x) by {
                    let w = choose|w: int|
                        0 <= w < d.push(s.last()).len() && d.push(s.last())[w] == x;
                    if w < d.len() {
                        assert(d[w] == x);
                    }
                }
                assert forall|x: CornerKey| d.to_set().insert(s.last()).contains(x) implies d
                    .push(s.last()).to_set().contains(x) by {
                    if d.to_set().contains(x) {
                        let w = choose|w: int| 0 <= w < d.len() && d[w] == x;
                        assert(d.push(s.last())[w] == x);
                    } else {
                        assert(d.push(s.last())[d.len() as int] == x);
                    }
                }
            }
            assert(dedup(s).no_duplicates()) by {
                assert forall|i: int, j: int|
                    0 <= i < dedup(s).len() && 0 <= j < dedup(s).len() && i != j implies dedup(
                    s,
                )[i] != dedup(s)[j] by {
                    if i < d.len() && j < d.len() {
                    } else if i < d.len() && j == d.len() {
                        assert(d.to_set().contains(d[i]));
                    } else if j < d.len() && i == d.len() {
                        assert(d.to_set().contains(d[j]));
                    }
                }
            }
        }
    }
}

/// The number of output vertices after consolidation equals the number of
/// distinct corner keys in the input.
pub proof fn lemma_dedup_counts_distinct(s: Seq<CornerKey>)
    ensures
        dedup(s).len() == s.to_set().len(),
{
    lemma_dedup_distinct(s);
    dedup(s).unique_seq_to_set();
    assert(dedup(s).to_set() =~= s.to_set());
}

/// The resolved position array: the three position entries of each output
/// vertex, in table order.
pub open spec fn resolved_positions(src: Seq<u32>, d: Seq<CornerKey>) -> Seq<u32>
    decreases d.len(),
{
    if d.len() == 0 {
        Seq::empty()
    } else {
        resolved_positions(src, d.drop_last()) + seq![
            src[3 * (d.last().pos as int)],
            src[3 * (d.last().pos as int) + 1],
            src[3 * (d.last().pos as int) + 2],
        ]
    }
}

/// The resolved normal array: the three normal entries of each output vertex.
pub open spec fn resolved_normals(src: Seq<u32>, d: Seq<CornerKey>) -> Seq<u32>
    decreases d.len(),
{
    if d.len() == 0 {
        Seq::empty()
    } else {
        resolved_normals(src, d.drop_last()) + seq![
            src[3 * (d.last().norm as int)],
            src[3 * (d.last().norm as int) + 1],
            src[3 * (d.last().norm as int) + 2],
        ]
    }
}

/// The resolved UV array: the two UV entries of each output vertex.
pub open spec fn resolved_uvs(src: Seq<u32>, d: Seq<CornerKey>) -> Seq<u32>
    decreases d.len(),
{
    if d.len() == 0 {
        Seq::empty()
    } else {
        resolved_uvs(src, d.drop_last()) + seq![
            src[2 * (d.last().uv as int)],
            src[2 * (d.last().uv as int) + 1],
        ]
    }
}

/// The per-output-vertex influence counts: each output vertex inherits the
/// influences of the position vertex its key references.
pub open spec fn remapped_counts(counts: Seq<u8>, d: Seq<CornerKey>) -> Seq<u8> {
    Seq::new(d.len(), |t: int| counts[d[t].pos as int])
}

/// The remapped flat bone-index array: each output vertex's slice of the
/// original flat array, in table order.
pub open spec fn remapped_flat_u8(counts: Seq<u8>, flat: Seq<u8>, d: Seq<CornerKey>) -> Seq<u8>
    decreases d.len(),
{
    if d.len() == 0 {
        Seq::empty()
    } else {
        remapped_flat_u8(counts, flat, d.drop_last()) + flat.subrange(
            counts_total(counts, d.last().pos as int),
            counts_total(counts, d.last().pos as int) + counts[d.last().pos as int],
        )
    }
}

/// The remapped flat weight array.
pub open spec fn remapped_flat_u32(counts: Seq<u8>, flat: Seq<u32>, d: Seq<CornerKey>) -> Seq<u32>
    decreases d.len(),
{
    if d.len() == 0 {
        Seq::empty()
    } else {
        remapped_flat_u32(counts, flat, d.drop_last()) + flat.subrange(
            counts_total(counts, d.last().pos as int),
            counts_total(counts, d.last().pos as int) + counts[d.last().pos as int],
        )
    }
}

/// The key's indices point at whole entries of the mesh's attribute arrays.
pub open spec fn key_in_range(m: BlenderMesh, key: CornerKey) -> bool {
    &&& 3 * (key.pos as int) + 3 <= m.vertex_positions@.len()
    &&& 3 * (key.norm as int) + 3 <= m.vertex_normals@.len()
    &&& (m.vertex_uvs is Some ==> 2 * (key.uv as int) + 2 <= m.uv_data().len())
    &&& (m.bone_influences_per_vertex matches Some(BoneInfluencesPerVertex::NonUniform(c))
        ==> (key.pos as int) < c@.len())
}

/// A count array's prefix sums ignore entries appended after the prefix.
pub proof fn lemma_counts_total_push(counts: Seq<u8>, x: u8, v: int)
    requires
        0 <= v <= counts.len(),
    ensures
        counts_total(counts.push(x), v) == counts_total(counts, v),
    decreases v,
{
    if v > 0 {
        lemma_counts_total_push(counts, x, v - 1);
        assert(counts.push(x)[v - 1] == counts[v - 1]);
    }
}

/// What consolidation leaves behind: the deduplication table `d` of the
/// corner keys decides everything. The position index stream becomes the
/// single shared index buffer; the attribute arrays are resolved per output
/// vertex; the other index streams are gone; non-uniform vertex-group data is
/// remapped so each output vertex inherits its position vertex's influences;
/// the face list is untouched.
pub open spec fn consolidated_rel(pre: BlenderMesh, post: BlenderMesh) -> bool {
    let d = dedup(corner_keys(pre));
    &&& post.vertex_positions@ == resolved_positions(pre.vertex_positions@, d)
    &&& post.vertex_position_indices@ == shared_indices(corner_keys(pre))
    &&& post.num_vertices_in_each_face == pre.num_vertices_in_each_face
    &&& post.vertex_normals@ == resolved_normals(pre.vertex_normals@, d)
    &&& post.vertex_normal_indices@.len() == 0
    &&& (pre.vertex_uvs matches Some(_) ==> post.vertex_uvs matches Some(u) && u@ == resolved_uvs(
        pre.uv_data(),
        d,
    ))
    &&& (pre.vertex_uvs is None ==> post.vertex_uvs is None)
    &&& post.vertex_uv_indices is None
    &&& (pre.bone_influences_per_vertex matches Some(BoneInfluencesPerVertex::NonUniform(_)) ==> {
        &&& post.bone_influences_per_vertex matches Some(BoneInfluencesPerVertex::NonUniform(_))
        &&& post.vertex_group_indices is Some
        &&& post.vertex_group_weights is Some
        &&& post.group_counts() == remapped_counts(pre.group_counts(), d)
        &&& post.group_indices() == remapped_flat_u8(pre.group_counts(), pre.group_indices(), d)
        &&& post.group_weights() == remapped_flat_u32(pre.group_counts(), pre.group_weights(), d)
    })
    &&& (!(pre.bone_influences_per_vertex matches Some(BoneInfluencesPerVertex::NonUniform(_)))
        ==> {
        &&& post.bone_influences_per_vertex == pre.bone_influences_per_vertex
        &&& post.vertex_group_indices == pre.vertex_group_indices
        &&& post.vertex_group_weights == pre.vertex_group_weights
    })
}

/// Deduplication never invents entries: the table is at most as long as its
/// source.
pub proof fn lemma_dedup_len(s: Seq<CornerKey>)
    ensures
        dedup(s).len() <= s.len(),
    decreases s.len(),
{
    if s.len() > 0 {
        lemma_dedup_len(s.drop_last());
    }
}

/// Every key of the source occurs in the deduplication table.
pub proof fn lemma_dedup_contains_all(s: Seq<CornerKey>)
    ensures
        forall|j: int| 0 <= j < s.len() ==> dedup(s).contains(#[trigger] s[j]),
{
    lemma_dedup_distinct(s);
    assert forall|j: int| 0 <= j < s.len() implies dedup(s).contains(#[trigger] s[j]) by {
        assert(s.to_set().contains(s[j]));
        assert(dedup(s).to_set().contains(s[j]));
    }
}

/// The resolved attribute arrays hold three (positions, normals) or two (UVs)
/// entries per output vertex.
pub proof fn lemma_resolved_lens(psrc: Seq<u32>, nsrc: Seq<u32>, usrc: Seq<u32>, d: Seq<CornerKey>)
    ensures
        resolved_positions(psrc, d).len() == 3 * d.len(),
        resolved_normals(nsrc, d).len() == 3 * d.len(),
        resolved_uvs(usrc, d).len() == 2 * d.len(),
    decreases d.len(),
{
    if d.len() > 0 {
        lemma_resolved_lens(psrc, nsrc, usrc, d.drop_last());
    }
}

/// Correctness of the shared index buffer: it has one entry per input corner,
/// there are exactly as many output vertices as distinct corner keys, and
/// every output index lies in `[0, output_vertex_count)`.
pub proof fn lemma_consolidated_indices_in_range(pre: BlenderMesh, post: BlenderMesh)
    requires
        consolidated_rel(pre, post),
        corner_keys(pre).len() <= 0x10000,
    ensures
        post.vertex_position_indices@.len() == corner_keys(pre).len(),
        post.vertex_positions@.len() == 3 * dedup(corner_keys(pre)).len(),
        dedup(corner_keys(pre)).len() == corner_keys(pre).to_set().len(),
        forall|j: int| 0 <= j < post.vertex_position_indices@.len() ==> ((
        #[trigger] post.vertex_position_indices@[j]) as int) < dedup(corner_keys(pre)).len(),
{
    let s = corner_keys(pre);
    lemma_dedup_counts_distinct(s);
    lemma_dedup_contains_all(s);
    lemma_dedup_len(s);
    lemma_resolved_lens(pre.vertex_positions@, pre.vertex_normals@, pre.uv_data(), dedup(s));
    assert forall|j: int| 0 <= j < post.vertex_position_indices@.len() implies ((
    #[trigger] post.vertex_position_indices@[j]) as int) < dedup(s).len() by {
        assert(post.vertex_position_indices@[j] == shared_indices(s)[j]);
        lemma_key_slot_char(dedup(s), s[j]);
    }
}

/// The two meshes hold the same data in every field.
pub open spec fn mesh_views_eq(a: BlenderMesh, b: BlenderMesh) -> bool {
    &&& a.vertex_positions@ == b.vertex_positions@
    &&& a.vertex_position_indices@ == b.vertex_position_indices@
    &&& a.num_vertices_in_each_face@ == b.num_vertices_in_each_face@
    &&& a.vertex_normals@ == b.vertex_normals@
    &&& a.vertex_normal_indices@ == b.vertex_normal_indices@
    &&& (a.vertex_uvs is Some <==> b.vertex_uvs is Some)
    &&& a.uv_data() == b.uv_data()
    &&& (a.vertex_uv_indices is Some <==> b.vertex_uv_indices is Some)
    &&& a.uv_indices() == b.uv_indices()
    &&& (a.vertex_group_indices is Some <==> b.vertex_group_indices is Some)
    &&& a.group_indices() == b.group_indices()
    &&& (a.vertex_group_weights is Some <==> b.vertex_group_weights is Some)
    &&& a.group_weights() == b.group_weights()
    &&& match (a.bone_influences_per_vertex, b.bone_influences_per_vertex) {
        (None, None) => true,
        (
            Some(BoneInfluencesPerVertex::NonUniform(ca)),
            Some(BoneInfluencesPerVertex::NonUniform(cb)),
        ) => ca@ == cb@,
        (
            Some(BoneInfluencesPerVertex::Uniform(ka)),
            Some(BoneInfluencesPerVertex::Uniform(kb)),
        ) => ka == kb,
        _ => false,
    }
}

/// Consolidation is deterministic: two meshes holding the same data
/// consolidate to meshes holding the same data, so repeated runs over the
/// same input reproduce the output exactly.
pub proof fn lemma_consolidation_deterministic(
    p1: BlenderMesh,
    q1: BlenderMesh,
    p2: BlenderMesh,
    q2: BlenderMesh,
)
    requires
        mesh_views_eq(p1, p2),
        consolidated_rel(p1, q1),
        consolidated_rel(p2, q2),
    ensures
        mesh_views_eq(q1, q2),
{
    assert(corner_keys(p1) =~= corner_keys(p2));
    assert(q1.vertex_positions@ == q2.vertex_positions@);
    assert(q1.vertex_position_indices@ == q2.vertex_position_indices@);
    assert(q1.vertex_normals@ == q2.vertex_normals@);
    assert(q1.vertex_normal_indices@ =~= q2.vertex_normal_indices@);
    if p1.vertex_uvs is Some {
        assert(q1.uv_data() == q2.uv_data());
    }
    if p1.bone_influences_per_vertex matches Some(BoneInfluencesPerVertex::NonUniform(_)) {
        assert(p2.bone_influences_per_vertex matches Some(BoneInfluencesPerVertex::NonUniform(_)));
        assert(q1.group_counts() == q2.group_counts());
        assert(q1.group_indices() == q2.group_indices());
        assert(q1.group_weights() == q2.group_weights());
    }
}

/// Look `key` up in the insertion-ordered deduplication table.
fn find_key(table: &Vec<CornerKey>, key: CornerKey) -> (r: Option<usize>)
    ensures
        r matches Some(p) ==> table@.contains(key) && p as int == key_slot(table@, key) && (
        p as int) < table@.len(),
        r is None ==> !table@.contains(key),
{
    let mut i: usize = 0;
    while i < table.len()
        invariant
            i <= table@.len(),
            forall|j: int| 0 <= j < i ==> table@[j] != key,
        decreases table@.len() - i,
    {
        if table[i] == key {
            proof {
                assert(table@[i as int] == key);
                assert(table@.contains(key));
                lemma_key_slot_char(table@, key);
                let p = key_slot(table@, key);
                if p < i {
                    assert(table@[p] != key);
                }
                if i < p {
                    assert(table@[i as int] != key);
                }
            }
            return Some(i);
        }
        i = i + 1;
    }
    proof {
        if table@.contains(key) {
            let w = choose|w: int| 0 <= w < table@.len() && table@[w] == key;
            assert(table@[w] != key);
        }
    }
    None
}

/// The flat-array offset at which the entries of vertex `p` begin.
fn counts_offset(counts: &Vec<u8>, p: usize) -> (r: usize)
    requires
        p <= counts@.len(),
        counts_total(counts@, counts@.len() as int) <= usize::MAX,
    ensures
        r == counts_total(counts@, p as int),
{
    let mut sum: usize = 0;
    let mut v: usize = 0;
    while v < p
        invariant
            v <= p <= counts@.len(),
            sum == counts_total(counts@, v as int),
            counts_total(counts@, counts@.len() as int) <= usize::MAX,
        decreases p - v,
    {
        proof {
            lemma_counts_total_mono(counts@, (v + 1) as int, counts@.len() as int);
            lemma_counts_total_mono(counts@, 0, (v + 1) as int);
        }
        sum = sum + counts[v] as usize;
        v = v + 1;
    }
    sum
}

impl BlenderMesh {
    /// Walk every face corner in export order, assign each distinct index
    /// tuple the next output vertex, and rewrite the mesh into single-index
    /// form: one shared index buffer, attribute arrays resolved per output
    /// vertex, and non-uniform vertex-group data remapped per output vertex.
    fn consolidate_streams(&mut self)
        requires
            old(self).streams_wf(),
            old(self).groups_wf(),
            old(self).corner_count() <= 0x10000,
        ensures
            consolidated_rel(*old(self), *final(self)),
            final(self).groups_wf(),
            old(self).bone_influences_per_vertex matches Some(
                BoneInfluencesPerVertex::NonUniform(_),
            ) ==> final(self).bone_influences_per_vertex matches Some(
                BoneInfluencesPerVertex::NonUniform(_),
            ) && final(self).vertex_group_indices is Some && final(self).vertex_group_weights
                is Some,
    {
        let n = self.vertex_position_indices.len();
        let mut keys: Vec<CornerKey> = Vec::new();
        let mut i: usize = 0;
        while i < n
            invariant
                *self == *old(self),
                self.streams_wf(),
                n == self.corner_count(),
                i <= n,
                keys@.len() == i,
                forall|j: int| 0 <= j < i ==> keys@[j] == corner_keys(*self)[j],
            decreases n - i,
        {
            let uv: u16 = match &self.vertex_uv_indices {
                Some(u) => u[i],
                None => 0,
            };
            keys.push(
                CornerKey {
                    pos: self.vertex_position_indices[i],
                    norm: self.vertex_normal_indices[i],
                    uv,
                },
            );
            i = i + 1;
        }
        proof {
            assert(keys@ =~= corner_keys(*self));
            assert forall|j: int| 0 <= j < n implies key_in_range(
                *self,
                #[trigger] corner_keys(*self)[j],
            ) by {
                assert(3 * ((self.vertex_position_indices@[j]) as int) + 3
                    <= self.vertex_positions@.len());
                assert(3 * ((self.vertex_normal_indices@[j]) as int) + 3
                    <= self.vertex_normals@.len());
                if self.vertex_uv_indices is Some {
                    assert(2 * ((self.uv_indices()[j]) as int) + 2 <= self.uv_data().len());
                }
            }
        }
        let mut table: Vec<CornerKey> = Vec::new();
        let mut out: Vec<u16> = Vec::new();
        let mut j: usize = 0;
        while j < n
            invariant
                *self == *old(self),
                keys@ == corner_keys(*self),
                forall|j2: int| 0 <= j2 < n ==> key_in_range(
                    *self,
                    #[trigger] corner_keys(*self)[j2],
                ),
                n == keys@.len(),
                n <= 0x10000,
                j <= n,
                table@ == dedup(keys@.take(j as int)),
                table@.len() <= j,
                out@.len() == j,
                forall|i2: int| 0 <= i2 < j ==> dedup(keys@.take(j as int)).contains(
                    #[trigger] keys@[i2],
                ),
                forall|i2: int| 0 <= i2 < j ==> (#[trigger] out@[i2]) as int == key_slot(
                    dedup(keys@.take(j as int)),
                    keys@[i2],
                ),
            decreases n - j,
        {
            let key = keys[j];
            proof {
                assert(keys@.take(j + 1).drop_last() =~= keys@.take(j as int));
                assert(keys@.take(j + 1).last() == keys@[j as int]);
            }
            match find_key(&table, key) {
                Some(p) => {
                    proof {
                        assert(dedup(keys@.take(j + 1)) == table@);
                    }
                    out.push(p as u16);
                },
                None => {
                    let slot = table.len();
                    proof {
                        lemma_key_slot_new(table@, key);
                        assert forall|i2: int| 0 <= i2 < j implies key_slot(
                            table@.push(key),
                            keys@[i2],
                        ) == key_slot(table@, #[trigger] keys@[i2]) by {
                            lemma_key_slot_push(table@, key, keys@[i2]);
                        }
                        assert(dedup(keys@.take(j + 1)) == table@.push(key));
                        assert(table@.push(key).contains(key)) by {
                            assert(table@.push(key)[table@.len() as int] == key);
                        }
                        assert forall|i2: int| 0 <= i2 < j implies dedup(keys@.take(j + 1))
                            .contains(#[trigger] keys@[i2]) by {
                            let w = choose|w: int|
                                0 <= w < table@.len() && table@[w] == keys@[i2];
                            assert(table@.push(key)[w] == keys@[i2]);
                        }
                    }
                    table.push(key);
                    out.push(slot as u16);
                },
            }
            j = j + 1;
        }
        proof {
            assert(keys@.take(n as int) =~= keys@);
            assert(out@ =~= shared_indices(keys@));
            assert forall|t: int| 0 <= t < table@.len() implies key_in_range(
                *self,
                #[trigger] table@[t],
            ) by {
                lemma_dedup_distinct(keys@);
                assert(dedup(keys@).to_set().contains(table@[t])) by {
                    assert(dedup(keys@)[t] == table@[t]);
                }
                assert(keys@.to_set().contains(table@[t]));
                let w = choose|w: int| 0 <= w < keys@.len() && keys@[w] == table@[t];
                assert(key_in_range(*self, corner_keys(*self)[w]));
            }
        }
        let m = table.len();
        let mut new_positions: Vec<u32> = Vec::new();
        let mut new_normals: Vec<u32> = Vec::new();
        let mut t: usize = 0;
        while t < m
            invariant
                *self == *old(self),
                m == table@.len(),
                t <= m,
                forall|t2: int| 0 <= t2 < m ==> key_in_range(*self, #[trigger] table@[t2]),
                new_positions@ == resolved_positions(
                    self.vertex_positions@,
                    table@.take(t as int),
                ),
                new_normals@ == resolved_normals(self.vertex_normals@, table@.take(t as int)),
            decreases m - t,
        {
            let p = table[t].pos as usize;
            let nm = table[t].norm as usize;
            proof {
                assert(key_in_range(*self, table@[t as int]));
                assert(table@.take(t + 1).drop_last() =~= table@.take(t as int));
                assert(table@.take(t + 1).last() == table@[t as int]);
            }
            new_positions.push(self.vertex_positions[3 * p]);
            new_positions.push(self.vertex_positions[3 * p + 1]);
            new_positions.push(self.vertex_positions[3 * p + 2]);
            new_normals.push(self.vertex_normals[3 * nm]);
            new_normals.push(self.vertex_normals[3 * nm + 1]);
            new_normals.push(self.vertex_normals[3 * nm + 2]);
            proof {
                assert(new_positions@ =~= resolved_positions(
                    self.vertex_positions@,
                    table@.take(t + 1),
                ));
                assert(new_normals@ =~= resolved_normals(
                    self.vertex_normals@,
                    table@.take(t + 1),
                ));
            }
            t = t + 1;
        }
        proof {
            assert(table@.take(m as int) =~= table@);
        }
        let new_uvs: Option<Vec<u32>> = match &self.vertex_uvs {
            Some(uvs) => {
                let mut built: Vec<u32> = Vec::new();
                let mut t2: usize = 0;
                while t2 < m
                    invariant
                        *self == *old(self),
                        self.vertex_uvs matches Some(u) && u@ == uvs@,
                        uvs@ == self.uv_data(),
                        m == table@.len(),
                        t2 <= m,
                        forall|t3: int| 0 <= t3 < m ==> key_in_range(*self, #[trigger] table@[t3]),
                        built@ == resolved_uvs(self.uv_data(), table@.take(t2 as int)),
                    decreases m - t2,
                {
                    let u = table[t2].uv as usize;
                    proof {
                        assert(key_in_range(*self, table@[t2 as int]));
                        assert(table@.take(t2 + 1).drop_last() =~= table@.take(t2 as int));
                        assert(table@.take(t2 + 1).last() == table@[t2 as int]);
                    }
                    built.push(uvs[2 * u]);
                    built.push(uvs[2 * u + 1]);
                    proof {
                        assert(built@ =~= resolved_uvs(self.uv_data(), table@.take(t2 + 1)));
                    }
                    t2 = t2 + 1;
                }
                proof {
                    assert(table@.take(m as int) =~= table@);
                }
                Some(built)
            },
            None => None,
        };
        let has_groups = match &self.bone_influences_per_vertex {
            Some(BoneInfluencesPerVertex::NonUniform(_)) => true,
            _ => false,
        };
        let mut new_counts: Vec<u8> = Vec::new();
        let mut new_gi: Vec<u8> = Vec::new();
        let mut new_gw: Vec<u32> = Vec::new();
        if has_groups {
            match (
                &self.bone_influences_per_vertex,
                &self.vertex_group_indices,
                &self.vertex_group_weights,
            ) {
                (Some(BoneInfluencesPerVertex::NonUniform(counts)), Some(gi), Some(gw)) => {
                    let total = gi.len();
                    let mut t3: usize = 0;
                    while t3 < m
                        invariant
                            *self == *old(self),
                            counts@ == self.group_counts(),
                            gi@ == self.group_indices(),
                            gw@ == self.group_weights(),
                            self.bone_influences_per_vertex matches Some(
                                BoneInfluencesPerVertex::NonUniform(c2),
                            ) && c2@ == counts@,
                            total == gi@.len(),
                            gi@.len() == gw@.len(),
                            gi@.len() == counts_total(counts@, counts@.len() as int),
                            m == table@.len(),
                            t3 <= m,
                            forall|t4: int| 0 <= t4 < m ==> key_in_range(
                                *self,
                                #[trigger] table@[t4],
                            ),
                            new_counts@ == remapped_counts(counts@, table@).take(t3 as int),
                            new_gi@ == remapped_flat_u8(counts@, gi@, table@.take(t3 as int)),
                            new_gw@ == remapped_flat_u32(counts@, gw@, table@.take(t3 as int)),
                            new_gi@.len() == new_gw@.len(),
                            counts_total(new_counts@, new_counts@.len() as int) == new_gi@.len(),
                        decreases m - t3,
                    {
                        let p = table[t3].pos as usize;
                        proof {
                            assert(key_in_range(*self, table@[t3 as int]));
                            lemma_counts_total_mono(counts@, 0, counts@.len() as int);
                        }
                        let off = counts_offset(counts, p);
                        let c = counts[p] as usize;
                        proof {
                            lemma_counts_total_mono(counts@, (p + 1) as int, counts@.len() as int);
                            assert(table@.take(t3 + 1).drop_last() =~= table@.take(t3 as int));
                            assert(table@.take(t3 + 1).last() == table@[t3 as int]);
                        }
                        let ghost gi_before = new_gi@;
                        let ghost gw_before = new_gw@;
                        let mut j2: usize = 0;
                        while j2 < c
                            invariant
                                *self == *old(self),
                                gi@ == self.group_indices(),
                                gw@ == self.group_weights(),
                                total == gi@.len(),
                                gi@.len() == gw@.len(),
                                off == counts_total(counts@, p as int),
                                counts@ == self.group_counts(),
                                p < counts@.len(),
                                c == counts@[p as int] as usize,
                                off + c <= total,
                                j2 <= c,
                                new_gi@ == gi_before + gi@.subrange(
                                    off as int,
                                    off + j2 as int,
                                ),
                                new_gw@ == gw_before + gw@.subrange(
                                    off as int,
                                    off + j2 as int,
                                ),
                            decreases c - j2,
                        {
                            proof {
                                assert(gi@.subrange(off as int, off + (j2 + 1) as int)
                                    =~= gi@.subrange(off as int, off + j2 as int).push(
                                    gi@[off + j2 as int],
                                ));
                                assert(gw@.subrange(off as int, off + (j2 + 1) as int)
                                    =~= gw@.subrange(off as int, off + j2 as int).push(
                                    gw@[off + j2 as int],
                                ));
                            }
                            new_gi.push(gi[off + j2]);
                            new_gw.push(gw[off + j2]);
                            j2 = j2 + 1;
                        }
                        proof {
                            let d1 = table@.take(t3 + 1);
                            assert(new_gi@ =~= remapped_flat_u8(counts@, gi@, d1));
                            assert(new_gw@ =~= remapped_flat_u32(counts@, gw@, d1));
                            assert(remapped_counts(counts@, table@).take(t3 + 1)
                                =~= remapped_counts(counts@, table@).take(t3 as int).push(
                                counts@[table@[t3 as int].pos as int],
                            ));
                            lemma_counts_total_push(
                                new_counts@,
                                counts@[table@[t3 as int].pos as int],
                                new_counts@.len() as int,
                            );
                        }
                        new_counts.push(counts[p]);
                        t3 = t3 + 1;
                    }
                    proof {
                        assert(table@.take(m as int) =~= table@);
                        assert(remapped_counts(counts@, table@).take(m as int) =~= remapped_counts(
                            counts@,
                            table@,
                        ));
                    }
                },
                _ => {
                    proof {
                        assert(false);
                    }
                },
            }
        }
        self.vertex_positions = new_positions;
        self.vertex_position_indices = out;
        self.vertex_normals = new_normals;
        self.vertex_normal_indices = Vec::new();
        self.vertex_uvs = new_uvs;
        self.vertex_uv_indices = None;
        if has_groups {
            self.bone_influences_per_vertex = Some(
                BoneInfluencesPerVertex::NonUniform(new_counts),
            );
            self.vertex_group_indices = Some(new_gi);
            self.vertex_group_weights = Some(new_gw);
        }
    }

    /// Merge the independently indexed attribute streams into one shared
    /// index buffer with deduplicated vertices: corners with the same
    /// (position, normal, UV) index tuple collapse into one output vertex,
    /// first occurrences keeping their order. When the configuration names a
    /// bone-influence count, the remapped vertex-group data is then
    /// uniformized to exactly that many influences per vertex.
    pub fn combine_vertex_indices(&mut self, config: &CreateSingleIndexConfig)
        requires
            old(self).streams_wf(),
            old(self).groups_wf(),
            old(self).corner_count() <= 0x10000,
            config.bone_influences_per_vertex is Some ==> old(self).bone_influences_per_vertex
                matches Some(BoneInfluencesPerVertex::NonUniform(_)),
        ensures
            config.bone_influences_per_vertex is None ==> consolidated_rel(
                *old(self),
                *final(self),
            ),
            config.bone_influences_per_vertex matches Some(k) ==> exists|mid: BlenderMesh|
                #![trigger consolidated_rel(*old(self), mid)]
                consolidated_rel(*old(self), mid) && uniformized_rel(mid, *final(self), k),
            final(self).groups_wf(),
    {
        self.consolidate_streams();
        match config.bone_influences_per_vertex {
            Some(k) => {
                let ghost mid = *self;
                self.set_bone_influences_per_vertex(k);
                proof {
                    assert(consolidated_rel(*old(self), mid));
                    assert(uniformized_rel(mid, *self, k));
                }
            },
            None => {},
        }
    }
}

} // verus!
