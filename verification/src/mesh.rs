//! The mesh representation: per-face-corner attribute streams as exported by
//! the editor, and the fields the normalization passes rewrite.

use vstd::prelude::*;

use crate::error::{BlenderError, Invariant};

verus! {

/// The number of bones that influence each vertex.
///
/// Exported meshes carry one count per vertex (`NonUniform`); the
/// uniformization pass gives every vertex the same number of influences and
/// records that single count (`Uniform`).
#[derive(Debug, Clone, PartialEq)]
pub enum BoneInfluencesPerVertex {
    NonUniform(Vec<u8>),
    Uniform(u8),
}

impl Default for BoneInfluencesPerVertex {
    /// Zero influences per vertex, uniformly.
    fn default() -> (r: Self)
        ensures
            r == BoneInfluencesPerVertex::Uniform(0u8),
    {
        BoneInfluencesPerVertex::Uniform(0)
    }
}

impl From<Vec<u8>> for BoneInfluencesPerVertex {
    /// A per-vertex count list is the non-uniform form.
    fn from(influences: Vec<u8>) -> (r: Self)
        ensures
            r == BoneInfluencesPerVertex::NonUniform(influences),
    {
        BoneInfluencesPerVertex::NonUniform(influences)
    }
}

impl vstd::std_specs::convert::FromSpecImpl<Vec<u8>> for BoneInfluencesPerVertex {
    open spec fn obeys_from_spec() -> bool {
        true
    }

    open spec fn from_spec(v: Vec<u8>) -> Self {
        BoneInfluencesPerVertex::NonUniform(v)
    }
}

/// All of the data about an exported mesh needed to normalize it.
///
/// Attribute arrays (`vertex_positions`, `vertex_normals`, `vertex_uvs`,
/// `vertex_group_weights`) hold the IEEE-754 single-precision bit patterns of
/// their values: positions and normals three entries per vertex, UVs two.
/// Before consolidation each attribute has its own index stream, one entry per
/// face corner; after consolidation `vertex_position_indices` is the single
/// shared index buffer and the other index streams are empty.
#[derive(Debug, Clone, PartialEq)]
pub struct BlenderMesh {
    pub vertex_positions: Vec<u32>,
    pub vertex_position_indices: Vec<u16>,
    pub num_vertices_in_each_face: Vec<u8>,
    pub vertex_normals: Vec<u32>,
    pub vertex_normal_indices: Vec<u16>,
    pub vertex_uvs: Option<Vec<u32>>,
    pub vertex_uv_indices: Option<Vec<u16>>,
    pub vertex_group_indices: Option<Vec<u8>>,
    pub vertex_group_weights: Option<Vec<u32>>,
    pub bone_influences_per_vertex: Option<BoneInfluencesPerVertex>,
}

impl Default for BlenderMesh {
    /// A mesh with no vertices, no faces and no vertex groups.
    fn default() -> (r: Self)
        ensures
            r.vertex_positions@.len() == 0,
            r.vertex_position_indices@.len() == 0,
            r.num_vertices_in_each_face@.len() == 0,
            r.vertex_normals@.len() == 0,
            r.vertex_normal_indices@.len() == 0,
            r.vertex_uvs is None,
            r.vertex_uv_indices is None,
            r.vertex_group_indices is None,
            r.vertex_group_weights is None,
            r.bone_influences_per_vertex is None,
    {
        BlenderMesh {
            vertex_positions: Vec::new(),
            vertex_position_indices: Vec::new(),
            num_vertices_in_each_face: Vec::new(),
            vertex_normals: Vec::new(),
            vertex_normal_indices: Vec::new(),
            vertex_uvs: None,
            vertex_uv_indices: None,
            vertex_group_indices: None,
            vertex_group_weights: None,
            bone_influences_per_vertex: None,
        }
    }
}

/// The sum of the first `v` entries of a count array: the flat-array offset at
/// which the `v`-th vertex's (or face's) entries begin.
pub open spec fn counts_total(counts: Seq<u8>, v: int) -> int
    decreases v,
{
    if v <= 0 {
        0
    } else {
        counts_total(counts, v - 1) + counts[v - 1]
    }
}

/// Prefix sums of a count array never decrease as more entries are added.
pub proof fn lemma_counts_total_mono(counts: Seq<u8>, v1: int, v2: int)
    requires
        0 <= v1 <= v2 <= counts.len(),
    ensures
        counts_total(counts, v1) <= counts_total(counts, v2),
        0 <= counts_total(counts, v1),
    decreases v2,
{
    if v2 > 0 {
        if v1 == v2 {
            lemma_counts_total_mono(counts, v1 - 1, v2 - 1);
        } else {
            lemma_counts_total_mono(counts, v1, v2 - 1);
        }
    }
}

impl BlenderMesh {
    /// The per-vertex influence counts, when the mesh carries non-uniform
    /// vertex-group data.
    pub open spec fn group_counts(self) -> Seq<u8> {
        match self.bone_influences_per_vertex {
            Some(BoneInfluencesPerVertex::NonUniform(c)) => c@,
            _ => Seq::empty(),
        }
    }

    /// The flat per-influence bone indices, empty when absent.
    pub open spec fn group_indices(self) -> Seq<u8> {
        match self.vertex_group_indices {
            Some(v) => v@,
            None => Seq::empty(),
        }
    }

    /// The flat per-influence weights (bit patterns), empty when absent.
    pub open spec fn group_weights(self) -> Seq<u32> {
        match self.vertex_group_weights {
            Some(v) => v@,
            None => Seq::empty(),
        }
    }

    /// The vertex-group fields are consistent: either all absent, or all
    /// present with the flat index and weight arrays of equal length and, in
    /// the non-uniform form, exactly as long as the counts say.
    pub open spec fn groups_wf(self) -> bool {
        match (
            self.bone_influences_per_vertex,
            self.vertex_group_indices,
            self.vertex_group_weights,
        ) {
            (Some(BoneInfluencesPerVertex::NonUniform(c)), Some(gi), Some(gw)) => gi@.len()
                == gw@.len() && gi@.len() == counts_total(c@, c@.len() as int),
            (Some(BoneInfluencesPerVertex::Uniform(k)), Some(gi), Some(gw)) => gi@.len()
                == gw@.len() && (k > 0 ==> gi@.len() as int % (k as int) == 0) && (k == 0
                ==> gi@.len() == 0),
            (None, None, None) => true,
            _ => false,
        }
    }

    /// How many face corners the mesh has: the length of the position index
    /// stream, which every other index stream must match.
    pub open spec fn corner_count(self) -> int {
        self.vertex_position_indices@.len() as int
    }

    /// The attribute index streams are consistent: one normal index and (when
    /// the mesh has UVs) one UV index per corner, and every index points at a
    /// whole entry inside its attribute array.
    pub open spec fn streams_wf(self) -> bool {
        &&& (self.vertex_uvs is Some <==> self.vertex_uv_indices is Some)
        &&& self.vertex_normal_indices@.len() == self.corner_count()
        &&& (self.vertex_uv_indices matches Some(u) ==> u@.len() == self.corner_count())
        &&& forall|i: int| 0 <= i < self.corner_count() ==> 3 * ((
        #[trigger] self.vertex_position_indices@[i]) as int) + 3 <= self.vertex_positions@.len()
        &&& forall|i: int| 0 <= i < self.corner_count() ==> 3 * ((
        #[trigger] self.vertex_normal_indices@[i]) as int) + 3 <= self.vertex_normals@.len()
        &&& (self.vertex_uv_indices matches Some(u) ==> forall|i: int|
            0 <= i < self.corner_count() ==> 2 * ((#[trigger] u@[i]) as int) + 2
                <= self.uv_data().len())
        &&& (self.bone_influences_per_vertex matches Some(BoneInfluencesPerVertex::NonUniform(c))
            ==> forall|i: int|
            0 <= i < self.corner_count() ==> ((#[trigger] self.vertex_position_indices@[i]) as int)
                < c@.len())
    }

    /// The flat UV array, empty when absent.
    pub open spec fn uv_data(self) -> Seq<u32> {
        match self.vertex_uvs {
            Some(u) => u@,
            None => Seq::empty(),
        }
    }

    /// The flat UV index stream, empty when absent.
    pub open spec fn uv_indices(self) -> Seq<u16> {
        match self.vertex_uv_indices {
            Some(u) => u@,
            None => Seq::empty(),
        }
    }

    /// The face list is consistent: every face has at least three corners and
    /// the faces together account for every corner of the index streams.
    pub open spec fn faces_wf(self) -> bool {
        &&& forall|f: int| 0 <= f < self.num_vertices_in_each_face@.len() ==> (
        #[trigger] self.num_vertices_in_each_face@[f]) >= 3
        &&& counts_total(
            self.num_vertices_in_each_face@,
            self.num_vertices_in_each_face@.len() as int,
        ) == self.corner_count()
    }
}

/// Whether the error's invariant really is violated by the mesh.
pub open spec fn mesh_invariant_violated(m: BlenderMesh, inv: Invariant) -> bool {
    match inv {
        Invariant::VertexGroupArrayMismatch => !m.groups_wf(),
        Invariant::IndexStreamMismatch => !(m.streams_wf() && m.faces_wf()),
        _ => false,
    }
}

impl BlenderMesh {
    /// Check the structural invariants of this mesh before any pass runs: the
    /// vertex-group arrays agree with the influence counts, every index stream
    /// has one entry per face corner, every index points inside its attribute
    /// array, and the face list accounts for every corner. Returns `Ok`
    /// exactly when all of that holds; otherwise a `Malformed` error naming
    /// the entity and a violated invariant. Nothing is modified either way.
    pub fn validate(&self, entity: &str) -> (r: Result<(), BlenderError>)
        ensures
            r is Ok <==> (self.groups_wf() && self.streams_wf() && self.faces_wf()),
            r matches Err(e) ==> e matches BlenderError::Malformed(n, inv) && n@ == entity@
                && mesh_invariant_violated(*self, inv),
    {
        if !self.check_groups() {
            return Err(BlenderError::Malformed(
                entity.to_owned(),
                Invariant::VertexGroupArrayMismatch,
            ));
        }
        if !self.check_streams() || !self.check_faces() {
            return Err(BlenderError::Malformed(
                entity.to_owned(),
                Invariant::IndexStreamMismatch,
            ));
        }
        Ok(())
    }

    /// Whether the vertex-group fields are consistent (`groups_wf`).
    fn check_groups(&self) -> (r: bool)
        ensures
            r == self.groups_wf(),
    {
        match (
            &self.bone_influences_per_vertex,
            &self.vertex_group_indices,
            &self.vertex_group_weights,
        ) {
            (Some(BoneInfluencesPerVertex::NonUniform(c)), Some(gi), Some(gw)) => {
                if gi.len() != gw.len() {
                    return false;
                }
                let mut sum: usize = 0;
                let mut v: usize = 0;
                while v < c.len()
                    invariant
                        v <= c@.len(),
                        sum == counts_total(c@, v as int),
                        sum <= gi@.len(),
                        gi@.len() == gw@.len(),
                        c@ == self.group_counts(),
                        gi@ == self.group_indices(),
                        gw@ == self.group_weights(),
                    decreases c@.len() - v,
                {
                    let step = c[v] as usize;
                    if step > gi.len() - sum {
                        proof {
                            lemma_counts_total_mono(c@, (v + 1) as int, c@.len() as int);
                        }
                        return false;
                    }
                    sum = sum + step;
                    v = v + 1;
                }
                sum == gi.len()
            },
            (Some(BoneInfluencesPerVertex::Uniform(k)), Some(gi), Some(gw)) => {
                if gi.len() != gw.len() {
                    return false;
                }
                if *k > 0 {
                    gi.len() % (*k as usize) == 0
                } else {
                    gi.len() == 0
                }
            },
            (None, None, None) => true,
            _ => false,
        }
    }

    /// Whether the index streams are consistent (`streams_wf`).
    fn check_streams(&self) -> (r: bool)
        ensures
            r == self.streams_wf(),
    {
        if self.vertex_normal_indices.len() != self.vertex_position_indices.len() {
            return false;
        }
        match (&self.vertex_uvs, &self.vertex_uv_indices) {
            (Some(_), Some(ui)) => {
                if ui.len() != self.vertex_position_indices.len() {
                    return false;
                }
            },
            (None, None) => {},
            _ => {
                return false;
            },
        }
        let n = self.vertex_position_indices.len();
        let mut i: usize = 0;
        while i < n
            invariant
                i <= n,
                n == self.corner_count(),
                self.vertex_normal_indices@.len() == n,
                forall|j: int| 0 <= j < i ==> 3 * ((#[trigger] self.vertex_position_indices@[j])
                    as int) + 3 <= self.vertex_positions@.len(),
                forall|j: int| 0 <= j < i ==> 3 * ((#[trigger] self.vertex_normal_indices@[j])
                    as int) + 3 <= self.vertex_normals@.len(),
            decreases n - i,
        {
            let pi = self.vertex_position_indices[i] as usize;
            let ni = self.vertex_normal_indices[i] as usize;
            if 3 * pi + 3 > self.vertex_positions.len() {
                return false;
            }
            if 3 * ni + 3 > self.vertex_normals.len() {
                return false;
            }
            i = i + 1;
        }
        match (&self.vertex_uvs, &self.vertex_uv_indices) {
            (Some(uvs), Some(ui)) => {
                let mut i2: usize = 0;
                while i2 < ui.len()
                    invariant
                        i2 <= ui@.len(),
                        ui@ == self.uv_indices(),
                        uvs@ == self.uv_data(),
                        self.vertex_uv_indices matches Some(u) && u@ == ui@,
                        forall|j: int| 0 <= j < i2 ==> 2 * ((#[trigger] ui@[j]) as int) + 2
                            <= uvs@.len(),
                    decreases ui@.len() - i2,
                {
                    let u = ui[i2] as usize;
                    if 2 * u + 2 > uvs.len() {
                        return false;
                    }
                    i2 = i2 + 1;
                }
            },
            _ => {},
        }
        match &self.bone_influences_per_vertex {
            Some(BoneInfluencesPerVertex::NonUniform(c)) => {
                let mut i3: usize = 0;
                while i3 < self.vertex_position_indices.len()
                    invariant
                        i3 <= self.corner_count(),
                        self.bone_influences_per_vertex matches Some(
                            BoneInfluencesPerVertex::NonUniform(c2),
                        ) && c2@ == c@,
                        forall|j: int| 0 <= j < i3 ==> ((
                        #[trigger] self.vertex_position_indices@[j]) as int) < c@.len(),
                    decreases self.corner_count() - i3,
                {
                    if self.vertex_position_indices[i3] as usize >= c.len() {
                        return false;
                    }
                    i3 = i3 + 1;
                }
                true
            },
            _ => true,
        }
    }

    /// Whether the face list is consistent (`faces_wf`).
    fn check_faces(&self) -> (r: bool)
        ensures
            r == self.faces_wf(),
    {
        let counts = &self.num_vertices_in_each_face;
        let corners = self.vertex_position_indices.len();
        let mut sum: usize = 0;
        let mut f: usize = 0;
        while f < counts.len()
            invariant
                f <= counts@.len(),
                sum == counts_total(counts@, f as int),
                sum <= corners,
                corners == self.corner_count(),
                counts@ == self.num_vertices_in_each_face@,
                forall|j: int| 0 <= j < f ==> (#[trigger] counts@[j]) >= 3,
            decreases counts@.len() - f,
        {
            if counts[f] < 3 {
                return false;
            }
            let step = counts[f] as usize;
            if step > corners - sum {
                proof {
                    lemma_counts_total_mono(counts@, (f + 1) as int, counts@.len() as int);
                }
                return false;
            }
            sum = sum + step;
            f = f + 1;
        }
        sum == corners
    }
}

} // verus!
