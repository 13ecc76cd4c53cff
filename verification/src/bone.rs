//! The bone representation: either a 4x4 transform matrix or a dual quaternion.

use vstd::prelude::*;

use crate::linear::mat4_mul_bits;

verus! {

/// A bone of an armature. Bones are exported from the editor as 4x4 matrices;
/// the normalization pipeline converts them into dual quaternions, which are
/// usually preferable for skeletal-animation blending.
///
/// The backing storage holds the entries' IEEE-754 single-precision bit
/// patterns: 16 of them for a matrix (column-major entry order as consumed by
/// the renderer; the editor writes the same flat buffer in row-major
/// convention, which is what the `transpose` pass corrects), 8 for a dual
/// quaternion (`[w, x, y, z]` of the rotation quaternion, then `[w, x, y, z]`
/// of the translation dual part).
#[derive(Debug, Clone, PartialEq)]
pub enum Bone {
    Matrix(Vec<u32>),
    DualQuat(Vec<u32>),
}

/// The flat entry buffer of a bone, whichever variant it is.
pub open spec fn bone_data(b: Bone) -> Seq<u32> {
    match b {
        Bone::Matrix(m) => m@,
        Bone::DualQuat(d) => d@,
    }
}

/// A bone's backing storage has the entry count its variant calls for.
pub open spec fn bone_wf(b: Bone) -> bool {
    match b {
        Bone::Matrix(m) => m@.len() == 16,
        Bone::DualQuat(d) => d@.len() == 8,
    }
}

/// Two bones hold the same variant and the same entries.
pub open spec fn bone_like(a: Bone, b: Bone) -> bool {
    &&& a is Matrix <==> b is Matrix
    &&& bone_data(a) == bone_data(b)
}

/// What `Bone::multiply` leaves behind: when both operands are matrices, the
/// product `rhs * self` (in column-major interpretation of the buffers);
/// otherwise the bone is untouched.
pub open spec fn multiplied(pre: Bone, rhs: Bone, post: Bone) -> bool {
    if pre is Matrix && rhs is Matrix {
        &&& post is Matrix
        &&& bone_data(post) == mat4_mul_bits(bone_data(rhs), bone_data(pre))
    } else {
        bone_like(post, pre)
    }
}

/// The entries of the 4x4 matrix buffer `s` with rows and columns exchanged.
pub open spec fn transposed(s: Seq<u32>) -> Seq<u32> {
    Seq::new(16, |i: int| s[(i % 4) * 4 + i / 4])
}

impl Bone {
    /// Whether this bone is in matrix form.
    pub fn is_matrix(&self) -> (r: bool)
        ensures
            r == (*self is Matrix),
    {
        match self {
            Bone::Matrix(_) => true,
            Bone::DualQuat(_) => false,
        }
    }

    /// Get a read-only slice of this bone's backing storage, for uploading the
    /// data without format conversion.
    ///
    /// Dual quaternion: `[Rw, Rx, Ry, Rz, Tw, Tx, Ty, Tz]` bit patterns.
    /// Matrix: 16 entry bit patterns.
    pub fn as_slice(&self) -> (r: &[u32])
        ensures
            r@ == bone_data(*self),
    {
        match self {
            Bone::Matrix(m) => m.as_slice(),
            Bone::DualQuat(d) => d.as_slice(),
        }
    }

    /// A read-only reference to the backing storage, whichever variant.
    pub(crate) fn data_ref(&self) -> (r: &Vec<u32>)
        ensures
            r@ == bone_data(*self),
    {
        match self {
            Bone::Matrix(m) => m,
            Bone::DualQuat(d) => d,
        }
    }

    /// An owned copy of this bone with the same variant and entries.
    pub fn duplicate(&self) -> (r: Bone)
        ensures
            bone_like(r, *self),
    {
        match self {
            Bone::Matrix(m) => Bone::Matrix(copy_entries(m)),
            Bone::DualQuat(d) => Bone::DualQuat(copy_entries(d)),
        }
    }

    /// Multiply `rhs` into this bone, overwriting this bone's storage with the
    /// column-major product `rhs * self`. A no-op (not an error) when either
    /// operand is a dual quaternion: the pipeline stage that multiplies only
    /// ever holds matrices.
    pub fn multiply(&mut self, rhs: &Bone)
        requires
            bone_wf(*old(self)),
            bone_wf(*rhs),
        ensures
            multiplied(*old(self), *rhs, *final(self)),
            bone_wf(*final(self)),
    {
        if self.is_matrix() && rhs.is_matrix() {
            let prod = crate::linear::mat4_multiply(rhs.data_ref(), self.data_ref());
            *self = Bone::Matrix(prod);
        }
    }

    /// Exchange the rows and columns of this matrix bone in place, turning the
    /// editor's row-major buffer into the renderer's column-major convention.
    ///
    /// Dual quaternions are not transposable, so calling this on one signals a
    /// pipeline-ordering bug; that input is excluded by contract.
    pub fn transpose(&mut self)
        requires
            *old(self) is Matrix,
            bone_wf(*old(self)),
        ensures
            *final(self) is Matrix,
            bone_data(*final(self)) == transposed(bone_data(*old(self))),
            bone_wf(*final(self)),
    {
        let d = self.data_ref();
        let mut t: Vec<u32> = Vec::new();
        let mut i: usize = 0;
        while i < 16
            invariant
                *self is Matrix,
                bone_wf(*self),
                d@ == bone_data(*self),
                i <= 16,
                t@.len() == i,
                forall|j: int| 0 <= j < i ==> t@[j] == d@[(j % 4) * 4 + j / 4],
            decreases 16 - i,
        {
            t.push(d[(i % 4) * 4 + i / 4]);
            i = i + 1;
        }
        assert(t@ =~= transposed(d@));
        *self = Bone::Matrix(t);
    }
}

/// An owned copy of a bit-pattern buffer.
pub(crate) fn copy_entries(v: &Vec<u32>) -> (r: Vec<u32>)
    ensures
        r@ == v@,
{
    let mut r: Vec<u32> = Vec::new();
    let mut i: usize = 0;
    while i < v.len()
        invariant
            i <= v@.len(),
            r@ =~= v@.subrange(0, i as int),
        decreases v@.len() - i,
    {
        r.push(v[i]);
        i = i + 1;
    }
    assert(r@ =~= v@);
    r
}

/// Transposing a 16-entry matrix buffer twice returns the original buffer,
/// for every matrix.
pub proof fn lemma_transpose_involution(s: Seq<u32>)
    requires
        s.len() == 16,
    ensures
        transposed(transposed(s)) == s,
{
    assert(transposed(transposed(s)) =~= s);
}

} // verus!
