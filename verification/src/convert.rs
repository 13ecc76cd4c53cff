//! Conversion from a 4x4 transform matrix to a dual quaternion.

use vstd::prelude::*;

use crate::armature::BlenderArmature;
use crate::bone::{bone_data, bone_wf, Bone};
use crate::linear::{quat_mul_bits, quat_scale_bits, rot_quat_bits};

verus! {

/// The bit pattern of the single-precision value one half, which scales the
/// translation quaternion in the dual-quaternion formula.
pub const ONE_HALF_BITS: u32 = 0x3F00_0000;

/// The pure translation quaternion `[tx, ty, tz, 0]` of the 4x4 column-major
/// matrix buffer `m`: its translation column entries with a zero scalar part.
pub open spec fn translation_quat_bits(m: Seq<u32>) -> Seq<u32> {
    seq![m[12], m[13], m[14], 0u32]
}

/// The dual quaternion of the 4x4 matrix whose column-major entry bit
/// patterns are `m`: the rotation quaternion `r` extracted from the upper 3x3
/// block, then the dual part `0.5 * [0, tx, ty, tz] * r`, each half stored in
/// `[w, x, y, z]` component order.
pub open spec fn dual_quat_bits(m: Seq<u32>) -> Seq<u32> {
    let r = rot_quat_bits(m);
    let d = quat_scale_bits(quat_mul_bits(translation_quat_bits(m), r), ONE_HALF_BITS);
    seq![r[3], r[0], r[1], r[2], d[3], d[0], d[1], d[2]]
}

impl BlenderArmature {
    /// Convert a matrix bone into a dual-quaternion bone: decompose the 4x4
    /// transform into its rotation (as a unit quaternion) and its translation,
    /// and build the dual part as `0.5 * [0, tx, ty, tz] * rotation`. The
    /// result's layout is the rotation quaternion then the dual part, each in
    /// `[w, x, y, z]` order. Calling this on a bone already in dual-quaternion
    /// form is a pipeline-ordering bug; that input is excluded by contract.
    pub fn matrix_to_dual_quat(bone: &Bone) -> (r: Bone)
        requires
            *bone is Matrix,
            bone_wf(*bone),
        ensures
            r is DualQuat,
            bone_data(r) == dual_quat_bits(bone_data(*bone)),
            bone_wf(r),
    {
        let m = bone.data_ref();
        let rot = crate::linear::mat4_rotation_quat(m);
        let mut t: Vec<u32> = Vec::new();
        t.push(m[12]);
        t.push(m[13]);
        t.push(m[14]);
        t.push(0);
        assert(t@ =~= translation_quat_bits(m@));
        let prod = crate::linear::quat_multiply(&t, &rot);
        let dual = crate::linear::quat_scale(&prod, ONE_HALF_BITS);
        let mut out: Vec<u32> = Vec::new();
        out.push(rot[3]);
        out.push(rot[0]);
        out.push(rot[1]);
        out.push(rot[2]);
        out.push(dual[3]);
        out.push(dual[0]);
        out.push(dual[1]);
        out.push(dual[2]);
        assert(out@ =~= dual_quat_bits(m@));
        Bone::DualQuat(out)
    }
}

} // verus!
