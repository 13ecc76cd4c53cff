//! A named skeleton: joints, per-joint inverse bind poses, and named actions,
//! each a time-ordered sequence of keyframed bone poses, together with the
//! three normalization passes that prepare the actions for skinning.

use vstd::prelude::*;

use crate::bone::{
    bone_data, bone_like, bone_wf, multiplied, transposed, Bone,
};
use crate::convert::dual_quat_bits;
use crate::error::{BlenderError, Invariant};

verus! {

/// The pose bones at an individual keyframe time.
///
/// `frame_time_secs` holds the bit pattern of the keyframe's time in seconds.
/// `bones` holds one pose bone per joint, entry `i` belonging to joint index `i`.
#[derive(Debug, Clone, PartialEq)]
pub struct Keyframe {
    pub frame_time_secs: u32,
    pub bones: Vec<Bone>,
}

/// One named action: a time-ordered sequence of keyframes.
#[derive(Debug, Clone, PartialEq)]
pub struct Action {
    pub name: String,
    pub keyframes: Vec<Keyframe>,
}

/// All of the data about an exported armature that skeletal animation needs.
///
/// `joint_index` lists the joint names; a joint's index is its position in the
/// list, and that mapping stays stable through every normalization pass.
/// `inverse_bind_poses` holds one bone per joint, indexed like `joint_index`.
#[derive(Debug, Clone, PartialEq)]
pub struct BlenderArmature {
    pub joint_index: Vec<String>,
    pub inverse_bind_poses: Vec<Bone>,
    pub actions: Vec<Action>,
}

/// Every bone of the sequence has the storage length its variant calls for.
pub open spec fn bones_wf(bs: Seq<Bone>) -> bool {
    forall|i: int| 0 <= i < bs.len() ==> bone_wf(#[trigger] bs[i])
}

/// Every bone of the sequence is in matrix form.
pub open spec fn bones_all_matrices(bs: Seq<Bone>) -> bool {
    forall|i: int| 0 <= i < bs.len() ==> #[trigger] bs[i] is Matrix
}

/// The keyframe carries one well-formed bone per joint.
pub open spec fn kf_wf(kf: Keyframe, n_joints: int) -> bool {
    &&& kf.bones@.len() == n_joints
    &&& bones_wf(kf.bones@)
}

/// Every keyframe of the action carries one well-formed bone per joint.
pub open spec fn action_wf(ac: Action, n_joints: int) -> bool {
    forall|k: int| 0 <= k < ac.keyframes@.len() ==> kf_wf(#[trigger] ac.keyframes@[k], n_joints)
}

impl BlenderArmature {
    /// What the normalization passes need of the action data: every keyframe
    /// has exactly one bone per inverse bind pose, and every bone's storage
    /// has the length its variant calls for.
    pub open spec fn pass_wf(self) -> bool {
        &&& bones_wf(self.inverse_bind_poses@)
        &&& forall|a: int| 0 <= a < self.actions@.len() ==> action_wf(
            #[trigger] self.actions@[a],
            self.inverse_bind_poses@.len() as int,
        )
    }

    /// The full structural invariant of an armature: one inverse bind pose per
    /// joint, and every keyframe with one well-formed bone per joint.
    pub open spec fn well_formed(self) -> bool {
        &&& self.inverse_bind_poses@.len() == self.joint_index@.len()
        &&& self.pass_wf()
    }

    /// Every pose bone of every action is still in matrix form (true of a
    /// freshly parsed export, and until `actions_to_dual_quats` runs).
    pub open spec fn all_action_bones_matrices(self) -> bool {
        forall|a: int| 0 <= a < self.actions@.len() ==> action_bones_matrices(
            #[trigger] self.actions@[a],
        )
    }
}

/// Every pose bone of the action is in matrix form.
pub open spec fn action_bones_matrices(ac: Action) -> bool {
    forall|k: int| 0 <= k < ac.keyframes@.len() ==> bones_all_matrices(
        (#[trigger] ac.keyframes@[k]).bones@,
    )
}

/// The two armatures agree everywhere: same joint names, inverse bind poses
/// with equal variants and entries, and actions equal in name, keyframe
/// times, and bone contents.
pub open spec fn armature_like(x: BlenderArmature, y: BlenderArmature) -> bool {
    &&& x.joint_index@.len() == y.joint_index@.len()
    &&& forall|i: int| 0 <= i < x.joint_index@.len() ==> (#[trigger] x.joint_index@[i])@
        == y.joint_index@[i]@
    &&& x.inverse_bind_poses@.len() == y.inverse_bind_poses@.len()
    &&& forall|i: int| 0 <= i < x.inverse_bind_poses@.len() ==> bone_like(
        #[trigger] x.inverse_bind_poses@[i],
        y.inverse_bind_poses@[i],
    )
    &&& x.actions@.len() == y.actions@.len()
    &&& forall|a: int| 0 <= a < x.actions@.len() ==> action_like(
        #[trigger] x.actions@[a],
        y.actions@[a],
    )
}

/// The two actions agree in name, keyframe times and bone contents.
pub open spec fn action_like(x: Action, y: Action) -> bool {
    &&& x.name@ == y.name@
    &&& x.keyframes@.len() == y.keyframes@.len()
    &&& forall|k: int| 0 <= k < x.keyframes@.len() ==> kf_like(
        #[trigger] x.keyframes@[k],
        y.keyframes@[k],
    )
}

/// The two keyframes agree in time and bone contents.
pub open spec fn kf_like(x: Keyframe, y: Keyframe) -> bool {
    &&& x.frame_time_secs == y.frame_time_secs
    &&& x.bones@.len() == y.bones@.len()
    &&& forall|b: int| 0 <= b < x.bones@.len() ==> bone_like(
        #[trigger] x.bones@[b],
        y.bones@[b],
    )
}

/// The parts of an armature no pass changes: the joints, the inverse bind
/// poses, the action names and count, the keyframe times and counts, and the
/// number of bones per keyframe.
pub open spec fn same_shape(pre: BlenderArmature, post: BlenderArmature) -> bool {
    &&& post.joint_index == pre.joint_index
    &&& post.inverse_bind_poses == pre.inverse_bind_poses
    &&& post.actions@.len() == pre.actions@.len()
    &&& forall|a: int| 0 <= a < pre.actions@.len() ==> same_action_shape(
        #[trigger] pre.actions@[a],
        post.actions@[a],
    )
}

/// The parts of an action no pass changes.
pub open spec fn same_action_shape(pre: Action, post: Action) -> bool {
    &&& post.name@ == pre.name@
    &&& post.keyframes@.len() == pre.keyframes@.len()
    &&& forall|k: int| 0 <= k < pre.keyframes@.len() ==> same_kf_shape(
        #[trigger] pre.keyframes@[k],
        post.keyframes@[k],
    )
}

/// The parts of a keyframe no pass changes.
pub open spec fn same_kf_shape(pre: Keyframe, post: Keyframe) -> bool {
    &&& post.frame_time_secs == pre.frame_time_secs
    &&& post.bones@.len() == pre.bones@.len()
}

/// What `apply_inverse_bind_poses` did to one keyframe: bone `b` was
/// multiplied, in place, with inverse bind pose `b`.
pub open spec fn kf_bind_applied(pre: Keyframe, inv: Seq<Bone>, post: Keyframe) -> bool {
    &&& same_kf_shape(pre, post)
    &&& forall|b: int| 0 <= b < pre.bones@.len() ==> multiplied(
        pre.bones@[b],
        inv[b],
        #[trigger] post.bones@[b],
    )
}

/// What `apply_inverse_bind_poses` did to one action.
pub open spec fn action_bind_applied(pre: Action, inv: Seq<Bone>, post: Action) -> bool {
    &&& post.name@ == pre.name@
    &&& post.keyframes@.len() == pre.keyframes@.len()
    &&& forall|k: int| 0 <= k < pre.keyframes@.len() ==> kf_bind_applied(
        pre.keyframes@[k],
        inv,
        #[trigger] post.keyframes@[k],
    )
}

/// What `apply_inverse_bind_poses` did to the whole armature.
pub open spec fn inverse_bind_applied(pre: BlenderArmature, post: BlenderArmature) -> bool {
    &&& same_shape(pre, post)
    &&& forall|a: int| 0 <= a < pre.actions@.len() ==> action_bind_applied(
        pre.actions@[a],
        pre.inverse_bind_poses@,
        #[trigger] post.actions@[a],
    )
}

/// What `transpose_actions` did to one keyframe: every bone's 16-entry buffer
/// had rows and columns exchanged.
pub open spec fn kf_transposed(pre: Keyframe, post: Keyframe) -> bool {
    &&& same_kf_shape(pre, post)
    &&& forall|b: int| 0 <= b < pre.bones@.len() ==> (#[trigger] post.bones@[b]) is Matrix
        && bone_data(post.bones@[b]) == transposed(bone_data(pre.bones@[b]))
}

/// What `transpose_actions` did to one action.
pub open spec fn action_transposed(pre: Action, post: Action) -> bool {
    &&& post.name@ == pre.name@
    &&& post.keyframes@.len() == pre.keyframes@.len()
    &&& forall|k: int| 0 <= k < pre.keyframes@.len() ==> kf_transposed(
        pre.keyframes@[k],
        #[trigger] post.keyframes@[k],
    )
}

/// What `transpose_actions` did to the whole armature.
pub open spec fn actions_all_transposed(pre: BlenderArmature, post: BlenderArmature) -> bool {
    &&& same_shape(pre, post)
    &&& forall|a: int| 0 <= a < pre.actions@.len() ==> action_transposed(
        pre.actions@[a],
        #[trigger] post.actions@[a],
    )
}

/// What `actions_to_dual_quats` did to one keyframe: every matrix bone was
/// replaced by its dual-quaternion conversion.
pub open spec fn kf_dual_quats(pre: Keyframe, post: Keyframe) -> bool {
    &&& same_kf_shape(pre, post)
    &&& forall|b: int| 0 <= b < pre.bones@.len() ==> (#[trigger] post.bones@[b]) is DualQuat
        && bone_data(post.bones@[b]) == dual_quat_bits(bone_data(pre.bones@[b]))
}

/// What `actions_to_dual_quats` did to one action.
pub open spec fn action_dual_quats(pre: Action, post: Action) -> bool {
    &&& post.name@ == pre.name@
    &&& post.keyframes@.len() == pre.keyframes@.len()
    &&& forall|k: int| 0 <= k < pre.keyframes@.len() ==> kf_dual_quats(
        pre.keyframes@[k],
        #[trigger] post.keyframes@[k],
    )
}

/// What `actions_to_dual_quats` did to the whole armature.
pub open spec fn actions_all_dual_quats(pre: BlenderArmature, post: BlenderArmature) -> bool {
    &&& same_shape(pre, post)
    &&& forall|a: int| 0 <= a < pre.actions@.len() ==> action_dual_quats(
        pre.actions@[a],
        #[trigger] post.actions@[a],
    )
}

impl BlenderArmature {
    /// Multiply each joint's inverse bind pose into every pose bone of every
    /// keyframe of every action, removing the bind-time offset so poses become
    /// deltas usable for skinning. Joint `i`'s pose bone is overwritten with
    /// the product `inverse_bind_poses[i] * pose` (matrices only; dual
    /// quaternions are left untouched, as `Bone::multiply` specifies).
    pub fn apply_inverse_bind_poses(&mut self)
        requires
            old(self).pass_wf(),
        ensures
            inverse_bind_applied(*old(self), *final(self)),
            final(self).pass_wf(),
    {
        let mut new_actions: Vec<Action> = Vec::new();
        let mut a: usize = 0;
        while a < self.actions.len()
            invariant
                *self == *old(self),
                self.pass_wf(),
                a <= self.actions@.len(),
                new_actions@.len() == a,
                forall|i: int| 0 <= i < a ==> action_bind_applied(
                    self.actions@[i],
                    self.inverse_bind_poses@,
                    #[trigger] new_actions@[i],
                ),
                forall|i: int| 0 <= i < a ==> action_wf(
                    #[trigger] new_actions@[i],
                    self.inverse_bind_poses@.len() as int,
                ),
            decreases self.actions@.len() - a,
        {
            let mut new_keyframes: Vec<Keyframe> = Vec::new();
            let mut k: usize = 0;
            while k < self.actions[a].keyframes.len()
                invariant
                    *self == *old(self),
                    self.pass_wf(),
                    a < self.actions@.len(),
                    k <= self.actions@[a as int].keyframes@.len(),
                    new_keyframes@.len() == k,
                    forall|i: int| 0 <= i < k ==> kf_bind_applied(
                        self.actions@[a as int].keyframes@[i],
                        self.inverse_bind_poses@,
                        #[trigger] new_keyframes@[i],
                    ),
                    forall|i: int| 0 <= i < k ==> kf_wf(
                        #[trigger] new_keyframes@[i],
                        self.inverse_bind_poses@.len() as int,
                    ),
                decreases self.actions@[a as int].keyframes@.len() - k,
            {
                assert(action_wf(self.actions@[a as int], self.inverse_bind_poses@.len() as int));
                assert(kf_wf(
                    self.actions@[a as int].keyframes@[k as int],
                    self.inverse_bind_poses@.len() as int,
                ));
                let mut new_bones: Vec<Bone> = Vec::new();
                let mut b: usize = 0;
                while b < self.actions[a].keyframes[k].bones.len()
                    invariant
                        *self == *old(self),
                        self.pass_wf(),
                        a < self.actions@.len(),
                        k < self.actions@[a as int].keyframes@.len(),
                        kf_wf(
                            self.actions@[a as int].keyframes@[k as int],
                            self.inverse_bind_poses@.len() as int,
                        ),
                        b <= self.actions@[a as int].keyframes@[k as int].bones@.len(),
                        new_bones@.len() == b,
                        forall|i: int| 0 <= i < b ==> multiplied(
                            self.actions@[a as int].keyframes@[k as int].bones@[i],
                            self.inverse_bind_poses@[i],
                            #[trigger] new_bones@[i],
                        ),
                        forall|i: int| 0 <= i < b ==> bone_wf(#[trigger] new_bones@[i]),
                    decreases self.actions@[a as int].keyframes@[k as int].bones@.len() - b,
                {
                    let mut nb = self.actions[a].keyframes[k].bones[b].duplicate();
                    nb.multiply(&self.inverse_bind_poses[b]);
                    new_bones.push(nb);
                    b = b + 1;
                }
                new_keyframes.push(Keyframe {
                    frame_time_secs: self.actions[a].keyframes[k].frame_time_secs,
                    bones: new_bones,
                });
                k = k + 1;
            }
            new_actions.push(Action {
                name: self.actions[a].name.clone(),
                keyframes: new_keyframes,
            });
            a = a + 1;
        }
        self.actions = new_actions;
    }

    /// Transpose every pose bone of every action keyframe from the editor's
    /// row-major convention to the renderer's column-major convention. Must
    /// run after `apply_inverse_bind_poses` and before `actions_to_dual_quats`:
    /// dual quaternions are not transposable, so that input is excluded by
    /// contract.
    pub fn transpose_actions(&mut self)
        requires
            old(self).pass_wf(),
            old(self).all_action_bones_matrices(),
        ensures
            actions_all_transposed(*old(self), *final(self)),
            final(self).pass_wf(),
            final(self).all_action_bones_matrices(),
    {
        let mut new_actions: Vec<Action> = Vec::new();
        let mut a: usize = 0;
        while a < self.actions.len()
            invariant
                *self == *old(self),
                self.pass_wf(),
                self.all_action_bones_matrices(),
                a <= self.actions@.len(),
                new_actions@.len() == a,
                forall|i: int| 0 <= i < a ==> action_transposed(
                    self.actions@[i],
                    #[trigger] new_actions@[i],
                ),
                forall|i: int| 0 <= i < a ==> action_wf(
                    #[trigger] new_actions@[i],
                    self.inverse_bind_poses@.len() as int,
                ),
                forall|i: int| 0 <= i < a ==> action_bones_matrices(#[trigger] new_actions@[i]),
            decreases self.actions@.len() - a,
        {
            let mut new_keyframes: Vec<Keyframe> = Vec::new();
            let mut k: usize = 0;
            while k < self.actions[a].keyframes.len()
                invariant
                    *self == *old(self),
                    self.pass_wf(),
                    self.all_action_bones_matrices(),
                    a < self.actions@.len(),
                    k <= self.actions@[a as int].keyframes@.len(),
                    new_keyframes@.len() == k,
                    forall|i: int| 0 <= i < k ==> kf_transposed(
                        self.actions@[a as int].keyframes@[i],
                        #[trigger] new_keyframes@[i],
                    ),
                    forall|i: int| 0 <= i < k ==> kf_wf(
                        #[trigger] new_keyframes@[i],
                        self.inverse_bind_poses@.len() as int,
                    ),
                    forall|i: int| 0 <= i < k ==> bones_all_matrices(
                        (#[trigger] new_keyframes@[i]).bones@,
                    ),
                decreases self.actions@[a as int].keyframes@.len() - k,
            {
                assert(action_wf(self.actions@[a as int], self.inverse_bind_poses@.len() as int));
                assert(action_bones_matrices(self.actions@[a as int]));
                assert(kf_wf(
                    self.actions@[a as int].keyframes@[k as int],
                    self.inverse_bind_poses@.len() as int,
                ));
                assert(bones_all_matrices(self.actions@[a as int].keyframes@[k as int].bones@));
                let mut new_bones: Vec<Bone> = Vec::new();
                let mut b: usize = 0;
                while b < self.actions[a].keyframes[k].bones.len()
                    invariant
                        *self == *old(self),
                        a < self.actions@.len(),
                        k < self.actions@[a as int].keyframes@.len(),
                        kf_wf(
                            self.actions@[a as int].keyframes@[k as int],
                            self.inverse_bind_poses@.len() as int,
                        ),
                        bones_all_matrices(self.actions@[a as int].keyframes@[k as int].bones@),
                        b <= self.actions@[a as int].keyframes@[k as int].bones@.len(),
                        new_bones@.len() == b,
                        forall|i: int| 0 <= i < b ==> (#[trigger] new_bones@[i]) is Matrix
                            && bone_data(new_bones@[i]) == transposed(bone_data(
                            self.actions@[a as int].keyframes@[k as int].bones@[i],
                        )),
                        forall|i: int| 0 <= i < b ==> bone_wf(#[trigger] new_bones@[i]),
                    decreases self.actions@[a as int].keyframes@[k as int].bones@.len() - b,
                {
                    let mut nb = self.actions[a].keyframes[k].bones[b].duplicate();
                    nb.transpose();
                    new_bones.push(nb);
                    b = b + 1;
                }
                new_keyframes.push(Keyframe {
                    frame_time_secs: self.actions[a].keyframes[k].frame_time_secs,
                    bones: new_bones,
                });
                k = k + 1;
            }
            new_actions.push(Action {
                name: self.actions[a].name.clone(),
                keyframes: new_keyframes,
            });
            a = a + 1;
        }
        self.actions = new_actions;
    }

    /// Replace every pose bone of every action keyframe, in place, with its
    /// dual-quaternion conversion, for dual-quaternion linear blending.
    /// Calling this when a bone is already a dual quaternion signals a
    /// pipeline-ordering bug; that input is excluded by contract.
    pub fn actions_to_dual_quats(&mut self)
        requires
            old(self).pass_wf(),
            old(self).all_action_bones_matrices(),
        ensures
            actions_all_dual_quats(*old(self), *final(self)),
            final(self).pass_wf(),
    {
        let mut new_actions: Vec<Action> = Vec::new();
        let mut a: usize = 0;
        while a < self.actions.len()
            invariant
                *self == *old(self),
                self.pass_wf(),
                self.all_action_bones_matrices(),
                a <= self.actions@.len(),
                new_actions@.len() == a,
                forall|i: int| 0 <= i < a ==> action_dual_quats(
                    self.actions@[i],
                    #[trigger] new_actions@[i],
                ),
                forall|i: int| 0 <= i < a ==> action_wf(
                    #[trigger] new_actions@[i],
                    self.inverse_bind_poses@.len() as int,
                ),
            decreases self.actions@.len() - a,
        {
            let mut new_keyframes: Vec<Keyframe> = Vec::new();
            let mut k: usize = 0;
            while k < self.actions[a].keyframes.len()
                invariant
                    *self == *old(self),
                    self.pass_wf(),
                    self.all_action_bones_matrices(),
                    a < self.actions@.len(),
                    k <= self.actions@[a as int].keyframes@.len(),
                    new_keyframes@.len() == k,
                    forall|i: int| 0 <= i < k ==> kf_dual_quats(
                        self.actions@[a as int].keyframes@[i],
                        #[trigger] new_keyframes@[i],
                    ),
                    forall|i: int| 0 <= i < k ==> kf_wf(
                        #[trigger] new_keyframes@[i],
                        self.inverse_bind_poses@.len() as int,
                    ),
                decreases self.actions@[a as int].keyframes@.len() - k,
            {
                assert(action_wf(self.actions@[a as int], self.inverse_bind_poses@.len() as int));
                assert(action_bones_matrices(self.actions@[a as int]));
                assert(kf_wf(
                    self.actions@[a as int].keyframes@[k as int],
                    self.inverse_bind_poses@.len() as int,
                ));
                assert(bones_all_matrices(self.actions@[a as int].keyframes@[k as int].bones@));
                let mut new_bones: Vec<Bone> = Vec::new();
                let mut b: usize = 0;
                while b < self.actions[a].keyframes[k].bones.len()
                    invariant
                        *self == *old(self),
                        a < self.actions@.len(),
                        k < self.actions@[a as int].keyframes@.len(),
                        kf_wf(
                            self.actions@[a as int].keyframes@[k as int],
                            self.inverse_bind_poses@.len() as int,
                        ),
                        bones_all_matrices(self.actions@[a as int].keyframes@[k as int].bones@),
                        b <= self.actions@[a as int].keyframes@[k as int].bones@.len(),
                        new_bones@.len() == b,
                        forall|i: int| 0 <= i < b ==> (#[trigger] new_bones@[i]) is DualQuat
                            && bone_data(new_bones@[i]) == dual_quat_bits(bone_data(
                            self.actions@[a as int].keyframes@[k as int].bones@[i],
                        )),
                        forall|i: int| 0 <= i < b ==> bone_wf(#[trigger] new_bones@[i]),
                    decreases self.actions@[a as int].keyframes@[k as int].bones@.len() - b,
                {
                    let nb = BlenderArmature::matrix_to_dual_quat(
                        &self.actions[a].keyframes[k].bones[b],
                    );
                    new_bones.push(nb);
                    b = b + 1;
                }
                new_keyframes.push(Keyframe {
                    frame_time_secs: self.actions[a].keyframes[k].frame_time_secs,
                    bones: new_bones,
                });
                k = k + 1;
            }
            new_actions.push(Action {
                name: self.actions[a].name.clone(),
                keyframes: new_keyframes,
            });
            a = a + 1;
        }
        self.actions = new_actions;
    }

    /// Check the structural invariant of this armature before any pass runs:
    /// one inverse bind pose per joint, every keyframe with one bone per
    /// joint, and every bone's storage of the length its variant calls for.
    /// Returns `Ok` exactly when the armature is well formed; otherwise a
    /// `Malformed` error naming the entity and a violated invariant. Nothing
    /// is modified either way.
    pub fn validate(&self, entity: &str) -> (r: Result<(), BlenderError>)
        ensures
            r is Ok <==> self.well_formed(),
            r matches Err(e) ==> e matches BlenderError::Malformed(n, inv) && n@ == entity@
                && armature_invariant_violated(*self, inv),
    {
        if self.inverse_bind_poses.len() != self.joint_index.len() {
            return Err(BlenderError::Malformed(
                entity.to_owned(),
                Invariant::BindPoseCountMismatch,
            ));
        }
        let mut i: usize = 0;
        while i < self.inverse_bind_poses.len()
            invariant
                i <= self.inverse_bind_poses@.len(),
                forall|j: int| 0 <= j < i ==> bone_wf(#[trigger] self.inverse_bind_poses@[j]),
            decreases self.inverse_bind_poses@.len() - i,
        {
            if !bone_storage_ok(&self.inverse_bind_poses[i]) {
                return Err(BlenderError::Malformed(
                    entity.to_owned(),
                    Invariant::BoneStorageLength,
                ));
            }
            i = i + 1;
        }
        let mut a: usize = 0;
        while a < self.actions.len()
            invariant
                a <= self.actions@.len(),
                forall|i2: int| 0 <= i2 < a ==> action_wf(
                    #[trigger] self.actions@[i2],
                    self.inverse_bind_poses@.len() as int,
                ),
            decreases self.actions@.len() - a,
        {
            let mut k: usize = 0;
            while k < self.actions[a].keyframes.len()
                invariant
                    a < self.actions@.len(),
                    k <= self.actions@[a as int].keyframes@.len(),
                    forall|i2: int| 0 <= i2 < k ==> kf_wf(
                        #[trigger] self.actions@[a as int].keyframes@[i2],
                        self.inverse_bind_poses@.len() as int,
                    ),
                decreases self.actions@[a as int].keyframes@.len() - k,
            {
                if self.actions[a].keyframes[k].bones.len() != self.inverse_bind_poses.len() {
                    return Err(BlenderError::Malformed(
                        entity.to_owned(),
                        Invariant::KeyframeBoneCountMismatch,
                    ));
                }
                let bones = &self.actions[a].keyframes[k].bones;
                let mut b: usize = 0;
                while b < bones.len()
                    invariant
                        b <= bones@.len(),
                        bones@ == self.actions@[a as int].keyframes@[k as int].bones@,
                        a < self.actions@.len(),
                        k < self.actions@[a as int].keyframes@.len(),
                        forall|j: int| 0 <= j < b ==> bone_wf(#[trigger] bones@[j]),
                    decreases bones@.len() - b,
                {
                    if !bone_storage_ok(&bones[b]) {
                        return Err(BlenderError::Malformed(
                            entity.to_owned(),
                            Invariant::BoneStorageLength,
                        ));
                    }
                    b = b + 1;
                }
                k = k + 1;
            }
            a = a + 1;
        }
        Ok(())
    }
}

/// Whether the error's invariant really is violated by the armature.
pub open spec fn armature_invariant_violated(arm: BlenderArmature, inv: Invariant) -> bool {
    match inv {
        Invariant::BindPoseCountMismatch => arm.inverse_bind_poses@.len()
            != arm.joint_index@.len(),
        Invariant::KeyframeBoneCountMismatch => exists|a: int, k: int|
            0 <= a < arm.actions@.len() && 0 <= k < arm.actions@[a].keyframes@.len()
                && (#[trigger] arm.actions@[a].keyframes@[k]).bones@.len()
                != arm.inverse_bind_poses@.len(),
        Invariant::BoneStorageLength => (exists|i: int|
            0 <= i < arm.inverse_bind_poses@.len() && !bone_wf(
                #[trigger] arm.inverse_bind_poses@[i],
            )) || (exists|a: int, k: int, b: int|
            0 <= a < arm.actions@.len() && 0 <= k < arm.actions@[a].keyframes@.len() && 0 <= b
                < arm.actions@[a].keyframes@[k].bones@.len() && !bone_wf(
                #[trigger] arm.actions@[a].keyframes@[k].bones@[b],
            )),
        _ => false,
    }
}

/// Whether the bone's storage has the entry count its variant calls for.
fn bone_storage_ok(b: &Bone) -> (r: bool)
    ensures
        r == bone_wf(*b),
{
    match b {
        Bone::Matrix(m) => m.len() == 16,
        Bone::DualQuat(d) => d.len() == 8,
    }
}

/// `post` is `pre` taken through the whole normalization pipeline in order:
/// inverse bind poses applied, then every pose bone transposed, then every
/// pose bone converted to a dual quaternion.
pub open spec fn normalized(pre: BlenderArmature, post: BlenderArmature) -> bool {
    exists|m1: BlenderArmature, m2: BlenderArmature|
        #![trigger inverse_bind_applied(pre, m1), actions_all_transposed(m1, m2)]
        inverse_bind_applied(pre, m1) && actions_all_transposed(m1, m2)
            && actions_all_dual_quats(m2, post)
}

/// Applying inverse bind poses reads nothing but the armature itself: two
/// armatures holding the same data come out holding the same data.
pub proof fn lemma_bind_pass_isolated(
    x: BlenderArmature,
    px: BlenderArmature,
    y: BlenderArmature,
    py: BlenderArmature,
)
    requires
        x.pass_wf(),
        y.pass_wf(),
        armature_like(x, y),
        inverse_bind_applied(x, px),
        inverse_bind_applied(y, py),
    ensures
        armature_like(px, py),
{
    assert forall|a: int| 0 <= a < px.actions@.len() implies action_like(
        #[trigger] px.actions@[a],
        py.actions@[a],
    ) by {
        assert(action_bind_applied(x.actions@[a], x.inverse_bind_poses@, px.actions@[a]));
        assert(action_bind_applied(y.actions@[a], y.inverse_bind_poses@, py.actions@[a]));
        assert(action_like(x.actions@[a], y.actions@[a]));
        let pxa = px.actions@[a];
        let pya = py.actions@[a];
        let xa = x.actions@[a];
        let ya = y.actions@[a];
        assert forall|k: int| 0 <= k < pxa.keyframes@.len() implies kf_like(
            #[trigger] pxa.keyframes@[k],
            pya.keyframes@[k],
        ) by {
            assert(kf_bind_applied(xa.keyframes@[k], x.inverse_bind_poses@, pxa.keyframes@[k]));
            assert(kf_bind_applied(ya.keyframes@[k], y.inverse_bind_poses@, pya.keyframes@[k]));
            assert(kf_like(xa.keyframes@[k], ya.keyframes@[k]));
            assert forall|b: int| 0 <= b < pxa.keyframes@[k].bones@.len() implies bone_like(
                #[trigger] pxa.keyframes@[k].bones@[b],
                pya.keyframes@[k].bones@[b],
            ) by {
                assert(multiplied(
                    xa.keyframes@[k].bones@[b],
                    x.inverse_bind_poses@[b],
                    pxa.keyframes@[k].bones@[b],
                ));
                assert(multiplied(
                    ya.keyframes@[k].bones@[b],
                    y.inverse_bind_poses@[b],
                    pya.keyframes@[k].bones@[b],
                ));
                assert(bone_like(xa.keyframes@[k].bones@[b], ya.keyframes@[k].bones@[b]));
                assert(bone_like(x.inverse_bind_poses@[b], y.inverse_bind_poses@[b]));
            }
        }
    }
}

/// Transposing the action bones reads nothing but the armature itself.
pub proof fn lemma_transpose_pass_isolated(
    x: BlenderArmature,
    px: BlenderArmature,
    y: BlenderArmature,
    py: BlenderArmature,
)
    requires
        armature_like(x, y),
        actions_all_transposed(x, px),
        actions_all_transposed(y, py),
    ensures
        armature_like(px, py),
{
    assert forall|a: int| 0 <= a < px.actions@.len() implies action_like(
        #[trigger] px.actions@[a],
        py.actions@[a],
    ) by {
        assert(action_transposed(x.actions@[a], px.actions@[a]));
        assert(action_transposed(y.actions@[a], py.actions@[a]));
        assert(action_like(x.actions@[a], y.actions@[a]));
        let pxa = px.actions@[a];
        let pya = py.actions@[a];
        let xa = x.actions@[a];
        let ya = y.actions@[a];
        assert forall|k: int| 0 <= k < pxa.keyframes@.len() implies kf_like(
            #[trigger] pxa.keyframes@[k],
            pya.keyframes@[k],
        ) by {
            assert(kf_transposed(xa.keyframes@[k], pxa.keyframes@[k]));
            assert(kf_transposed(ya.keyframes@[k], pya.keyframes@[k]));
            assert(kf_like(xa.keyframes@[k], ya.keyframes@[k]));
            assert forall|b: int| 0 <= b < pxa.keyframes@[k].bones@.len() implies bone_like(
                #[trigger] pxa.keyframes@[k].bones@[b],
                pya.keyframes@[k].bones@[b],
            ) by {
                assert(bone_like(xa.keyframes@[k].bones@[b], ya.keyframes@[k].bones@[b]));
            }
        }
    }
}

/// Converting the action bones to dual quaternions reads nothing but the
/// armature itself.
pub proof fn lemma_dual_quat_pass_isolated(
    x: BlenderArmature,
    px: BlenderArmature,
    y: BlenderArmature,
    py: BlenderArmature,
)
    requires
        armature_like(x, y),
        actions_all_dual_quats(x, px),
        actions_all_dual_quats(y, py),
    ensures
        armature_like(px, py),
{
    assert forall|a: int| 0 <= a < px.actions@.len() implies action_like(
        #[trigger] px.actions@[a],
        py.actions@[a],
    ) by {
        assert(action_dual_quats(x.actions@[a], px.actions@[a]));
        assert(action_dual_quats(y.actions@[a], py.actions@[a]));
        assert(action_like(x.actions@[a], y.actions@[a]));
        let pxa = px.actions@[a];
        let pya = py.actions@[a];
        let xa = x.actions@[a];
        let ya = y.actions@[a];
        assert forall|k: int| 0 <= k < pxa.keyframes@.len() implies kf_like(
            #[trigger] pxa.keyframes@[k],
            pya.keyframes@[k],
        ) by {
            assert(kf_dual_quats(xa.keyframes@[k], pxa.keyframes@[k]));
            assert(kf_dual_quats(ya.keyframes@[k], pya.keyframes@[k]));
            assert(kf_like(xa.keyframes@[k], ya.keyframes@[k]));
            assert forall|b: int| 0 <= b < pxa.keyframes@[k].bones@.len() implies bone_like(
                #[trigger] pxa.keyframes@[k].bones@[b],
                pya.keyframes@[k].bones@[b],
            ) by {
                assert(bone_like(xa.keyframes@[k].bones@[b], ya.keyframes@[k].bones@[b]));
            }
        }
    }
}

/// Normalization touches no state outside the one armature it is handed, so
/// two unrelated armatures can be normalized independently — concurrently on
/// separate threads, or sequentially in either order — and each comes out
/// exactly as it would have alone: armatures holding the same data normalize
/// to results holding the same data.
pub proof fn lemma_cross_entity_isolation(
    x: BlenderArmature,
    rx: BlenderArmature,
    y: BlenderArmature,
    ry: BlenderArmature,
)
    requires
        x.pass_wf(),
        y.pass_wf(),
        armature_like(x, y),
        normalized(x, rx),
        normalized(y, ry),
    ensures
        armature_like(rx, ry),
{
    let (m1x, m2x) = choose|m1: BlenderArmature, m2: BlenderArmature|
        #![trigger inverse_bind_applied(x, m1), actions_all_transposed(m1, m2)]
        inverse_bind_applied(x, m1) && actions_all_transposed(m1, m2)
            && actions_all_dual_quats(m2, rx);
    let (m1y, m2y) = choose|m1: BlenderArmature, m2: BlenderArmature|
        #![trigger inverse_bind_applied(y, m1), actions_all_transposed(m1, m2)]
        inverse_bind_applied(y, m1) && actions_all_transposed(m1, m2)
            && actions_all_dual_quats(m2, ry);
    lemma_bind_pass_isolated(x, m1x, y, m1y);
    lemma_transpose_pass_isolated(m1x, m2x, m1y, m2y);
    lemma_dual_quat_pass_isolated(m2x, rx, m2y, ry);
}

impl Default for BlenderArmature {
    /// An armature with no joints, no inverse bind poses and no actions.
    fn default() -> (r: Self)
        ensures
            r.joint_index@.len() == 0,
            r.inverse_bind_poses@.len() == 0,
            r.actions@.len() == 0,
    {
        BlenderArmature { joint_index: Vec::new(), inverse_bind_poses: Vec::new(), actions: Vec::new() }
    }
}

} // verus!
