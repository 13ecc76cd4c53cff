use landon::{Action, BlenderArmature, BlenderError, Bone, Keyframe};
use landon::error::Invariant;

fn matrix_bone(vals: [f32; 16]) -> Bone {
    Bone::Matrix(vals.iter().map(|v| v.to_bits()).collect())
}

fn dual_quat_bone(vals: [f32; 8]) -> Bone {
    Bone::DualQuat(vals.iter().map(|v| v.to_bits()).collect())
}

fn one_bone_armature(pose: [f32; 16], inverse_bind_pose: [f32; 16]) -> BlenderArmature {
    BlenderArmature {
        actions: vec![Action {
            name: "Fly".to_string(),
            keyframes: vec![Keyframe {
                frame_time_secs: 1.0f32.to_bits(),
                bones: vec![matrix_bone(pose)],
            }],
        }],
        inverse_bind_poses: vec![matrix_bone(inverse_bind_pose)],
        ..BlenderArmature::default()
    }
}

#[test]
fn applying_inv_bind_poses() {
    let mut start_armature = one_bone_armature(
        [
            1.0, 6.0, 2.0, 1.0, 7.0, 1.0, 2.0, 5.0, 0.0, 4.0, 1.0, 0.0, 0.0, 0.0, 0.0, 1.0,
        ],
        [
            1.0, 0.0, 0.0, 0.0, 0.0, 1.0, 0.0, 0.0, 0.0, 0.0, 1.0, 0.0, 0.0, 0.0, 5.0, 1.0,
        ],
    );

    start_armature.apply_inverse_bind_poses();

    let expected_armature = BlenderArmature {
        actions: vec![Action {
            name: "Fly".to_string(),
            keyframes: vec![Keyframe {
                frame_time_secs: 1.0f32.to_bits(),
                bones: vec![matrix_bone([
                    1.0, 6.0, 7.0, 1.0, 7.0, 1.0, 27.0, 5.0, 0.0, 4.0, 1.0, 0.0, 0.0, 0.0, 5.0,
                    1.0,
                ])],
            }],
        }],
        ..start_armature.clone()
    };

    assert_eq!(start_armature, expected_armature);
}

#[test]
fn convert_actions_to_dual_quats() {
    let mut start_armature = BlenderArmature {
        actions: vec![Action {
            name: "Fly".to_string(),
            keyframes: vec![Keyframe {
                frame_time_secs: 1.0f32.to_bits(),
                bones: vec![matrix_bone([
                    1.0, 0.0, 0.0, 0.0, 0.0, 1.0, 0.0, 0.0, 0.0, 0.0, 1.0, 0.0, 0.0, 0.0, 0.0,
                    1.0,
                ])],
            }],
        }],
        ..BlenderArmature::default()
    };

    start_armature.actions_to_dual_quats();

    let expected_armature = BlenderArmature {
        actions: vec![Action {
            name: "Fly".to_string(),
            keyframes: vec![Keyframe {
                frame_time_secs: 1.0f32.to_bits(),
                bones: vec![dual_quat_bone([1.0, 0.0, 0.0, 0.0, 0.0, 0.0, 0.0, 0.0])],
            }],
        }],
        ..start_armature.clone()
    };

    assert_eq!(start_armature, expected_armature);
}

#[test]
fn transpose_actions() {
    let mut start_armature = BlenderArmature {
        actions: vec![Action {
            name: "Fly".to_string(),
            keyframes: vec![Keyframe {
                frame_time_secs: 1.0f32.to_bits(),
                bones: vec![matrix_bone([
                    1.0, 0.0, 0.0, 0.0, 0.0, 1.0, 0.0, 0.0, 0.0, 0.0, 1.0, 0.0, 0.0, 0.0, 5.0,
                    1.0,
                ])],
            }],
        }],
        ..BlenderArmature::default()
    };

    start_armature.transpose_actions();

    let expected_armature = BlenderArmature {
        actions: vec![Action {
            name: "Fly".to_string(),
            keyframes: vec![Keyframe {
                frame_time_secs: 1.0f32.to_bits(),
                bones: vec![matrix_bone([
                    1.0, 0.0, 0.0, 0.0, 0.0, 1.0, 0.0, 0.0, 0.0, 0.0, 1.0, 5.0, 0.0, 0.0, 0.0,
                    1.0,
                ])],
            }],
        }],
        ..start_armature.clone()
    };

    assert_eq!(start_armature, expected_armature);
}

#[test]
fn identity_bind_pose_leaves_poses_unchanged() {
    let pose = [
        1.0, 6.0, 2.0, 1.0, 7.0, 1.0, 2.0, 5.0, 0.0, 4.0, 1.0, 0.0, 0.0, 0.0, 0.0, 1.0,
    ];
    let identity = [
        1.0, 0.0, 0.0, 0.0, 0.0, 1.0, 0.0, 0.0, 0.0, 0.0, 1.0, 0.0, 0.0, 0.0, 0.0, 1.0,
    ];
    let mut armature = one_bone_armature(pose, identity);
    let before = armature.clone();

    armature.apply_inverse_bind_poses();

    assert_eq!(armature, before);
}

#[test]
fn matrix_to_dual_quat_identity() {
    let identity = matrix_bone([
        1.0, 0.0, 0.0, 0.0, 0.0, 1.0, 0.0, 0.0, 0.0, 0.0, 1.0, 0.0, 0.0, 0.0, 0.0, 1.0,
    ]);
    let converted = BlenderArmature::matrix_to_dual_quat(&identity);
    assert_eq!(converted, dual_quat_bone([1.0, 0.0, 0.0, 0.0, 0.0, 0.0, 0.0, 0.0]));
}

#[test]
fn matrix_to_dual_quat_translation() {
    // A pure translation by (0, 0, 5): rotation stays the identity quaternion
    // and the dual part is 0.5 * [0, 0, 0, 5] * identity = (0, 0, 2.5).
    let translation = matrix_bone([
        1.0, 0.0, 0.0, 0.0, 0.0, 1.0, 0.0, 0.0, 0.0, 0.0, 1.0, 0.0, 0.0, 0.0, 5.0, 1.0,
    ]);
    let converted = BlenderArmature::matrix_to_dual_quat(&translation);
    assert_eq!(converted, dual_quat_bone([1.0, 0.0, 0.0, 0.0, 0.0, 0.0, 0.0, 2.5]));
}

#[test]
fn transpose_twice_returns_original() {
    let samples: [[f32; 16]; 3] = [
        [
            0.25, -1.5, 3.75, 42.0, -0.0625, 7.25, -9.5, 0.0, 11.0, -13.5, 2.125, 6.5, -4.75,
            8.875, -1.0, 0.5,
        ],
        [
            1.0, 2.0, 3.0, 4.0, 5.0, 6.0, 7.0, 8.0, 9.0, 10.0, 11.0, 12.0, 13.0, 14.0, 15.0,
            16.0,
        ],
        [
            -0.0, 0.0, 1.5e-3, -2.25e4, 3.0, -3.0, 0.125, -0.125, 99.5, -99.5, 7.0, -7.0, 0.75,
            -0.75, 12.5, -12.5,
        ],
    ];
    for vals in samples.iter() {
        let mut bone = matrix_bone(*vals);
        let original = bone.clone();
        bone.transpose();
        assert_ne!(bone, original);
        bone.transpose();
        assert_eq!(bone, original);
    }
}

#[test]
fn sequential_normalization_matches_either_order() {
    let pose = [
        1.0, 6.0, 2.0, 1.0, 7.0, 1.0, 2.0, 5.0, 0.0, 4.0, 1.0, 0.0, 0.0, 0.0, 0.0, 1.0,
    ];
    let inv = [
        1.0, 0.0, 0.0, 0.0, 0.0, 1.0, 0.0, 0.0, 0.0, 0.0, 1.0, 0.0, 0.0, 0.0, 5.0, 1.0,
    ];
    let other_pose = [
        1.0, 0.0, 0.0, 0.0, 0.0, 1.0, 0.0, 0.0, 0.0, 0.0, 1.0, 0.0, 2.0, 3.0, 4.0, 1.0,
    ];
    let identity = [
        1.0, 0.0, 0.0, 0.0, 0.0, 1.0, 0.0, 0.0, 0.0, 0.0, 1.0, 0.0, 0.0, 0.0, 0.0, 1.0,
    ];

    let normalize = |armature: &mut BlenderArmature| {
        armature.apply_inverse_bind_poses();
        armature.transpose_actions();
        armature.actions_to_dual_quats();
    };

    // First a, then b.
    let mut a1 = one_bone_armature(pose, inv);
    let mut b1 = one_bone_armature(other_pose, identity);
    normalize(&mut a1);
    normalize(&mut b1);

    // Same two armatures, normalized in the opposite order.
    let mut b2 = one_bone_armature(other_pose, identity);
    let mut a2 = one_bone_armature(pose, inv);
    normalize(&mut b2);
    normalize(&mut a2);

    assert_eq!(a1, a2);
    assert_eq!(b1, b2);
}

#[test]
fn as_slice_returns_backing_storage() {
    let bone = dual_quat_bone([1.0, 0.0, 0.0, 0.0, 0.0, 0.0, 0.0, 2.5]);
    let expected: Vec<u32> = [1.0f32, 0.0, 0.0, 0.0, 0.0, 0.0, 0.0, 2.5]
        .iter()
        .map(|v| v.to_bits())
        .collect();
    assert_eq!(bone.as_slice(), &expected[..]);
}

#[test]
fn validate_reports_bind_pose_count_mismatch() {
    let armature = BlenderArmature {
        joint_index: vec!["Root".to_string()],
        ..BlenderArmature::default()
    };
    let result = armature.validate("Hero");
    assert_eq!(
        result,
        Err(BlenderError::Malformed(
            "Hero".to_string(),
            Invariant::BindPoseCountMismatch
        ))
    );
}

#[test]
fn validate_reports_keyframe_bone_count_mismatch() {
    let identity = [
        1.0, 0.0, 0.0, 0.0, 0.0, 1.0, 0.0, 0.0, 0.0, 0.0, 1.0, 0.0, 0.0, 0.0, 0.0, 1.0,
    ];
    let armature = BlenderArmature {
        joint_index: vec!["Root".to_string()],
        inverse_bind_poses: vec![matrix_bone(identity)],
        actions: vec![Action {
            name: "Fly".to_string(),
            keyframes: vec![Keyframe {
                frame_time_secs: 0.0f32.to_bits(),
                bones: vec![],
            }],
        }],
    };
    let result = armature.validate("Hero");
    assert_eq!(
        result,
        Err(BlenderError::Malformed(
            "Hero".to_string(),
            Invariant::KeyframeBoneCountMismatch
        ))
    );
}

#[test]
fn validate_reports_bone_storage_length() {
    let armature = BlenderArmature {
        joint_index: vec!["Root".to_string()],
        inverse_bind_poses: vec![Bone::Matrix(vec![0; 15])],
        actions: vec![],
    };
    let result = armature.validate("Hero");
    assert_eq!(
        result,
        Err(BlenderError::Malformed(
            "Hero".to_string(),
            Invariant::BoneStorageLength
        ))
    );
}

#[test]
fn validate_accepts_well_formed_armature() {
    let identity = [
        1.0, 0.0, 0.0, 0.0, 0.0, 1.0, 0.0, 0.0, 0.0, 0.0, 1.0, 0.0, 0.0, 0.0, 0.0, 1.0,
    ];
    let armature = BlenderArmature {
        joint_index: vec!["Root".to_string()],
        inverse_bind_poses: vec![matrix_bone(identity)],
        actions: vec![Action {
            name: "Fly".to_string(),
            keyframes: vec![Keyframe {
                frame_time_secs: 0.0f32.to_bits(),
                bones: vec![matrix_bone(identity)],
            }],
        }],
    };
    assert_eq!(armature.validate("Hero"), Ok(()));
}

#[test]
fn stderr_error_carries_output() {
    let err = BlenderError::Stderr("addon not found".to_string());
    assert_eq!(err, BlenderError::Stderr("addon not found".to_string()));
    assert!(matches!(err, BlenderError::Stderr(ref text) if text == "addon not found"));
}

#[test]
fn exe_uses_configured_path() {
    assert_eq!(
        landon::exe(Some("/opt/editor/blender-3.6".to_string())),
        "/opt/editor/blender-3.6".to_string()
    );
}

#[test]
fn exe_defaults_to_blender() {
    assert_eq!(landon::exe(None), "blender".to_string());
}
