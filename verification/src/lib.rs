//! Normalization engine for meshes and armatures exported from a 3D editor.
//!
//! The engine turns an editor-centric export (independently indexed per-face-corner
//! attribute streams, variable-length bone-influence lists, row-major bind-pose
//! matrices) into a GPU-consumable form: one shared index buffer, a fixed number of
//! bone influences per vertex, and skinning transforms as dual quaternions.
//!
//! Every vertex attribute and matrix entry is a single-precision IEEE-754 value.
//! This crate stores each such value as its 32-bit pattern (`u32`): the
//! normalization passes only move, permute, deduplicate, order and sign-flip these
//! values, so holding the raw bit patterns keeps every pass exact. The few places
//! that genuinely compute with the encoded numbers (the matrix product and the
//! quaternion algebra of the dual-quaternion conversion) call into an external
//! linear-algebra crate through a small trusted boundary in `linear`.

pub mod armature;
pub mod blender;
pub mod bone;
pub mod combine;
pub mod convert;
pub mod coords;
pub mod error;
pub mod influences;
pub mod linear;
pub mod mesh;
pub mod triangulate;

pub use crate::armature::Action;
pub use crate::armature::BlenderArmature;
pub use crate::armature::Keyframe;
pub use crate::blender::exe;
pub use crate::bone::Bone;
pub use crate::combine::CreateSingleIndexConfig;
pub use crate::error::BlenderError;
pub use crate::mesh::BlenderMesh;
pub use crate::mesh::BoneInfluencesPerVertex;
