//! Errors reported by the normalization engine.

use vstd::prelude::*;

verus! {

/// Which structural invariant of an entity was found violated before a
/// normalization pass was allowed to mutate it.
#[derive(Debug, PartialEq, Eq, Structural, Clone, Copy)]
pub enum Invariant {
    /// The number of inverse bind poses differs from the number of joints.
    BindPoseCountMismatch,
    /// A keyframe's bone list does not have one bone per joint.
    KeyframeBoneCountMismatch,
    /// A bone's backing storage has the wrong number of entries for its variant.
    BoneStorageLength,
    /// The flat vertex-group index and weight arrays disagree with the
    /// per-vertex influence counts.
    VertexGroupArrayMismatch,
    /// An attribute index stream has a different length than the others, an
    /// index points outside its attribute array, or the face list does not
    /// account for every corner with at least three corners per face.
    IndexStreamMismatch,
}

/// Something went wrong while producing or normalizing entity data.
#[derive(Debug, PartialEq)]
pub enum BlenderError {
    /// The external editor process wrote to its error stream while exporting.
    /// The captured error-stream text is carried verbatim.
    Stderr(String),
    /// An entity failed a structural check before a normalization pass ran.
    /// Carries the entity's name and the violated invariant; the entity was
    /// not modified.
    Malformed(String, Invariant),
}

} // verus!
