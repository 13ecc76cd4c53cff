//! Selection of the external editor executable.
//!
//! The normalization engine never reads the process environment itself: the
//! caller that drives the editor subprocess passes any configured executable
//! path in explicitly, and this module only decides which name to use.

use vstd::prelude::*;

verus! {

/// The editor executable to invoke: the configured path when one was given,
/// otherwise the editor's standard executable name, `blender`.
pub fn exe(configured: Option<String>) -> (r: String)
    ensures
        configured matches Some(p) ==> r@ == p@,
        configured is None ==> r@ == "blender"@,
{
    match configured {
        Some(p) => p,
        None => "blender".to_owned(),
    }
}

} // verus!
