//! Small records that show the mappings at work.
//!
//! The mappings between them are written out by hand, field by field.

use vstd::prelude::*;

pub mod into;
pub mod merge;
pub mod path;

verus! {

/// A record at the root of the crate.
pub struct RootLevelFile {
    pub field: String,
}

/// A struct with less, but otherwise identical fields.
pub struct IntoStruct {
    pub normal: String,
    pub optional: Option<String>,
}

/// A copy of an optional string.
pub fn clone_optional(value: &Option<String>) -> (copy: Option<String>)
    ensures
        copy.deep_view() == value.deep_view(),
{
    match value {
        Some(string) => Some(string.clone()),
        None => None,
    }
}

} // verus!
