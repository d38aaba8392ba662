//! Records that are merged into [`Base`].

use vstd::prelude::*;
use crate::merge::{StructMergeInto, StructMergeIntoRef};
use crate::samples::clone_optional;

verus! {

/// The record that the others are merged into.
pub struct Base {
    pub normal: String,
    pub optional: Option<String>,
    pub ignored: String,
}

/// A struct with identical field types.
pub struct Identical {
    pub normal: String,
    pub optional: Option<String>,
}

/// A struct with the same field types as [`Base`], but they are optional.
pub struct Optional {
    pub normal: Option<String>,
    pub optional: Option<Option<String>>,
}

/// A struct with both, identical and optional field types.
pub struct Mixed {
    pub normal: String,
    pub optional: Option<Option<String>>,
}

/// The value that is there if any, else the one that comes.
pub open spec fn filled<T>(held: Option<T>, coming: Option<T>) -> Option<T> {
    if held is Some {
        held
    } else {
        coming
    }
}

/// The value that comes if any, else the one that is there.
pub open spec fn replaced<T>(held: T, coming: Option<T>) -> T {
    match coming {
        Some(value) => value,
        None => held,
    }
}

impl Base {
    pub fn new() -> (base: Self)
        ensures
            base.normal@ == "base"@,
            base.optional.deep_view() == Some("base"@),
            base.ignored@ == "base"@,
    {
        Base { normal: "base".to_owned(), optional: Some("base".to_owned()), ignored: "base".to_owned() }
    }
}

impl Identical {
    pub fn new() -> (identical: Self)
        ensures
            identical.normal@ == "identical"@,
            identical.optional.deep_view() == Some("identical"@),
    {
        Identical { normal: "identical".to_owned(), optional: Some("identical".to_owned()) }
    }

    /// `after` is `before` with both fields overwritten.
    pub open spec fn overwrites(&self, before: &Base, after: &Base) -> bool {
        &&& after.normal@ == self.normal@
        &&& after.optional.deep_view() == self.optional.deep_view()
        &&& after.ignored@ == before.ignored@
    }

    /// `after` is `before` with `optional` filled if it was `None`.
    pub open spec fn fills(&self, before: &Base, after: &Base) -> bool {
        &&& after.normal@ == before.normal@
        &&& after.optional.deep_view() == filled(before.optional.deep_view(), self.optional.deep_view())
        &&& after.ignored@ == before.ignored@
    }
}

impl Optional {
    pub fn new() -> (optional: Self)
        ensures
            optional.normal.deep_view() == Some("optional"@),
            optional.optional.deep_view() == Some(Some("optional"@)),
    {
        Optional { normal: Some("optional".to_owned()), optional: Some(Some("optional".to_owned())) }
    }

    /// `after` is `before` with each field overwritten for which `self`
    /// holds a value.
    pub open spec fn overwrites(&self, before: &Base, after: &Base) -> bool {
        &&& after.normal@ == replaced(before.normal@, self.normal.deep_view())
        &&& after.optional.deep_view() == replaced(before.optional.deep_view(), self.optional.deep_view())
        &&& after.ignored@ == before.ignored@
    }

    /// `after` is `before` with `optional` filled if it was `None` and
    /// `self` holds a value for it.
    pub open spec fn fills(&self, before: &Base, after: &Base) -> bool {
        &&& after.normal@ == before.normal@
        &&& after.optional.deep_view() == filled(
            before.optional.deep_view(),
            replaced(before.optional.deep_view(), self.optional.deep_view()),
        )
        &&& after.ignored@ == before.ignored@
    }
}

impl Mixed {
    pub fn new() -> (mixed: Self)
        ensures
            mixed.normal@ == "mixed"@,
            mixed.optional.deep_view() == Some(Some("mixed"@)),
    {
        Mixed { normal: "mixed".to_owned(), optional: Some(Some("mixed".to_owned())) }
    }

    /// `after` is `before` with `normal` overwritten, and `optional` too if
    /// `self` holds a value for it.
    pub open spec fn overwrites(&self, before: &Base, after: &Base) -> bool {
        &&& after.normal@ == self.normal@
        &&& after.optional.deep_view() == replaced(before.optional.deep_view(), self.optional.deep_view())
        &&& after.ignored@ == before.ignored@
    }

    /// `after` is `before` with `optional` filled if it was `None` and
    /// `self` holds a value for it.
    pub open spec fn fills(&self, before: &Base, after: &Base) -> bool {
        &&& after.normal@ == before.normal@
        &&& after.optional.deep_view() == filled(
            before.optional.deep_view(),
            replaced(before.optional.deep_view(), self.optional.deep_view()),
        )
        &&& after.ignored@ == before.ignored@
    }
}

/// Overwrites both fields.
impl StructMergeInto<Base> for Identical {
    open spec fn merged(&self, before: &Base, after: &Base) -> bool {
        self.overwrites(before, after)
    }

    open spec fn merged_soft(&self, before: &Base, after: &Base) -> bool {
        self.fills(before, after)
    }

    fn merge_into(self, target: &mut Base) {
        target.normal = self.normal;
        target.optional = self.optional;
    }

    fn merge_into_soft(self, target: &mut Base) {
        if target.optional.is_none() {
            target.optional = self.optional;
        }
    }

    proof fn soft_merge_settles(&self, before: &Base, after: &Base) {
    }
}

/// Overwrites both fields with clones.
impl StructMergeIntoRef<Base> for Identical {
    open spec fn merged_ref(&self, before: &Base, after: &Base) -> bool {
        self.overwrites(before, after)
    }

    open spec fn merged_ref_soft(&self, before: &Base, after: &Base) -> bool {
        self.fills(before, after)
    }

    fn merge_into_ref(&self, target: &mut Base) {
        target.normal = self.normal.clone();
        target.optional = clone_optional(&self.optional);
    }

    fn merge_into_ref_soft(&self, target: &mut Base) {
        if target.optional.is_none() {
            target.optional = clone_optional(&self.optional);
        }
    }

    proof fn soft_merge_ref_settles(&self, before: &Base, after: &Base) {
    }
}

/// Takes over every value that is present.
///
/// No plan unwraps `Option<String>` into `String` in a merge that
/// overwrites: that is a downgrade. Here it is written out by hand.
impl StructMergeInto<Base> for Optional {
    open spec fn merged(&self, before: &Base, after: &Base) -> bool {
        self.overwrites(before, after)
    }

    open spec fn merged_soft(&self, before: &Base, after: &Base) -> bool {
        self.fills(before, after)
    }

    fn merge_into(self, target: &mut Base) {
        if let Some(value) = self.normal {
            target.normal = value;
        }
        if let Some(value) = self.optional {
            target.optional = value;
        }
    }

    fn merge_into_soft(self, target: &mut Base) {
        if target.optional.is_none() {
            if let Some(value) = self.optional {
                target.optional = value;
            }
        }
    }

    proof fn soft_merge_settles(&self, before: &Base, after: &Base) {
    }
}

/// Takes over a clone of every value that is present.
impl StructMergeIntoRef<Base> for Optional {
    open spec fn merged_ref(&self, before: &Base, after: &Base) -> bool {
        self.overwrites(before, after)
    }

    open spec fn merged_ref_soft(&self, before: &Base, after: &Base) -> bool {
        self.fills(before, after)
    }

    fn merge_into_ref(&self, target: &mut Base) {
        if let Some(value) = self.normal.as_ref() {
            target.normal = value.clone();
        }
        if let Some(value) = self.optional.as_ref() {
            target.optional = clone_optional(value);
        }
    }

    fn merge_into_ref_soft(&self, target: &mut Base) {
        if target.optional.is_none() {
            if let Some(value) = self.optional.as_ref() {
                target.optional = clone_optional(value);
            }
        }
    }

    proof fn soft_merge_ref_settles(&self, before: &Base, after: &Base) {
    }
}

/// Overwrites `normal` and takes over the value for `optional` if there is
/// one.
impl StructMergeInto<Base> for Mixed {
    open spec fn merged(&self, before: &Base, after: &Base) -> bool {
        self.overwrites(before, after)
    }

    open spec fn merged_soft(&self, before: &Base, after: &Base) -> bool {
        self.fills(before, after)
    }

    fn merge_into(self, target: &mut Base) {
        target.normal = self.normal;
        if let Some(value) = self.optional {
            target.optional = value;
        }
    }

    fn merge_into_soft(self, target: &mut Base) {
        if target.optional.is_none() {
            if let Some(value) = self.optional {
                target.optional = value;
            }
        }
    }

    proof fn soft_merge_settles(&self, before: &Base, after: &Base) {
    }
}

/// Overwrites `normal` with a clone and takes over a clone of the value for
/// `optional` if there is one.
impl StructMergeIntoRef<Base> for Mixed {
    open spec fn merged_ref(&self, before: &Base, after: &Base) -> bool {
        self.overwrites(before, after)
    }

    open spec fn merged_ref_soft(&self, before: &Base, after: &Base) -> bool {
        self.fills(before, after)
    }

    fn merge_into_ref(&self, target: &mut Base) {
        target.normal = self.normal.clone();
        if let Some(value) = self.optional.as_ref() {
            target.optional = clone_optional(value);
        }
    }

    fn merge_into_ref_soft(&self, target: &mut Base) {
        if target.optional.is_none() {
            if let Some(value) = self.optional.as_ref() {
                target.optional = clone_optional(value);
            }
        }
    }

    proof fn soft_merge_ref_settles(&self, before: &Base, after: &Base) {
    }
}

} // verus!
