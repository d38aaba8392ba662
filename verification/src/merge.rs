//! Traits for merging one record into another.
//!
//! A merge takes the fields that source and target share and brings the
//! source's values into the target. What exactly that does for a pair of
//! records is said by the implementation, in [`StructMergeInto::merged`] and
//! [`StructMergeInto::merged_soft`]; the methods of all four traits are held
//! to it.
//!
//! A soft merge only fills: a field of the target that is not optional, or
//! that is optional and holds a value, is never touched by it.

use vstd::prelude::*;

verus! {

/// Merge another struct into `Self`.
pub trait StructMerge<Src> {
    /// What [`StructMerge::merge`] makes of `before`.
    spec fn merge_result(src: &Src, before: &Self, after: &Self) -> bool;

    /// What [`StructMerge::merge_soft`] makes of `before`.
    spec fn merge_soft_result(src: &Src, before: &Self, after: &Self) -> bool;

    /// Merge the given struct into `Self` whilst consuming it.
    fn merge(&mut self, src: Src)
        ensures
            Self::merge_result(&src, old(self), final(self)),
    ;

    /// Merge the given struct into `Self` whilst consuming it.
    ///
    /// Nearly the same as `merge`, but any optional field of `Self` is only
    /// merged if its value is `None`.
    fn merge_soft(&mut self, src: Src)
        ensures
            Self::merge_soft_result(&src, old(self), final(self)),
    ;

    /// A soft merge is idempotent: what it has made of `Self` it leaves as
    /// it is when it is carried out again with the same source.
    proof fn merge_soft_settles(src: &Src, before: &Self, after: &Self)
        requires
            Self::merge_soft_result(src, before, after),
        ensures
            Self::merge_soft_result(src, after, after),
    ;
}

/// Counterpart of [`StructMerge`].
/// This will merge `Self` into a given target.
pub trait StructMergeInto<Target: ?Sized> {
    /// `after` is what merging `self` makes of the target `before`.
    spec fn merged(&self, before: &Target, after: &Target) -> bool;

    /// `after` is what merging `self` softly makes of the target `before`.
    spec fn merged_soft(&self, before: &Target, after: &Target) -> bool;

    /// Check the [`StructMerge::merge`] docs.
    fn merge_into(self, target: &mut Target)
        ensures
            self.merged(old(target), final(target)),
    ;

    /// Check the [`StructMerge::merge_soft`] docs.
    fn merge_into_soft(self, target: &mut Target)
        ensures
            self.merged_soft(old(target), final(target)),
    ;

    /// A soft merge is idempotent: what it has made of a target it leaves
    /// as it is when it is carried out again with the same source.
    proof fn soft_merge_settles(&self, before: &Target, after: &Target)
        requires
            self.merged_soft(before, after),
        ensures
            self.merged_soft(after, after),
    ;
}

/// Implement the [`StructMerge`] trait for all types that provide
/// [`StructMergeInto`] for it.
impl<Target, Src: StructMergeInto<Target>> StructMerge<Src> for Target {
    open spec fn merge_result(src: &Src, before: &Self, after: &Self) -> bool {
        src.merged(before, after)
    }

    open spec fn merge_soft_result(src: &Src, before: &Self, after: &Self) -> bool {
        src.merged_soft(before, after)
    }

    fn merge(&mut self, src: Src) {
        src.merge_into(self);
    }

    fn merge_soft(&mut self, src: Src) {
        src.merge_into_soft(self);
    }

    proof fn merge_soft_settles(src: &Src, before: &Self, after: &Self) {
        src.soft_merge_settles(before, after);
    }
}

/// Merge another borrowed struct into `Self`.
///
/// All fields to be merged on the borrowed struct have to implement `Clone`.
pub trait StructMergeRef<Src> {
    /// What [`StructMergeRef::merge_ref`] makes of `before`.
    spec fn merge_ref_result(src: &Src, before: &Self, after: &Self) -> bool;

    /// What [`StructMergeRef::merge_ref_soft`] makes of `before`.
    spec fn merge_ref_soft_result(src: &Src, before: &Self, after: &Self) -> bool;

    /// Merge the given struct into `Self`.
    fn merge_ref(&mut self, src: &Src)
        ensures
            Self::merge_ref_result(src, old(self), final(self)),
    ;

    /// Merge the given struct into `Self`.
    ///
    /// Nearly the same as `merge_ref`, but any optional field of `Self` is
    /// only merged if its value is `None`.
    fn merge_ref_soft(&mut self, src: &Src)
        ensures
            Self::merge_ref_soft_result(src, old(self), final(self)),
    ;

    /// A soft merge is idempotent: what it has made of `Self` it leaves as
    /// it is when it is carried out again with the same source.
    proof fn merge_ref_soft_settles(src: &Src, before: &Self, after: &Self)
        requires
            Self::merge_ref_soft_result(src, before, after),
        ensures
            Self::merge_ref_soft_result(src, after, after),
    ;
}

/// Counterpart of [`StructMergeRef`].
/// This will merge `&Self` into a given target.
pub trait StructMergeIntoRef<Target: ?Sized> {
    /// `after` is what merging `self` makes of the target `before`.
    spec fn merged_ref(&self, before: &Target, after: &Target) -> bool;

    /// `after` is what merging `self` softly makes of the target `before`.
    spec fn merged_ref_soft(&self, before: &Target, after: &Target) -> bool;

    /// Check the [`StructMergeRef::merge_ref`] docs.
    fn merge_into_ref(&self, target: &mut Target)
        ensures
            self.merged_ref(old(target), final(target)),
    ;

    /// Check the [`StructMergeRef::merge_ref_soft`] docs.
    fn merge_into_ref_soft(&self, target: &mut Target)
        ensures
            self.merged_ref_soft(old(target), final(target)),
    ;

    /// A soft merge is idempotent: what it has made of a target it leaves
    /// as it is when it is carried out again with the same source.
    proof fn soft_merge_ref_settles(&self, before: &Target, after: &Target)
        requires
            self.merged_ref_soft(before, after),
        ensures
            self.merged_ref_soft(after, after),
    ;
}

/// Implement the [`StructMergeRef`] trait for all types that provide
/// [`StructMergeIntoRef`] for it.
impl<Target, Src: StructMergeIntoRef<Target>> StructMergeRef<Src> for Target {
    open spec fn merge_ref_result(src: &Src, before: &Self, after: &Self) -> bool {
        src.merged_ref(before, after)
    }

    open spec fn merge_ref_soft_result(src: &Src, before: &Self, after: &Self) -> bool {
        src.merged_ref_soft(before, after)
    }

    fn merge_ref(&mut self, src: &Src) {
        src.merge_into_ref(self);
    }

    fn merge_ref_soft(&mut self, src: &Src) {
        src.merge_into_ref_soft(self);
    }

    proof fn merge_ref_soft_settles(src: &Src, before: &Self, after: &Self) {
        src.soft_merge_ref_settles(before, after);
    }
}

} // verus!
