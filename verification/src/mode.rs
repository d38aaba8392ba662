//! The ways a source record can be brought into a target record.

use vstd::prelude::*;

verus! {

/// What is built from a source and a target record.
#[derive(Clone, Copy, Debug, PartialEq, Eq, Structural)]
pub enum Mode {
    /// A conversion that constructs the target from the source. Every field
    /// of the target has to be covered.
    Into,
    /// Like [`Mode::Into`], but fields that stay uncovered take the target's
    /// default value.
    IntoDefault,
    /// An update of an existing target that consumes the source.
    Merge,
    /// Like [`Mode::Merge`], but only absent optional fields are filled.
    MergeSoft,
    /// An update of an existing target that clones from the source.
    MergeRef,
    /// Like [`Mode::MergeRef`], but only absent optional fields are filled.
    MergeRefSoft,
}

impl Mode {
    /// A soft mode never overwrites a value that the target already holds.
    pub open spec fn soft(self) -> bool {
        self == Mode::MergeSoft || self == Mode::MergeRefSoft
    }

    /// A borrowing mode leaves the source intact and clones what it takes.
    pub open spec fn borrowing(self) -> bool {
        self == Mode::MergeRef || self == Mode::MergeRefSoft
    }

    /// A constructing mode builds a new target instead of updating one.
    pub open spec fn constructing(self) -> bool {
        self == Mode::Into || self == Mode::IntoDefault
    }

    #[verifier::when_used_as_spec(soft)]
    pub fn is_soft(self) -> (soft: bool)
        ensures
            soft == self.soft(),
    {
        match self {
            Mode::MergeSoft | Mode::MergeRefSoft => true,
            _ => false,
        }
    }

    #[verifier::when_used_as_spec(borrowing)]
    pub fn is_borrowing(self) -> (borrowing: bool)
        ensures
            borrowing == self.borrowing(),
    {
        match self {
            Mode::MergeRef | Mode::MergeRefSoft => true,
            _ => false,
        }
    }

    #[verifier::when_used_as_spec(constructing)]
    pub fn is_constructing(self) -> (constructing: bool)
        ensures
            constructing == self.constructing(),
    {
        match self {
            Mode::Into | Mode::IntoDefault => true,
            _ => false,
        }
    }
}

} // verus!
