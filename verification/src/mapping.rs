//! The decision for one pair of fields.
//!
//! | source        | target            | `Into` | `IntoDefault` | `Merge` | `MergeSoft` | `MergeRef` | `MergeRefSoft` |
//! |---------------|-------------------|--------|---------------|---------|-------------|------------|----------------|
//! | `A`           | `B`               | mismatch | mismatch    | mismatch | mismatch   | mismatch   | mismatch       |
//! | `A`           | `A`               | assign | assign        | assign  | no-op       | assign     | no-op          |
//! | `Option<A>`   | `B`               | downgrade | skip       | downgrade | no-op     | downgrade  | no-op          |
//! | `A`           | `Option<A>`       | wrap   | wrap          | wrap    | wrap        | wrap       | wrap           |
//! | `Option<A>`   | `Option<A>`       | pass   | pass          | pass    | pass        | pass       | pass           |
//! | `Option<Option<A>>` | `Option<A>` | downgrade | skip       | downgrade | unwrap    | unwrap     | unwrap         |
//! | `Option<A>`   | `Option<Option<A>>` | wrap | wrap          | wrap    | wrap        | wrap       | wrap           |
//! | invalid       | any               | skip   | skip          | skip    | skip        | skip       | skip           |
//! | any           | invalid           | skip   | skip          | skip    | skip        | skip       | skip           |
//!
//! In the third row `B` may be `A`. In a soft mode every action is carried
//! out only where the target holds no value yet; in a borrowing mode whatever
//! is taken from the source is cloned. Both are said by the [`Mode`], not by
//! the [`Action`].

use vstd::prelude::*;
use crate::field::{FieldType, FieldTypeError, FieldTypeView};
use crate::mode::Mode;
use crate::types::{is_equal_type, same_type, TypeExpr, TypeExprView};

verus! {

/// How the value of a source field reaches the target field.
#[derive(Clone, Copy, Debug, PartialEq, Eq, Structural)]
pub enum Action {
    /// `target = source`, both plain.
    Assign,
    /// `target = Some(source)`.
    Wrap,
    /// `target = source`, both optional; nothing is wrapped again.
    PassThrough,
    /// `if let Some(value) = source { target = value }`.
    ConditionalUnwrap,
    /// The target keeps the value it has.
    NoOp,
    /// The field is left out; where the target is constructed, its default
    /// value has to fill the gap.
    Skip,
}

/// Why a pair of fields cannot be mapped.
#[derive(Debug, PartialEq, Eq)]
pub enum MappingError {
    /// A field's type cannot be classified.
    FieldType(FieldTypeError),
    /// The two types differ, however optional either side is.
    TypeMismatch { source: String, target: String },
    /// An optional source cannot go into a target that is not optional.
    OptionalDowngrade,
}

/// The decision for one pair of fields.
#[derive(Debug, PartialEq, Eq)]
pub enum FieldOutcome {
    Mapped(Action),
    Rejected(MappingError),
}

/// The view of a [`MappingError`].
pub enum MappingErrorView {
    FieldType(FieldTypeError),
    TypeMismatch { source: Seq<char>, target: Seq<char> },
    OptionalDowngrade,
}

/// The view of a [`FieldOutcome`].
pub enum FieldOutcomeView {
    Mapped(Action),
    Rejected(MappingErrorView),
}

impl View for MappingError {
    type V = MappingErrorView;

    open spec fn view(&self) -> MappingErrorView {
        match *self {
            MappingError::FieldType(error) => MappingErrorView::FieldType(error),
            MappingError::TypeMismatch { source, target } => MappingErrorView::TypeMismatch {
                source: source@,
                target: target@,
            },
            MappingError::OptionalDowngrade => MappingErrorView::OptionalDowngrade,
        }
    }
}

impl View for FieldOutcome {
    type V = FieldOutcomeView;

    open spec fn view(&self) -> FieldOutcomeView {
        match *self {
            FieldOutcome::Mapped(action) => FieldOutcomeView::Mapped(action),
            FieldOutcome::Rejected(error) => FieldOutcomeView::Rejected(error@),
        }
    }
}

/// The two spellings that do not go together.
pub open spec fn mismatch(source: TypeExprView, target: TypeExprView) -> FieldOutcomeView {
    FieldOutcomeView::Rejected(MappingErrorView::TypeMismatch { source: source.text, target: target.text })
}

/// An optional source meets a plain target.
pub open spec fn downgrade(mode: Mode) -> FieldOutcomeView {
    match mode {
        Mode::IntoDefault => FieldOutcomeView::Mapped(Action::Skip),
        Mode::MergeSoft | Mode::MergeRefSoft => FieldOutcomeView::Mapped(Action::NoOp),
        Mode::Into | Mode::Merge | Mode::MergeRef => FieldOutcomeView::Rejected(
            MappingErrorView::OptionalDowngrade,
        ),
    }
}

/// The source is optional once more than the target.
pub open spec fn unwrap_nested(mode: Mode) -> FieldOutcomeView {
    match mode {
        Mode::IntoDefault => FieldOutcomeView::Mapped(Action::Skip),
        Mode::Into | Mode::Merge => FieldOutcomeView::Rejected(MappingErrorView::OptionalDowngrade),
        Mode::MergeSoft | Mode::MergeRef | Mode::MergeRefSoft => FieldOutcomeView::Mapped(
            Action::ConditionalUnwrap,
        ),
    }
}

/// Two plain fields.
pub open spec fn decide_plain(mode: Mode, source: TypeExprView, target: TypeExprView) -> FieldOutcomeView {
    if !same_type(source, target) {
        mismatch(source, target)
    } else if mode.soft() {
        FieldOutcomeView::Mapped(Action::NoOp)
    } else {
        FieldOutcomeView::Mapped(Action::Assign)
    }
}

/// A plain source and an optional target.
pub open spec fn decide_wrap(source: TypeExprView, target_inner: TypeExprView) -> FieldOutcomeView {
    if same_type(source, target_inner) {
        FieldOutcomeView::Mapped(Action::Wrap)
    } else {
        mismatch(source, target_inner)
    }
}

/// Two optional fields.
pub open spec fn decide_optional(
    mode: Mode,
    source_inner: TypeExprView,
    source_outer: TypeExprView,
    target_inner: TypeExprView,
    target_outer: TypeExprView,
) -> FieldOutcomeView {
    if same_type(source_inner, target_inner) {
        FieldOutcomeView::Mapped(Action::PassThrough)
    } else if same_type(source_inner, target_outer) {
        unwrap_nested(mode)
    } else if same_type(source_outer, target_inner) {
        FieldOutcomeView::Mapped(Action::Wrap)
    } else {
        mismatch(source_outer, target_inner)
    }
}

/// The decision table.
pub open spec fn decide(mode: Mode, source: FieldTypeView, target: FieldTypeView) -> FieldOutcomeView {
    match source {
        FieldTypeView::Invalid => FieldOutcomeView::Mapped(Action::Skip),
        FieldTypeView::Normal(source_type) => match target {
            FieldTypeView::Invalid => FieldOutcomeView::Mapped(Action::Skip),
            FieldTypeView::Normal(target_type) => decide_plain(mode, source_type, target_type),
            FieldTypeView::Optional { inner, outer } => decide_wrap(source_type, inner),
        },
        FieldTypeView::Optional { inner: source_inner, outer: source_outer } => match target {
            FieldTypeView::Invalid => FieldOutcomeView::Mapped(Action::Skip),
            FieldTypeView::Normal(target_type) => downgrade(mode),
            FieldTypeView::Optional { inner, outer } => decide_optional(
                mode,
                source_inner,
                source_outer,
                inner,
                outer,
            ),
        },
    }
}

fn type_mismatch(source: &TypeExpr, target: &TypeExpr) -> (outcome: FieldOutcome)
    ensures
        outcome@ == mismatch(source@, target@),
{
    FieldOutcome::Rejected(
        MappingError::TypeMismatch { source: source.text.clone(), target: target.text.clone() },
    )
}

/// Decide how a classified source field goes into a classified target field.
pub fn map_field(mode: Mode, source: &FieldType, target: &FieldType) -> (outcome: FieldOutcome)
    ensures
        outcome@ == decide(mode, source@, target@),
{
    match (source, target) {
        (FieldType::Normal(source_type), FieldType::Normal(target_type)) => {
            if !is_equal_type(source_type, target_type) {
                type_mismatch(source_type, target_type)
            } else if mode.is_soft() {
                FieldOutcome::Mapped(Action::NoOp)
            } else {
                FieldOutcome::Mapped(Action::Assign)
            }
        },
        (FieldType::Optional { .. }, FieldType::Normal(_)) => match mode {
            Mode::IntoDefault => FieldOutcome::Mapped(Action::Skip),
            Mode::MergeSoft | Mode::MergeRefSoft => FieldOutcome::Mapped(Action::NoOp),
            Mode::Into | Mode::Merge | Mode::MergeRef => FieldOutcome::Rejected(
                MappingError::OptionalDowngrade,
            ),
        },
        (FieldType::Normal(source_type), FieldType::Optional { inner, .. }) => {
            if is_equal_type(source_type, inner) {
                FieldOutcome::Mapped(Action::Wrap)
            } else {
                type_mismatch(source_type, inner)
            }
        },
        (
            FieldType::Optional { inner: source_inner, outer: source_outer },
            FieldType::Optional { inner: target_inner, outer: target_outer },
        ) => {
            if is_equal_type(source_inner, target_inner) {
                FieldOutcome::Mapped(Action::PassThrough)
            } else if is_equal_type(source_inner, target_outer) {
                match mode {
                    Mode::IntoDefault => FieldOutcome::Mapped(Action::Skip),
                    Mode::Into | Mode::Merge => FieldOutcome::Rejected(
                        MappingError::OptionalDowngrade,
                    ),
                    Mode::MergeSoft | Mode::MergeRef | Mode::MergeRefSoft => FieldOutcome::Mapped(
                        Action::ConditionalUnwrap,
                    ),
                }
            } else if is_equal_type(source_outer, target_inner) {
                FieldOutcome::Mapped(Action::Wrap)
            } else {
                type_mismatch(source_outer, target_inner)
            }
        },
        (FieldType::Invalid, _) | (_, FieldType::Invalid) => FieldOutcome::Mapped(Action::Skip),
    }
}

} // verus!
