//! The four mappings that a record can ask for.
//!
//! | mapping             | annotation            | plans                        |
//! |---------------------|-----------------------|------------------------------|
//! | `StructInto`        | `struct_into`         | `Into`                       |
//! | `StructIntoDefault` | `struct_into_default` | `IntoDefault`                |
//! | `StructMerge`       | `struct_merge`        | `Merge` and `MergeSoft`      |
//! | `StructMergeRef`    | `struct_merge_ref`    | `MergeRef` and `MergeRefSoft` |
//!
//! Each takes the text of the record that asks and the source tree in which
//! its targets are looked for. `StructIntoDefault` is a variant of
//! `StructInto` and reports a missing annotation in that name.

use vstd::prelude::*;
use crate::generate::{
    derivation, derive_impls, outcome_views, GenerationError, GenerationErrorView, MappingPlan,
    MappingPlanView,
};
use crate::mode::Mode;
use crate::module::{found_view, SourceTree, SourceTreeView};
use crate::schema::{Declaration, DeclarationView, RecordSchema, RecordSchemaView};
use crate::syntax::{parse_unit, parsed_unit};
use crate::types::views;

verus! {

/// Why a text holds no source record.
#[derive(Debug, PartialEq, Eq)]
pub enum SourceError {
    /// The text cannot be parsed; the parser's message.
    NotParsed(String),
    /// The text declares no record.
    NotAStruct,
}

/// The view of a [`SourceError`].
pub enum SourceErrorView {
    NotParsed(Seq<char>),
    NotAStruct,
}

impl View for SourceError {
    type V = SourceErrorView;

    open spec fn view(&self) -> SourceErrorView {
        match *self {
            SourceError::NotParsed(message) => SourceErrorView::NotParsed(message@),
            SourceError::NotAStruct => SourceErrorView::NotAStruct,
        }
    }
}

impl SourceError {
    /// The same error once more.
    pub fn copy(&self) -> (copy: Self)
        ensures
            copy@ == self@,
    {
        match self {
            SourceError::NotParsed(message) => SourceError::NotParsed(message.clone()),
            SourceError::NotAStruct => SourceError::NotAStruct,
        }
    }
}

/// The plans of a merge, one of each per target: those that overwrite and
/// those that only fill.
#[derive(Debug, PartialEq, Eq)]
pub struct MergeImpls {
    pub merge: Vec<Result<MappingPlan, GenerationError>>,
    pub merge_soft: Vec<Result<MappingPlan, GenerationError>>,
}

/// The view of [`MergeImpls`].
pub struct MergeImplsView {
    pub merge: Seq<Result<MappingPlanView, GenerationErrorView>>,
    pub merge_soft: Seq<Result<MappingPlanView, GenerationErrorView>>,
}

impl View for MergeImpls {
    type V = MergeImplsView;

    open spec fn view(&self) -> MergeImplsView {
        MergeImplsView { merge: outcome_views(self.merge@), merge_soft: outcome_views(self.merge_soft@) }
    }
}

/// The first record among the declarations.
pub open spec fn first_record(declarations: Seq<DeclarationView>) -> Option<RecordSchemaView>
    decreases declarations.len(),
{
    if declarations.len() == 0 {
        None
    } else {
        match declarations.first() {
            DeclarationView::Record(record) => Some(record),
            DeclarationView::Other => first_record(declarations.drop_first()),
        }
    }
}

/// The record that a text declares, the first where there are several.
pub open spec fn source_of(struct_ast: Seq<char>) -> Result<RecordSchemaView, SourceErrorView> {
    match parsed_unit(struct_ast) {
        Err(message) => Err(SourceErrorView::NotParsed(message)),
        Ok(declarations) => match first_record(declarations) {
            Some(record) => Ok(record),
            None => Err(SourceErrorView::NotAStruct),
        },
    }
}

/// What there is for the text of a source record under the mapping called
/// `derive_name`: what there is for the record; or, where the text holds no
/// record, the reason alone.
pub open spec fn expansion(
    mode: Mode,
    src_root: SourceTreeView,
    struct_ast: Seq<char>,
    derive_name: Seq<char>,
    name: Seq<char>,
) -> Seq<Result<MappingPlanView, GenerationErrorView>> {
    match source_of(struct_ast) {
        Err(error) => seq![Err(GenerationErrorView::Source(error))],
        Ok(src_struct) => derivation(mode, src_root, src_struct, derive_name, name),
    }
}

/// What a source record or an error is as a value of the specification.
pub open spec fn source_view(source: Result<RecordSchema, SourceError>) -> Result<
    RecordSchemaView,
    SourceErrorView,
> {
    match source {
        Ok(record) => Ok(record@),
        Err(error) => Err(error@),
    }
}

/// Take the first record out of the declarations of a unit.
pub fn take_first_record(declarations: Vec<Declaration>) -> (record: Option<RecordSchema>)
    ensures
        found_view(record) == first_record(views(declarations@)),
{
    let ghost all = views(declarations@);
    let mut remaining = declarations;
    let mut i: usize = 0;
    assert(all.skip(0) == all);
    while i < remaining.len()
        invariant
            i <= remaining.len(),
            views(remaining@) == all,
            all == views(declarations@),
            first_record(all) == first_record(all.skip(i as int)),
        decreases remaining.len() - i,
    {
        proof {
            assert(all.skip(i as int).first() == remaining@[i as int]@);
            assert(all.skip(i as int).drop_first() == all.skip(i + 1));
        }
        if matches!(remaining[i], Declaration::Record(_)) {
            return match remaining.swap_remove(i) {
                Declaration::Record(record) => Some(record),
                Declaration::Other => None,
            };
        }
        i += 1;
    }
    None
}

/// Read the record that asks for a mapping from its text.
pub fn source_record(struct_ast: &str) -> (source: Result<RecordSchema, SourceError>)
    ensures
        source_view(source) == source_of(struct_ast@),
{
    match parse_unit(struct_ast) {
        Err(message) => Err(SourceError::NotParsed(message)),
        Ok(declarations) => match take_first_record(declarations) {
            Some(record) => Ok(record),
            None => Err(SourceError::NotAStruct),
        },
    }
}

/// The one result where there is no source record.
fn no_source(error: SourceError) -> (impls: Vec<Result<MappingPlan, GenerationError>>)
    ensures
        outcome_views(impls@) == seq![Err::<MappingPlanView, _>(GenerationErrorView::Source(error@))],
{
    let impls = vec![Err(GenerationError::Source(error))];
    assert(outcome_views(impls@) =~= seq![Err::<MappingPlanView, _>(GenerationErrorView::Source(error@))]);
    impls
}

/// The actual logic for the struct_into derive macro.
pub fn struct_into_inner(src_root: &SourceTree, struct_ast: &str) -> (impls: Vec<
    Result<MappingPlan, GenerationError>,
>)
    ensures
        outcome_views(impls@) == expansion(Mode::Into, src_root@, struct_ast@, "StructInto"@, "struct_into"@),
{
    match source_record(struct_ast) {
        Ok(src_struct) => derive_impls(src_root, &src_struct, "StructInto", "struct_into", Mode::Into),
        Err(error) => no_source(error),
    }
}

/// The actual logic for the struct_into_default derive macro.
pub fn struct_into_default_inner(src_root: &SourceTree, struct_ast: &str) -> (impls: Vec<
    Result<MappingPlan, GenerationError>,
>)
    ensures
        outcome_views(impls@) == expansion(
            Mode::IntoDefault,
            src_root@,
            struct_ast@,
            "StructInto"@,
            "struct_into_default"@,
        ),
{
    match source_record(struct_ast) {
        Ok(src_struct) => derive_impls(
            src_root,
            &src_struct,
            "StructInto",
            "struct_into_default",
            Mode::IntoDefault,
        ),
        Err(error) => no_source(error),
    }
}

/// The actual logic for the struct_merge derive macro.
pub fn struct_merge_inner(src_root: &SourceTree, struct_ast: &str) -> (impls: MergeImpls)
    ensures
        impls@.merge == expansion(Mode::Merge, src_root@, struct_ast@, "StructMerge"@, "struct_merge"@),
        impls@.merge_soft == expansion(
            Mode::MergeSoft,
            src_root@,
            struct_ast@,
            "StructMerge"@,
            "struct_merge"@,
        ),
{
    match source_record(struct_ast) {
        Ok(src_struct) => MergeImpls {
            merge: derive_impls(src_root, &src_struct, "StructMerge", "struct_merge", Mode::Merge),
            merge_soft: derive_impls(src_root, &src_struct, "StructMerge", "struct_merge", Mode::MergeSoft),
        },
        Err(error) => MergeImpls { merge: no_source(error.copy()), merge_soft: no_source(error) },
    }
}

/// The actual logic for the struct_merge_ref derive macro.
pub fn struct_merge_ref_inner(src_root: &SourceTree, struct_ast: &str) -> (impls: MergeImpls)
    ensures
        impls@.merge == expansion(
            Mode::MergeRef,
            src_root@,
            struct_ast@,
            "StructMergeRef"@,
            "struct_merge_ref"@,
        ),
        impls@.merge_soft == expansion(
            Mode::MergeRefSoft,
            src_root@,
            struct_ast@,
            "StructMergeRef"@,
            "struct_merge_ref"@,
        ),
{
    match source_record(struct_ast) {
        Ok(src_struct) => MergeImpls {
            merge: derive_impls(src_root, &src_struct, "StructMergeRef", "struct_merge_ref", Mode::MergeRef),
            merge_soft: derive_impls(
                src_root,
                &src_struct,
                "StructMergeRef",
                "struct_merge_ref",
                Mode::MergeRefSoft,
            ),
        },
        Err(error) => MergeImpls { merge: no_source(error.copy()), merge_soft: no_source(error) },
    }
}

} // verus!
