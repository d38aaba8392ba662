//! Building the mapping plan for one source and one target.

use vstd::prelude::*;
use crate::derive::{SourceError, SourceErrorView};
use crate::field::{classification, determine_field_type, FieldTypeView};
use crate::mapping::{decide, map_field, Action, FieldOutcome, FieldOutcomeView, MappingError, MappingErrorView};
use crate::matching::{
    distinct_names, matched_fields, matched_fields_are_the_same_names, pairs_with,
    reordering_commutes_with_mapping, reordering_keeps_the_matches, reordering_the_target_changes_nothing,
    FieldPair,
};
use crate::mode::Mode;
use crate::module::{
    get_struct_from_path, resolution, PathResolutionError, PathResolutionErrorView, SourceTree, SourceTreeView,
};
use crate::parse::{
    annotation_arguments, argument_paths, arguments, attribute, input_paths, named_annotation, ArgumentError,
    ArgumentErrorView, MissingAttribute, MissingAttributeView,
};
use crate::schema::{
    ArgumentExpr, ArgumentExprView, FieldDescriptor, FieldDescriptorView, FieldList, FieldListView, RecordSchema,
    RecordSchemaView, TargetPath, TargetPathView,
};
use crate::types::{same_type, views, TypeExprView};

verus! {

/// One source, one target and the path by which the target was named.
#[derive(Debug, PartialEq, Eq)]
pub struct Parameters<'a> {
    pub src_struct: &'a RecordSchema,
    pub target_path: TargetPath,
    pub target_struct: RecordSchema,
}

/// A record that the mapping cannot work with: only records with named
/// fields can be mapped.
#[derive(Clone, Copy, Debug, PartialEq, Eq, Structural)]
pub enum SchemaShapeError {
    /// The source has unnamed fields or none.
    SourceNotNamed,
    /// The target has unnamed fields or none.
    TargetNotNamed,
}

/// The decision for one field that source and target share.
#[derive(Debug, PartialEq, Eq)]
pub struct PlanEntry {
    /// The name of the field, the same on both sides.
    pub field: String,
    pub outcome: FieldOutcome,
}

/// The decisions for all fields that a source and a target share, in the
/// order of the source's declaration.
#[derive(Debug, PartialEq, Eq)]
pub struct MappingPlan {
    pub mode: Mode,
    /// The identifier of the source record.
    pub src_ident: String,
    /// The path by which the target record was named.
    pub target_path: TargetPath,
    pub entries: Vec<PlanEntry>,
}

/// Why there is no plan for a target.
#[derive(Debug, PartialEq, Eq)]
pub enum GenerationError {
    /// There is no source record.
    Source(SourceError),
    /// The source record carries no annotation that names targets.
    Attribute(MissingAttribute),
    /// The annotation names no targets.
    Arguments(ArgumentError),
    /// The path leads to no record.
    Path(TargetPath, PathResolutionError),
    /// The source or the target at the path cannot be mapped at all.
    Shape(TargetPath, SchemaShapeError),
}

/// The view of [`Parameters`].
pub struct ParametersView {
    pub src_struct: RecordSchemaView,
    pub target_path: TargetPathView,
    pub target_struct: RecordSchemaView,
}

/// The view of a [`PlanEntry`].
pub struct PlanEntryView {
    pub field: Seq<char>,
    pub outcome: FieldOutcomeView,
}

/// The view of a [`MappingPlan`].
pub struct MappingPlanView {
    pub mode: Mode,
    pub src_ident: Seq<char>,
    pub target_path: TargetPathView,
    pub entries: Seq<PlanEntryView>,
}

/// The view of a [`GenerationError`].
pub enum GenerationErrorView {
    Source(SourceErrorView),
    Attribute(MissingAttributeView),
    Arguments(ArgumentErrorView),
    Path(TargetPathView, PathResolutionErrorView),
    Shape(TargetPathView, SchemaShapeError),
}

impl<'a> View for Parameters<'a> {
    type V = ParametersView;

    open spec fn view(&self) -> ParametersView {
        ParametersView {
            src_struct: self.src_struct@,
            target_path: self.target_path@,
            target_struct: self.target_struct@,
        }
    }
}

impl View for PlanEntry {
    type V = PlanEntryView;

    open spec fn view(&self) -> PlanEntryView {
        PlanEntryView { field: self.field@, outcome: self.outcome@ }
    }
}

impl View for MappingPlan {
    type V = MappingPlanView;

    open spec fn view(&self) -> MappingPlanView {
        MappingPlanView {
            mode: self.mode,
            src_ident: self.src_ident@,
            target_path: self.target_path@,
            entries: views(self.entries@),
        }
    }
}

impl View for GenerationError {
    type V = GenerationErrorView;

    open spec fn view(&self) -> GenerationErrorView {
        match *self {
            GenerationError::Source(error) => GenerationErrorView::Source(error@),
            GenerationError::Attribute(missing) => GenerationErrorView::Attribute(missing@),
            GenerationError::Arguments(error) => GenerationErrorView::Arguments(error@),
            GenerationError::Path(target_path, error) => GenerationErrorView::Path(target_path@, error@),
            GenerationError::Shape(target_path, error) => GenerationErrorView::Shape(target_path@, error),
        }
    }
}

/// The decision for a pair of fields: a field whose type cannot be
/// classified is rejected for that reason, the source's type first; the
/// decision table settles the rest.
pub open spec fn field_outcome(mode: Mode, source: FieldDescriptorView, target: FieldDescriptorView) -> FieldOutcomeView {
    match classification(source.ty) {
        Err(error) => FieldOutcomeView::Rejected(MappingErrorView::FieldType(error)),
        Ok(source_type) => match classification(target.ty) {
            Err(error) => FieldOutcomeView::Rejected(MappingErrorView::FieldType(error)),
            Ok(target_type) => decide(mode, source_type, target_type),
        },
    }
}

/// The plan entry for a pair of fields.
pub open spec fn plan_entry(mode: Mode, pair: FieldPair) -> PlanEntryView {
    PlanEntryView { field: pair.0.name, outcome: field_outcome(mode, pair.0, pair.1) }
}

/// The entries of the plan for the given fields: one per pair of fields of
/// the same name, in the order of the pairs.
pub open spec fn planned_entries(
    mode: Mode,
    sources: Seq<FieldDescriptorView>,
    targets: Seq<FieldDescriptorView>,
) -> Seq<PlanEntryView> {
    matched_fields(sources, targets).map_values(entry_of(mode))
}

/// The plan entry for a pair of fields, as a function of the pair.
pub open spec fn entry_of(mode: Mode) -> spec_fn(FieldPair) -> PlanEntryView {
    |pair: FieldPair| plan_entry(mode, pair)
}

/// The named fields of a record; none where its fields have no names.
pub open spec fn named_fields(record: RecordSchemaView) -> Seq<FieldDescriptorView> {
    match record.fields {
        FieldListView::Named(fields) => fields,
        _ => Seq::empty(),
    }
}

/// What keeps a source and a target from being mapped at all: the target is
/// looked at first.
pub open spec fn shape_error(src_struct: RecordSchemaView, target_struct: RecordSchemaView) -> Option<
    SchemaShapeError,
> {
    if !(target_struct.fields is Named) {
        Some(SchemaShapeError::TargetNotNamed)
    } else if !(src_struct.fields is Named) {
        Some(SchemaShapeError::SourceNotNamed)
    } else {
        None
    }
}

/// The plan for a mode, a source and a target, where there is one.
pub open spec fn synthesis(mode: Mode, params: ParametersView) -> Result<MappingPlanView, SchemaShapeError> {
    match shape_error(params.src_struct, params.target_struct) {
        Some(error) => Err(error),
        None => Ok(
            MappingPlanView {
                mode,
                src_ident: params.src_struct.ident,
                target_path: params.target_path,
                entries: planned_entries(
                    mode,
                    named_fields(params.src_struct),
                    named_fields(params.target_struct),
                ),
            },
        ),
    }
}

/// What there is for one target path: the plan for the record that the path
/// leads to, or the reason why there is none.
pub open spec fn target_outcome(
    mode: Mode,
    src_root: SourceTreeView,
    src_struct: RecordSchemaView,
    target_path: TargetPathView,
) -> Result<MappingPlanView, GenerationErrorView> {
    match resolution(src_root, target_path.segments) {
        Err(error) => Err(GenerationErrorView::Path(target_path, error)),
        Ok(target_struct) => match synthesis(mode, ParametersView { src_struct, target_path, target_struct }) {
            Ok(plan) => Ok(plan),
            Err(error) => Err(GenerationErrorView::Shape(target_path, error)),
        },
    }
}

/// What there is for the argument of an annotation: one outcome per target
/// path that it names, in their order; or, where it names none, the reason
/// alone.
pub open spec fn generation(
    mode: Mode,
    src_root: SourceTreeView,
    src_struct: RecordSchemaView,
    parsed_args: ArgumentExprView,
) -> Seq<Result<MappingPlanView, GenerationErrorView>> {
    match argument_paths(parsed_args) {
        Err(error) => seq![Err(GenerationErrorView::Arguments(error))],
        Ok(paths) => paths.map_values(
            |target_path: TargetPathView| target_outcome(mode, src_root, src_struct, target_path),
        ),
    }
}

/// What there is for a source record under the mapping called
/// `derive_name`: what there is for the argument of its annotation `name`;
/// or, where the annotation is missing or its argument is no expression, the
/// reason alone.
pub open spec fn derivation(
    mode: Mode,
    src_root: SourceTreeView,
    src_struct: RecordSchemaView,
    derive_name: Seq<char>,
    name: Seq<char>,
) -> Seq<Result<MappingPlanView, GenerationErrorView>> {
    match named_annotation(src_struct.attrs, derive_name, name) {
        Err(missing) => seq![Err(GenerationErrorView::Attribute(missing))],
        Ok(annotation) => match annotation_arguments(annotation) {
            Err(error) => seq![Err(GenerationErrorView::Arguments(error))],
            Ok(parsed_args) => generation(mode, src_root, src_struct, parsed_args),
        },
    }
}

/// What a plan or an error is as a value of the specification.
pub open spec fn synthesis_view(result: Result<MappingPlan, SchemaShapeError>) -> Result<
    MappingPlanView,
    SchemaShapeError,
> {
    match result {
        Ok(plan) => Ok(plan@),
        Err(error) => Err(error),
    }
}

/// What the outcome for one target is as a value of the specification.
pub open spec fn outcome_view(outcome: Result<MappingPlan, GenerationError>) -> Result<
    MappingPlanView,
    GenerationErrorView,
> {
    match outcome {
        Ok(plan) => Ok(plan@),
        Err(error) => Err(error@),
    }
}

/// What the outcomes for all targets are as a value of the specification.
pub open spec fn outcome_views(impls: Seq<Result<MappingPlan, GenerationError>>) -> Seq<
    Result<MappingPlanView, GenerationErrorView>,
> {
    impls.map_values(|outcome: Result<MappingPlan, GenerationError>| outcome_view(outcome))
}

/// Decide how one field of the source goes into the field of the same name
/// of the target.
pub fn pair_outcome(mode: Mode, source: &FieldDescriptor, target: &FieldDescriptor) -> (outcome: FieldOutcome)
    ensures
        outcome@ == field_outcome(mode, source@, target@),
{
    let source_type = match determine_field_type(&source.ty) {
        Ok(field_type) => field_type,
        Err(error) => {
            return FieldOutcome::Rejected(MappingError::FieldType(error));
        },
    };
    let target_type = match determine_field_type(&target.ty) {
        Ok(field_type) => field_type,
        Err(error) => {
            return FieldOutcome::Rejected(MappingError::FieldType(error));
        },
    };
    map_field(mode, &source_type, &target_type)
}

/// Build the mapping plan for a source and a target.
///
/// Both records must have named fields; if the target has not, that is
/// reported, else if the source has not. The fields are matched by name, and
/// the plan holds one entry per match, whether the pair can be mapped or not:
/// a field that is rejected never keeps the others out of the plan.
pub fn generate_impl(mode: &Mode, params: Parameters) -> (result: Result<MappingPlan, SchemaShapeError>)
    ensures
        synthesis_view(result) == synthesis(*mode, params@),
{
    let targets = match &params.target_struct.fields {
        FieldList::Named(fields) => fields,
        _ => {
            return Err(SchemaShapeError::TargetNotNamed);
        },
    };
    let sources = match &params.src_struct.fields {
        FieldList::Named(fields) => fields,
        _ => {
            return Err(SchemaShapeError::SourceNotNamed);
        },
    };
    let ghost source_views = views(sources@);
    let ghost target_views = views(targets@);

    let mut entries: Vec<PlanEntry> = Vec::new();
    let ghost mut pairs: Seq<FieldPair> = Seq::empty();
    let mut i: usize = 0;
    while i < sources.len()
        invariant
            i <= sources.len(),
            source_views == views(sources@),
            target_views == views(targets@),
            pairs == matched_fields(source_views.take(i as int), target_views),
            entries@.len() == pairs.len(),
            forall|k: int| 0 <= k < pairs.len() ==> entries@[k]@ == plan_entry(*mode, #[trigger] pairs[k]),
        decreases sources.len() - i,
    {
        let source = &sources[i];
        let ghost earlier = pairs;
        let mut j: usize = 0;
        while j < targets.len()
            invariant
                i < sources.len(),
                j <= targets.len(),
                source == sources@[i as int],
                source_views == views(sources@),
                target_views == views(targets@),
                pairs == earlier + pairs_with(source@, target_views.take(j as int)),
                entries@.len() == pairs.len(),
                forall|k: int| 0 <= k < pairs.len() ==> entries@[k]@ == plan_entry(*mode, #[trigger] pairs[k]),
            decreases targets.len() - j,
        {
            let target = &targets[j];
            proof {
                assert(target_views.take(j + 1).drop_last() == target_views.take(j as int));
                assert(target_views.take(j + 1).last() == target@);
            }
            if source.name == target.name {
                let outcome = pair_outcome(*mode, source, target);
                entries.push(PlanEntry { field: source.name.clone(), outcome });
                proof {
                    let found = pairs_with(source@, target_views.take(j as int));
                    assert(earlier + found.push((source@, target@)) == (earlier + found).push(
                        (source@, target@),
                    ));
                    pairs = pairs.push((source@, target@));
                }
            }
            j += 1;
        }
        proof {
            assert(target_views.take(target_views.len() as int) == target_views);
            assert(source_views.take(i + 1).drop_last() == source_views.take(i as int));
            assert(source_views.take(i + 1).last() == source@);
        }
        i += 1;
    }
    proof {
        assert(source_views.take(source_views.len() as int) == source_views);
        assert(views(entries@) =~= planned_entries(*mode, source_views, target_views));
    }
    Ok(
        MappingPlan {
            mode: *mode,
            src_ident: params.src_struct.ident.clone(),
            target_path: params.target_path,
            entries,
        },
    )
}

/// Build the plans for all targets that the argument of an annotation names.
///
/// There is one result per target, in the order in which the targets are
/// named. A target that cannot be found or cannot be mapped is reported in
/// its place and keeps no other target from its plan. Only an argument that
/// names no targets at all leaves nothing to go on: it is the one result
/// then.
pub fn inter_struct_base(
    src_root: &SourceTree,
    src_struct: &RecordSchema,
    parsed_args: ArgumentExpr,
    mode: Mode,
) -> (impls: Vec<Result<MappingPlan, GenerationError>>)
    ensures
        outcome_views(impls@) == generation(mode, src_root@, src_struct@, parsed_args@),
{
    let mut paths = match input_paths(parsed_args) {
        Ok(paths) => paths,
        Err(error) => {
            let impls = vec![Err(GenerationError::Arguments(error))];
            assert(outcome_views(impls@) =~= seq![
                Err::<MappingPlanView, _>(GenerationErrorView::Arguments(error@)),
            ]);
            return impls;
        },
    };
    let ghost all = views(paths@);

    let mut impls: Vec<Result<MappingPlan, GenerationError>> = Vec::new();
    while paths.len() > 0
        invariant
            impls@.len() + paths@.len() == all.len(),
            views(paths@) == all.skip(impls@.len() as int),
            forall|i: int|
                0 <= i < impls@.len() ==> outcome_view(#[trigger] impls@[i]) == target_outcome(
                    mode,
                    src_root@,
                    src_struct@,
                    all[i],
                ),
        decreases paths.len(),
    {
        let ghost done = impls@.len() as int;
        let ghost before = paths@;
        let target_path = paths.remove(0);
        proof {
            assert(views(before)[0] == all[done]);
            assert forall|j: int| 0 <= j < paths@.len() implies views(paths@)[j] == all.skip(done + 1)[j] by {
                assert(paths@[j] == before[j + 1]);
                assert(views(before)[j + 1] == all.skip(done)[j + 1]);
            }
            assert(views(paths@) =~= all.skip(done + 1));
        }
        let generated = match get_struct_from_path(src_root, &target_path) {
            Err(error) => Err(GenerationError::Path(target_path, error)),
            Ok(target_struct) => {
                let named = target_path.copy();
                let params = Parameters { src_struct, target_path, target_struct };
                match generate_impl(&mode, params) {
                    Ok(plan) => Ok(plan),
                    Err(error) => Err(GenerationError::Shape(named, error)),
                }
            },
        };
        impls.push(generated);
    }
    proof {
        assert(outcome_views(impls@) =~= generation(mode, src_root@, src_struct@, parsed_args@));
    }
    impls
}

/// Build the plans for all targets that a source record names for the
/// mapping called `derive_name`, in its annotation `name`.
///
/// Without the annotation, or with one whose argument cannot be read, there
/// is nothing to go on, and the reason is the one result.
pub fn derive_impls(
    src_root: &SourceTree,
    src_struct: &RecordSchema,
    derive_name: &str,
    name: &str,
    mode: Mode,
) -> (impls: Vec<Result<MappingPlan, GenerationError>>)
    ensures
        outcome_views(impls@) == derivation(mode, src_root@, src_struct@, derive_name@, name@),
{
    let annotation = match attribute(src_struct, derive_name, name) {
        Ok(annotation) => annotation,
        Err(missing) => {
            let impls = vec![Err(GenerationError::Attribute(missing))];
            assert(outcome_views(impls@) =~= seq![
                Err::<MappingPlanView, _>(GenerationErrorView::Attribute(missing@)),
            ]);
            return impls;
        },
    };
    let parsed_args = match arguments(annotation) {
        Ok(parsed_args) => parsed_args,
        Err(error) => {
            let impls = vec![Err(GenerationError::Arguments(error))];
            assert(outcome_views(impls@) =~= seq![
                Err::<MappingPlanView, _>(GenerationErrorView::Arguments(error@)),
            ]);
            return impls;
        },
    };
    inter_struct_base(src_root, src_struct, parsed_args, mode)
}

/// The field's type is some plain `T`.
pub open spec fn is_plain(field: FieldDescriptorView) -> bool {
    classification(field.ty) matches Ok(FieldTypeView::Normal(_))
}

/// The field's type is `Option<inner>`.
pub open spec fn is_optional(field: FieldDescriptorView) -> bool {
    classification(field.ty) matches Ok(FieldTypeView::Optional { .. })
}

/// The `inner` of a field of type `Option<inner>`.
pub open spec fn inner_type(field: FieldDescriptorView) -> TypeExprView
    recommends
        is_optional(field),
{
    classification(field.ty)->Ok_0->inner
}

/// Two plain fields of the same type are assigned in every mode that is not
/// soft; a soft mode leaves the target as it is.
pub proof fn plain_fields_of_one_type_are_assigned(
    mode: Mode,
    source: FieldDescriptorView,
    target: FieldDescriptorView,
)
    requires
        is_plain(source),
        is_plain(target),
        same_type(source.ty, target.ty),
    ensures
        !mode.soft() ==> field_outcome(mode, source, target) == FieldOutcomeView::Mapped(Action::Assign),
        mode.soft() ==> field_outcome(mode, source, target) == FieldOutcomeView::Mapped(Action::NoOp),
{
}

/// A plain field goes wrapped into an optional field of its type, in every
/// mode.
pub proof fn plain_field_is_wrapped_into_optional(
    mode: Mode,
    source: FieldDescriptorView,
    target: FieldDescriptorView,
)
    requires
        is_plain(source),
        is_optional(target),
        same_type(source.ty, inner_type(target)),
    ensures
        field_outcome(mode, source, target) == FieldOutcomeView::Mapped(Action::Wrap),
{
}

/// An optional field never goes into a plain one, whatever the two types
/// are: where the target is constructed or overwritten that is an error,
/// with defaults the field is skipped, and a soft mode leaves the target as
/// it is.
pub proof fn optional_field_is_not_unwrapped(mode: Mode, source: FieldDescriptorView, target: FieldDescriptorView)
    requires
        is_optional(source),
        is_plain(target),
    ensures
        mode == Mode::Into || mode == Mode::Merge || mode == Mode::MergeRef ==> field_outcome(
            mode,
            source,
            target,
        ) == FieldOutcomeView::Rejected(MappingErrorView::OptionalDowngrade),
        mode == Mode::IntoDefault ==> field_outcome(mode, source, target) == FieldOutcomeView::Mapped(
            Action::Skip,
        ),
        mode.soft() ==> field_outcome(mode, source, target) == FieldOutcomeView::Mapped(Action::NoOp),
{
}

/// Two fields of one and the same type are mapped in either direction and
/// in every mode, provided the type can be classified at all.
pub proof fn fields_of_one_type_map_both_ways(mode: Mode, left: FieldDescriptorView, right: FieldDescriptorView)
    requires
        left.ty == right.ty,
        classification(left.ty) is Ok,
    ensures
        field_outcome(mode, left, right) is Mapped,
        field_outcome(mode, right, left) is Mapped,
{
}

/// A field that both records declare with one and the same type is mapped
/// whichever of the two is the source: if it is in the plan from `left` to
/// `right` it is mapped there, and it is in the plan from `right` to `left`
/// and mapped there too.
pub proof fn shared_field_maps_there_and_back(
    mode: Mode,
    left: Seq<FieldDescriptorView>,
    right: Seq<FieldDescriptorView>,
    k: int,
)
    requires
        0 <= k < matched_fields(left, right).len(),
        matched_fields(left, right)[k].0.ty == matched_fields(left, right)[k].1.ty,
        classification(matched_fields(left, right)[k].0.ty) is Ok,
    ensures
        planned_entries(mode, left, right)[k].outcome is Mapped,
        exists|back: int|
            0 <= back < matched_fields(right, left).len() && matched_fields(right, left)[back] == (
                matched_fields(left, right)[k].1,
                matched_fields(left, right)[k].0,
            ) && (#[trigger] planned_entries(mode, right, left)[back]).outcome is Mapped,
{
    let there = matched_fields(left, right)[k];
    let back = (there.1, there.0);
    fields_of_one_type_map_both_ways(mode, there.0, there.1);
    assert(matched_fields(left, right).contains(there));
    matched_fields_are_the_same_names(left, right, there);
    matched_fields_are_the_same_names(right, left, back);
    let at = choose|at: int| 0 <= at < matched_fields(right, left).len() && matched_fields(right, left)[at] == back;
    assert(planned_entries(mode, right, left)[at].outcome is Mapped);
}

/// Declaring the fields of the source or of the target in another order
/// reorders the plan and changes nothing else: it holds the same entries as
/// often as before.
pub proof fn reordering_reorders_the_plan(
    mode: Mode,
    sources: Seq<FieldDescriptorView>,
    targets: Seq<FieldDescriptorView>,
    reordered_sources: Seq<FieldDescriptorView>,
    reordered_targets: Seq<FieldDescriptorView>,
)
    requires
        sources.to_multiset() == reordered_sources.to_multiset(),
        targets.to_multiset() == reordered_targets.to_multiset(),
    ensures
        planned_entries(mode, sources, targets).to_multiset() == planned_entries(
            mode,
            reordered_sources,
            reordered_targets,
        ).to_multiset(),
{
    reordering_keeps_the_matches(sources, targets, reordered_sources, reordered_targets);
    reordering_commutes_with_mapping(
        matched_fields(sources, targets),
        matched_fields(reordered_sources, reordered_targets),
        entry_of(mode),
    );
}

/// Declaring the fields of a target in another order leaves the plan as it
/// is, entry by entry, as long as no two fields of the target have one name:
/// the order of a plan is the order of the source.
pub proof fn reordering_the_target_keeps_the_plan(
    mode: Mode,
    sources: Seq<FieldDescriptorView>,
    targets: Seq<FieldDescriptorView>,
    reordered_targets: Seq<FieldDescriptorView>,
)
    requires
        targets.to_multiset() == reordered_targets.to_multiset(),
        distinct_names(targets),
        distinct_names(reordered_targets),
    ensures
        planned_entries(mode, sources, targets) == planned_entries(mode, sources, reordered_targets),
{
    reordering_the_target_changes_nothing(sources, targets, reordered_targets);
}

} // verus!
