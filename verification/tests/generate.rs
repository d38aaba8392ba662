use inter_struct::field::FieldTypeError;
use inter_struct::generate::{
    generate_impl, inter_struct_base, GenerationError, MappingPlan, Parameters, PlanEntry, SchemaShapeError,
};
use inter_struct::mapping::{Action, FieldOutcome, MappingError};
use inter_struct::mode::Mode;
use inter_struct::module::{find_record, PathResolutionError, SourceEntry, SourceNode, SourceTree};
use inter_struct::schema::{ArgumentExpr, RecordSchema, TargetPath};
use inter_struct::value::{apply, FieldValue};

const MODES: [Mode; 6] =
    [Mode::Into, Mode::IntoDefault, Mode::Merge, Mode::MergeSoft, Mode::MergeRef, Mode::MergeRefSoft];

fn record(text: &str, name: &str) -> RecordSchema {
    find_record(text, name).unwrap()
}

fn path(text: &str) -> TargetPath {
    TargetPath { leading_colon: false, segments: text.split("::").map(|segment| segment.to_string()).collect() }
}

fn plan(mode: Mode, source: &str, target: &str) -> Result<MappingPlan, SchemaShapeError> {
    let src_struct = record(source, "Source");
    let target_struct = record(target, "Target");
    generate_impl(&mode, Parameters { src_struct: &src_struct, target_path: path("crate::Target"), target_struct })
}

fn entry(field: &str, action: Action) -> PlanEntry {
    PlanEntry { field: field.to_string(), outcome: FieldOutcome::Mapped(action) }
}

fn rejected(field: &str, error: MappingError) -> PlanEntry {
    PlanEntry { field: field.to_string(), outcome: FieldOutcome::Rejected(error) }
}

fn plain(text: &str) -> FieldValue<String> {
    FieldValue::Plain(text.to_string())
}

fn some(value: FieldValue<String>) -> FieldValue<String> {
    FieldValue::Present(Box::new(value))
}

fn action_of(plan: &MappingPlan, index: usize) -> Action {
    match &plan.entries[index].outcome {
        FieldOutcome::Mapped(action) => *action,
        other => panic!("field {} is not mapped: {:?}", index, other),
    }
}

const NORMAL_AND_OPTIONAL: &str = "{ normal: String, optional: Option<String> }";

#[test]
fn merge_of_identical_records_assigns_and_passes_through() {
    let source = format!("struct Source {}", NORMAL_AND_OPTIONAL);
    let target = format!("struct Target {}", NORMAL_AND_OPTIONAL);
    let plan = plan(Mode::Merge, &source, &target).unwrap();
    assert_eq!(plan.mode, Mode::Merge);
    assert_eq!(plan.src_ident, "Source");
    assert_eq!(plan.target_path, path("crate::Target"));
    assert_eq!(plan.entries, vec![entry("normal", Action::Assign), entry("optional", Action::PassThrough)]);

    let normal = apply(plan.mode, action_of(&plan, 0), plain("new"), plain("base"));
    let optional = apply(plan.mode, action_of(&plan, 1), some(plain("new")), some(plain("base")));
    assert_eq!(normal, plain("new"));
    assert_eq!(optional, some(plain("new")));
}

#[test]
fn soft_merge_of_identical_records_leaves_a_full_target_alone() {
    let source = format!("struct Source {}", NORMAL_AND_OPTIONAL);
    let target = format!("struct Target {}", NORMAL_AND_OPTIONAL);
    let plan = plan(Mode::MergeSoft, &source, &target).unwrap();
    assert_eq!(plan.entries, vec![entry("normal", Action::NoOp), entry("optional", Action::PassThrough)]);

    let normal = apply(plan.mode, action_of(&plan, 0), plain("new"), plain("base"));
    let optional = apply(plan.mode, action_of(&plan, 1), some(plain("new")), some(plain("base")));
    assert_eq!(normal, plain("base"));
    assert_eq!(optional, some(plain("base")));

    let filled = apply(plan.mode, action_of(&plan, 1), some(plain("new")), FieldValue::Absent);
    assert_eq!(filled, some(plain("new")));
}

#[test]
fn merge_of_optional_into_plain_is_a_downgrade() {
    let plan = plan(Mode::Merge, "struct Source { a: Option<i32> }", "struct Target { a: i32 }").unwrap();
    assert_eq!(plan.entries, vec![rejected("a", MappingError::OptionalDowngrade)]);
}

#[test]
fn into_leaves_fields_uncovered_that_the_source_lacks() {
    let source = "struct Source { a: String }";
    let target = "struct Target { a: String, b: String }";
    for mode in [Mode::Into, Mode::IntoDefault] {
        let plan = plan(mode, source, target).unwrap();
        assert_eq!(plan.entries, vec![entry("a", Action::Assign)], "{:?}", mode);
    }
    // With defaults the covered field takes the source's value; the other
    // one keeps the default that the target starts from.
    let a = apply(Mode::IntoDefault, Action::Assign, plain("mine"), plain(""));
    let b = apply(Mode::IntoDefault, Action::Skip, FieldValue::Absent, plain(""));
    assert_eq!(a, plain("mine"));
    assert_eq!(b, plain(""));
}

#[test]
fn into_default_skips_what_into_rejects() {
    let source = "struct Source { normal: Option<String>, optional: Option<Option<String>> }";
    let target = "struct Target { normal: String, optional: Option<String> }";
    let strict = plan(Mode::Into, source, target).unwrap();
    assert_eq!(
        strict.entries,
        vec![rejected("normal", MappingError::OptionalDowngrade), rejected("optional", MappingError::OptionalDowngrade)]
    );
    let lenient = plan(Mode::IntoDefault, source, target).unwrap();
    assert_eq!(lenient.entries, vec![entry("normal", Action::Skip), entry("optional", Action::Skip)]);
}

#[test]
fn fields_are_matched_by_name_in_the_order_of_the_source() {
    let source = "struct Source { c: u8, only_here: u8, a: u8, b: u8 }";
    let target = "struct Target { a: u8, b: u8, only_there: u8, c: u8 }";
    let plan = plan(Mode::Merge, source, target).unwrap();
    let names: Vec<&str> = plan.entries.iter().map(|entry| entry.field.as_str()).collect();
    assert_eq!(names, vec!["c", "a", "b"]);
}

#[test]
fn records_without_common_fields_give_an_empty_plan() {
    let plan = plan(Mode::Into, "struct Source { a: u8 }", "struct Target { b: u8 }").unwrap();
    assert_eq!(plan.entries, vec![]);
    let empty = plan_of_empty();
    assert_eq!(empty.entries, vec![]);
}

fn plan_of_empty() -> MappingPlan {
    plan(Mode::Merge, "struct Source {}", "struct Target {}").unwrap()
}

#[test]
fn one_bad_field_does_not_hide_the_others() {
    let source = "struct Source { a: i32, b: (u8, u8), c: Option<u8>, d: u8, e: Option }";
    let target = "struct Target { a: String, b: (u8, u8), c: u8, d: Option<u8>, e: u8 }";
    let plan = plan(Mode::MergeRef, source, target).unwrap();
    assert_eq!(
        plan.entries,
        vec![
            rejected("a", MappingError::TypeMismatch { source: "i32".to_string(), target: "String".to_string() }),
            rejected("b", MappingError::FieldType(FieldTypeError::UnsupportedShape)),
            rejected("c", MappingError::OptionalDowngrade),
            entry("d", Action::Wrap),
            rejected("e", MappingError::FieldType(FieldTypeError::MissingTypeArgument)),
        ]
    );
}

#[test]
fn records_without_named_fields_are_refused() {
    let named = "struct Source { a: u8 }";
    for mode in MODES {
        assert_eq!(plan(mode, named, "struct Target(u8);"), Err(SchemaShapeError::TargetNotNamed));
        assert_eq!(plan(mode, named, "struct Target;"), Err(SchemaShapeError::TargetNotNamed));
        assert_eq!(plan(mode, "struct Source(u8);", "struct Target { a: u8 }"), Err(SchemaShapeError::SourceNotNamed));
        assert_eq!(plan(mode, "struct Source;", "struct Target { a: u8 }"), Err(SchemaShapeError::SourceNotNamed));
        // The target is looked at first.
        assert_eq!(plan(mode, "struct Source;", "struct Target;"), Err(SchemaShapeError::TargetNotNamed));
    }
}

#[test]
fn merging_there_and_back_rejects_no_shared_field() {
    let left = "struct Source { a: String, b: Option<u8>, c: Vec<u8>, d: Option<Option<u8>> }";
    let right = "struct Target { d: Option<Option<u8>>, c: Vec<u8>, b: Option<u8>, a: String }";
    let there = plan(Mode::Merge, left, right).unwrap();
    let back = plan(Mode::Merge, &right.replace("Target", "Source"), &left.replace("Source", "Target")).unwrap();
    assert_eq!(
        there.entries,
        vec![
            entry("a", Action::Assign),
            entry("b", Action::PassThrough),
            entry("c", Action::Assign),
            entry("d", Action::PassThrough),
        ]
    );
    assert_eq!(
        back.entries,
        vec![
            entry("d", Action::PassThrough),
            entry("c", Action::Assign),
            entry("b", Action::PassThrough),
            entry("a", Action::Assign),
        ]
    );
}

#[test]
fn reordering_the_fields_reorders_the_plan_and_nothing_else() {
    let source = "struct Source { a: u8, b: Option<u8>, c: i32, d: u8 }";
    let reordered_source = "struct Source { d: u8, c: i32, a: u8, b: Option<u8> }";
    let target = "struct Target { b: u8, a: Option<u8>, c: String, e: u8 }";
    let reordered_target = "struct Target { e: u8, c: String, a: Option<u8>, b: u8 }";
    for mode in MODES {
        let entries = plan(mode, source, target).unwrap().entries;
        assert_eq!(entries.len(), 3);
        for (other_source, other_target) in
            [(reordered_source, target), (source, reordered_target), (reordered_source, reordered_target)]
        {
            let other = plan(mode, other_source, other_target).unwrap().entries;
            assert_eq!(other.len(), entries.len());
            for entry in &entries {
                assert!(other.contains(entry), "{:?} is missing under {:?}", entry, mode);
            }
        }
    }
}

#[test]
fn a_name_that_the_target_declares_twice_is_matched_twice() {
    let src_struct = record("struct Source { a: u8, b: u8 }", "Source");
    let mut target_struct = record("struct Target { a: u8, b: u8, c: String }", "Target");
    match &mut target_struct.fields {
        inter_struct::schema::FieldList::Named(fields) => fields[2].name = "a".to_string(),
        _ => unreachable!(),
    }
    let plan =
        generate_impl(&Mode::Into, Parameters { src_struct: &src_struct, target_path: path("crate::Target"), target_struct })
            .unwrap();
    assert_eq!(
        plan.entries,
        vec![
            entry("a", Action::Assign),
            rejected("a", MappingError::TypeMismatch { source: "u8".to_string(), target: "String".to_string() }),
            entry("b", Action::Assign),
        ]
    );
}

fn unit(location: &[&str], content: &str) -> SourceEntry {
    SourceEntry {
        location: location.iter().map(|name| name.to_string()).collect(),
        node: SourceNode::Unit(content.to_string()),
    }
}

fn string(text: &str) -> ArgumentExpr {
    ArgumentExpr::Str(text.to_string())
}

fn tree() -> SourceTree {
    SourceTree {
        entries: vec![
            unit(&["present"], "pub struct Thing { pub a: String, pub b: Option<u8> }\npub struct Tuple(u8);"),
            unit(&["broken"], "pub struct Thing {"),
        ],
    }
}

#[test]
fn a_missing_target_does_not_keep_the_others_from_their_plans() {
    let src_struct = record("struct Source { a: String, b: u8 }", "Source");
    let args = ArgumentExpr::Paren(Box::new(ArgumentExpr::Array(vec![
        string("crate::missing::Thing"),
        string("crate::present::Thing"),
        string("self::present::Thing"),
        string("crate::present::Tuple"),
        string("crate::present::Other"),
    ])));
    let impls = inter_struct_base(&tree(), &src_struct, args, Mode::Into);
    assert_eq!(impls.len(), 5);
    assert_eq!(
        impls[0],
        Err(GenerationError::Path(path("crate::missing::Thing"), PathResolutionError::FailedToOpenFile(None)))
    );
    assert_eq!(
        impls[1],
        Ok(MappingPlan {
            mode: Mode::Into,
            src_ident: "Source".to_string(),
            target_path: path("crate::present::Thing"),
            entries: vec![entry("a", Action::Assign), entry("b", Action::Wrap)],
        })
    );
    assert_eq!(
        impls[2],
        Err(GenerationError::Path(path("self::present::Thing"), PathResolutionError::NotCrateRelative))
    );
    assert_eq!(
        impls[3],
        Err(GenerationError::Shape(path("crate::present::Tuple"), SchemaShapeError::TargetNotNamed))
    );
    assert_eq!(
        impls[4],
        Err(GenerationError::Path(path("crate::present::Other"), PathResolutionError::StructNotFound))
    );
}

#[test]
fn a_single_target_gives_a_single_plan() {
    let src_struct = record("struct Source { a: String }", "Source");
    let args = ArgumentExpr::Paren(Box::new(string("crate::present::Thing")));
    let impls = inter_struct_base(&tree(), &src_struct, args, Mode::MergeRefSoft);
    assert_eq!(
        impls,
        vec![Ok(MappingPlan {
            mode: Mode::MergeRefSoft,
            src_ident: "Source".to_string(),
            target_path: path("crate::present::Thing"),
            entries: vec![entry("a", Action::NoOp)],
        })]
    );
}

#[test]
fn an_argument_that_names_no_targets_is_the_only_result() {
    let src_struct = record("struct Source { a: String }", "Source");
    let impls = inter_struct_base(&tree(), &src_struct, string("crate::present::Thing"), Mode::Merge);
    assert_eq!(impls, vec![Err(GenerationError::Arguments(inter_struct::parse::ArgumentError::NotParenthesized))]);

    let args = ArgumentExpr::Paren(Box::new(ArgumentExpr::Array(vec![
        string("crate::present::Thing"),
        string("not a path"),
    ])));
    let impls = inter_struct_base(&tree(), &src_struct, args, Mode::Merge);
    assert_eq!(impls, vec![Err(GenerationError::Arguments(inter_struct::parse::ArgumentError::NotAPath))]);
}

#[test]
fn an_empty_array_gives_no_plans() {
    let src_struct = record("struct Source { a: String }", "Source");
    let args = ArgumentExpr::Paren(Box::new(ArgumentExpr::Array(Vec::new())));
    assert_eq!(inter_struct_base(&tree(), &src_struct, args, Mode::Merge), vec![]);
}

#[test]
fn reordering_the_target_alone_leaves_the_plan_as_it_is() {
    let source = "struct Source { c: u8, a: Option<u8>, b: i32, d: u8 }";
    let target = "struct Target { a: u8, b: String, c: Option<u8>, e: u8 }";
    let reordered = "struct Target { e: u8, c: Option<u8>, b: String, a: u8 }";
    for mode in MODES {
        assert_eq!(plan(mode, source, target).unwrap().entries, plan(mode, source, reordered).unwrap().entries);
    }
}
