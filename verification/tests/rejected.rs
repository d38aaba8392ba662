use inter_struct::generate::{generate_impl, inter_struct_base, GenerationError, Parameters, PlanEntry};
use inter_struct::mapping::{Action, FieldOutcome, MappingError};
use inter_struct::mode::Mode;
use inter_struct::module::{find_record, PathResolutionError, SourceEntry, SourceNode, SourceTree};
use inter_struct::parse::{arguments, attribute, MissingAttribute};
use inter_struct::schema::{RecordSchema, TargetPath};

const INTO_STRUCT: &str = "pub struct IntoStruct { pub normal: String, pub optional: Option<String> }";

const MERGE_STRUCT: &str = "pub struct MergeStruct {
    pub normal: String,
    pub optional: Option<String>,
    pub optional_optional: Option<Option<String>>,
}";

fn record(text: &str, name: &str) -> RecordSchema {
    find_record(text, name).unwrap()
}

fn entries(mode: Mode, source: &str, target: &str, target_name: &str) -> Vec<PlanEntry> {
    let src_struct = record(source, "FromStruct");
    let target_struct = record(target, target_name);
    let target_path =
        TargetPath { leading_colon: false, segments: vec!["crate".to_string(), target_name.to_string()] };
    generate_impl(&mode, Parameters { src_struct: &src_struct, target_path, target_struct }).unwrap().entries
}

fn mapped(field: &str, action: Action) -> PlanEntry {
    PlanEntry { field: field.to_string(), outcome: FieldOutcome::Mapped(action) }
}

fn mismatch(field: &str, source: &str, target: &str) -> PlanEntry {
    PlanEntry {
        field: field.to_string(),
        outcome: FieldOutcome::Rejected(MappingError::TypeMismatch {
            source: source.to_string(),
            target: target.to_string(),
        }),
    }
}

fn downgrade(field: &str) -> PlanEntry {
    PlanEntry { field: field.to_string(), outcome: FieldOutcome::Rejected(MappingError::OptionalDowngrade) }
}

#[test]
fn into_incompatible_type() {
    let source = "pub struct FromStruct { pub normal: i32, pub optional: Option<i32> }";
    assert_eq!(
        entries(Mode::Into, source, INTO_STRUCT, "IntoStruct"),
        vec![mismatch("normal", "i32", "String"), mismatch("optional", "Option < i32 >", "String")]
    );
}

#[test]
fn into_incomplete() {
    let source = "pub struct FromStruct { pub normal: String }";
    // Nothing is rejected, but `optional` is in no entry.
    assert_eq!(entries(Mode::Into, source, INTO_STRUCT, "IntoStruct"), vec![mapped("normal", Action::Assign)]);
}

#[test]
fn into_optional_into_non_optional() {
    let source = "pub struct FromStruct { pub normal: Option<String>, pub optional: Option<Option<String>> }";
    assert_eq!(
        entries(Mode::Into, source, INTO_STRUCT, "IntoStruct"),
        vec![downgrade("normal"), downgrade("optional")]
    );
}

#[test]
fn merge_incompatible_type() {
    let source = "pub struct FromStruct {
        pub normal: i32,
        pub optional: i32,
        pub optional_optional: Option<Option<i32>>,
    }";
    for mode in [Mode::Merge, Mode::MergeSoft, Mode::MergeRef, Mode::MergeRefSoft] {
        assert_eq!(
            entries(mode, source, MERGE_STRUCT, "MergeStruct"),
            vec![
                mismatch("normal", "i32", "String"),
                mismatch("optional", "i32", "String"),
                mismatch("optional_optional", "Option < Option < i32 > >", "Option < String >"),
            ],
            "{:?}",
            mode
        );
    }
}

#[test]
fn merge_ref_incompatible_optional_types() {
    let source = "pub struct FromStruct {
        pub normal: Option<i32>,
        pub optional: Option<Option<i32>>,
        pub optional_optional: Option<Option<String>>,
    }";
    assert_eq!(
        entries(Mode::MergeRef, source, MERGE_STRUCT, "MergeStruct"),
        vec![
            downgrade("normal"),
            mismatch("optional", "Option < Option < i32 > >", "String"),
            mapped("optional_optional", Action::PassThrough),
        ]
    );
    assert_eq!(
        entries(Mode::MergeRefSoft, source, MERGE_STRUCT, "MergeStruct"),
        vec![
            mapped("normal", Action::NoOp),
            mismatch("optional", "Option < Option < i32 > >", "String"),
            mapped("optional_optional", Action::PassThrough),
        ]
    );
}

#[test]
fn path_not_existent() {
    let source = record(
        "#[struct_into(\"crate::some_path::IntoStruct\")]\npub struct FromStruct { pub normal: String }",
        "FromStruct",
    );
    let src_root = SourceTree {
        entries: vec![SourceEntry { location: vec!["lib".to_string()], node: SourceNode::Unit(INTO_STRUCT.to_string()) }],
    };
    let annotation = attribute(&source, "StructInto", "struct_into").unwrap();
    let impls = inter_struct_base(&src_root, &source, arguments(annotation).unwrap(), Mode::Into);
    let target_path = TargetPath {
        leading_colon: false,
        segments: vec!["crate".to_string(), "some_path".to_string(), "IntoStruct".to_string()],
    };
    assert_eq!(impls, vec![Err(GenerationError::Path(target_path, PathResolutionError::FailedToOpenFile(None)))]);
}

#[test]
fn attributes_not_existent() {
    let source = record("pub struct FromStruct { pub normal: String }", "FromStruct");
    for (derive_name, name) in [
        ("StructInto", "struct_into"),
        ("StructMerge", "struct_merge"),
        ("StructMergeRef", "struct_merge_ref"),
        ("StructInto", "struct_into_default"),
    ] {
        assert_eq!(
            attribute(&source, derive_name, name),
            Err(MissingAttribute { derive_name: derive_name.to_string(), name: name.to_string() })
        );
    }
}
