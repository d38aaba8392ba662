use inter_struct::field::{determine_field_type, FieldType, FieldTypeError};
use inter_struct::module::find_record;
use inter_struct::schema::{FieldDescriptor, FieldList, RecordSchema};
use inter_struct::types::{is_equal_type, GenericArgument, PathArguments, TypeExpr, TypeShape};

fn record_with(types: &[&str]) -> RecordSchema {
    let mut text = String::from("struct Sample {");
    for (index, ty) in types.iter().enumerate() {
        text.push_str(&format!(" f{}: {},", index, ty));
    }
    text.push_str(" }");
    find_record(&text, "Sample").unwrap()
}

fn fields(record: &RecordSchema) -> &Vec<FieldDescriptor> {
    match &record.fields {
        FieldList::Named(fields) => fields,
        _ => panic!("the record has no named fields"),
    }
}

fn type_of(record: &RecordSchema, index: usize) -> &TypeExpr {
    &fields(record)[index].ty
}

#[test]
fn plain_path_is_normal() {
    let record = record_with(&["String"]);
    let ty = type_of(&record, 0);
    assert_eq!(determine_field_type(ty), Ok(FieldType::Normal(ty)));
}

#[test]
fn option_is_optional_with_inner_and_outer() {
    let record = record_with(&["Option<String>", "String"]);
    let outer = type_of(&record, 0);
    match determine_field_type(outer) {
        Ok(FieldType::Optional { inner, outer: whole }) => {
            assert_eq!(inner.text, "String");
            assert_eq!(whole.text, "Option < String >");
            assert!(std::ptr::eq(whole, outer));
            assert!(is_equal_type(inner, type_of(&record, 1)));
        }
        other => panic!("unexpected classification {:?}", other),
    }
}

#[test]
fn nested_option_keeps_the_inner_option() {
    let record = record_with(&["Option<Option<u8>>"]);
    match determine_field_type(type_of(&record, 0)) {
        Ok(FieldType::Optional { inner, .. }) => {
            assert_eq!(inner.text, "Option < u8 >");
            assert!(matches!(determine_field_type(inner), Ok(FieldType::Optional { .. })));
        }
        other => panic!("unexpected classification {:?}", other),
    }
}

#[test]
fn only_the_first_argument_counts() {
    let record = record_with(&["Option<u8, u16>", "Option<'static, u8>"]);
    match determine_field_type(type_of(&record, 0)) {
        Ok(FieldType::Optional { inner, .. }) => assert_eq!(inner.text, "u8"),
        other => panic!("unexpected classification {:?}", other),
    }
    assert_eq!(determine_field_type(type_of(&record, 1)), Err(FieldTypeError::ArgumentNotType));
}

#[test]
fn qualified_rooted_and_long_paths_are_normal() {
    let record = record_with(&[
        "std::option::Option<u8>",
        "::Option<u8>",
        "<Option<u8> as IntoIterator>::Item",
        "option::Option<u8>",
    ]);
    for index in 0..4 {
        let ty = type_of(&record, index);
        assert_eq!(determine_field_type(ty), Ok(FieldType::Normal(ty)), "field {}", index);
    }
}

#[test]
fn other_identifiers_are_normal_whatever_their_arguments() {
    let record = record_with(&["Vec<u8>", "Optional<u8>", "option<u8>", "Box<Option<u8>>"]);
    for index in 0..4 {
        let ty = type_of(&record, index);
        assert_eq!(determine_field_type(ty), Ok(FieldType::Normal(ty)), "field {}", index);
    }
}

#[test]
fn alias_of_option_is_not_detected() {
    let record = record_with(&["Maybe<u8>"]);
    let ty = type_of(&record, 0);
    assert_eq!(determine_field_type(ty), Ok(FieldType::Normal(ty)));
}

#[test]
fn option_without_type_argument_is_invalid() {
    let record = record_with(&["Option", "Option<>", "Option(u8) -> u8"]);
    for index in 0..3 {
        assert_eq!(
            determine_field_type(type_of(&record, index)),
            Err(FieldTypeError::MissingTypeArgument),
            "field {}",
            index
        );
    }
}

#[test]
fn option_of_a_lifetime_or_constant_is_invalid() {
    let record = record_with(&["Option<'a>", "Option<3>"]);
    for index in 0..2 {
        assert_eq!(
            determine_field_type(type_of(&record, index)),
            Err(FieldTypeError::ArgumentNotType),
            "field {}",
            index
        );
    }
}

#[test]
fn types_that_are_no_paths_are_invalid() {
    let record = record_with(&["(u8, u8)", "&'static str", "fn(u8) -> u8", "[u8; 4]", "*const u8"]);
    for index in 0..5 {
        assert_eq!(
            determine_field_type(type_of(&record, index)),
            Err(FieldTypeError::UnsupportedShape),
            "field {}",
            index
        );
    }
}

#[test]
fn path_without_segments_is_normal() {
    let ty = TypeExpr {
        text: String::new(),
        shape: TypeShape::Path { qualified: false, rooted: false, segments: Vec::new() },
    };
    assert_eq!(determine_field_type(&ty), Ok(FieldType::Normal(&ty)));
}

#[test]
fn outline_of_a_parsed_type() {
    let record = record_with(&["std::collections::HashMap<String, Vec<u8>>"]);
    let ty = type_of(&record, 0);
    assert_eq!(ty.text, "std :: collections :: HashMap < String , Vec < u8 > >");
    match &ty.shape {
        TypeShape::Path { qualified, rooted, segments } => {
            assert!(!qualified);
            assert!(!rooted);
            assert_eq!(segments.len(), 3);
            assert_eq!(segments[0].ident, "std");
            assert_eq!(segments[0].arguments, PathArguments::Empty);
            assert_eq!(segments[2].ident, "HashMap");
            match &segments[2].arguments {
                PathArguments::AngleBracketed(arguments) => {
                    assert_eq!(arguments.len(), 2);
                    match &arguments[1] {
                        GenericArgument::Type(inner) => assert_eq!(inner.text, "Vec < u8 >"),
                        other => panic!("unexpected argument {:?}", other),
                    }
                }
                other => panic!("unexpected arguments {:?}", other),
            }
        }
        other => panic!("unexpected shape {:?}", other),
    }
}

#[test]
fn equality_is_textual() {
    let record = record_with(&["Vec<u8>", "Vec < u8 >", "Vec<u16>", "std::vec::Vec<u8>", "String", "string::String"]);
    assert!(is_equal_type(type_of(&record, 0), type_of(&record, 1)));
    assert!(!is_equal_type(type_of(&record, 0), type_of(&record, 2)));
    assert!(!is_equal_type(type_of(&record, 0), type_of(&record, 3)));
    assert!(!is_equal_type(type_of(&record, 4), type_of(&record, 5)));
    assert!(is_equal_type(type_of(&record, 4), type_of(&record, 4)));
}

#[test]
fn equality_reads_the_spelling_and_nothing_else() {
    let left = TypeExpr { text: "A".to_string(), shape: TypeShape::Other };
    let right = TypeExpr {
        text: "A".to_string(),
        shape: TypeShape::Path { qualified: true, rooted: false, segments: Vec::new() },
    };
    let other = TypeExpr { text: "B".to_string(), shape: TypeShape::Other };
    assert!(is_equal_type(&left, &right));
    assert!(!is_equal_type(&left, &other));
}
