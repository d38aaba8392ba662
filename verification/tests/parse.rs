use inter_struct::module::find_record;
use inter_struct::parse::{arguments, attribute, input_paths, ArgumentError, MissingAttribute};
use inter_struct::schema::{Annotation, ArgumentExpr, RecordSchema, TargetPath};

fn record(text: &str) -> RecordSchema {
    find_record(text, "Source").unwrap()
}

fn path(leading_colon: bool, segments: &[&str]) -> TargetPath {
    TargetPath { leading_colon, segments: segments.iter().map(|segment| segment.to_string()).collect() }
}

fn paren(inner: ArgumentExpr) -> ArgumentExpr {
    ArgumentExpr::Paren(Box::new(inner))
}

fn string(text: &str) -> ArgumentExpr {
    ArgumentExpr::Str(text.to_string())
}

fn annotation(tokens: &str) -> Annotation {
    Annotation { path: vec!["struct_into".to_string()], tokens: tokens.to_string() }
}

const ANNOTATED: &str = r#"
    /// Some words.
    #[derive(Clone)]
    #[other::struct_merge("crate::not::Mine")]
    #[struct_merge("crate::merge_test::Base")]
    #[struct_merge("crate::merge_test::Second")]
    #[struct_into(["crate::a::A", "crate::b::B"])]
    #[marker]
    pub struct Source { pub normal: String }
"#;

#[test]
fn attribute_is_found_by_its_name() {
    let source = record(ANNOTATED);
    let found = attribute(&source, "StructMerge", "struct_merge").unwrap();
    assert_eq!(found.path, vec!["struct_merge".to_string()]);
    assert_eq!(found.tokens, "(\"crate::merge_test::Base\")");
    assert!(std::ptr::eq(found, &source.attrs[3]));

    let found = attribute(&source, "StructInto", "struct_into").unwrap();
    assert_eq!(found.tokens, "([\"crate::a::A\" , \"crate::b::B\"])");

    let found = attribute(&source, "Marker", "marker").unwrap();
    assert_eq!(found.tokens, "");
}

#[test]
fn attribute_that_is_missing_is_reported_with_both_names() {
    let source = record(ANNOTATED);
    assert_eq!(
        attribute(&source, "StructMergeRef", "struct_merge_ref"),
        Err(MissingAttribute { derive_name: "StructMergeRef".to_string(), name: "struct_merge_ref".to_string() })
    );
    // A path of several segments belongs to somebody else.
    assert_eq!(
        attribute(&source, "Other", "other"),
        Err(MissingAttribute { derive_name: "Other".to_string(), name: "other".to_string() })
    );
    let bare = record("struct Source { a: u8 }");
    assert_eq!(
        attribute(&bare, "StructInto", "struct_into"),
        Err(MissingAttribute { derive_name: "StructInto".to_string(), name: "struct_into".to_string() })
    );
}

#[test]
fn arguments_are_read_from_the_tokens() {
    assert_eq!(arguments(&annotation("(\"crate::a::A\")")), Ok(paren(string("crate::a::A"))));
    assert_eq!(
        arguments(&annotation("([\"crate::a::A\", \"crate::b::B\"])")),
        Ok(paren(ArgumentExpr::Array(vec![string("crate::a::A"), string("crate::b::B")])))
    );
    assert_eq!(arguments(&annotation("\"crate::a::A\"")), Ok(string("crate::a::A")));
    assert_eq!(arguments(&annotation("(\"a\\nb\")")), Ok(paren(string("a\nb"))));
    assert_eq!(arguments(&annotation("(1)")), Ok(paren(ArgumentExpr::Literal)));
    assert_eq!(arguments(&annotation("(crate::a::A)")), Ok(paren(ArgumentExpr::Other)));
    assert_eq!(
        arguments(&annotation("([\"crate::a::A\", [1], x])")),
        Ok(paren(ArgumentExpr::Array(vec![
            string("crate::a::A"),
            ArgumentExpr::Array(vec![ArgumentExpr::Literal]),
            ArgumentExpr::Other,
        ])))
    );
    assert_eq!(arguments(&annotation("((\"crate::a::A\"))")), Ok(paren(paren(string("crate::a::A")))));
}

#[test]
fn tokens_that_are_no_expression_are_reported() {
    for tokens in ["", "(", "= = =", "(\"crate::a::A\") trailing"] {
        assert!(
            matches!(arguments(&annotation(tokens)), Err(ArgumentError::NotAnExpression(message)) if !message.is_empty()),
            "{}",
            tokens
        );
    }
}

#[test]
fn single_path() {
    assert_eq!(
        input_paths(paren(string("crate::some_path::Struct"))),
        Ok(vec![path(false, &["crate", "some_path", "Struct"])])
    );
    assert_eq!(input_paths(paren(string("Struct"))), Ok(vec![path(false, &["Struct"])]));
    assert_eq!(input_paths(paren(string("::rooted::Struct"))), Ok(vec![path(true, &["rooted", "Struct"])]));
    assert_eq!(
        input_paths(paren(string(" self :: super ::Self:: crate "))),
        Ok(vec![path(false, &["self", "super", "Self", "crate"])])
    );
}

#[test]
fn array_of_paths() {
    let args = paren(ArgumentExpr::Array(vec![string("crate::some::Struct"), string("crate::some_other::Struct")]));
    assert_eq!(
        input_paths(args),
        Ok(vec![path(false, &["crate", "some", "Struct"]), path(false, &["crate", "some_other", "Struct"])])
    );
    assert_eq!(input_paths(paren(ArgumentExpr::Array(Vec::new()))), Ok(Vec::new()));
}

#[test]
fn array_with_an_element_that_is_no_string_is_refused() {
    let args = paren(ArgumentExpr::Array(vec![
        string("crate::a::B"),
        ArgumentExpr::Other,
        string("crate::c::D"),
    ]));
    assert_eq!(input_paths(args), Err(ArgumentError::NotAString));
    for element in [
        ArgumentExpr::Other,
        ArgumentExpr::Literal,
        ArgumentExpr::Array(vec![string("crate::nested::N")]),
        paren(string("crate::in_parens::P")),
    ] {
        let last = paren(ArgumentExpr::Array(vec![string("crate::a::A"), element]));
        assert_eq!(input_paths(last), Err(ArgumentError::NotAString));
    }
    assert_eq!(
        input_paths(paren(ArgumentExpr::Array(vec![ArgumentExpr::Other, string("no path")]))),
        Err(ArgumentError::NotAString)
    );
    // The first mistake is the one that is reported.
    assert_eq!(
        input_paths(paren(ArgumentExpr::Array(vec![string("no path"), ArgumentExpr::Other]))),
        Err(ArgumentError::NotAPath)
    );
}

#[test]
fn array_with_an_identifier_is_refused_from_the_tokens_on() {
    let found = annotation("([\"crate::a::B\", some_ident, \"crate::c::D\"])");
    assert_eq!(input_paths(arguments(&found).unwrap()), Err(ArgumentError::NotAString));
    assert_eq!(ArgumentError::NotAString.message(), "Only paths are allowed in inter_struct's attribute.");
}

#[test]
fn argument_without_parentheses_is_refused() {
    for args in [string("crate::a::A"), ArgumentExpr::Array(vec![string("crate::a::A")]), ArgumentExpr::Literal, ArgumentExpr::Other]
    {
        assert_eq!(input_paths(args), Err(ArgumentError::NotParenthesized));
    }
}

#[test]
fn argument_that_is_neither_path_nor_array_is_refused() {
    assert_eq!(input_paths(paren(ArgumentExpr::Other)), Err(ArgumentError::NeitherPathNorArray));
    assert_eq!(input_paths(paren(paren(string("crate::a::A")))), Err(ArgumentError::NeitherPathNorArray));
}

#[test]
fn literal_that_is_no_string_is_refused() {
    assert_eq!(input_paths(paren(ArgumentExpr::Literal)), Err(ArgumentError::NotAString));
    let args = paren(ArgumentExpr::Array(vec![string("crate::a::A"), ArgumentExpr::Literal, string("no path")]));
    assert_eq!(input_paths(args), Err(ArgumentError::NotAString));
}

#[test]
fn string_that_holds_no_path_is_refused() {
    for text in ["", "crate::", "crate::a::A<u8>", "a b", "crate:a", "1::2", "crate::a::A,"] {
        assert_eq!(input_paths(paren(string(text))), Err(ArgumentError::NotAPath), "{:?}", text);
    }
    let args = paren(ArgumentExpr::Array(vec![string("crate::a::A"), string("::"), ArgumentExpr::Literal]));
    assert_eq!(input_paths(args), Err(ArgumentError::NotAPath));
}

#[test]
fn from_the_annotation_to_the_paths() {
    let source = record(ANNOTATED);
    let found = attribute(&source, "StructInto", "struct_into").unwrap();
    let paths = input_paths(arguments(found).unwrap()).unwrap();
    assert_eq!(paths, vec![path(false, &["crate", "a", "A"]), path(false, &["crate", "b", "B"])]);
}

#[test]
fn odd_text_is_answered_not_refused_with_a_crash() {
    let nested = format!("{}\"crate::a::A\"{}", "(".repeat(20), ")".repeat(20));
    let texts = [
        "\u{feff}struct Source { a: u8 }",
        "#!/usr/bin/env run\nstruct Source { a: u8 }",
        "struct Source { \u{e4}: u8 }",
        "struct Source { r#type: r#struct }",
        "struct Source { a: [u8; { 1 + 1 }] }",
        "struct Source { a: Option<Option<Option<Option<u8>>>> }",
        "struct Source<'a, T: Clone, const N: usize> where T: Default { a: &'a [T; N] }",
        "struct Source { a: u8 } /* unfinished",
        "struct Source { a: \"text\" }",
        "\"\\u{D800}\"",
        "(c\"crate::a::A\")",
        "(cr#\"crate::a::A\"#)",
        "((/*ERROR*/))",
        "const NAME: &core::ffi::CStr = c\"name\";\nstruct Source { a: u8 }",
        "struct Source { a: [u8; c\"four\"] }",
        "struct Source { a: [u8; (/*ERROR*/)] }",
        "const RAW: &[u8] = br\"\u{e4}\";",
        "'",
        "\0",
        nested.as_str(),
    ];
    for text in texts {
        let _ = find_record(text, "Source");
        let _ = arguments(&annotation(text));
        let _ = input_paths(paren(string(text)));
    }
    let record = find_record("struct Source { r#type: r#struct }", "Source").unwrap();
    match &record.fields {
        inter_struct::schema::FieldList::Named(fields) => {
            assert_eq!(fields[0].name, "r#type");
            assert_eq!(fields[0].ty.text, "r#struct");
        }
        other => panic!("unexpected fields {:?}", other),
    }
    assert_eq!(arguments(&annotation(&nested)).is_ok(), true);
    assert_eq!(find_record("\u{feff}struct Source { a: u8 }", "Source").unwrap().ident, "Source");
}

#[test]
fn literals_of_a_later_language_are_a_mistake_and_no_crash() {
    // The lexer reads the `c` before a string as an identifier.
    for tokens in ["(c\"crate::a::A\")", "(cr\"crate::a::A\")", "(cr#\"crate::a::A\"#)", "c\"crate::a::A\""] {
        assert!(matches!(arguments(&annotation(tokens)), Err(ArgumentError::NotAnExpression(_))), "{}", tokens);
    }
    assert!(matches!(
        arguments(&annotation("([\"crate::a::A\", c\"crate::b::B\"])")),
        Err(ArgumentError::NotAnExpression(_))
    ));
    for unit in [
        "const NAME: &core::ffi::CStr = c\"name\";\nstruct Source { a: u8 }",
        "struct Source { a: [u8; c\"four\"] }",
        "fn f() { let _ = cr#\"raw\"#; }\nstruct Source { a: u8 }",
    ] {
        assert!(
            matches!(find_record(unit, "Source"), Err(inter_struct::module::PathResolutionError::FailedToParseFile(_))),
            "{}",
            unit
        );
    }
    // What stands for a broken expression is read as a comment between
    // parentheses.
    assert_eq!(arguments(&annotation("((/*ERROR*/))")), Ok(paren(ArgumentExpr::Other)));
    assert_eq!(arguments(&annotation("(/*ERROR*/)")), Ok(ArgumentExpr::Other));
    let record = find_record("struct Source { a: [u8; (/*ERROR*/)] }", "Source").unwrap();
    assert_eq!(record.ident, "Source");
}
