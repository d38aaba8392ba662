//! From source text to plain values.
//!
//! Parsing is left to `syn`. Nothing in this module is proved: each function
//! states what it takes from the parser, and the rest of the library builds
//! on those statements.
//!
//! Two things about the build are part of what is stated here:
//!
//! - The parser is built without its `proc-macro` feature. It then reads
//!   and prints tokens by itself wherever it runs, inside a procedural macro
//!   too, so that what it makes of a text depends on the text alone.
//! - The lexer, `proc-macro2`, is held to a version of the parser's own
//!   time. The parser stops the process at a literal that it does not know,
//!   and a later lexer reads literals that this parser does not know. The
//!   one here reads strings, byte strings, bytes, characters and numbers,
//!   all of which the parser takes; the `c` before a later language's C
//!   string is an identifier to it.
//!
//! The parser works by recursive descent. A text that is nested more deeply
//! than the stack of the calling thread allows for, such as some hundred
//! opening parentheses in a row, ends the process inside the parser. No
//! contract here rules such texts out: how deep is too deep depends on the
//! thread, not on the text.

use vstd::prelude::*;
use quote::ToTokens;
use crate::schema::{
    Annotation, ArgumentExpr, ArgumentExprView, Declaration, DeclarationView, FieldDescriptor, FieldList,
    RecordSchema, TargetPath, TargetPathView,
};
use crate::types::{views, GenericArgument, PathArguments, TypeExpr, TypeSegment, TypeShape};

verus! {

#[verifier::external_type_specification]
#[verifier::external_body]
pub struct ExItemStruct(syn::ItemStruct);

#[verifier::external_type_specification]
#[verifier::external_body]
pub struct ExAttribute(syn::Attribute);

#[verifier::external_type_specification]
#[verifier::external_body]
pub struct ExType(syn::Type);

#[verifier::external_type_specification]
#[verifier::external_body]
pub struct ExExpr(syn::Expr);

#[verifier::external_type_specification]
#[verifier::external_body]
pub struct ExPathSegment(syn::PathSegment);

/// The top-level declarations that `syn::parse_file` finds in a source unit,
/// or the parser's message where the text is no source unit.
pub uninterp spec fn parsed_unit(content: Seq<char>) -> Result<Seq<DeclarationView>, Seq<char>>;

/// The path that `syn::Path::parse_mod_style` reads from a text: whether it
/// starts with `::` and its identifiers, or the parser's message.
pub uninterp spec fn parsed_mod_path(text: Seq<char>) -> Result<TargetPathView, Seq<char>>;

/// The expression that `syn::parse_str` reads from the tokens of an
/// annotation, or the parser's message.
pub uninterp spec fn parsed_arguments(tokens: Seq<char>) -> Result<ArgumentExprView, Seq<char>>;

/// What a parsed unit is as a value of the specification.
pub open spec fn unit_view(unit: Result<Vec<Declaration>, String>) -> Result<Seq<DeclarationView>, Seq<char>> {
    match unit {
        Ok(declarations) => Ok(views(declarations@)),
        Err(message) => Err(message@),
    }
}

/// What a parsed path is as a value of the specification.
pub open spec fn mod_path_view(path: Result<TargetPath, String>) -> Result<TargetPathView, Seq<char>> {
    match path {
        Ok(path) => Ok(path@),
        Err(message) => Err(message@),
    }
}

/// What a parsed argument is as a value of the specification.
pub open spec fn arguments_view(arguments: Result<ArgumentExpr, String>) -> Result<ArgumentExprView, Seq<char>> {
    match arguments {
        Ok(arguments) => Ok(arguments@),
        Err(message) => Err(message@),
    }
}

/// Calls `syn::parse_file` and keeps, in order, one declaration per item of
/// the file. The result depends on the text alone.
#[verifier::external_body]
pub(crate) fn parse_unit(content: &str) -> (unit: Result<Vec<Declaration>, String>)
    ensures
        unit_view(unit) == parsed_unit(content@),
{
    match syn::parse_file(content) {
        Ok(file) => Ok(file.items.iter().map(|item| match item {
            syn::Item::Struct(item) => Declaration::Record(record_schema(item)),
            _ => Declaration::Other,
        }).collect()),
        Err(error) => Err(error.to_string()),
    }
}

/// Calls `syn::Path::parse_mod_style` on the whole text. The result depends
/// on the text alone.
#[verifier::external_body]
pub(crate) fn parse_mod_path(text: &str) -> (path: Result<TargetPath, String>)
    ensures
        mod_path_view(path) == parsed_mod_path(text@),
{
    match syn::parse::Parser::parse_str(syn::Path::parse_mod_style, text) {
        Ok(path) => Ok(TargetPath {
            leading_colon: path.leading_colon.is_some(),
            segments: path.segments.iter().map(|segment| segment.ident.to_string()).collect(),
        }),
        Err(error) => Err(error.to_string()),
    }
}

/// Calls `syn::parse_str` for a `syn::Expr` on the tokens of an annotation.
/// The result depends on the text alone.
#[verifier::external_body]
pub(crate) fn parse_arguments(tokens: &str) -> (arguments: Result<ArgumentExpr, String>)
    ensures
        arguments_view(arguments) == parsed_arguments(tokens@),
{
    match syn::parse_str::<syn::Expr>(tokens) {
        Ok(expr) => Ok(argument_expr(&expr)),
        Err(error) => Err(error.to_string()),
    }
}

/// Reads off a `syn::Expr` whether it is a parenthesized expression, an
/// array or a literal, and for a string literal its `value`.
#[verifier::external_body]
fn argument_expr(expr: &syn::Expr) -> ArgumentExpr {
    match expr {
        syn::Expr::Paren(paren) => ArgumentExpr::Paren(Box::new(argument_expr(&paren.expr))),
        syn::Expr::Array(array) => ArgumentExpr::Array(array.elems.iter().map(argument_expr).collect()),
        syn::Expr::Lit(literal) => match &literal.lit {
            syn::Lit::Str(string) => ArgumentExpr::Str(string.value()),
            _ => ArgumentExpr::Literal,
        },
        _ => ArgumentExpr::Other,
    }
}

/// Reads identifier, attributes and fields off a `syn::ItemStruct`.
#[verifier::external_body]
fn record_schema(item: &syn::ItemStruct) -> RecordSchema {
    RecordSchema {
        ident: item.ident.to_string(),
        attrs: item.attrs.iter().map(annotation).collect(),
        fields: match &item.fields {
            syn::Fields::Named(fields) => FieldList::Named(fields.named.iter().map(|field| FieldDescriptor {
                name: field.ident.as_ref().map(|ident| ident.to_string()).unwrap_or_default(),
                ty: type_expr(&field.ty),
            }).collect()),
            syn::Fields::Unnamed(_) => FieldList::Unnamed,
            syn::Fields::Unit => FieldList::Unit,
        },
    }
}

/// Reads path and tokens off a `syn::Attribute`.
#[verifier::external_body]
fn annotation(attribute: &syn::Attribute) -> Annotation {
    Annotation {
        path: attribute.path.segments.iter().map(|segment| segment.ident.to_string()).collect(),
        tokens: attribute.tokens.to_string(),
    }
}

/// Renders a `syn::Type` with `quote::ToTokens::to_token_stream` and reads
/// its outline.
#[verifier::external_body]
fn type_expr(ty: &syn::Type) -> TypeExpr {
    TypeExpr {
        text: ty.to_token_stream().to_string(),
        shape: match ty {
            syn::Type::Path(path) => TypeShape::Path {
                qualified: path.qself.is_some(),
                rooted: path.path.leading_colon.is_some(),
                segments: path.path.segments.iter().map(type_segment).collect(),
            },
            _ => TypeShape::Other,
        },
    }
}

/// Reads identifier and arguments off a `syn::PathSegment`.
#[verifier::external_body]
fn type_segment(segment: &syn::PathSegment) -> TypeSegment {
    TypeSegment {
        ident: segment.ident.to_string(),
        arguments: match &segment.arguments {
            syn::PathArguments::None => PathArguments::Empty,
            syn::PathArguments::AngleBracketed(list) => {
                PathArguments::AngleBracketed(list.args.iter().map(|argument| match argument {
                    syn::GenericArgument::Type(ty) => GenericArgument::Type(type_expr(ty)),
                    _ => GenericArgument::Other,
                }).collect())
            },
            syn::PathArguments::Parenthesized(_) => PathArguments::Parenthesized,
        },
    }
}

} // verus!
