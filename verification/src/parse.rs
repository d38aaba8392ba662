//! Reading the annotation that names the targets.
//!
//! A source record names its targets in an annotation of its own, one per
//! kind of mapping: `#[struct_into("crate::some::Target")]` for one target,
//! `#[struct_into(["crate::some::Target", "crate::other::Target"])]` for
//! several.

use vstd::prelude::*;
use crate::schema::{
    Annotation, AnnotationView, ArgumentExpr, ArgumentExprView, RecordSchema, TargetPath, TargetPathView,
};
use crate::syntax::{parse_arguments, parse_mod_path, parsed_arguments, parsed_mod_path};
use crate::types::views;

verus! {

/// The record does not say what to map it to.
#[derive(Debug, PartialEq, Eq)]
pub struct MissingAttribute {
    /// The mapping that was asked for.
    pub derive_name: String,
    /// The annotation that it needs.
    pub name: String,
}

/// Why the argument of an annotation names no targets.
#[derive(Debug, PartialEq, Eq)]
pub enum ArgumentError {
    /// The tokens after the annotation's name are no expression; the
    /// parser's message.
    NotAnExpression(String),
    /// The argument does not stand between parentheses.
    NotParenthesized,
    /// The argument is neither a literal nor an array.
    NeitherPathNorArray,
    /// A literal, or an element of an array, is not a string.
    NotAString,
    /// A string does not hold a path.
    NotAPath,
}

/// The view of a [`MissingAttribute`].
pub struct MissingAttributeView {
    pub derive_name: Seq<char>,
    pub name: Seq<char>,
}

/// The view of an [`ArgumentError`].
pub enum ArgumentErrorView {
    NotAnExpression(Seq<char>),
    NotParenthesized,
    NeitherPathNorArray,
    NotAString,
    NotAPath,
}

impl View for MissingAttribute {
    type V = MissingAttributeView;

    open spec fn view(&self) -> MissingAttributeView {
        MissingAttributeView { derive_name: self.derive_name@, name: self.name@ }
    }
}

impl View for ArgumentError {
    type V = ArgumentErrorView;

    open spec fn view(&self) -> ArgumentErrorView {
        match *self {
            ArgumentError::NotAnExpression(message) => ArgumentErrorView::NotAnExpression(message@),
            ArgumentError::NotParenthesized => ArgumentErrorView::NotParenthesized,
            ArgumentError::NeitherPathNorArray => ArgumentErrorView::NeitherPathNorArray,
            ArgumentError::NotAString => ArgumentErrorView::NotAString,
            ArgumentError::NotAPath => ArgumentErrorView::NotAPath,
        }
    }
}

/// The annotation is the one called `name`: its path is that one identifier.
pub open spec fn is_named(annotation: AnnotationView, name: Seq<char>) -> bool {
    annotation.path.len() == 1 && annotation.path[0] == name
}

/// The first annotation called `name`.
pub open spec fn first_named(annotations: Seq<AnnotationView>, name: Seq<char>) -> Option<AnnotationView>
    decreases annotations.len(),
{
    if annotations.len() == 0 {
        None
    } else if is_named(annotations.first(), name) {
        Some(annotations.first())
    } else {
        first_named(annotations.drop_first(), name)
    }
}

/// The annotation that [`attribute`] finds, or the names of what is missing.
pub open spec fn named_annotation(attrs: Seq<AnnotationView>, derive_name: Seq<char>, name: Seq<char>) -> Result<
    AnnotationView,
    MissingAttributeView,
> {
    match first_named(attrs, name) {
        Some(annotation) => Ok(annotation),
        None => Err(MissingAttributeView { derive_name, name }),
    }
}

/// The expression that stands behind the name of an annotation.
pub open spec fn annotation_arguments(annotation: AnnotationView) -> Result<ArgumentExprView, ArgumentErrorView> {
    match parsed_arguments(annotation.tokens) {
        Ok(args) => Ok(args),
        Err(message) => Err(ArgumentErrorView::NotAnExpression(message)),
    }
}

/// The path that a literal names.
pub open spec fn literal_path(literal: ArgumentExprView) -> Result<TargetPathView, ArgumentErrorView> {
    match literal {
        ArgumentExprView::Str(text) => match parsed_mod_path(text) {
            Ok(path) => Ok(path),
            Err(_) => Err(ArgumentErrorView::NotAPath),
        },
        _ => Err(ArgumentErrorView::NotAString),
    }
}

/// The paths that the elements of an array name, up to the first element
/// that names none. Every element has to be a string that holds a path.
pub open spec fn element_paths(elements: Seq<ArgumentExprView>) -> Result<Seq<TargetPathView>, ArgumentErrorView>
    decreases elements.len(),
{
    if elements.len() == 0 {
        Ok(Seq::empty())
    } else {
        match element_paths(elements.drop_last()) {
            Err(error) => Err(error),
            Ok(paths) => match literal_path(elements.last()) {
                Ok(path) => Ok(paths.push(path)),
                Err(error) => Err(error),
            },
        }
    }
}

/// The paths that the argument of an annotation names.
pub open spec fn argument_paths(args: ArgumentExprView) -> Result<Seq<TargetPathView>, ArgumentErrorView> {
    match args {
        ArgumentExprView::Paren(inner) => match *inner {
            ArgumentExprView::Array(elements) => element_paths(elements),
            ArgumentExprView::Other | ArgumentExprView::Paren(_) => Err(ArgumentErrorView::NeitherPathNorArray),
            literal => match literal_path(literal) {
                Ok(path) => Ok(seq![path]),
                Err(error) => Err(error),
            },
        },
        _ => Err(ArgumentErrorView::NotParenthesized),
    }
}

/// What an annotation that was looked for is as a value of the
/// specification.
pub open spec fn attribute_view(found: Result<&Annotation, MissingAttribute>) -> Result<
    AnnotationView,
    MissingAttributeView,
> {
    match found {
        Ok(annotation) => Ok(annotation@),
        Err(missing) => Err(missing@),
    }
}

/// What an argument or an error is as a value of the specification.
pub open spec fn argument_view(args: Result<ArgumentExpr, ArgumentError>) -> Result<
    ArgumentExprView,
    ArgumentErrorView,
> {
    match args {
        Ok(args) => Ok(args@),
        Err(error) => Err(error@),
    }
}

/// What a path or an error is as a value of the specification.
pub open spec fn path_view(path: Result<TargetPath, ArgumentError>) -> Result<TargetPathView, ArgumentErrorView> {
    match path {
        Ok(path) => Ok(path@),
        Err(error) => Err(error@),
    }
}

/// What a list of paths or an error is as a value of the specification.
pub open spec fn paths_view(paths: Result<Vec<TargetPath>, ArgumentError>) -> Result<
    Seq<TargetPathView>,
    ArgumentErrorView,
> {
    match paths {
        Ok(paths) => Ok(views(paths@)),
        Err(error) => Err(error@),
    }
}

/// Find the annotation called `name` on the source record.
///
/// Annotations whose path has more than one segment belong to somebody else
/// and are passed over. Without the annotation the mapping called
/// `derive_name` cannot be built.
pub fn attribute<'a>(src_struct: &'a RecordSchema, derive_name: &str, name: &str) -> (found: Result<
    &'a Annotation,
    MissingAttribute,
>)
    ensures
        attribute_view(found) == named_annotation(src_struct@.attrs, derive_name@, name@),
{
    let wanted = name.to_owned();
    let ghost attrs = src_struct@.attrs;
    let mut i: usize = 0;
    assert(attrs.skip(0) == attrs);
    while i < src_struct.attrs.len()
        invariant
            i <= src_struct.attrs.len(),
            wanted@ == name@,
            attrs == src_struct@.attrs,
            first_named(attrs, name@) == first_named(attrs.skip(i as int), name@),
        decreases src_struct.attrs.len() - i,
    {
        let annotation = &src_struct.attrs[i];
        proof {
            assert(attrs.skip(i as int).first() == annotation@);
            assert(attrs.skip(i as int).drop_first() == attrs.skip(i + 1));
        }
        if annotation.path.len() == 1 && annotation.path[0] == wanted {
            return Ok(annotation);
        }
        i += 1;
    }
    Err(MissingAttribute { derive_name: derive_name.to_owned(), name: wanted })
}

/// Read the expression that stands behind the name of an annotation.
pub fn arguments(annotation: &Annotation) -> (args: Result<ArgumentExpr, ArgumentError>)
    ensures
        argument_view(args) == annotation_arguments(annotation@),
{
    match parse_arguments(annotation.tokens.as_str()) {
        Ok(args) => Ok(args),
        Err(message) => Err(ArgumentError::NotAnExpression(message)),
    }
}

/// The path in a literal, which has to be a string that holds a path.
fn lit_to_path(literal: &ArgumentExpr) -> (path: Result<TargetPath, ArgumentError>)
    ensures
        path_view(path) == literal_path(literal@),
{
    match literal {
        ArgumentExpr::Str(text) => match parse_mod_path(text.as_str()) {
            Ok(path) => Ok(path),
            Err(_) => Err(ArgumentError::NotAPath),
        },
        _ => Err(ArgumentError::NotAString),
    }
}

/// Extract the target paths from the argument of an annotation.
///
/// Both a single path and an array of paths are supported:
/// `("crate::some_path::Struct")` and
/// `(["crate::some::Struct", "crate::some_other::Struct"])`. Anything else
/// is refused, and so is an array as soon as one of its elements is not a
/// string that holds a path: no element is passed over in silence.
pub fn input_paths(args: ArgumentExpr) -> (paths: Result<Vec<TargetPath>, ArgumentError>)
    ensures
        paths_view(paths) == argument_paths(args@),
{
    let inner = match args {
        ArgumentExpr::Paren(inner) => *inner,
        _ => {
            return Err(ArgumentError::NotParenthesized);
        },
    };
    match inner {
        ArgumentExpr::Str(_) | ArgumentExpr::Literal => {
            let path = lit_to_path(&inner)?;
            let paths = vec![path];
            proof {
                assert(views(paths@) =~= seq![path@]);
            }
            Ok(paths)
        },
        ArgumentExpr::Array(elements) => {
            let ghost items = inner@->Array_0;
            let mut paths: Vec<TargetPath> = Vec::new();
            let mut i: usize = 0;
            proof {
                assert(views(paths@) =~= Seq::<TargetPathView>::empty());
            }
            while i < elements.len()
                invariant
                    i <= elements.len(),
                    items.len() == elements@.len(),
                    forall|k: int| 0 <= k < items.len() ==> items[k] == (#[trigger] elements@[k])@,
                    argument_paths(args@) == element_paths(items),
                    element_paths(items.take(i as int)) == Ok::<Seq<TargetPathView>, ArgumentErrorView>(
                        views(paths@),
                    ),
                decreases elements.len() - i,
            {
                proof {
                    assert(items.take(i + 1).drop_last() == items.take(i as int));
                    assert(items.take(i + 1).last() == elements@[i as int]@);
                }
                let ghost before = views(paths@);
                match lit_to_path(&elements[i]) {
                    Ok(path) => {
                        paths.push(path);
                        proof {
                            assert(views(paths@) =~= before.push(path@));
                        }
                    },
                    Err(error) => {
                        proof {
                            assert(element_paths(items.take(i + 1)) == Err::<
                                Seq<TargetPathView>,
                                ArgumentErrorView,
                            >(error@));
                            element_paths_fail_for_good(items, i + 1);
                        }
                        return Err(error);
                    },
                }
                i += 1;
            }
            proof {
                assert(items.take(items.len() as int) == items);
            }
            Ok(paths)
        },
        _ => Err(ArgumentError::NeitherPathNorArray),
    }
}

/// Once the elements up to some point name no paths, neither does the whole
/// array, for the same reason.
proof fn element_paths_fail_for_good(elements: Seq<ArgumentExprView>, upto: int)
    requires
        0 <= upto <= elements.len(),
        element_paths(elements.take(upto)) is Err,
    ensures
        element_paths(elements) == element_paths(elements.take(upto)),
    decreases elements.len() - upto,
{
    if upto < elements.len() {
        assert(elements.take(upto + 1).drop_last() == elements.take(upto));
        element_paths_fail_for_good(elements, upto + 1);
    } else {
        assert(elements.take(upto) == elements);
    }
}

} // verus!
