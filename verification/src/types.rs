//! Type expressions as they are written in a field declaration.
//!
//! A [`TypeExpr`] is purely syntactic. It knows its spelling and the outline
//! of its path, nothing about what the type means: aliases are not resolved
//! and two spellings of one type are two different expressions.

use vstd::prelude::*;

verus! {

/// One generic argument between angle brackets.
#[derive(Debug, PartialEq, Eq)]
pub enum GenericArgument {
    /// A type, as in `Option<String>`.
    Type(TypeExpr),
    /// A lifetime, a constant, a binding or a constraint.
    Other,
}

/// What follows the identifier of a path segment.
#[derive(Debug, PartialEq, Eq)]
pub enum PathArguments {
    /// Nothing, as in `String`.
    Empty,
    /// Generic arguments between angle brackets, as in `Vec<u8>`.
    AngleBracketed(Vec<GenericArgument>),
    /// Arguments between parentheses, as in `Fn(u8) -> u8`.
    Parenthesized,
}

/// One segment of a type path.
#[derive(Debug, PartialEq, Eq)]
pub struct TypeSegment {
    pub ident: String,
    pub arguments: PathArguments,
}

/// The outline of a type expression.
#[derive(Debug, PartialEq, Eq)]
pub enum TypeShape {
    /// A path such as `String`, `std::vec::Vec<u8>` or `<T as Trait>::Out`.
    Path {
        /// The path is relative to an explicit self type (`<T as Trait>::..`).
        qualified: bool,
        /// The path starts with `::`.
        rooted: bool,
        segments: Vec<TypeSegment>,
    },
    /// Anything that is not a path: a tuple, a reference, a function type.
    Other,
}

/// A declared type: its spelling and its outline.
#[derive(Debug, PartialEq, Eq)]
pub struct TypeExpr {
    /// The expression as rendered token by token.
    pub text: String,
    pub shape: TypeShape,
}

/// The view of a [`GenericArgument`].
pub enum GenericArgumentView {
    Type(TypeExprView),
    Other,
}

/// The view of [`PathArguments`].
pub enum PathArgumentsView {
    Empty,
    AngleBracketed(Seq<GenericArgumentView>),
    Parenthesized,
}

/// The view of a [`TypeSegment`].
pub struct TypeSegmentView {
    pub ident: Seq<char>,
    pub arguments: PathArgumentsView,
}

/// The view of a [`TypeShape`].
pub enum TypeShapeView {
    Path { qualified: bool, rooted: bool, segments: Seq<TypeSegmentView> },
    Other,
}

/// The view of a [`TypeExpr`].
pub struct TypeExprView {
    pub text: Seq<char>,
    pub shape: TypeShapeView,
}

/// The view of a type expression.
pub open spec fn type_view(ty: TypeExpr) -> TypeExprView
    decreases ty,
{
    TypeExprView { text: ty.text@, shape: shape_view(ty.shape) }
}

/// The view of an outline.
pub open spec fn shape_view(shape: TypeShape) -> TypeShapeView
    decreases shape,
{
    match shape {
        TypeShape::Path { qualified, rooted, segments } => TypeShapeView::Path {
            qualified,
            rooted,
            segments: Seq::new(
                segments@.len(),
                |i: int|
                    if 0 <= i < segments@.len() {
                        segment_view(segments@[i])
                    } else {
                        arbitrary()
                    },
            ),
        },
        TypeShape::Other => TypeShapeView::Other,
    }
}

/// The view of a path segment.
pub open spec fn segment_view(segment: TypeSegment) -> TypeSegmentView
    decreases segment,
{
    TypeSegmentView { ident: segment.ident@, arguments: arguments_view(segment.arguments) }
}

/// The view of the arguments of a path segment.
pub open spec fn arguments_view(arguments: PathArguments) -> PathArgumentsView
    decreases arguments,
{
    match arguments {
        PathArguments::Empty => PathArgumentsView::Empty,
        PathArguments::AngleBracketed(list) => PathArgumentsView::AngleBracketed(
            Seq::new(
                list@.len(),
                |i: int|
                    if 0 <= i < list@.len() {
                        argument_view(list@[i])
                    } else {
                        arbitrary()
                    },
            ),
        ),
        PathArguments::Parenthesized => PathArgumentsView::Parenthesized,
    }
}

/// The view of a generic argument.
pub open spec fn argument_view(argument: GenericArgument) -> GenericArgumentView
    decreases argument,
{
    match argument {
        GenericArgument::Type(ty) => GenericArgumentView::Type(type_view(ty)),
        GenericArgument::Other => GenericArgumentView::Other,
    }
}

impl View for GenericArgument {
    type V = GenericArgumentView;

    open spec fn view(&self) -> GenericArgumentView {
        argument_view(*self)
    }
}

impl View for PathArguments {
    type V = PathArgumentsView;

    open spec fn view(&self) -> PathArgumentsView {
        arguments_view(*self)
    }
}

impl View for TypeSegment {
    type V = TypeSegmentView;

    open spec fn view(&self) -> TypeSegmentView {
        segment_view(*self)
    }
}

impl View for TypeShape {
    type V = TypeShapeView;

    open spec fn view(&self) -> TypeShapeView {
        shape_view(*self)
    }
}

impl View for TypeExpr {
    type V = TypeExprView;

    open spec fn view(&self) -> TypeExprView {
        type_view(*self)
    }
}

/// The views of the items of a sequence.
pub open spec fn views<T: View>(items: Seq<T>) -> Seq<T::V> {
    items.map_values(|item: T| item@)
}

/// Two type expressions are the same type when they are spelled the same.
pub open spec fn same_type(left: TypeExprView, right: TypeExprView) -> bool {
    left.text == right.text
}

/// Check whether two type expressions are of the same type.
///
/// The check is rather crude: the spellings are compared, so an alias and the
/// type it stands for are different types here. Whatever slips through is
/// still caught when the mapped code is compiled.
pub fn is_equal_type(src_type: &TypeExpr, target_type: &TypeExpr) -> (equal: bool)
    ensures
        equal == same_type(src_type@, target_type@),
{
    src_type.text == target_type.text
}

} // verus!
