//! Telling `Option<T>` from `T`.

use vstd::prelude::*;
use crate::types::{
    GenericArgument, GenericArgumentView, PathArguments, PathArgumentsView, TypeExpr, TypeExprView, TypeShape,
    TypeShapeView,
};

verus! {

/// How a field's type reads: either some `T` or an `Option<T>`.
#[derive(Debug, PartialEq, Eq)]
pub enum FieldType<'a> {
    /// Any type that is not spelled `Option<..>`.
    Normal(&'a TypeExpr),
    /// `Option<inner>`; `outer` is the whole expression.
    Optional { inner: &'a TypeExpr, outer: &'a TypeExpr },
    /// A type the mapping cannot work with.
    Invalid,
}

/// The view of a [`FieldType`].
pub enum FieldTypeView {
    Normal(TypeExprView),
    Optional { inner: TypeExprView, outer: TypeExprView },
    Invalid,
}

impl<'a> View for FieldType<'a> {
    type V = FieldTypeView;

    open spec fn view(&self) -> FieldTypeView {
        match *self {
            FieldType::Normal(ty) => FieldTypeView::Normal(ty@),
            FieldType::Optional { inner, outer } => FieldTypeView::Optional { inner: inner@, outer: outer@ },
            FieldType::Invalid => FieldTypeView::Invalid,
        }
    }
}

/// Why a field's type cannot be classified.
#[derive(Clone, Copy, Debug, PartialEq, Eq)]
pub enum FieldTypeError {
    /// `Option` stands without a generic argument.
    MissingTypeArgument,
    /// The first generic argument of `Option` is not a type.
    ArgumentNotType,
    /// The type is not a path.
    UnsupportedShape,
}

/// The identifier that marks an optional field.
pub open spec fn wrapper_ident() -> Seq<char> {
    "Option"@
}

/// The type is a path that may be the optional wrapper: an unqualified,
/// unrooted path of exactly one segment named `Option`.
pub open spec fn is_wrapper_path(ty: TypeExprView) -> bool {
    match ty.shape {
        TypeShapeView::Path { qualified, rooted, segments } => {
            &&& !qualified
            &&& !rooted
            &&& segments.len() == 1
            &&& segments[0].ident == wrapper_ident()
        },
        TypeShapeView::Other => false,
    }
}

/// The generic arguments of the only segment of a wrapper path; none where
/// the segment has no angle brackets.
pub open spec fn wrapper_arguments(ty: TypeExprView) -> Seq<GenericArgumentView>
    recommends
        is_wrapper_path(ty),
{
    match ty.shape {
        TypeShapeView::Path { qualified, rooted, segments } => match segments[0].arguments {
            PathArgumentsView::AngleBracketed(arguments) => arguments,
            _ => Seq::empty(),
        },
        TypeShapeView::Other => Seq::empty(),
    }
}

/// The classification of a type expression, read off its outline alone.
pub open spec fn classification(ty: TypeExprView) -> Result<FieldTypeView, FieldTypeError> {
    if ty.shape is Other {
        Err(FieldTypeError::UnsupportedShape)
    } else if !is_wrapper_path(ty) {
        Ok(FieldTypeView::Normal(ty))
    } else if wrapper_arguments(ty).len() == 0 {
        Err(FieldTypeError::MissingTypeArgument)
    } else {
        match wrapper_arguments(ty)[0] {
            GenericArgumentView::Type(inner) => Ok(FieldTypeView::Optional { inner, outer: ty }),
            GenericArgumentView::Other => Err(FieldTypeError::ArgumentNotType),
        }
    }
}

/// What a classification is as a value of the specification.
pub open spec fn classified(field_type: Result<FieldType, FieldTypeError>) -> Result<FieldTypeView, FieldTypeError> {
    match field_type {
        Ok(field_type) => Ok(field_type@),
        Err(error) => Err(error),
    }
}

/// Determine whether a type is an `Option<T>` or just a `T`.
///
/// Only the written tokens count. A path that is qualified, rooted or longer
/// than one segment is never taken for the wrapper, and neither is an alias
/// that expands to it.
pub fn determine_field_type<'a>(ty: &'a TypeExpr) -> (field_type: Result<FieldType<'a>, FieldTypeError>)
    ensures
        classified(field_type) == classification(ty@),
{
    match &ty.shape {
        TypeShape::Path { qualified, rooted, segments } => {
            if *qualified || *rooted || segments.len() != 1 {
                return Ok(FieldType::Normal(ty));
            }
            let segment = &segments[0];
            let wrapper = "Option".to_owned();
            if segment.ident != wrapper {
                return Ok(FieldType::Normal(ty));
            }
            match &segment.arguments {
                PathArguments::AngleBracketed(arguments) => {
                    if arguments.len() == 0 {
                        return Err(FieldTypeError::MissingTypeArgument);
                    }
                    match &arguments[0] {
                        GenericArgument::Type(inner) => Ok(FieldType::Optional { inner, outer: ty }),
                        GenericArgument::Other => Err(FieldTypeError::ArgumentNotType),
                    }
                },
                _ => Err(FieldTypeError::MissingTypeArgument),
            }
        },
        TypeShape::Other => Err(FieldTypeError::UnsupportedShape),
    }
}

} // verus!
