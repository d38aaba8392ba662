//! Record schemas: a named, flat list of typed fields.

use vstd::prelude::*;
use crate::types::{views, TypeExpr, TypeExprView};

verus! {

/// One named field of a record.
#[derive(Debug, PartialEq, Eq)]
pub struct FieldDescriptor {
    pub name: String,
    pub ty: TypeExpr,
}

/// The fields of a record declaration.
#[derive(Debug, PartialEq, Eq)]
pub enum FieldList {
    /// `struct S { a: A, b: B }`
    Named(Vec<FieldDescriptor>),
    /// `struct S(A, B);`
    Unnamed,
    /// `struct S;`
    Unit,
}

/// An attribute on a record declaration, such as `#[struct_into("crate::B")]`.
#[derive(Debug, PartialEq, Eq)]
pub struct Annotation {
    /// The identifiers of the attribute's path.
    pub path: Vec<String>,
    /// Everything after the path, delimiters included.
    pub tokens: String,
}

/// A record declaration.
#[derive(Debug, PartialEq, Eq)]
pub struct RecordSchema {
    pub ident: String,
    pub attrs: Vec<Annotation>,
    pub fields: FieldList,
}

/// A top-level declaration of a source unit.
#[derive(Debug, PartialEq, Eq)]
pub enum Declaration {
    Record(RecordSchema),
    /// Any declaration that is not a record.
    Other,
}

/// A path to a record, module by module: `crate::some::module::Record`.
#[derive(Debug, PartialEq, Eq)]
pub struct TargetPath {
    /// The path starts with `::`.
    pub leading_colon: bool,
    pub segments: Vec<String>,
}

/// The argument of an annotation, as far as the mapping reads it.
#[derive(Debug, PartialEq, Eq)]
pub enum ArgumentExpr {
    /// An expression between parentheses.
    Paren(Box<ArgumentExpr>),
    /// An array of expressions.
    Array(Vec<ArgumentExpr>),
    /// A string literal and the text it stands for.
    Str(String),
    /// A literal that is not a string.
    Literal,
    /// Any other expression.
    Other,
}

/// The view of a [`FieldDescriptor`].
pub struct FieldDescriptorView {
    pub name: Seq<char>,
    pub ty: TypeExprView,
}

/// The view of a [`FieldList`].
pub enum FieldListView {
    Named(Seq<FieldDescriptorView>),
    Unnamed,
    Unit,
}

/// The view of an [`Annotation`].
pub struct AnnotationView {
    pub path: Seq<Seq<char>>,
    pub tokens: Seq<char>,
}

/// The view of a [`RecordSchema`].
pub struct RecordSchemaView {
    pub ident: Seq<char>,
    pub attrs: Seq<AnnotationView>,
    pub fields: FieldListView,
}

/// The view of a [`Declaration`].
pub enum DeclarationView {
    Record(RecordSchemaView),
    Other,
}

/// The view of a [`TargetPath`].
pub struct TargetPathView {
    pub leading_colon: bool,
    pub segments: Seq<Seq<char>>,
}

/// The view of an [`ArgumentExpr`].
pub enum ArgumentExprView {
    Paren(Box<ArgumentExprView>),
    Array(Seq<ArgumentExprView>),
    Str(Seq<char>),
    Literal,
    Other,
}

impl View for FieldDescriptor {
    type V = FieldDescriptorView;

    open spec fn view(&self) -> FieldDescriptorView {
        FieldDescriptorView { name: self.name@, ty: self.ty@ }
    }
}

impl View for FieldList {
    type V = FieldListView;

    open spec fn view(&self) -> FieldListView {
        match *self {
            FieldList::Named(fields) => FieldListView::Named(views(fields@)),
            FieldList::Unnamed => FieldListView::Unnamed,
            FieldList::Unit => FieldListView::Unit,
        }
    }
}

impl View for Annotation {
    type V = AnnotationView;

    open spec fn view(&self) -> AnnotationView {
        AnnotationView { path: views(self.path@), tokens: self.tokens@ }
    }
}

impl View for RecordSchema {
    type V = RecordSchemaView;

    open spec fn view(&self) -> RecordSchemaView {
        RecordSchemaView { ident: self.ident@, attrs: views(self.attrs@), fields: self.fields@ }
    }
}

impl View for Declaration {
    type V = DeclarationView;

    open spec fn view(&self) -> DeclarationView {
        match *self {
            Declaration::Record(record) => DeclarationView::Record(record@),
            Declaration::Other => DeclarationView::Other,
        }
    }
}

impl View for TargetPath {
    type V = TargetPathView;

    open spec fn view(&self) -> TargetPathView {
        TargetPathView { leading_colon: self.leading_colon, segments: views(self.segments@) }
    }
}

impl TargetPath {
    /// The same path once more.
    pub fn copy(&self) -> (copy: Self)
        ensures
            copy@ == self@,
    {
        let mut segments: Vec<String> = Vec::new();
        let mut i: usize = 0;
        while i < self.segments.len()
            invariant
                i <= self.segments.len(),
                views(segments@) == views(self.segments@).take(i as int),
            decreases self.segments.len() - i,
        {
            let ghost before = views(segments@);
            segments.push(self.segments[i].clone());
            assert(views(segments@) =~= before.push(self.segments@[i as int]@));
            assert(views(self.segments@).take(i + 1) =~= before.push(self.segments@[i as int]@));
            i += 1;
        }
        assert(views(self.segments@).take(self.segments@.len() as int) == views(self.segments@));
        TargetPath { leading_colon: self.leading_colon, segments }
    }
}

/// The view of the argument of an annotation.
pub open spec fn argument_expr_view(args: ArgumentExpr) -> ArgumentExprView
    decreases args,
{
    match args {
        ArgumentExpr::Paren(inner) => ArgumentExprView::Paren(Box::new(argument_expr_view(*inner))),
        ArgumentExpr::Array(elements) => ArgumentExprView::Array(
            Seq::new(
                elements@.len(),
                |i: int|
                    if 0 <= i < elements@.len() {
                        argument_expr_view(elements@[i])
                    } else {
                        arbitrary()
                    },
            ),
        ),
        ArgumentExpr::Str(text) => ArgumentExprView::Str(text@),
        ArgumentExpr::Literal => ArgumentExprView::Literal,
        ArgumentExpr::Other => ArgumentExprView::Other,
    }
}

impl View for ArgumentExpr {
    type V = ArgumentExprView;

    open spec fn view(&self) -> ArgumentExprView {
        argument_expr_view(*self)
    }
}

} // verus!
