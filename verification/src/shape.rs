//! The record definitions that the derivation reads.

use vstd::prelude::*;

verus! {

/// One declared field: its name and the text of its type.
#[derive(Debug)]
pub struct Field {
    pub name: String,
    pub ty: String,
}

/// What a `Field` stands for in contracts.
pub struct FieldView {
    pub name: Seq<char>,
    pub ty: Seq<char>,
}

impl View for Field {
    type V = FieldView;

    open spec fn view(&self) -> FieldView {
        FieldView { name: self.name@, ty: self.ty@ }
    }
}

/// The views of a run of fields, in order.
pub open spec fn field_views(fields: Seq<Field>) -> Seq<FieldView> {
    fields.map_values(|f: Field| f@)
}

/// The form in which a type definition stores its data.
#[derive(Debug)]
pub enum Shape {
    /// A struct with braces and named fields, in declaration order.
    Named(Vec<Field>),
    /// A struct with positional fields.
    Tuple,
    /// A struct without fields.
    Unit,
    /// An enumeration.
    Enumeration,
    /// A union.
    Union,
}

/// What a `Shape` stands for in contracts.
pub enum ShapeView {
    Named(Seq<FieldView>),
    Tuple,
    Unit,
    Enumeration,
    Union,
}

impl View for Shape {
    type V = ShapeView;

    open spec fn view(&self) -> ShapeView {
        match self {
            Shape::Named(fields) => ShapeView::Named(field_views(fields@)),
            Shape::Tuple => ShapeView::Tuple,
            Shape::Unit => ShapeView::Unit,
            Shape::Enumeration => ShapeView::Enumeration,
            Shape::Union => ShapeView::Union,
        }
    }
}

/// A type definition: the type's name and the shape of its data.
#[derive(Debug)]
pub struct Definition {
    pub name: String,
    pub shape: Shape,
}

/// What a `Definition` stands for in contracts.
pub struct DefinitionView {
    pub name: Seq<char>,
    pub shape: ShapeView,
}

impl View for Definition {
    type V = DefinitionView;

    open spec fn view(&self) -> DefinitionView {
        DefinitionView { name: self.name@, shape: self.shape@ }
    }
}

impl DefinitionView {
    /// A companion can be derived for a struct with at least one named field,
    /// and for nothing else.
    pub open spec fn supported(self) -> bool {
        self.shape matches ShapeView::Named(fields) && fields.len() > 0
    }

    /// The declared fields of a struct with named fields; empty for every other shape.
    pub open spec fn fields(self) -> Seq<FieldView> {
        match self.shape {
            ShapeView::Named(fields) => fields,
            _ => Seq::empty(),
        }
    }
}

impl Definition {
    /// Tells whether a companion can be derived for this definition.
    pub fn is_supported(&self) -> (b: bool)
        ensures
            b == self@.supported(),
    {
        match &self.shape {
            Shape::Named(fields) => fields.len() > 0,
            _ => false,
        }
    }
}

} // verus!
