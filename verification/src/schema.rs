//! The description of a record type that the generator reads: its name, its
//! generic parameters, its annotations and its fields.

use vstd::prelude::*;

verus! {

/// The value of a `name = value` annotation.
pub enum Literal {
    /// A string, with what it holds.
    Str(String),
    /// Any other literal.
    Other,
}

pub enum LiteralView {
    Str(Seq<char>),
    Other,
}

impl View for Literal {
    type V = LiteralView;

    open spec fn view(&self) -> LiteralView {
        match *self {
            Literal::Str(s) => LiteralView::Str(s@),
            Literal::Other => LiteralView::Other,
        }
    }
}

/// One element between the brackets of a `name(..)` annotation.
pub enum ListElement {
    /// A bare identifier: the name of a type or of a trait.
    Word(String),
    /// Anything else: a literal, or an annotation with a value or a list of
    /// its own.
    Other,
}

pub enum ListElementView {
    Word(Seq<char>),
    Other,
}

impl View for ListElement {
    type V = ListElementView;

    open spec fn view(&self) -> ListElementView {
        match *self {
            ListElement::Word(s) => ListElementView::Word(s@),
            ListElement::Other => ListElementView::Other,
        }
    }
}

/// An annotation, in one of its three shapes.
pub enum Annotation {
    /// `#[name]`
    Flag { name: String },
    /// `#[name = value]`
    NameValue { name: String, value: Literal },
    /// `#[name(element, ..)]`
    List { name: String, elements: Vec<ListElement> },
}

pub enum AnnotationView {
    Flag { name: Seq<char> },
    NameValue { name: Seq<char>, value: LiteralView },
    List { name: Seq<char>, elements: Seq<ListElementView> },
}

impl View for Annotation {
    type V = AnnotationView;

    open spec fn view(&self) -> AnnotationView {
        match *self {
            Annotation::Flag { name } => AnnotationView::Flag { name: name@ },
            Annotation::NameValue { name, value } => AnnotationView::NameValue {
                name: name@,
                value: value@,
            },
            Annotation::List { name, elements } => AnnotationView::List {
                name: name@,
                elements: elements@.map_values(|e: ListElement| e@),
            },
        }
    }
}

/// An annotation on a field, with its source text.
pub struct FieldAnnotation {
    /// What the annotation says.
    pub value: Annotation,
    /// The annotation as it stands in the source, `#[` and `]` included.
    pub source: String,
}

pub struct FieldAnnotationView {
    pub value: AnnotationView,
    pub source: Seq<char>,
}

impl View for FieldAnnotation {
    type V = FieldAnnotationView;

    open spec fn view(&self) -> FieldAnnotationView {
        FieldAnnotationView { value: self.value@, source: self.source@ }
    }
}

/// A named field of the record type.
pub struct FieldSchema {
    pub name: String,
    /// The declared type, as source text. Spacing inside it is free.
    pub ty: String,
    /// The field's annotations, in declared order.
    pub annotations: Vec<FieldAnnotation>,
}

pub struct FieldSchemaView {
    pub name: Seq<char>,
    pub ty: Seq<char>,
    pub annotations: Seq<FieldAnnotationView>,
}

impl View for FieldSchema {
    type V = FieldSchemaView;

    open spec fn view(&self) -> FieldSchemaView {
        FieldSchemaView {
            name: self.name@,
            ty: self.ty@,
            annotations: self.annotations@.map_values(|a: FieldAnnotation| a@),
        }
    }
}

/// The generic parameters of the record type, as source text. Both are empty
/// for a type without parameters.
pub struct Generics {
    /// The parameter list as declared, with bounds: `< 'a , T : Clone >`.
    pub declared: String,
    /// The parameter list as it follows the type's name in a use of the type:
    /// `< 'a , T >`.
    pub applied: String,
}

pub struct GenericsView {
    pub declared: Seq<char>,
    pub applied: Seq<char>,
}

impl View for Generics {
    type V = GenericsView;

    open spec fn view(&self) -> GenericsView {
        GenericsView { declared: self.declared@, applied: self.applied@ }
    }
}

/// What stands behind the name of the declaration.
pub enum Body {
    /// A struct with named fields, in declared order.
    Named(Vec<FieldSchema>),
    /// A tuple struct.
    Tuple,
    /// A struct without fields.
    Unit,
    /// An enum.
    Enum,
}

pub enum BodyView {
    Named(Seq<FieldSchemaView>),
    Tuple,
    Unit,
    Enum,
}

impl View for Body {
    type V = BodyView;

    open spec fn view(&self) -> BodyView {
        match *self {
            Body::Named(fields) => BodyView::Named(fields@.map_values(|f: FieldSchema| f@)),
            Body::Tuple => BodyView::Tuple,
            Body::Unit => BodyView::Unit,
            Body::Enum => BodyView::Enum,
        }
    }
}

/// A declaration as the generator receives it.
pub struct StructSchema {
    pub name: String,
    pub generics: Generics,
    /// The annotations on the declaration, in declared order.
    pub annotations: Vec<Annotation>,
    pub body: Body,
}

pub struct StructSchemaView {
    pub name: Seq<char>,
    pub generics: GenericsView,
    pub annotations: Seq<AnnotationView>,
    pub body: BodyView,
}

impl View for StructSchema {
    type V = StructSchemaView;

    open spec fn view(&self) -> StructSchemaView {
        StructSchemaView {
            name: self.name@,
            generics: self.generics@,
            annotations: self.annotations@.map_values(|a: Annotation| a@),
            body: self.body@,
        }
    }
}

} // verus!
