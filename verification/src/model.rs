//! The shape of a type definition, as far as the generators read it.

use vstd::prelude::*;
use crate::classify::inner_type;
use crate::text::{join_terminated, push_terminated, texts};

verus! {

/// One argument between the angle brackets of a path segment. Only a type
/// argument keeps its content; of the others the kind alone matters.
#[derive(Debug, PartialEq, Eq)]
pub enum GenericArgument {
    /// A lifetime, as in `Cow<'a, str>`.
    Lifetime,
    /// A type, as in `Vec<u8>`.
    Type(TypeRef),
    /// A constant expression, as in `Matrix<{ N + 1 }>`.
    Const,
    /// An associated type set equal to a type, as in `Iterator<Item = u8>`.
    Binding,
    /// An associated type with a bound, as in `Iterator<Item: Clone>`.
    Constraint,
}

/// What follows the name in one segment of a path.
#[derive(Debug, PartialEq, Eq)]
pub enum PathArguments {
    /// Nothing, as in `String`.
    Empty,
    /// Arguments in angle brackets, as in `Vec<u8>`.
    AngleBracketed(Vec<GenericArgument>),
    /// Arguments in round brackets, as in `Fn(u8) -> bool`.
    Parenthesized,
}

/// One segment of a path: a name and its arguments.
#[derive(Debug, PartialEq, Eq)]
pub struct PathSegment {
    pub ident: String,
    pub arguments: PathArguments,
}

/// The structure of a type reference. A path keeps its segments; every other
/// form of type (reference, tuple, array, ...) is told apart from a path and
/// no further.
#[derive(Debug, PartialEq, Eq)]
pub enum TypeShape {
    Path(Vec<PathSegment>),
    Other,
}

/// A type as written at a field: its source text and its structure.
#[derive(Debug, PartialEq, Eq)]
pub struct TypeRef {
    /// The type as source text, copied into the generated declarations.
    pub text: String,
    pub shape: TypeShape,
}

/// One named field of a record.
#[derive(Debug, PartialEq, Eq)]
pub struct FieldDescription {
    pub name: String,
    pub declared_type: TypeRef,
}

/// The form of a type definition.
#[derive(Debug, PartialEq, Eq)]
pub enum Shape {
    /// A struct with named fields, in declaration order.
    Named(Vec<FieldDescription>),
    /// A struct with positional fields.
    Tuple,
    /// A struct without fields.
    Unit,
    Enum,
    Union,
}

/// A type definition: the input of both generators.
#[derive(Debug, PartialEq, Eq)]
pub struct RecordDescription {
    pub name: String,
    pub shape: Shape,
}

/// A [`GenericArgument`] as a value.
pub enum ArgumentSpec {
    Lifetime,
    Type(TypeSpec),
    Const,
    Binding,
    Constraint,
}

/// [`PathArguments`] as a value.
pub enum ArgumentsSpec {
    Empty,
    AngleBracketed(Seq<ArgumentSpec>),
    Parenthesized,
}

/// A [`PathSegment`] as a value.
pub struct SegmentSpec {
    pub ident: Seq<char>,
    pub arguments: ArgumentsSpec,
}

/// A [`TypeShape`] as a value.
pub enum TypeShapeSpec {
    Path(Seq<SegmentSpec>),
    Other,
}

/// A [`TypeRef`] as a value.
pub struct TypeSpec {
    pub text: Seq<char>,
    pub shape: TypeShapeSpec,
}

/// The view of a type reference.
pub open spec fn type_spec(ty: TypeRef) -> TypeSpec
    decreases ty,
{
    TypeSpec { text: ty.text@, shape: shape_spec(ty.shape) }
}

/// The view of a type's structure.
pub open spec fn shape_spec(shape: TypeShape) -> TypeShapeSpec
    decreases shape,
{
    match shape {
        TypeShape::Path(segments) => TypeShapeSpec::Path(
            Seq::new(
                segments@.len(),
                |i: int|
                    if 0 <= i < segments@.len() {
                        segment_spec(segments@[i])
                    } else {
                        arbitrary()
                    },
            ),
        ),
        TypeShape::Other => TypeShapeSpec::Other,
    }
}

/// The view of a path segment.
pub open spec fn segment_spec(segment: PathSegment) -> SegmentSpec
    decreases segment,
{
    SegmentSpec { ident: segment.ident@, arguments: arguments_spec(segment.arguments) }
}

/// The view of a segment's arguments.
pub open spec fn arguments_spec(arguments: PathArguments) -> ArgumentsSpec
    decreases arguments,
{
    match arguments {
        PathArguments::Empty => ArgumentsSpec::Empty,
        PathArguments::AngleBracketed(list) => ArgumentsSpec::AngleBracketed(
            Seq::new(
                list@.len(),
                |i: int|
                    if 0 <= i < list@.len() {
                        argument_spec(list@[i])
                    } else {
                        arbitrary()
                    },
            ),
        ),
        PathArguments::Parenthesized => ArgumentsSpec::Parenthesized,
    }
}

/// The view of a generic argument.
pub open spec fn argument_spec(argument: GenericArgument) -> ArgumentSpec
    decreases argument,
{
    match argument {
        GenericArgument::Lifetime => ArgumentSpec::Lifetime,
        GenericArgument::Type(ty) => ArgumentSpec::Type(type_spec(ty)),
        GenericArgument::Const => ArgumentSpec::Const,
        GenericArgument::Binding => ArgumentSpec::Binding,
        GenericArgument::Constraint => ArgumentSpec::Constraint,
    }
}

impl View for TypeRef {
    type V = TypeSpec;

    open spec fn view(&self) -> TypeSpec {
        type_spec(*self)
    }
}

impl View for TypeShape {
    type V = TypeShapeSpec;

    open spec fn view(&self) -> TypeShapeSpec {
        shape_spec(*self)
    }
}

impl View for PathArguments {
    type V = ArgumentsSpec;

    open spec fn view(&self) -> ArgumentsSpec {
        arguments_spec(*self)
    }
}

impl View for PathSegment {
    type V = SegmentSpec;

    open spec fn view(&self) -> SegmentSpec {
        segment_spec(*self)
    }
}

impl View for GenericArgument {
    type V = ArgumentSpec;

    open spec fn view(&self) -> ArgumentSpec {
        argument_spec(*self)
    }
}

/// A field as the generators see it.
pub struct FieldSpec {
    pub name: Seq<char>,
    /// The declared type, as source text.
    pub declared: Seq<char>,
    /// Where the declared type is written `Option<T>`: the text of `T`.
    pub inner: Option<Seq<char>>,
}

impl FieldSpec {
    /// Whether the field is declared with an optional wrapper.
    pub open spec fn optional(self) -> bool {
        self.inner is Some
    }

    /// The type of the value that the field holds once present: the wrapped
    /// type for an optional field, the declared type for any other.
    pub open spec fn value_type(self) -> Seq<char> {
        match self.inner {
            Some(wrapped) => wrapped,
            None => self.declared,
        }
    }
}

/// The name under which the optional wrapper is recognised.
pub open spec fn optional_wrapper() -> Seq<char> {
    "Option"@
}

impl View for FieldDescription {
    type V = FieldSpec;

    open spec fn view(&self) -> FieldSpec {
        FieldSpec {
            name: self.name@,
            declared: self.declared_type@.text,
            inner: match inner_type(optional_wrapper(), self.declared_type@) {
                Some(wrapped) => Some(wrapped.text),
                None => None,
            },
        }
    }
}

/// The fields of a record, each by its view.
pub open spec fn field_specs(fields: Seq<FieldDescription>) -> Seq<FieldSpec> {
    fields.map_values(|field: FieldDescription| field@)
}

pub enum ShapeSpec {
    Named(Seq<FieldSpec>),
    Tuple,
    Unit,
    Enum,
    Union,
}

impl View for Shape {
    type V = ShapeSpec;

    open spec fn view(&self) -> ShapeSpec {
        match self {
            Shape::Named(fields) => ShapeSpec::Named(field_specs(fields@)),
            Shape::Tuple => ShapeSpec::Tuple,
            Shape::Unit => ShapeSpec::Unit,
            Shape::Enum => ShapeSpec::Enum,
            Shape::Union => ShapeSpec::Union,
        }
    }
}

pub struct RecordSpec {
    pub name: Seq<char>,
    pub shape: ShapeSpec,
}

impl ShapeSpec {
    /// The named fields in declaration order; none for every other shape.
    pub open spec fn fields(self) -> Seq<FieldSpec> {
        match self {
            ShapeSpec::Named(fields) => fields,
            _ => Seq::empty(),
        }
    }
}

impl RecordSpec {
    /// The named fields in declaration order; none for every other shape.
    pub open spec fn fields(self) -> Seq<FieldSpec> {
        self.shape.fields()
    }
}

impl View for RecordDescription {
    type V = RecordSpec;

    open spec fn view(&self) -> RecordSpec {
        RecordSpec { name: self.name@, shape: self.shape@ }
    }
}

/// Why a generator refuses a type definition.
#[derive(Clone, Copy, Debug, PartialEq, Eq, Structural)]
pub enum Rejection {
    TupleStruct,
    UnitStruct,
    Enum,
    Union,
}

/// What a generator hands back: declarations as source text, in the order in
/// which they are to be spliced in.
#[derive(Clone, Debug, PartialEq, Eq)]
pub struct GeneratedCode {
    pub declarations: Vec<String>,
}

impl View for GeneratedCode {
    type V = Seq<Seq<char>>;

    open spec fn view(&self) -> Seq<Seq<char>> {
        texts(self.declarations@)
    }
}

impl GeneratedCode {
    /// All declarations as one text, a line each.
    pub fn source(&self) -> (out: String)
        ensures
            out@ == join_terminated(self@, "\n"@),
    {
        let mut out = String::new();
        push_terminated(&mut out, &self.declarations, "\n");
        out
    }
}

} // verus!
