//! The declared shape of a record, as read from its definition.
use vstd::prelude::*;

verus! {

/// One generic argument between angle brackets of a path segment.
pub enum GenericArg {
    /// A type argument, with its source text.
    Type(String),
    /// A lifetime, const, binding or constraint argument.
    Other,
}

/// The arguments that follow the name of a path segment.
pub enum PathArgs {
    /// No arguments: `Name`.
    Bare,
    /// Angle-bracketed arguments: `Name<A, B>`.
    AngleBracketed(Vec<GenericArg>),
    /// Parenthesized arguments: `Fn(A) -> B`.
    Parenthesized,
}

/// One segment of a type path: its name and its arguments.
pub struct PathSegment {
    pub ident: String,
    pub args: PathArgs,
}

/// The structure of a declared type, as far as classification reads it.
pub enum TypeShape {
    /// A path type; `qualified` is set for a `<T as Trait>::Assoc` form.
    Path { qualified: bool, segments: Vec<PathSegment> },
    /// A reference `&T` or `&mut T`.
    Reference,
    /// A tuple `(A, B)`.
    Tuple,
    /// Any other type form (array, slice, pointer, function, ...).
    Other,
}

/// A declared type: its source text and its structure.
pub struct TypeExpr {
    pub text: String,
    pub shape: TypeShape,
}

/// A named field of a record.
pub struct FieldDescriptor {
    pub name: String,
    pub ty: TypeExpr,
}

/// The body of the type definition that generation is asked for.
pub enum RecordData {
    /// A struct with named fields, in declaration order.
    Named(Vec<FieldDescriptor>),
    /// A tuple struct with the given number of fields.
    Unnamed(usize),
    /// A unit struct.
    Unit,
    /// An enum or a union.
    NotAStruct,
}

/// A type definition: its name and its body.
pub struct RecordInput {
    pub name: String,
    pub data: RecordData,
}

} // verus!
