//! The input values a self-describing decoder can hand to the validating
//! deserializer: a discriminated shape, with the contents when the shape is
//! a string.

use vstd::prelude::*;

verus! {

/// The shape classes a self-describing decoder can report.
#[derive(Clone, Copy, Debug, PartialEq, Eq)]
pub enum Shape {
    /// A string value.
    Str,
    /// A numeric value.
    Number,
    /// A boolean value.
    Bool,
    /// An explicit null.
    Null,
    /// A sequence of values.
    Sequence,
    /// A mapping from keys to values.
    Mapping,
}

/// A structured input value as a self-describing decoder reports it:
/// its shape, and, for a string, its contents.
///
/// The validating deserializer reads only the shape and the string
/// contents; the payloads of the other shapes are carried for diagnostic
/// rendering alone.
#[derive(Debug, PartialEq, Eq)]
pub enum Value {
    /// A string value and its contents.
    Str(String),
    /// A numeric value.
    Number(i64),
    /// A boolean value.
    Bool(bool),
    /// An explicit null.
    Null,
    /// A sequence of values.
    Sequence,
    /// A mapping from keys to values.
    Mapping,
}

/// The mathematical model of a [`Value`]: the same shapes, with the string
/// contents as a sequence of characters.
pub enum ValueView {
    /// A string value and its contents.
    Str(Seq<char>),
    /// A numeric value.
    Number(int),
    /// A boolean value.
    Bool(bool),
    /// An explicit null.
    Null,
    /// A sequence of values.
    Sequence,
    /// A mapping from keys to values.
    Mapping,
}

impl View for Value {
    type V = ValueView;

    open spec fn view(&self) -> ValueView {
        match self {
            Value::Str(s) => ValueView::Str(s@),
            Value::Number(n) => ValueView::Number(*n as int),
            Value::Bool(b) => ValueView::Bool(*b),
            Value::Null => ValueView::Null,
            Value::Sequence => ValueView::Sequence,
            Value::Mapping => ValueView::Mapping,
        }
    }
}

/// The shape class of a value.
pub open spec fn shape_of(v: ValueView) -> Shape {
    match v {
        ValueView::Str(_) => Shape::Str,
        ValueView::Number(_) => Shape::Number,
        ValueView::Bool(_) => Shape::Bool,
        ValueView::Null => Shape::Null,
        ValueView::Sequence => Shape::Sequence,
        ValueView::Mapping => Shape::Mapping,
    }
}

/// The validating deserializer bound to `literal` accepts exactly the
/// inputs that are strings whose contents equal `literal`.
pub open spec fn accepts(literal: Seq<char>, v: ValueView) -> bool {
    v matches ValueView::Str(s) && s == literal
}

/// The name of a shape class, as a diagnostic renderer writes it.
pub open spec fn shape_name(s: Shape) -> Seq<char> {
    match s {
        Shape::Str => "string"@,
        Shape::Number => "number"@,
        Shape::Bool => "boolean"@,
        Shape::Null => "null"@,
        Shape::Sequence => "sequence"@,
        Shape::Mapping => "mapping"@,
    }
}

/// The name of a shape class, for building diagnostic messages.
pub fn shape_label(s: Shape) -> (r: &'static str)
    ensures
        r@ == shape_name(s),
{
    match s {
        Shape::Str => "string",
        Shape::Number => "number",
        Shape::Bool => "boolean",
        Shape::Null => "null",
        Shape::Sequence => "sequence",
        Shape::Mapping => "mapping",
    }
}

impl Value {
    /// The shape class of this value.
    pub fn shape(&self) -> (s: Shape)
        ensures
            s == shape_of(self@),
    {
        match self {
            Value::Str(_) => Shape::Str,
            Value::Number(_) => Shape::Number,
            Value::Bool(_) => Shape::Bool,
            Value::Null => Shape::Null,
            Value::Sequence => Shape::Sequence,
            Value::Mapping => Shape::Mapping,
        }
    }

    /// An identical copy of this value.
    pub fn duplicate(&self) -> (v: Value)
        ensures
            v@ == self@,
    {
        match self {
            Value::Str(s) => Value::Str(s.clone()),
            Value::Number(n) => Value::Number(*n),
            Value::Bool(b) => Value::Bool(*b),
            Value::Null => Value::Null,
            Value::Sequence => Value::Sequence,
            Value::Mapping => Value::Mapping,
        }
    }
}

} // verus!
