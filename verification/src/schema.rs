//! The schema descriptor: a declarative fragment that documentation and
//! validation tooling can embed in a parent record's field schema.

use vstd::prelude::*;

verus! {

/// The primitive kind of a schema node.
#[derive(Clone, Copy, Debug, PartialEq, Eq)]
pub enum SchemaType {
    /// A string value.
    Str,
    /// A numeric value.
    Number,
    /// A boolean value.
    Boolean,
    /// A null value.
    Null,
    /// An array of values.
    Array,
    /// An object with named fields.
    Object,
}

/// A schema node: the primitive kind of a field together with the explicit
/// enumeration of its permitted values.
///
/// A node with an enumeration of size one describes a fixed value, not a
/// free-form input; an empty enumeration leaves the kind unrestricted. The
/// node is plain data, so a surrounding record schema can inline it as a
/// field description.
#[derive(Debug, PartialEq, Eq)]
pub struct SchemaObject {
    /// The primitive kind of the described field.
    pub schema_type: SchemaType,
    /// The permitted values, as an explicit enumeration.
    pub enum_values: Vec<String>,
}

} // verus!
