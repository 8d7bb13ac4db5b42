//! Constant string values.
//!
//! A constant-value type holds exactly one possible value: a string literal
//! fixed when the type is bound. Such values serve as self-documenting,
//! zero-information markers inside structured records (an error payload whose
//! `code` field must always read `"notFound"`, a protocol version tag).
//!
//! The crate provides the three operations such a binding needs:
//!
//! - a validating deserializer, which accepts a self-describing input value
//!   exactly when it is a string equal to the bound literal and otherwise
//!   reports a typed failure;
//! - a serializer, which emits the bound literal as a string value and never
//!   fails;
//! - a schema descriptor emitter, which describes the binding for API
//!   documentation tooling as a string restricted to a single permitted value.

pub mod compare;
pub mod constant;
pub mod decimal;
pub mod schema;
pub mod value;
pub mod visitor;

pub use constant::ConstantString;
pub use schema::SchemaObject;
pub use schema::SchemaType;
pub use value::Shape;
pub use value::Value;
pub use value::ValueView;
pub use visitor::DeserializeError;
pub use visitor::MustBeStrVisitor;
