//! The constant-value type: an instance bound to one string literal, with
//! validating deserialization, serialization, and schema emission.

use vstd::prelude::*;
use crate::schema::{SchemaObject, SchemaType};
use crate::value::{accepts, Value, ValueView};
use crate::visitor::{DeserializeError, MustBeStrVisitor};

verus! {

/// An instance of a constant-value type: a value bound to exactly one
/// string literal, fixed when the binding is made and never changed.
///
/// Every instance of a binding represents the bound literal and nothing
/// else: there is no other state, and construction cannot produce an
/// instance that reads differently.
#[derive(Clone, Copy, Debug, PartialEq, Eq)]
pub struct ConstantString {
    /// The bound literal.
    pub literal: &'static str,
}

impl View for ConstantString {
    type V = Seq<char>;

    open spec fn view(&self) -> Seq<char> {
        self.literal@
    }
}

impl ConstantString {
    /// Binds a constant-value type to its literal.
    pub fn new(literal: &'static str) -> (c: Self)
        ensures
            c@ == literal@,
    {
        ConstantString { literal }
    }

    /// Default construction of an instance of this binding: always
    /// succeeds, and the instance always represents the bound literal.
    pub fn instance(&self) -> (c: Self)
        ensures
            c@ == self@,
    {
        ConstantString { literal: self.literal }
    }

    /// The bound literal.
    pub fn deref(&self) -> (r: &'static str)
        ensures
            r@ == self@,
    {
        self.literal
    }

    /// The bound literal as an owned string.
    pub fn to_string(&self) -> (r: String)
        ensures
            r@ == self@,
    {
        self.literal.to_owned()
    }

    /// Serializes the constant: emits the bound literal as a string value.
    /// Never fails.
    pub fn serialize(&self) -> (v: Value)
        ensures
            v@ == ValueView::Str(self@),
    {
        Value::Str(self.literal.to_owned())
    }

    /// Validating deserialization: yields an instance of the binding for
    /// `literal` exactly when `input` is a string whose contents equal
    /// `literal`. A string with different contents fails with
    /// `InvalidValue`, citing the literal and the observed string; any
    /// other shape fails with `InvalidType`, citing the literal and the
    /// value found.
    pub fn deserialize(literal: &'static str, input: &Value) -> (r: Result<
        Self,
        DeserializeError,
    >)
        ensures
            r is Ok <==> accepts(literal@, input@),
            r matches Ok(c) ==> c@ == literal@,
            r matches Err(e) ==> match e {
                DeserializeError::InvalidValue { expected, actual } => input@ matches ValueView::Str(
                    s,
                ) && s != literal@ && expected@ == literal@ && actual@ == s,
                DeserializeError::InvalidType { expected, found } => !(input@ is Str)
                    && expected@ == literal@ && found@ == input@,
            },
    {
        match MustBeStrVisitor(literal).visit_value(input) {
            Ok(_) => Ok(ConstantString { literal }),
            Err(e) => Err(e),
        }
    }

    /// Emits the schema descriptor of this binding: a string-typed node
    /// whose enumerated permitted values are exactly the one bound literal.
    pub fn schema(&self) -> (s: SchemaObject)
        ensures
            s.schema_type == SchemaType::Str,
            s.enum_values.deep_view() == seq![self@],
    {
        let mut values: Vec<String> = Vec::new();
        values.push(self.literal.to_owned());
        proof {
            assert(values.deep_view() =~= seq![self@]);
        }
        SchemaObject { schema_type: SchemaType::Str, enum_values: values }
    }
}

/// Round trip: for every bound literal, the string value the serializer
/// emits is accepted by the validating deserializer bound to the same
/// literal.
pub proof fn lemma_serialize_round_trip(literal: Seq<char>)
    ensures
        accepts(literal, ValueView::Str(literal)),
{
}

/// Idempotence: every successfully constructed instance represents its
/// bound literal, so the value it serializes to is accepted again by the
/// deserializer of the same binding.
pub proof fn lemma_reserialize_round_trip(c: ConstantString)
    ensures
        accepts(c@, ValueView::Str(c@)),
{
}

} // verus!
