//! The validating deserializer: a visitor that accepts any self-describing
//! input shape, succeeds exactly on the string equal to its bound literal,
//! and reports a typed failure on everything else.

use vstd::prelude::*;
use vstd::string::StringExecFns;
use crate::compare::str_eq;
use crate::decimal::{dec_int, i64_to_string};
use crate::value::{accepts, shape_name, shape_label, Shape, Value, ValueView};

verus! {

/// A string rendered between quotation marks, as diagnostics cite it.
pub open spec fn quoted(s: Seq<char>) -> Seq<char> {
    "\""@ + s + "\""@
}

/// How a diagnostic names an observed value: its shape class, followed by
/// its contents where the model carries them.
pub open spec fn found_name(v: ValueView) -> Seq<char> {
    match v {
        ValueView::Str(s) => shape_name(Shape::Str) + " "@ + quoted(s),
        ValueView::Number(n) => shape_name(Shape::Number) + " "@ + dec_int(n),
        ValueView::Bool(b) => shape_name(Shape::Bool) + " "@ + (if b {
            "true"@
        } else {
            "false"@
        }),
        ValueView::Null => shape_name(Shape::Null),
        ValueView::Sequence => shape_name(Shape::Sequence),
        ValueView::Mapping => shape_name(Shape::Mapping),
    }
}

/// The diagnostic message for a string input that is not the bound literal.
pub open spec fn invalid_value_message(expected: Seq<char>, actual: Seq<char>) -> Seq<char> {
    "invalid value: string "@ + quoted(actual) + ", expected "@ + quoted(expected)
}

/// The diagnostic message for an input that is not a string at all.
pub open spec fn invalid_type_message(expected: Seq<char>, found: ValueView) -> Seq<char> {
    "invalid type: "@ + found_name(found) + ", expected "@ + quoted(expected)
}

/// Appends the name of an observed value to a diagnostic under
/// construction.
fn append_found(m: &mut String, v: &Value)
    ensures
        final(m)@ == old(m)@ + found_name(v@),
{
    match v {
        Value::Str(s) => {
            m.append(shape_label(Shape::Str));
            m.append(" ");
            m.append("\"");
            m.append(s.as_str());
            m.append("\"");
            proof {
                assert(m@ =~= old(m)@ + found_name(v@));
            }
        },
        Value::Number(n) => {
            m.append(shape_label(Shape::Number));
            m.append(" ");
            let digits = i64_to_string(*n);
            m.append(digits.as_str());
            proof {
                assert(m@ =~= old(m)@ + found_name(v@));
            }
        },
        Value::Bool(b) => {
            m.append(shape_label(Shape::Bool));
            m.append(" ");
            let word: &str = if *b {
                "true"
            } else {
                "false"
            };
            m.append(word);
            proof {
                assert(m@ =~= old(m)@ + found_name(v@));
            }
        },
        Value::Null => m.append(shape_label(Shape::Null)),
        Value::Sequence => m.append(shape_label(Shape::Sequence)),
        Value::Mapping => m.append(shape_label(Shape::Mapping)),
    }
}

/// Why validation of an input against a bound literal failed.
#[derive(Debug, PartialEq, Eq)]
pub enum DeserializeError {
    /// The input was a string, but not the bound literal: the failure
    /// carries the expected literal and the string actually observed.
    InvalidValue {
        /// The bound literal the input was checked against.
        expected: String,
        /// The string the input actually held.
        actual: String,
    },
    /// The input was not a string at all: the failure carries the expected
    /// literal and the value actually observed, shape class and contents.
    InvalidType {
        /// The bound literal the input was checked against.
        expected: String,
        /// The value the input actually held.
        found: Value,
    },
}

impl DeserializeError {
    /// The model of this failure's diagnostic message: it cites both the
    /// expected literal and what was actually observed.
    pub open spec fn message_view(&self) -> Seq<char> {
        match self {
            DeserializeError::InvalidValue { expected, actual } => invalid_value_message(
                expected@,
                actual@,
            ),
            DeserializeError::InvalidType { expected, found } => invalid_type_message(
                expected@,
                found@,
            ),
        }
    }

    /// Renders this failure as a diagnostic message naming both the
    /// expected literal and what was actually observed.
    pub fn message(&self) -> (r: String)
        ensures
            r@ == self.message_view(),
    {
        match self {
            DeserializeError::InvalidValue { expected, actual } => {
                let mut m = "invalid value: string ".to_owned();
                m.append("\"");
                m.append(actual.as_str());
                m.append("\"");
                m.append(", expected ");
                m.append("\"");
                m.append(expected.as_str());
                m.append("\"");
                proof {
                    assert(m@ =~= self.message_view());
                }
                m
            },
            DeserializeError::InvalidType { expected, found } => {
                let mut m = "invalid type: ".to_owned();
                append_found(&mut m, found);
                m.append(", expected ");
                m.append("\"");
                m.append(expected.as_str());
                m.append("\"");
                proof {
                    assert(m@ =~= self.message_view());
                }
                m
            },
        }
    }
}

/// A visitor that validates a self-describing input against the one string
/// it holds: the bound literal of a constant-value type.
#[derive(Clone, Copy, Debug)]
pub struct MustBeStrVisitor(pub &'static str);

impl MustBeStrVisitor {
    /// Describes what the visitor expects: the bound literal, quoted.
    pub fn expecting(&self) -> (r: String)
        ensures
            r@ == quoted(self.0@),
    {
        let mut m = "\"".to_owned();
        m.append(self.0);
        m.append("\"");
        proof {
            assert(m@ =~= quoted(self.0@));
        }
        m
    }

    /// Validates a string input: succeeds exactly when the contents equal
    /// the bound literal, character for character; otherwise fails with
    /// `InvalidValue`, citing the literal and the observed string.
    pub fn visit_str(self, v: &str) -> (r: Result<(), DeserializeError>)
        ensures
            r is Ok <==> v@ == self.0@,
            r matches Err(e) ==> e matches DeserializeError::InvalidValue { expected, actual }
                && expected@ == self.0@ && actual@ == v@,
    {
        if str_eq(v, self.0) {
            Ok(())
        } else {
            Err(
                DeserializeError::InvalidValue {
                    expected: self.0.to_owned(),
                    actual: v.to_owned(),
                },
            )
        }
    }

    /// Validates an input of any self-describing shape: a string is checked
    /// against the bound literal, every other shape fails with
    /// `InvalidType`, citing the literal and the value found.
    pub fn visit_value(self, input: &Value) -> (r: Result<(), DeserializeError>)
        ensures
            r is Ok <==> accepts(self.0@, input@),
            r matches Err(e) ==> match e {
                DeserializeError::InvalidValue { expected, actual } => input@ matches ValueView::Str(
                    s,
                ) && s != self.0@ && expected@ == self.0@ && actual@ == s,
                DeserializeError::InvalidType { expected, found } => !(input@ is Str)
                    && expected@ == self.0@ && found@ == input@,
            },
    {
        match input {
            Value::Str(s) => self.visit_str(s.as_str()),
            _ => Err(
                DeserializeError::InvalidType {
                    expected: self.0.to_owned(),
                    found: input.duplicate(),
                },
            ),
        }
    }
}

} // verus!
