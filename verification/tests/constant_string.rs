use constant_string::ConstantString;
use constant_string::DeserializeError;
use constant_string::MustBeStrVisitor;
use constant_string::SchemaObject;
use constant_string::SchemaType;
use constant_string::Shape;
use constant_string::Value;
use constant_string::compare::str_eq;
use constant_string::decimal::i64_to_string;

#[test]
fn constant() {
    let c = ConstantString::new("constant");
    assert_eq!(c.deref(), "constant");
    assert_eq!(c.to_string(), "constant".to_owned());
}

#[test]
fn default() {
    let binding = ConstantString::new("constant");
    let c = binding.instance();
    assert_eq!(c.deref(), "constant");
    assert_eq!(c.to_string(), "constant".to_owned());
}

#[test]
fn utoipa() {
    assert_eq!(
        SchemaObject { schema_type: SchemaType::Str, enum_values: vec!["constant".to_owned()] },
        ConstantString::new("constant").schema()
    );
}

#[test]
fn round_trip() {
    let c = ConstantString::new("constant");
    let v = c.serialize();
    assert_eq!(v, Value::Str("constant".to_owned()));
    let d = ConstantString::deserialize("constant", &v);
    assert!(d.is_ok());
}

#[test]
fn accepts_exact_literal() {
    let r = ConstantString::deserialize("constant", &Value::Str("constant".to_owned()));
    let c = r.expect("deserializable value");
    assert_eq!(c.to_string(), "constant".to_owned());
    assert_eq!(c.serialize(), Value::Str("constant".to_owned()));
}

#[test]
fn rejects_other_string() {
    let r = ConstantString::deserialize("constant", &Value::Str("other".to_owned()));
    match r {
        Err(DeserializeError::InvalidValue { expected, actual }) => {
            assert_eq!(expected, "constant".to_owned());
            assert_eq!(actual, "other".to_owned());
        }
        _ => panic!("expected an invalid-value failure"),
    }
}

#[test]
fn rejects_number() {
    let r = ConstantString::deserialize("constant", &Value::Number(42));
    match r {
        Err(DeserializeError::InvalidType { expected, found }) => {
            assert_eq!(expected, "constant".to_owned());
            assert_eq!(found, Value::Number(42));
        }
        _ => panic!("expected an invalid-type failure"),
    }
}

#[test]
fn rejects_every_non_string_shape() {
    let inputs = [Value::Number(7), Value::Bool(true), Value::Null, Value::Sequence, Value::Mapping];
    for v in inputs {
        let r = ConstantString::deserialize("constant", &v);
        assert!(matches!(r, Err(DeserializeError::InvalidType { .. })));
    }
}

#[test]
fn schema_not_found() {
    let s = ConstantString::new("notFound").schema();
    assert_eq!(s.schema_type, SchemaType::Str);
    assert_eq!(s.enum_values, vec!["notFound".to_owned()]);
}

#[test]
fn empty_literal() {
    let ok = ConstantString::deserialize("", &Value::Str(String::new()));
    assert!(ok.is_ok());
    let err = ConstantString::deserialize("", &Value::Str("x".to_owned()));
    assert!(matches!(err, Err(DeserializeError::InvalidValue { .. })));
}

#[test]
fn case_sensitive() {
    let r = ConstantString::deserialize("constant", &Value::Str("Constant".to_owned()));
    assert!(matches!(r, Err(DeserializeError::InvalidValue { .. })));
}

#[test]
fn no_unicode_normalization() {
    let composed = "\u{e9}";
    let decomposed = "e\u{301}";
    let same = ConstantString::deserialize(composed, &Value::Str(composed.to_owned()));
    assert!(same.is_ok());
    let other = ConstantString::deserialize(composed, &Value::Str(decomposed.to_owned()));
    assert!(matches!(other, Err(DeserializeError::InvalidValue { .. })));
}

#[test]
fn invalid_value_message_content() {
    let r = ConstantString::deserialize("constant", &Value::Str("other".to_owned()));
    let e = match r {
        Err(e) => e,
        Ok(_) => panic!("expected a failure"),
    };
    assert_eq!(
        e.message(),
        "invalid value: string \"other\", expected \"constant\"".to_owned()
    );
}

#[test]
fn invalid_type_message_content() {
    let r = ConstantString::deserialize("constant", &Value::Number(42));
    let e = match r {
        Err(e) => e,
        Ok(_) => panic!("expected a failure"),
    };
    assert_eq!(e.message(), "invalid type: number 42, expected \"constant\"".to_owned());
}

#[test]
fn invalid_type_carries_the_number() {
    let a = ConstantString::deserialize("constant", &Value::Number(42));
    let b = ConstantString::deserialize("constant", &Value::Number(7));
    assert_ne!(a, b);
    let e = match a {
        Err(e) => e,
        Ok(_) => panic!("expected a failure"),
    };
    let f = match b {
        Err(f) => f,
        Ok(_) => panic!("expected a failure"),
    };
    assert_ne!(e.message(), f.message());
    assert_eq!(f.message(), "invalid type: number 7, expected \"constant\"".to_owned());
}

#[test]
fn invalid_type_boolean_message() {
    let r = ConstantString::deserialize("constant", &Value::Bool(true));
    let e = match r {
        Err(e) => e,
        Ok(_) => panic!("expected a failure"),
    };
    assert_eq!(e.message(), "invalid type: boolean true, expected \"constant\"".to_owned());
}

#[test]
fn invalid_type_null_message() {
    let r = ConstantString::deserialize("constant", &Value::Null);
    let e = match r {
        Err(e) => e,
        Ok(_) => panic!("expected a failure"),
    };
    assert_eq!(e.message(), "invalid type: null, expected \"constant\"".to_owned());
}

#[test]
fn decimal_rendering() {
    assert_eq!(i64_to_string(0), "0".to_owned());
    assert_eq!(i64_to_string(42), "42".to_owned());
    assert_eq!(i64_to_string(-7), "-7".to_owned());
    assert_eq!(i64_to_string(1000), "1000".to_owned());
    assert_eq!(i64_to_string(i64::MAX), "9223372036854775807".to_owned());
    assert_eq!(i64_to_string(i64::MIN), "-9223372036854775808".to_owned());
}

#[test]
fn duplicate_is_identical() {
    let v = Value::Str("abc".to_owned());
    assert_eq!(v.duplicate(), v);
    assert_eq!(Value::Number(-3).duplicate(), Value::Number(-3));
    assert_eq!(Value::Null.duplicate(), Value::Null);
}

#[test]
fn expecting_quotes_literal() {
    let v = MustBeStrVisitor("constant");
    assert_eq!(v.expecting(), "\"constant\"".to_owned());
}

#[test]
fn visitor_visit_str() {
    let v = MustBeStrVisitor("constant");
    assert!(v.visit_str("constant").is_ok());
    assert!(v.visit_str("other").is_err());
}

#[test]
fn shapes() {
    assert_eq!(Value::Str("a".to_owned()).shape(), Shape::Str);
    assert_eq!(Value::Number(1).shape(), Shape::Number);
    assert_eq!(Value::Bool(false).shape(), Shape::Bool);
    assert_eq!(Value::Null.shape(), Shape::Null);
    assert_eq!(Value::Sequence.shape(), Shape::Sequence);
    assert_eq!(Value::Mapping.shape(), Shape::Mapping);
}

#[test]
fn exact_comparison() {
    assert!(str_eq("abc", "abc"));
    assert!(!str_eq("abc", "abd"));
    assert!(!str_eq("abc", "ab"));
    assert!(!str_eq("", "a"));
    assert!(str_eq("", ""));
}
