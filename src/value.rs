//! Typed feature values.
use vstd::prelude::*;

verus! {

/// The type of a feature value.
#[derive(Clone, Copy, Debug, PartialEq, Eq, Structural)]
pub enum ValueType {
    Integer,
    Float,
    Boolean,
    String,
}

/// The value of a feature variant.
///
/// `Null` is the value a decision holds before one is computed; it is never a
/// configured variant value. A float is held as its IEEE 754 binary64 bit
/// pattern, as `f64::to_bits` gives it.
#[derive(Clone, Debug, PartialEq)]
pub enum Value {
    Null,
    Integer(i64),
    Float(u64),
    Boolean(bool),
    String(String),
}

impl ValueType {
    /// The name of the type, as it is displayed.
    pub open spec fn name(self) -> Seq<char> {
        match self {
            ValueType::Integer => "integer"@,
            ValueType::Float => "float"@,
            ValueType::Boolean => "boolean"@,
            ValueType::String => "string"@,
        }
    }

    /// Returns the name of the type: `integer`, `float`, `boolean` or `string`.
    pub fn to_string(&self) -> (r: String)
        ensures
            r@ == self.name(),
    {
        match self {
            ValueType::Integer => "integer".to_owned(),
            ValueType::Float => "float".to_owned(),
            ValueType::Boolean => "boolean".to_owned(),
            ValueType::String => "string".to_owned(),
        }
    }
}

impl Value {
    /// Whether the value's tag is exactly the given type; there is no coercion.
    pub open spec fn is_of(self, t: ValueType) -> bool {
        match (self, t) {
            (Value::Integer(_), ValueType::Integer) => true,
            (Value::Float(_), ValueType::Float) => true,
            (Value::Boolean(_), ValueType::Boolean) => true,
            (Value::String(_), ValueType::String) => true,
            _ => false,
        }
    }

    /// Checks whether the value has the specified type.
    pub fn has_type(&self, t: &ValueType) -> (r: bool)
        ensures
            r == self.is_of(*t),
    {
        match (self, t) {
            (Value::Integer(_), ValueType::Integer) => true,
            (Value::Float(_), ValueType::Float) => true,
            (Value::Boolean(_), ValueType::Boolean) => true,
            (Value::String(_), ValueType::String) => true,
            _ => false,
        }
    }

    /// Returns a copy of the value.
    pub fn duplicate(&self) -> (r: Value)
        ensures
            r == *self,
    {
        match self {
            Value::Null => Value::Null,
            Value::Integer(i) => Value::Integer(*i),
            Value::Float(bits) => Value::Float(*bits),
            Value::Boolean(b) => Value::Boolean(*b),
            Value::String(s) => Value::String(s.clone()),
        }
    }
}

impl From<i64> for Value {
    /// Converts an `i64` into an integer value.
    fn from(value: i64) -> (r: Value)
        ensures
            r == Value::Integer(value),
    {
        Value::Integer(value)
    }
}

impl vstd::std_specs::convert::FromSpecImpl<i64> for Value {
    open spec fn obeys_from_spec() -> bool {
        true
    }

    open spec fn from_spec(v: i64) -> Value {
        Value::Integer(v)
    }
}

impl From<bool> for Value {
    /// Converts a `bool` into a boolean value.
    fn from(value: bool) -> (r: Value)
        ensures
            r == Value::Boolean(value),
    {
        Value::Boolean(value)
    }
}

impl vstd::std_specs::convert::FromSpecImpl<bool> for Value {
    open spec fn obeys_from_spec() -> bool {
        true
    }

    open spec fn from_spec(v: bool) -> Value {
        Value::Boolean(v)
    }
}

impl From<String> for Value {
    /// Converts a `String` into a string value.
    fn from(value: String) -> (r: Value)
        ensures
            r == Value::String(value),
    {
        Value::String(value)
    }
}

impl vstd::std_specs::convert::FromSpecImpl<String> for Value {
    open spec fn obeys_from_spec() -> bool {
        true
    }

    open spec fn from_spec(v: String) -> Value {
        Value::String(v)
    }
}

} // verus!
