//! Free-form annotation data attached to a record, held as a JSON tree.

use vstd::prelude::*;

verus! {

/// A JSON number, carried through unchanged.
#[verifier::external_type_specification]
#[verifier::external_body]
pub struct ExNumber(serde_json::Number);

/// A JSON value.
///
/// Object members keep the order in which they were read.
#[derive(Debug)]
pub enum JsonValue {
    Null,
    Bool(bool),
    Number(serde_json::Number),
    String(String),
    Array(Vec<JsonValue>),
    Object(Vec<(String, JsonValue)>),
}

impl JsonValue {
    /// The value carries no information: null, or an empty object, array or string.
    pub open spec fn is_blank(&self) -> bool {
        match self {
            JsonValue::Null => true,
            JsonValue::Object(m) => m@.len() == 0,
            JsonValue::Array(a) => a@.len() == 0,
            JsonValue::String(s) => s@.len() == 0,
            _ => false,
        }
    }

    /// The value is an object without members.
    pub open spec fn is_empty_object(&self) -> bool {
        match self {
            JsonValue::Object(m) => m@.len() == 0,
            _ => false,
        }
    }

    pub fn is_null(&self) -> (r: bool)
        ensures
            r == (*self is Null),
    {
        match self {
            JsonValue::Null => true,
            _ => false,
        }
    }

    /// Whether the value carries no information (see `is_blank`).
    pub fn is_blank_value(&self) -> (r: bool)
        ensures
            r == self.is_blank(),
    {
        match self {
            JsonValue::Null => true,
            JsonValue::Object(m) => m.len() == 0,
            JsonValue::Array(a) => a.len() == 0,
            JsonValue::String(s) => s.as_str().is_empty(),
            _ => false,
        }
    }
}

/// The annotation data of a new record: an empty object.
pub fn default_custom_data() -> (r: JsonValue)
    ensures
        r.is_empty_object(),
{
    JsonValue::Object(Vec::new())
}

} // verus!
