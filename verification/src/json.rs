//! JSON documents, read with serde_json. The documents themselves stay in
//! serde_json's own type; what they hold is described by [`Json`].

use vstd::prelude::*;
use serde_json::Value;

verus! {

/// `serde_json::Value`, a JSON document in memory. Nothing of its inside is
/// claimed here: what a document holds is told by [`json_of`].
#[verifier::external_type_specification]
#[verifier::external_body]
pub struct ExValue(serde_json::Value);

/// `serde_json::Error`, why a text could not be read. It is only passed on.
#[verifier::external_type_specification]
#[verifier::external_body]
pub struct ExError(serde_json::Error);

/// What a JSON document holds.
pub enum Json {
    Null,
    Bool(bool),
    /// A number. It carries its value where serde_json holds it as a whole
    /// number that is not negative, and nothing for any other number.
    Number(Option<u64>),
    Text(Seq<char>),
    Array(Seq<Json>),
    Object(Map<Seq<char>, Json>),
}

impl Json {
    /// The member of an object under `key`; `Null` where there is none or
    /// where this is no object.
    pub open spec fn member(self, key: Seq<char>) -> Json {
        match self {
            Json::Object(members) if members.dom().contains(key) => members[key],
            _ => Json::Null,
        }
    }

    /// The element of an array at `index`; `Null` where there is none or where
    /// this is no array.
    pub open spec fn element(self, index: int) -> Json {
        match self {
            Json::Array(elements) if 0 <= index < elements.len() => elements[index],
            _ => Json::Null,
        }
    }

    /// The text, where this is one.
    pub open spec fn text(self) -> Option<Seq<char>> {
        match self {
            Json::Text(text) => Some(text),
            _ => None,
        }
    }

    /// The truth value, where this is one.
    pub open spec fn flag(self) -> Option<bool> {
        match self {
            Json::Bool(flag) => Some(flag),
            _ => None,
        }
    }

    /// The value of a whole number that is not negative, where this is one.
    pub open spec fn count(self) -> Option<u64> {
        match self {
            Json::Number(count) => count,
            _ => None,
        }
    }
}

/// What the document `value` holds. The functions of serde_json that look
/// into a document are described in terms of this.
pub uninterp spec fn json_of(value: Value) -> Json;

/// What the JSON text `text` holds as `serde_json::from_str` reads it;
/// nothing where it refuses the text.
pub uninterp spec fn parsed(text: Seq<char>) -> Option<Json>;

/// `serde_json::from_str`, reading a `Value`. The same text always gives the
/// same outcome, a document that holds the same or a refusal, and that is all
/// that is claimed: the grammar is serde_json's and is not restated.
#[verifier::external_body]
pub(crate) fn parse(text: &str) -> (document: Result<Value, serde_json::Error>)
    ensures
        match document {
            Ok(value) => parsed(text@) == Some(json_of(value)),
            Err(_) => parsed(text@) is None,
        },
{
    serde_json::from_str(text)
}

/// Indexing a `Value` with a string: the member under that key of an object,
/// and a `Null` value where the key is absent or the value is no object. It
/// never panics.
#[verifier::external_body]
pub(crate) fn member<'a>(value: &'a Value, key: &str) -> (found: &'a Value)
    ensures
        json_of(*found) == json_of(*value).member(key@),
{
    &value[key]
}

/// Indexing a `Value` with a number: the element at that place of an array,
/// and a `Null` value where the place is out of bounds or the value is no
/// array. It never panics.
#[verifier::external_body]
pub(crate) fn element<'a>(value: &'a Value, index: usize) -> (found: &'a Value)
    ensures
        json_of(*found) == json_of(*value).element(index as int),
{
    &value[index]
}

/// `Value::as_str` returns the text of a string value and nothing for any
/// other value.
pub assume_specification<'a>[ Value::as_str ](value: &'a Value) -> (text: Option<&'a str>)
    ensures
        match text {
            Some(text) => json_of(*value).text() == Some(text@),
            None => json_of(*value).text() is None,
        },
;

/// `Value::as_bool` returns the truth value of a boolean and nothing for any
/// other value.
pub assume_specification[ Value::as_bool ](value: &Value) -> (flag: Option<bool>)
    ensures
        flag == json_of(*value).flag(),
;

/// `Value::as_u64` returns the value of a number that serde_json holds as a
/// whole number that is not negative, and nothing for any other value.
pub assume_specification[ Value::as_u64 ](value: &Value) -> (count: Option<u64>)
    ensures
        count == json_of(*value).count(),
;

} // verus!
