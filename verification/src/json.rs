//! JSON values as the library reads them, and the calls into `serde_json`
//! that parse and write JSON text.

use crate::text::str_eq;
use vstd::prelude::*;

verus! {

/// What the library reads of a JSON number: the number as a `u64`, where it
/// is a non-negative integer that fits.
#[derive(Debug)]
pub struct JsonNumber {
    pub unsigned: Option<u64>,
}

/// A JSON value. An object is the list of its members.
#[derive(Debug)]
pub enum JsonValue {
    Null,
    Bool(bool),
    Number(JsonNumber),
    String(String),
    Array(Vec<JsonValue>),
    Object(Vec<(String, JsonValue)>),
}

/// The place of the first member named `key` among `members` from `from` on,
/// or the number of members if there is none.
pub open spec fn member_index(members: Seq<(String, JsonValue)>, key: Seq<char>, from: int) -> int
    decreases members.len() - from,
{
    if from < 0 || from >= members.len() {
        members.len() as int
    } else if members[from].0@ == key {
        from
    } else {
        member_index(members, key, from + 1)
    }
}

/// The value of the first member named `key`, if there is one.
pub open spec fn member(members: Seq<(String, JsonValue)>, key: Seq<char>) -> Option<JsonValue> {
    let i = member_index(members, key, 0);
    if i < members.len() {
        Some(members[i].1)
    } else {
        None
    }
}

impl JsonValue {
    /// The members of an object; `None` for every other value.
    pub open spec fn spec_as_object(&self) -> Option<Seq<(String, JsonValue)>> {
        match self {
            JsonValue::Object(members) => Some(members@),
            _ => None,
        }
    }

    /// The items of an array; `None` for every other value.
    pub open spec fn spec_as_array(&self) -> Option<Seq<JsonValue>> {
        match self {
            JsonValue::Array(items) => Some(items@),
            _ => None,
        }
    }

    /// The characters of a string; `None` for every other value.
    pub open spec fn spec_as_str(&self) -> Option<Seq<char>> {
        match self {
            JsonValue::String(text) => Some(text@),
            _ => None,
        }
    }

    /// The truth value of a boolean; `None` for every other value.
    pub open spec fn spec_as_bool(&self) -> Option<bool> {
        match self {
            JsonValue::Bool(flag) => Some(*flag),
            _ => None,
        }
    }

    /// A number as a `u64`, where it is one; `None` for every other value.
    pub open spec fn spec_as_u64(&self) -> Option<u64> {
        match self {
            JsonValue::Number(number) => number.unsigned,
            _ => None,
        }
    }

    pub fn as_object(&self) -> (members: Option<&Vec<(String, JsonValue)>>)
        ensures
            match members {
                Some(list) => self.spec_as_object() == Some(list@),
                None => self.spec_as_object() is None,
            },
    {
        match self {
            JsonValue::Object(members) => Some(members),
            _ => None,
        }
    }

    pub fn as_array(&self) -> (items: Option<&Vec<JsonValue>>)
        ensures
            match items {
                Some(list) => self.spec_as_array() == Some(list@),
                None => self.spec_as_array() is None,
            },
    {
        match self {
            JsonValue::Array(items) => Some(items),
            _ => None,
        }
    }

    pub fn as_str(&self) -> (text: Option<&str>)
        ensures
            match text {
                Some(characters) => self.spec_as_str() == Some(characters@),
                None => self.spec_as_str() is None,
            },
    {
        match self {
            JsonValue::String(text) => Some(text.as_str()),
            _ => None,
        }
    }

    pub fn as_bool(&self) -> (flag: Option<bool>)
        ensures
            flag == self.spec_as_bool(),
    {
        match self {
            JsonValue::Bool(flag) => Some(*flag),
            _ => None,
        }
    }

    pub fn as_u64(&self) -> (number: Option<u64>)
        ensures
            number == self.spec_as_u64(),
    {
        match self {
            JsonValue::Number(number) => number.unsigned,
            _ => None,
        }
    }
}

/// The value of the first member named `key`, if there is one.
pub fn get_member<'a>(members: &'a Vec<(String, JsonValue)>, key: &str) -> (found: Option<
    &'a JsonValue,
>)
    ensures
        match found {
            Some(value) => member(members@, key@) == Some(*value),
            None => member(members@, key@) is None,
        },
{
    let mut i: usize = 0;
    while i < members.len()
        invariant
            i <= members.len(),
            member_index(members@, key@, 0) == member_index(members@, key@, i as int),
        decreases members.len() - i,
    {
        if str_eq(members[i].0.as_str(), key) {
            return Some(&members[i].1);
        }
        i += 1;
    }
    None
}

/// The string under `key`; `None` where there is no such member or it is
/// not a string.
pub open spec fn member_str(members: Seq<(String, JsonValue)>, key: Seq<char>) -> Option<Seq<char>> {
    match member(members, key) {
        Some(value) => value.spec_as_str(),
        None => None,
    }
}

/// The `u64` under `key`; `None` where there is no such member or it is not
/// such a number.
pub open spec fn member_u64(members: Seq<(String, JsonValue)>, key: Seq<char>) -> Option<u64> {
    match member(members, key) {
        Some(value) => value.spec_as_u64(),
        None => None,
    }
}

/// The string under `key`, if there is one.
pub fn get_member_str<'a>(members: &'a Vec<(String, JsonValue)>, key: &str) -> (found: Option<
    &'a str,
>)
    ensures
        match found {
            Some(text) => member_str(members@, key@) == Some(text@),
            None => member_str(members@, key@) is None,
        },
{
    match get_member(members, key) {
        Some(value) => value.as_str(),
        None => None,
    }
}

/// The `u64` under `key`, if there is one.
pub fn get_member_u64(members: &Vec<(String, JsonValue)>, key: &str) -> (found: Option<u64>)
    ensures
        found == member_u64(members@, key@),
{
    match get_member(members, key) {
        Some(value) => value.as_u64(),
        None => None,
    }
}

/// `serde_json::Value`, as an opaque type: the library carries such a value
/// over into a [`JsonValue`] and reads that.
#[verifier::external_type_specification]
#[verifier::external_body]
pub struct ExOutsideValue(serde_json::Value);

/// What `serde_json::from_str` makes of a text: the value it reads, or the
/// text of its error where it rejects the text.
pub uninterp spec fn parsed_document(text: Seq<char>) -> Result<JsonValue, Seq<char>>;

/// What `serde_json::to_string` makes of a string: the JSON string literal
/// that holds its characters.
pub uninterp spec fn json_string_literal(text: Seq<char>) -> Seq<char>;

/// Carries a value of `serde_json` over into the library's own type, variant
/// by variant: a number by `Number::as_u64`, an object by its members in the
/// order in which `serde_json` holds them.
#[verifier::external_body]
fn from_outside(value: &serde_json::Value) -> JsonValue {
    match value {
        serde_json::Value::Null => JsonValue::Null,
        serde_json::Value::Bool(flag) => JsonValue::Bool(*flag),
        serde_json::Value::Number(number) => JsonValue::Number(JsonNumber { unsigned: number.as_u64() }),
        serde_json::Value::String(text) => JsonValue::String(text.clone()),
        serde_json::Value::Array(items) => JsonValue::Array(items.iter().map(from_outside).collect()),
        serde_json::Value::Object(members) => JsonValue::Object(
            members.iter().map(|(key, member)| (key.clone(), from_outside(member))).collect(),
        ),
    }
}

/// `serde_json::from_str`, read as a `serde_json::Value`: parses a JSON
/// text. The contract names what comes of it: the same text always reads as
/// the same value, or is rejected with the same words.
#[verifier::external_body]
pub(crate) fn parse_document(text: &str) -> (parsed: Result<JsonValue, String>)
    ensures
        match parsed {
            Ok(value) => parsed_document(text@) == Ok::<JsonValue, Seq<char>>(value),
            Err(message) => parsed_document(text@) == Err::<JsonValue, Seq<char>>(message@),
        },
{
    match serde_json::from_str::<serde_json::Value>(text) {
        Ok(value) => Ok(from_outside(&value)),
        Err(error) => Err(error.to_string()),
    }
}

/// `serde_json::to_string` on a string: writes the string as a JSON string
/// literal. Writing a string into memory cannot fail, so the result is `Ok`;
/// the contract names the text written.
#[verifier::external_body]
pub(crate) fn encode_text(text: &str) -> (encoded: Result<String, String>)
    ensures
        encoded is Ok,
        encoded matches Ok(literal) ==> literal@ == json_string_literal(text@),
{
    serde_json::to_string(text).map_err(|error| error.to_string())
}

} // verus!
