//! JSON documents: a mathematical view of `serde_json` values and the calls that read them.
use vstd::prelude::*;

use crate::text::{same_text, text_option_view};

verus! {

/// What a JSON value is.
///
/// A number that `serde_json` keeps as a 64-bit integer is an `Integer`; any other number is
/// a `Float`, whose magnitude is not modelled.
pub enum JsonView {
    Null,
    Bool(bool),
    Integer(int),
    Float,
    Text(Seq<char>),
    Array(Seq<JsonView>),
    Object(Map<Seq<char>, JsonView>),
}

impl JsonView {
    /// The value of member `name`, where this is an object that has one.
    pub open spec fn member(self, name: Seq<char>) -> Option<JsonView> {
        match self {
            JsonView::Object(members) => if members.contains_key(name) {
                Some(members[name])
            } else {
                None
            },
            _ => None,
        }
    }

    /// The value as a signed 64-bit integer, where it is an integer in that range.
    pub open spec fn as_i64(self) -> Option<i64> {
        match self {
            JsonView::Integer(n) => if i64::MIN <= n <= i64::MAX {
                Some(n as i64)
            } else {
                None
            },
            _ => None,
        }
    }

    /// The value as an unsigned 64-bit integer, where it is an integer in that range.
    pub open spec fn as_u64(self) -> Option<u64> {
        match self {
            JsonView::Integer(n) => if 0 <= n <= u64::MAX {
                Some(n as u64)
            } else {
                None
            },
            _ => None,
        }
    }

    /// The value as a text, where it is one.
    pub open spec fn as_text(self) -> Option<Seq<char>> {
        match self {
            JsonView::Text(text) => Some(text),
            _ => None,
        }
    }
}

/// `serde_json`'s dynamically typed JSON value.
#[verifier::external_type_specification]
#[verifier::external_body]
pub struct ExJsonValue(serde_json::Value);

/// What a `serde_json` value holds.
pub uninterp spec fn json_view(value: serde_json::Value) -> JsonView;

/// What `serde_json::from_str` reads from `text`: the value it spells, or the wording of the
/// parse error.
pub uninterp spec fn parsed_json(text: Seq<char>) -> Result<JsonView, Seq<char>>;

/// The view of what a parse returned.
pub open spec fn json_result_view(result: Result<serde_json::Value, String>) -> Result<JsonView, Seq<char>> {
    match result {
        Ok(value) => Ok(json_view(value)),
        Err(message) => Err(message@),
    }
}

/// The view of an optional value.
pub open spec fn json_option_view(value: Option<&serde_json::Value>) -> Option<JsonView> {
    match value {
        Some(value) => Some(json_view(*value)),
        None => None,
    }
}

/// Calls `serde_json::from_str` for a `Value`. Trusted: the value, or the wording of the
/// error, is a function of the text alone, called `parsed_json`.
#[verifier::external_body]
pub(crate) fn parse_json(text: &str) -> (result: Result<serde_json::Value, String>)
    ensures
        json_result_view(result) == parsed_json(text@),
{
    serde_json::from_str(text).map_err(|e| e.to_string())
}

/// Calls `serde_json::Value::get` with a member name. Trusted: it returns the member of that
/// name of an object, and nothing where there is none or the value is not an object.
#[verifier::external_body]
pub(crate) fn json_member<'a>(value: &'a serde_json::Value, name: &str) -> (member: Option<&'a serde_json::Value>)
    ensures
        json_option_view(member) == json_view(*value).member(name@),
{
    value.get(name)
}

/// Calls `serde_json::Value::as_i64`. Trusted: it returns the number where the value is an
/// integer that fits `i64`, and nothing otherwise.
#[verifier::external_body]
pub(crate) fn json_as_i64(value: &serde_json::Value) -> (number: Option<i64>)
    ensures
        number == json_view(*value).as_i64(),
{
    value.as_i64()
}

/// Calls `serde_json::Value::as_u64`. Trusted: it returns the number where the value is an
/// integer that fits `u64`, and nothing otherwise.
#[verifier::external_body]
pub(crate) fn json_as_u64(value: &serde_json::Value) -> (number: Option<u64>)
    ensures
        number == json_view(*value).as_u64(),
{
    value.as_u64()
}

/// Calls `serde_json::Value::as_str`. Trusted: it returns the text where the value is one, and
/// nothing otherwise.
#[verifier::external_body]
pub(crate) fn json_as_text<'a>(value: &'a serde_json::Value) -> (text: Option<&'a str>)
    ensures
        text_option_view(text) == json_view(*value).as_text(),
{
    value.as_str()
}

/// Calls `serde_json::Value::is_null`. Trusted: it tells whether the value is null.
#[verifier::external_body]
pub(crate) fn json_is_null(value: &serde_json::Value) -> (null: bool)
    ensures
        null == (json_view(*value) is Null),
{
    value.is_null()
}

/// Whether member `name` of a document is there and is the text `expected`.
pub fn has_text_member(document: &serde_json::Value, name: &str, expected: &str) -> (has: bool)
    ensures
        has == (json_view(*document).member(name@) == Some(JsonView::Text(expected@))),
{
    match json_member(document, name) {
        Some(value) => match json_as_text(value) {
            Some(text) => same_text(text, expected),
            None => false,
        },
        None => false,
    }
}

/// Whether member `name` of a document is there and is the number `expected`.
pub fn has_number_member(document: &serde_json::Value, name: &str, expected: u64) -> (has: bool)
    ensures
        has == (json_view(*document).member(name@) == Some(JsonView::Integer(expected as int))),
{
    match json_member(document, name) {
        Some(value) => match json_as_u64(value) {
            Some(number) => number == expected,
            None => false,
        },
        None => false,
    }
}

/// Whether member `name` of a document is missing or null.
pub fn lacks_member(document: &serde_json::Value, name: &str) -> (lacks: bool)
    ensures
        lacks == (json_view(*document).member(name@) is None || json_view(*document).member(name@)
            == Some(JsonView::Null)),
{
    match json_member(document, name) {
        Some(value) => json_is_null(value),
        None => true,
    }
}

/// Member `name` of a document as a whole number, zero where there is none.
pub open spec fn integer_member_view(document: JsonView, name: Seq<char>) -> i64 {
    match document.member(name) {
        Some(value) => match value.as_i64() {
            Some(number) => number,
            None => 0,
        },
        None => 0,
    }
}

/// Reads member `name` of a document as a whole number: zero where the member is missing, is
/// not an integer or does not fit.
pub fn integer_member(document: &serde_json::Value, name: &str) -> (number: i64)
    ensures
        number == integer_member_view(json_view(*document), name@),
{
    match json_member(document, name) {
        Some(value) => match json_as_i64(value) {
            Some(number) => number,
            None => 0,
        },
        None => 0,
    }
}

/// A member of an object is what the object holds under its name; an object without that name,
/// and a value that is no object, has none.
pub proof fn law_member_is_held(value: JsonView, name: Seq<char>, member: JsonView)
    ensures
        value.member(name) == Some(member) <==> exists|members: Map<Seq<char>, JsonView>|
            value == JsonView::Object(members) && #[trigger] members.contains_key(name)
                && members[name] == member,
{
    if let JsonView::Object(members) = value {
        assert(members.contains_key(name) ==> value == JsonView::Object(members));
    }
}

/// A value is read as a number, or as a text, exactly where it is that number or that text.
pub proof fn law_values_are_read_as_they_are(
    value: JsonView,
    signed: i64,
    unsigned: u64,
    text: Seq<char>,
)
    ensures
        value.as_i64() == Some(signed) <==> value == JsonView::Integer(signed as int),
        value.as_u64() == Some(unsigned) <==> value == JsonView::Integer(unsigned as int),
        value.as_text() == Some(text) <==> value == JsonView::Text(text),
{
}

/// A whole number that a document gives under a name, and that fits, is read as that number; in
/// every other case zero is read. Other members do not matter.
pub proof fn law_number_is_read_or_zero(document: JsonView, name: Seq<char>, number: i64)
    ensures
        document.member(name) == Some(JsonView::Integer(number as int)) ==> integer_member_view(
            document,
            name,
        ) == number,
        integer_member_view(document, name) == number && number != 0 ==> document.member(name)
            == Some(JsonView::Integer(number as int)),
{
}

} // verus!
