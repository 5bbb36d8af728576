//! JSON values, as the `serde_json` crate holds, reads and writes them.

use crate::model::Model;
use vstd::prelude::*;

verus! {

/// The JSON value type of `serde_json`.
#[verifier::external_type_specification]
#[verifier::external_body]
pub struct ExJsonValue(serde_json::Value);

/// What a JSON value holds.
pub enum JsonView {
    Null,
    Bool(bool),
    /// A number without a fraction that fits in 64 bits.
    Integer(int),
    /// Any other number, by the bits of its double-precision value.
    Fraction(u64),
    Text(Seq<char>),
    List(Seq<JsonView>),
    Object(Map<Seq<char>, JsonView>),
}

/// What a JSON value of `serde_json` holds.
pub uninterp spec fn json_of(value: serde_json::Value) -> JsonView;

/// Compact notation of a JSON value.
pub uninterp spec fn compact(value: JsonView) -> Seq<char>;

/// Indented notation of a JSON value.
pub uninterp spec fn indented(value: JsonView) -> Seq<char>;

/// The JSON value that a text stands for, if it stands for one.
pub uninterp spec fn parsed(text: Seq<char>) -> Option<JsonView>;

/// What several values hold.
pub open spec fn json_list(values: Seq<serde_json::Value>) -> Seq<JsonView> {
    Seq::new(values.len(), |i: int| json_of(values[i]))
}

/// What an object gives for a key: null where it has none, or is no object.
pub open spec fn member(value: JsonView, key: Seq<char>) -> JsonView {
    match value {
        JsonView::Object(members) => if members.dom().contains(key) {
            members[key]
        } else {
            JsonView::Null
        },
        _ => JsonView::Null,
    }
}

/// Trusted: `serde_json::Value::Null` holds null.
#[verifier::external_body]
pub(crate) fn null() -> (value: serde_json::Value)
    ensures
        json_of(value) == JsonView::Null,
{
    serde_json::Value::Null
}

/// Trusted: `serde_json::Value::Bool` holds a truth value.
#[verifier::external_body]
pub(crate) fn truth(flag: bool) -> (value: serde_json::Value)
    ensures
        json_of(value) == JsonView::Bool(flag),
{
    serde_json::Value::Bool(flag)
}

/// Trusted: `serde_json::Value::from` of a `u64` holds that number.
#[verifier::external_body]
pub(crate) fn natural(number: u64) -> (value: serde_json::Value)
    ensures
        json_of(value) == JsonView::Integer(number as int),
{
    serde_json::Value::from(number)
}

/// Trusted: `serde_json::Value::from` of an `i64` holds that number.
#[verifier::external_body]
pub(crate) fn integer(number: i64) -> (value: serde_json::Value)
    ensures
        json_of(value) == JsonView::Integer(number as int),
{
    serde_json::Value::from(number)
}

/// Trusted: `serde_json::Value::String` holds a text.
#[verifier::external_body]
pub(crate) fn text(content: &str) -> (value: serde_json::Value)
    ensures
        json_of(value) == JsonView::Text(content@),
{
    serde_json::Value::String(content.to_string())
}

/// Trusted: `serde_json::Value::Array` holds a list of values.
#[verifier::external_body]
pub(crate) fn list(values: Vec<serde_json::Value>) -> (value: serde_json::Value)
    ensures
        json_of(value) == JsonView::List(json_list(values@)),
{
    serde_json::Value::Array(values)
}

/// Trusted: `serde_json::Value::Object` of a new `serde_json::Map` holds an
/// object without members.
#[verifier::external_body]
pub(crate) fn object() -> (value: serde_json::Value)
    ensures
        json_of(value) == JsonView::Object(Map::empty()),
{
    serde_json::Value::Object(serde_json::Map::new())
}

/// Trusted: `serde_json::Map::insert` sets a member of an object and keeps the
/// others.
#[verifier::external_body]
pub(crate) fn put(target: &mut serde_json::Value, key: &str, value: serde_json::Value)
    requires
        json_of(*old(target)) is Object,
    ensures
        json_of(*final(target)) == JsonView::Object(
            json_of(*old(target))->Object_0.insert(key@, json_of(value)),
        ),
{
    if let serde_json::Value::Object(members) = target {
        members.insert(key.to_string(), value);
    }
}

/// Trusted: `to_string` of a `serde_json::Value` writes the compact notation of
/// what the value holds: members of an object come in the order of their keys.
#[verifier::external_body]
pub(crate) fn write_compact(value: &serde_json::Value) -> (notation: String)
    ensures
        notation@ == compact(json_of(*value)),
{
    value.to_string()
}

/// Trusted: `serde_json::to_string_pretty` writes the indented notation of what
/// the value holds. It fails only where a value refuses to be written or a key is
/// no text, and neither is so of a `serde_json::Value`.
#[verifier::external_body]
pub(crate) fn write_indented(value: &serde_json::Value) -> (notation: Result<String, String>)
    ensures
        notation is Ok,
        notation->Ok_0@ == indented(json_of(*value)),
{
    serde_json::to_string_pretty(value).map_err(|error| error.to_string())
}

/// Trusted: `serde_json::from_str` into a `serde_json::Value` reads a JSON text,
/// or fails where the text is no JSON.
#[verifier::external_body]
pub(crate) fn read(source: &str) -> (value: Option<serde_json::Value>)
    ensures
        value is Some <==> parsed(source@) is Some,
        value is Some ==> json_of(value->0) == parsed(source@)->0,
{
    serde_json::from_str::<serde_json::Value>(source).ok()
}

/// Trusted: indexing a `serde_json::Value` by a text gives the member of that
/// name, and null where there is none.
#[verifier::external_body]
pub(crate) fn get_member<'a>(value: &'a serde_json::Value, key: &str) -> (found:
    &'a serde_json::Value)
    ensures
        json_of(*found) == member(json_of(*value), key@),
{
    &value[key]
}

/// Trusted: `serde_json::Value::as_str` gives the text that a value holds.
#[verifier::external_body]
pub(crate) fn get_text(value: &serde_json::Value) -> (content: Option<String>)
    ensures
        content.model() == (match json_of(*value) {
            JsonView::Text(content) => Some(content),
            _ => None,
        }),
{
    value.as_str().map(String::from)
}

/// Trusted: `serde_json::Value::as_u64` gives the number that a value holds, if
/// it is not negative and has no fraction.
#[verifier::external_body]
pub(crate) fn get_natural(value: &serde_json::Value) -> (number: Option<u64>)
    ensures
        number == (match json_of(*value) {
            JsonView::Integer(number) => if 0 <= number <= u64::MAX {
                Some(number as u64)
            } else {
                None
            },
            _ => None,
        }),
{
    value.as_u64()
}

/// A text, or null.
pub open spec fn json_text_or_null(content: Option<Seq<char>>) -> JsonView {
    match content {
        Some(content) => JsonView::Text(content),
        None => JsonView::Null,
    }
}

/// Makes a text, or null.
pub(crate) fn text_or_null(content: &Option<String>) -> (value: serde_json::Value)
    ensures
        json_of(value) == json_text_or_null(content.model()),
{
    match content {
        Some(content) => text(content.as_str()),
        None => null(),
    }
}

/// A number, or null.
pub open spec fn json_number_or_null(number: Option<u64>) -> JsonView {
    match number {
        Some(number) => JsonView::Integer(number as int),
        None => JsonView::Null,
    }
}

/// Makes a number, or null.
pub(crate) fn number_or_null(number: Option<u64>) -> (value: serde_json::Value)
    ensures
        json_of(value) == json_number_or_null(number),
{
    match number {
        Some(number) => natural(number),
        None => null(),
    }
}

/// A 32-bit number, or null.
pub open spec fn json_small_or_null(number: Option<u32>) -> JsonView {
    match number {
        Some(number) => JsonView::Integer(number as int),
        None => JsonView::Null,
    }
}

/// Makes a 32-bit number, or null.
pub(crate) fn small_or_null(number: Option<u32>) -> (value: serde_json::Value)
    ensures
        json_of(value) == json_small_or_null(number),
{
    match number {
        Some(number) => natural(number as u64),
        None => null(),
    }
}

/// A signed number, or null.
pub open spec fn json_signed_or_null(number: Option<i32>) -> JsonView {
    match number {
        Some(number) => JsonView::Integer(number as int),
        None => JsonView::Null,
    }
}

/// Makes a signed number, or null.
pub(crate) fn signed_or_null(number: Option<i32>) -> (value: serde_json::Value)
    ensures
        json_of(value) == json_signed_or_null(number),
{
    match number {
        Some(number) => integer(number as i64),
        None => null(),
    }
}

/// A list of texts.
pub open spec fn json_texts(contents: Seq<Seq<char>>) -> JsonView {
    JsonView::List(Seq::new(contents.len(), |i: int| JsonView::Text(contents[i])))
}

/// Makes a list of texts.
pub(crate) fn texts(contents: &Vec<String>) -> (value: serde_json::Value)
    ensures
        json_of(value) == json_texts(contents.model()),
{
    let mut values: Vec<serde_json::Value> = Vec::new();
    let mut i: usize = 0;
    while i < contents.len()
        invariant
            i <= contents.len(),
            values.len() == i,
            forall|j: int|
                0 <= j < i ==> json_of(#[trigger] values@[j]) == JsonView::Text(
                    contents.model()[j],
                ),
        decreases contents.len() - i,
    {
        values.push(text(contents[i].as_str()));
        i += 1;
    }
    let ghost all = json_list(values@);
    assert(all =~= Seq::new(
        contents.model().len(),
        |i: int| JsonView::Text(contents.model()[i]),
    ));
    list(values)
}

/// Law: an optional value is written as it is, and as null where there is none; texts are written as a
/// list of them in their order.
pub proof fn law_optional_values_in_json(
    content: Seq<char>,
    number: u64,
    small: u32,
    signed: i32,
    contents: Seq<Seq<char>>,
)
    ensures
        json_text_or_null(Some(content)) == JsonView::Text(content),
        json_number_or_null(Some(number)) == JsonView::Integer(number as int),
        json_small_or_null(Some(small)) == JsonView::Integer(small as int),
        json_signed_or_null(Some(signed)) == JsonView::Integer(signed as int),
        json_text_or_null(None) is Null && json_number_or_null(None) is Null && json_small_or_null(
            None,
        ) is Null && json_signed_or_null(None) is Null,
        json_texts(contents) is List && json_texts(contents)->List_0.len() == contents.len(),
        forall|i: int|
            0 <= i < contents.len() ==> #[trigger] json_texts(contents)->List_0[i]
                == JsonView::Text(contents[i]),
{
}

/// Law: a value that is put into an object is found under its name, and what stood under other names
/// stays.
pub proof fn law_members_are_found(
    members: Map<Seq<char>, JsonView>,
    key: Seq<char>,
    value: JsonView,
    other: Seq<char>,
)
    ensures
        member(JsonView::Object(members.insert(key, value)), key) == value,
        other != key ==> member(JsonView::Object(members.insert(key, value)), other) == member(
            JsonView::Object(members),
            other,
        ),
        member(JsonView::Object(Map::empty()), key) is Null,
{
}

} // verus!
