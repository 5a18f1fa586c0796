//! JSON values: what a `serde_json::Value` holds, and the calls that read and
//! build one.

use vstd::prelude::*;

verus! {

/// `serde_json::Value`, carried as an opaque value; [`json`] says what it holds.
#[verifier::external_type_specification]
#[verifier::external_body]
pub struct ExValue(serde_json::Value);

/// A JSON value as mathematics.
pub enum Json {
    Null,
    Bool(bool),
    /// A number held as an integer.
    Int(int),
    /// A number held in floating point, by its IEEE 754 binary64 bits.
    Float(u64),
    Str(Seq<char>),
    Arr(Seq<Json>),
    Obj(Map<Seq<char>, Json>),
}

impl Json {
    /// The member of an object under `key`; other values have no members.
    pub open spec fn member(self, key: Seq<char>) -> Option<Json> {
        match self {
            Json::Obj(members) => if members.contains_key(key) {
                Some(members[key])
            } else {
                None
            },
            _ => None,
        }
    }

    /// The characters of a string; other values have none.
    pub open spec fn text(self) -> Option<Seq<char>> {
        match self {
            Json::Str(s) => Some(s),
            _ => None,
        }
    }

    /// The truth value of a boolean; other values have none.
    pub open spec fn truth(self) -> Option<bool> {
        match self {
            Json::Bool(b) => Some(b),
            _ => None,
        }
    }
}

/// What a `serde_json::Value` holds. Numbers are held as `serde_json` does without
/// further features: as 64-bit integers, else in floating point.
pub uninterp spec fn json(value: serde_json::Value) -> Json;

/// `serde_json::Error`, carried as an opaque value.
#[verifier::external_type_specification]
#[verifier::external_body]
pub struct ExError(serde_json::Error);

/// The JSON value that a text writes, as `serde_json::from_slice` reads it;
/// `None` where it refuses the text.
pub uninterp spec fn parsed_json(text: Seq<u8>) -> Option<Json>;

/// What an optional `serde_json::Value` holds.
pub open spec fn json_option(value: Option<serde_json::Value>) -> Option<Json> {
    match value {
        Some(v) => Some(json(v)),
        None => None,
    }
}

/// The members that a list of pairs gives an object: of two pairs with one key
/// the later counts.
pub open spec fn members_of(pairs: Seq<(String, serde_json::Value)>) -> Map<Seq<char>, Json>
    decreases pairs.len(),
{
    if pairs.len() == 0 {
        Map::empty()
    } else {
        members_of(pairs.drop_last()).insert(pairs.last().0@, json(pairs.last().1))
    }
}

/// `serde_json::Value::get` with a string index: the member under `key` where
/// `value` is an object that has it, else `None`.
#[verifier::external_body]
pub(crate) fn value_get<'a>(value: &'a serde_json::Value, key: &str) -> (found: Option<
    &'a serde_json::Value,
>)
    ensures
        (match found {
            Some(v) => Some(json(*v)),
            None => None,
        }) == json(*value).member(key@),
{
    value.get(key)
}

/// `serde_json::Value::as_str`: the characters of a string value, else `None`.
#[verifier::external_body]
pub(crate) fn value_as_str(value: &serde_json::Value) -> (text: Option<&str>)
    ensures
        (match text {
            Some(s) => Some(s@),
            None => None,
        }) == json(*value).text(),
{
    value.as_str()
}

/// `serde_json::Value::as_bool`: the truth value of a boolean, else `None`.
#[verifier::external_body]
pub(crate) fn value_as_bool(value: &serde_json::Value) -> (truth: Option<bool>)
    ensures
        truth == json(*value).truth(),
{
    value.as_bool()
}

/// `Clone` of `serde_json::Value`: the copy holds what the value holds.
#[verifier::external_body]
pub(crate) fn value_clone(value: &serde_json::Value) -> (copy: serde_json::Value)
    ensures
        json(copy) == json(*value),
{
    value.clone()
}

/// `From<&str>` of `serde_json::Value`: the string value with these characters.
#[verifier::external_body]
pub(crate) fn string_value(text: &str) -> (value: serde_json::Value)
    ensures
        json(value) == Json::Str(text@),
{
    serde_json::Value::from(text)
}

/// `From<u64>` of `serde_json::Value`: the number value of this integer.
#[verifier::external_body]
pub(crate) fn number_value(number: u64) -> (value: serde_json::Value)
    ensures
        json(value) == Json::Int(number as int),
{
    serde_json::Value::from(number)
}

/// `From<Vec<Value>>` of `serde_json::Value`: the array of these items.
#[verifier::external_body]
pub(crate) fn array_value(items: Vec<serde_json::Value>) -> (value: serde_json::Value)
    ensures
        json(value) == Json::Arr(items@.map_values(|item: serde_json::Value| json(item))),
{
    serde_json::Value::from(items)
}

/// `serde_json::from_slice` into a `Value`: what the text writes, or an error.
/// Which texts it accepts and what they hold is [`parsed_json`].
#[verifier::external_body]
pub(crate) fn parse_json(text: &Vec<u8>) -> (parsed: Result<serde_json::Value, serde_json::Error>)
    ensures
        (match parsed {
            Ok(value) => parsed_json(text@) == Some(json(value)),
            Err(_) => parsed_json(text@) is None,
        }),
{
    serde_json::from_slice(text)
}

/// `FromIterator<(String, Value)>` of `serde_json::Value`: the object that holds
/// each pair as a member, a later pair in place of an earlier one with its key.
#[verifier::external_body]
pub(crate) fn object_value(pairs: Vec<(String, serde_json::Value)>) -> (object: serde_json::Value)
    ensures
        json(object) == Json::Obj(members_of(pairs@)),
{
    serde_json::Value::from_iter(pairs)
}

/// Adds the member `key` to the members of an object.
pub(crate) fn add_member(
    pairs: &mut Vec<(String, serde_json::Value)>,
    key: &str,
    value: serde_json::Value,
)
    ensures
        members_of(final(pairs)@) == members_of(old(pairs)@).insert(key@, json(value)),
{
    pairs.push((key.to_owned(), value));
    assert(pairs@.drop_last() =~= old(pairs)@);
}

/// Adds the member `key` with a string to the members of an object.
pub(crate) fn add_text(pairs: &mut Vec<(String, serde_json::Value)>, key: &str, text: &str)
    ensures
        members_of(final(pairs)@) == members_of(old(pairs)@).insert(key@, Json::Str(text@)),
{
    add_member(pairs, key, string_value(text));
}

} // verus!
