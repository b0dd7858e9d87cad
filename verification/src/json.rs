//! JSON values as `serde_json` holds them, and what the rest of the crate
//! may assume about them.
//!
//! Verified code never looks inside a [`serde_json::Value`]. It reasons about
//! the mathematical value [`Json`] that a `Value` stands for, written
//! `json_of(v)`, and reaches the `Value` only through the small functions at
//! the end of this file, each of which forwards to one `serde_json` call.

use vstd::prelude::*;

verus! {

/// A JSON value as a mathematical tree.
pub enum Json {
    Null,
    Bool(bool),
    /// A number that `serde_json` holds as an integer.
    Int(int),
    /// Any other number, told apart by the text `serde_json` prints for it.
    Real(Seq<char>),
    Str(Seq<char>),
    Array(Seq<Json>),
    Object(Map<Seq<char>, Json>),
}

impl Json {
    /// Whether this is an object with a member called `key`.
    pub open spec fn has(self, key: Seq<char>) -> bool {
        self is Object && self->Object_0.contains_key(key)
    }

    /// The member called `key`, if this is an object that has one.
    pub open spec fn member(self, key: Seq<char>) -> Option<Json> {
        if self.has(key) {
            Some(self->Object_0[key])
        } else {
            None
        }
    }

    /// This object with the member `key` set to `value`.
    pub open spec fn with(self, key: Seq<char>, value: Json) -> Json
        recommends
            self is Object,
    {
        Json::Object(self->Object_0.insert(key, value))
    }

    /// The object without members.
    pub open spec fn empty_object() -> Json {
        Json::Object(Map::empty())
    }
}

#[verifier::external_type_specification]
#[verifier::external_body]
pub struct ExValue(serde_json::Value);

#[verifier::external_type_specification]
#[verifier::external_body]
pub struct ExError(serde_json::Error);

/// The tree that a `serde_json::Value` stands for.
pub uninterp spec fn json_of(v: serde_json::Value) -> Json;

/// What `serde_json::from_str` makes of a text: the tree of the value it
/// returns, or `None` where it reports an error.
pub uninterp spec fn parsed(text: Seq<char>) -> Option<Json>;

/// What `serde_json::to_string` prints for a value with the given tree, or
/// `None` where it reports an error.
pub uninterp spec fn printed(tree: Json) -> Option<Seq<char>>;

/// The trees of a sequence of values, in order.
pub open spec fn jsons_of(items: Seq<serde_json::Value>) -> Seq<Json> {
    Seq::new(items.len(), |i: int| json_of(items[i]))
}

/// Calls `serde_json::from_str` for a `Value`. The outcome is a function of
/// the text alone, and `parsed` is its name.
#[verifier::external_body]
pub(crate) fn parse_value(text: &str) -> (r: Result<serde_json::Value, serde_json::Error>)
    ensures
        match r {
            Ok(v) => parsed(text@) == Some(json_of(v)),
            Err(_) => parsed(text@) is None,
        },
{
    serde_json::from_str::<serde_json::Value>(text)
}

/// Calls `serde_json::to_string` on a `Value`. The outcome is a function of
/// the value's tree alone, and `printed` is its name.
#[verifier::external_body]
pub(crate) fn print_value(v: &serde_json::Value) -> (r: Option<String>)
    ensures
        match r {
            Some(s) => printed(json_of(*v)) == Some(s@),
            None => printed(json_of(*v)) is None,
        },
{
    serde_json::to_string(v).ok()
}

/// `Value::clone`: the copy stands for the same tree.
pub assume_specification[ <serde_json::Value as Clone>::clone ](v: &serde_json::Value) -> (r:
    serde_json::Value)
    ensures
        json_of(r) == json_of(*v),
;

/// Calls `Value::is_null`: true exactly for JSON null.
#[verifier::external_body]
pub(crate) fn value_is_null(v: &serde_json::Value) -> (r: bool)
    ensures
        r == (json_of(*v) is Null),
{
    v.is_null()
}

/// Calls `Value::is_object`: true exactly for a JSON object.
#[verifier::external_body]
pub(crate) fn value_is_object(v: &serde_json::Value) -> (r: bool)
    ensures
        r == (json_of(*v) is Object),
{
    v.is_object()
}

/// Calls `Value::as_bool`: the boolean, for a JSON boolean and nothing else.
#[verifier::external_body]
pub(crate) fn value_bool(v: &serde_json::Value) -> (r: Option<bool>)
    ensures
        r == (if json_of(*v) is Bool {
            Some(json_of(*v)->Bool_0)
        } else {
            None
        }),
{
    v.as_bool()
}

/// Calls `Value::as_u64`: the number, for an integer that fits in `u64` and
/// nothing else.
#[verifier::external_body]
pub(crate) fn value_u64(v: &serde_json::Value) -> (r: Option<u64>)
    ensures
        r == (if json_of(*v) is Int && 0 <= json_of(*v)->Int_0 <= u64::MAX {
            Some(json_of(*v)->Int_0 as u64)
        } else {
            None
        }),
{
    v.as_u64()
}

/// Calls `Value::as_i64`: the number, for an integer that fits in `i64` and
/// nothing else.
#[verifier::external_body]
pub(crate) fn value_i64(v: &serde_json::Value) -> (r: Option<i64>)
    ensures
        r == (if json_of(*v) is Int && i64::MIN <= json_of(*v)->Int_0 <= i64::MAX {
            Some(json_of(*v)->Int_0 as i64)
        } else {
            None
        }),
{
    v.as_i64()
}

/// Calls `Value::as_str`: the text, for a JSON string and nothing else.
#[verifier::external_body]
pub(crate) fn value_str(v: &serde_json::Value) -> (r: Option<&str>)
    ensures
        match r {
            Some(s) => json_of(*v) == Json::Str(s@),
            None => !(json_of(*v) is Str),
        },
{
    v.as_str()
}

/// Calls `Value::as_array`: the elements, for a JSON array and nothing else.
#[verifier::external_body]
pub(crate) fn value_items(v: &serde_json::Value) -> (r: Option<&Vec<serde_json::Value>>)
    ensures
        match r {
            Some(items) => json_of(*v) == Json::Array(jsons_of(items@)),
            None => !(json_of(*v) is Array),
        },
{
    v.as_array()
}

/// Calls `Value::get` with a string: the member of that name, for an object
/// that has one and nothing else.
#[verifier::external_body]
pub(crate) fn value_member<'a>(v: &'a serde_json::Value, key: &str) -> (r: Option<
    &'a serde_json::Value,
>)
    ensures
        match r {
            Some(x) => json_of(*v).member(key@) == Some(json_of(*x)),
            None => json_of(*v).member(key@) is None,
        },
{
    v.get(key)
}

/// Calls `Value::as_object` and walks the map with `Map::iter`: for an
/// object, every member once, each key with its value; for anything else,
/// `None`.
#[verifier::external_body]
pub(crate) fn value_members<'a>(v: &'a serde_json::Value) -> (r: Option<
    Vec<(&'a String, &'a serde_json::Value)>,
>)
    ensures
        match r {
            Some(pairs) => {
                &&& json_of(*v) is Object
                &&& forall|i: int|
                    0 <= i < pairs.len() ==> json_of(*v).member((#[trigger] pairs[i]).0@) == Some(
                        json_of(*pairs[i].1),
                    )
                &&& forall|i: int, j: int|
                    0 <= i < j < pairs.len() ==> (#[trigger] pairs[i]).0@ != (#[trigger] pairs[j]).0@
                &&& forall|key: Seq<char>| #[trigger]
                    json_of(*v).has(key) ==> exists|i: int|
                        0 <= i < pairs.len() && (#[trigger] pairs[i]).0@ == key
            },
            None => !(json_of(*v) is Object),
        },
{
    v.as_object().map(|m| m.iter().collect())
}

/// Builds `Value::Null`.
#[verifier::external_body]
pub(crate) fn null_value() -> (r: serde_json::Value)
    ensures
        json_of(r) == Json::Null,
{
    serde_json::Value::Null
}

/// Calls `Value::from` on a `bool`.
#[verifier::external_body]
pub(crate) fn bool_value(b: bool) -> (r: serde_json::Value)
    ensures
        json_of(r) == Json::Bool(b),
{
    serde_json::Value::from(b)
}

/// Calls `Value::from` on a `u64`: an integer of that value.
#[verifier::external_body]
pub(crate) fn u64_value(n: u64) -> (r: serde_json::Value)
    ensures
        json_of(r) == Json::Int(n as int),
{
    serde_json::Value::from(n)
}

/// Calls `Value::from` on an `i64`: an integer of that value.
#[verifier::external_body]
pub(crate) fn i64_value(n: i64) -> (r: serde_json::Value)
    ensures
        json_of(r) == Json::Int(n as int),
{
    serde_json::Value::from(n)
}

/// Calls `Value::from` on a `String`.
#[verifier::external_body]
pub(crate) fn string_value(s: String) -> (r: serde_json::Value)
    ensures
        json_of(r) == Json::Str(s@),
{
    serde_json::Value::from(s)
}

/// Calls `Value::from` on a `Vec<Value>`: the array of those elements.
#[verifier::external_body]
pub(crate) fn array_value(items: Vec<serde_json::Value>) -> (r: serde_json::Value)
    ensures
        json_of(r) == Json::Array(jsons_of(items@)),
{
    serde_json::Value::from(items)
}

/// Builds `Value::Object` from `Map::new`: the object without members.
#[verifier::external_body]
pub(crate) fn empty_object() -> (r: serde_json::Value)
    ensures
        json_of(r) == Json::empty_object(),
{
    serde_json::Value::Object(serde_json::Map::new())
}

/// Calls `Map::insert` on the map of an object: the member is added, or
/// replaced where the key was there already, and the rest stays.
#[verifier::external_body]
pub(crate) fn object_insert(obj: &mut serde_json::Value, key: String, value: serde_json::Value)
    requires
        json_of(*old(obj)) is Object,
    ensures
        json_of(*final(obj)) == json_of(*old(obj)).with(key@, json_of(value)),
{
    if let serde_json::Value::Object(m) = obj {
        m.insert(key, value);
    }
}

} // verus!
