//! JSON values as `serde_json` holds them, and what the library knows of them.
//!
//! A `serde_json::Value` is opaque here. [`json_tree`] names the tree that it
//! holds, and each function below says over that tree what one `serde_json`
//! call reads or changes. Those functions are believed, not proved.
use vstd::prelude::*;

use crate::text;

verus! {

/// A JSON value as a mathematical tree.
pub enum JsonTree {
    Null,
    Bool(bool),
    /// An integer that is not negative.
    Unsigned(u64),
    /// An integer below zero.
    Negative(i64),
    /// A number with a fraction or an exponent, by the bits of its double.
    Fraction(u64),
    Text(Seq<char>),
    Items(Seq<JsonTree>),
    Members(Map<Seq<char>, JsonTree>),
}

/// The members of an object. Nothing else has any.
pub open spec fn members(tree: JsonTree) -> Map<Seq<char>, JsonTree> {
    match tree {
        JsonTree::Members(members) => members,
        _ => Map::empty(),
    }
}

/// What an object holds under `key`.
pub open spec fn member(tree: JsonTree, key: Seq<char>) -> Option<JsonTree> {
    if members(tree).contains_key(key) {
        Some(members(tree)[key])
    } else {
        None
    }
}

/// The object `tree` with `value` under `key`.
pub open spec fn with_member(tree: JsonTree, key: Seq<char>, value: JsonTree) -> JsonTree {
    JsonTree::Members(members(tree).insert(key, value))
}

/// The object `tree` without `key`.
pub open spec fn without_member(tree: JsonTree, key: Seq<char>) -> JsonTree {
    match tree {
        JsonTree::Members(members) => JsonTree::Members(members.remove(key)),
        _ => tree,
    }
}

/// The characters of a text.
pub open spec fn tree_text(tree: JsonTree) -> Option<Seq<char>> {
    match tree {
        JsonTree::Text(text) => Some(text),
        _ => None,
    }
}

/// The number that `tree` is, if it is an integer that is not negative.
pub open spec fn tree_unsigned(tree: JsonTree) -> Option<u64> {
    match tree {
        JsonTree::Unsigned(number) => Some(number),
        _ => None,
    }
}

/// The text under `key`, if the member is one.
pub open spec fn member_text(tree: JsonTree, key: Seq<char>) -> Option<Seq<char>> {
    match member(tree, key) {
        Some(value) => tree_text(value),
        None => None,
    }
}

/// The number under `key`, if the member is an integer that is not negative.
pub open spec fn member_unsigned(tree: JsonTree, key: Seq<char>) -> Option<u64> {
    match member(tree, key) {
        Some(value) => tree_unsigned(value),
        None => None,
    }
}

/// The text under `inner` in the object under `outer`.
pub open spec fn nested_text(tree: JsonTree, outer: Seq<char>, inner: Seq<char>) -> Option<Seq<char>> {
    match member(tree, outer) {
        Some(value) => member_text(value, inner),
        None => None,
    }
}

/// A signed integer as a tree.
pub open spec fn integer_tree(number: int) -> JsonTree {
    if number >= 0 {
        JsonTree::Unsigned(number as u64)
    } else {
        JsonTree::Negative(number as i64)
    }
}

/// `serde_json::Value`, carried without a look inside.
#[verifier::external_type_specification]
#[verifier::external_body]
pub struct ExJsonValue(serde_json::Value);

/// `serde_json::Error`, carried without a look inside.
#[verifier::external_type_specification]
#[verifier::external_body]
pub struct ExJsonError(serde_json::Error);

/// The tree that a `serde_json::Value` holds.
pub uninterp spec fn json_tree(value: serde_json::Value) -> JsonTree;

/// The tree that `serde_json::from_str` reads from a text, if it reads one.
pub uninterp spec fn parsed_tree(text: Seq<char>) -> Option<JsonTree>;

/// The text that `serde_json::to_string` writes for a tree.
pub uninterp spec fn written_text(tree: JsonTree) -> Seq<char>;

/// `serde_json::from_str` on a value: the tree read, or a refusal, is a
/// function of the text. Which texts are read is left to `serde_json`.
#[verifier::external_body]
pub(crate) fn json_parse(text: &str) -> (parsed: Result<serde_json::Value, serde_json::Error>)
    ensures
        parsed is Ok <==> parsed_tree(text@) is Some,
        parsed matches Ok(value) ==> parsed_tree(text@) == Some(json_tree(value)),
{
    serde_json::from_str::<serde_json::Value>(text)
}

/// `serde_json::to_string` on a value: it is always written, since all its keys
/// are texts and a `String` takes whatever is written to it. The text is a
/// function of the tree.
#[verifier::external_body]
pub(crate) fn json_write(value: &serde_json::Value) -> (written: Result<String, serde_json::Error>)
    ensures
        written is Ok,
        written matches Ok(text) ==> text@ == written_text(json_tree(*value)),
{
    serde_json::to_string(value)
}

/// `Value::clone`: the copy holds the same tree.
#[verifier::external_body]
pub(crate) fn json_clone(value: &serde_json::Value) -> (copy: serde_json::Value)
    ensures
        json_tree(copy) == json_tree(*value),
{
    value.clone()
}

/// `Value::get` with a text key: the member of an object under that key, and
/// nothing for any other value.
#[verifier::external_body]
pub(crate) fn json_get<'a>(value: &'a serde_json::Value, key: &str) -> (found: Option<
    &'a serde_json::Value,
>)
    ensures
        found is Some <==> member(json_tree(*value), key@) is Some,
        found matches Some(inner) ==> member(json_tree(*value), key@) == Some(json_tree(*inner)),
{
    value.get(key)
}

/// `Value::as_u64`: the number of an integer that is not negative.
#[verifier::external_body]
pub(crate) fn json_as_u64(value: &serde_json::Value) -> (number: Option<u64>)
    ensures
        number == tree_unsigned(json_tree(*value)),
{
    value.as_u64()
}

/// `Value::as_str`: the characters of a text.
#[verifier::external_body]
pub(crate) fn json_as_str(value: &serde_json::Value) -> (text: Option<&str>)
    ensures
        text is Some <==> tree_text(json_tree(*value)) is Some,
        text matches Some(text) ==> tree_text(json_tree(*value)) == Some(text@),
{
    value.as_str()
}

/// `Value::is_null`.
#[verifier::external_body]
pub(crate) fn json_is_null(value: &serde_json::Value) -> (is_null: bool)
    ensures
        is_null == (json_tree(*value) == JsonTree::Null),
{
    value.is_null()
}

/// `Value::is_object`.
#[verifier::external_body]
pub(crate) fn json_is_object(value: &serde_json::Value) -> (is_object: bool)
    ensures
        is_object == (json_tree(*value) is Members),
{
    value.is_object()
}

/// Assignment through `Value`'s index by a text: an object holds the new
/// member under the key, in place of what stood there. Other values are left
/// out: the index panics on all of them but null.
#[verifier::external_body]
pub(crate) fn json_set(value: &mut serde_json::Value, key: &str, inner: serde_json::Value)
    requires
        json_tree(*old(value)) is Members,
    ensures
        json_tree(*final(value)) == with_member(json_tree(*old(value)), key@, json_tree(inner)),
{
    value[key] = inner;
}

/// `Map::remove` on the members of an object: the member under the key is
/// gone. Another value stays as it is.
#[verifier::external_body]
pub(crate) fn json_unset(value: &mut serde_json::Value, key: &str)
    ensures
        json_tree(*final(value)) == without_member(json_tree(*old(value)), key@),
{
    if let Some(members) = value.as_object_mut() {
        let _ = members.remove(key);
    }
}

/// `Value::from` on a `u64`.
#[verifier::external_body]
pub(crate) fn json_from_u64(number: u64) -> (value: serde_json::Value)
    ensures
        json_tree(value) == JsonTree::Unsigned(number),
{
    serde_json::Value::from(number)
}

/// `Value::from` on an `i32`: negative integers and the others are told apart.
#[verifier::external_body]
pub(crate) fn json_from_i32(number: i32) -> (value: serde_json::Value)
    ensures
        json_tree(value) == integer_tree(number as int),
{
    serde_json::Value::from(number)
}

/// `Value::from` on a text.
#[verifier::external_body]
pub(crate) fn json_from_str(text: &str) -> (value: serde_json::Value)
    ensures
        json_tree(value) == JsonTree::Text(text@),
{
    serde_json::Value::from(text)
}

/// `Value::default`, which is null.
#[verifier::external_body]
pub(crate) fn json_null() -> (value: serde_json::Value)
    ensures
        json_tree(value) == JsonTree::Null,
{
    serde_json::Value::default()
}

/// `Value::from` on `serde_json::Map::new()`: an object without members.
#[verifier::external_body]
pub(crate) fn json_empty_object() -> (value: serde_json::Value)
    ensures
        json_tree(value) == JsonTree::Members(Map::empty()),
{
    serde_json::Value::from(serde_json::Map::new())
}

/// A copy of the text under `key`.
pub fn json_member_text(value: &serde_json::Value, key: &str) -> (text: Option<String>)
    ensures
        text::opt_chars(text) == member_text(json_tree(*value), key@),
{
    match json_get(value, key) {
        Some(inner) => match json_as_str(inner) {
            Some(text) => Some(text.to_owned()),
            None => None,
        },
        None => None,
    }
}

/// The number under `key`.
pub fn json_member_u64(value: &serde_json::Value, key: &str) -> (number: Option<u64>)
    ensures
        number == member_unsigned(json_tree(*value), key@),
{
    match json_get(value, key) {
        Some(inner) => json_as_u64(inner),
        None => None,
    }
}

/// A copy of the text under `inner` in the object under `outer`.
pub fn json_nested_text(value: &serde_json::Value, outer: &str, inner: &str) -> (text: Option<
    String,
>)
    ensures
        text::opt_chars(text) == nested_text(json_tree(*value), outer@, inner@),
{
    match json_get(value, outer) {
        Some(object) => json_member_text(object, inner),
        None => None,
    }
}

} // verus!
