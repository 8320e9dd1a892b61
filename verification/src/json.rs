//! The JSON documents that frames are made of.
//!
//! Parsing and printing are the work of `serde_json`. This module gives its
//! `Value` a mathematical model, [`JsonView`], and states over that model
//! what each `serde_json` call used by the codec does. None of the
//! statements about `serde_json` in this file is proved: the verified code
//! of the crate rests on them.

use vstd::prelude::*;

verus! {

/// A JSON document as a mathematical value.
pub enum JsonView {
    Null,
    Bool(bool),
    /// A number, by the text that stands for it in a printed document.
    Number(Seq<char>),
    Text(Seq<char>),
    Array(Seq<JsonView>),
    /// An object: each key occurs once.
    Object(Map<Seq<char>, JsonView>),
}

impl JsonView {
    /// The member of an object under `key`, if the document is an object
    /// that has one.
    pub open spec fn member(self, key: Seq<char>) -> Option<JsonView> {
        match self {
            JsonView::Object(members) => if members.contains_key(key) {
                Some(members[key])
            } else {
                None
            },
            _ => None,
        }
    }
}

/// `serde_json::Value`, taken as opaque: what a value holds is known only
/// through [`json_model`].
#[verifier::external_type_specification]
#[verifier::external_body]
pub struct ExValue(serde_json::Value);

/// `serde_json::Error`, taken as opaque: nothing is read from it.
#[verifier::external_type_specification]
#[verifier::external_body]
pub struct ExError(serde_json::Error);

/// The document that a `serde_json::Value` holds.
pub uninterp spec fn json_model(value: serde_json::Value) -> JsonView;

/// The document that `serde_json::from_str` reads from `text`, or `None`
/// where it reports an error.
pub uninterp spec fn json_parsed(text: Seq<char>) -> Option<JsonView>;

/// The text that `serde_json::to_string` prints for a document.
pub uninterp spec fn json_text(doc: JsonView) -> Seq<char>;

/// The models of a sequence of values, item by item.
pub open spec fn json_models(values: Seq<serde_json::Value>) -> Seq<JsonView> {
    Seq::new(values.len(), |i: int| json_model(values[i]))
}

/// The array items that stand for a list of texts.
pub open spec fn text_items(texts: Seq<Seq<char>>) -> Seq<JsonView> {
    Seq::new(texts.len(), |i: int| JsonView::Text(texts[i]))
}

/// `serde_json::from_str`, reading a `Value`: succeeds exactly on the texts
/// that [`json_parsed`] has a document for, and the value then holds that
/// document.
#[verifier::external_body]
pub(crate) fn parse_json(text: &str) -> (r: Result<serde_json::Value, serde_json::Error>)
    ensures
        r is Ok <==> json_parsed(text@) is Some,
        r is Ok ==> json_model(r->Ok_0) == json_parsed(text@)->Some_0,
{
    serde_json::from_str::<serde_json::Value>(text)
}

/// `serde_json::to_string` on a `Value`. Its documentation names two causes
/// of failure, a `Serialize` impl that fails and a map with a key that is no
/// string; neither occurs in a `Value`, so the call succeeds, with the text
/// that [`json_text`] names.
#[verifier::external_body]
pub(crate) fn print_json(value: &serde_json::Value) -> (r: Result<String, serde_json::Error>)
    ensures
        r is Ok,
        r->Ok_0@ == json_text(json_model(*value)),
{
    serde_json::to_string(value)
}

/// `Value::from` on an optional string: `null` for `None`, the string
/// otherwise.
#[verifier::external_body]
pub(crate) fn json_of_text(text: Option<String>) -> (r: serde_json::Value)
    ensures
        json_model(r) == match text {
            Some(t) => JsonView::Text(t@),
            None => JsonView::Null,
        },
{
    serde_json::Value::from(text)
}

/// `Value::from` on an optional list of strings: `null` for `None`, the
/// array of the strings, in their order, otherwise.
#[verifier::external_body]
pub(crate) fn json_of_texts(texts: Option<Vec<String>>) -> (r: serde_json::Value)
    ensures
        json_model(r) == match texts {
            Some(list) => JsonView::Array(text_items(list.deep_view())),
            None => JsonView::Null,
        },
{
    serde_json::Value::from(texts)
}

/// `Map::new` as an object: the object without members.
#[verifier::external_body]
pub(crate) fn json_object() -> (r: serde_json::Value)
    ensures
        json_model(r) == JsonView::Object(Map::empty()),
{
    serde_json::Value::Object(serde_json::Map::new())
}

/// `Map::insert` on the map of an object: the member under `key` becomes
/// `value`, whether or not the object had one; the other members stay.
#[verifier::external_body]
pub(crate) fn json_insert(object: &mut serde_json::Value, key: String, value: serde_json::Value)
    requires
        json_model(*old(object)) is Object,
    ensures
        json_model(*final(object)) == JsonView::Object(
            json_model(*old(object))->Object_0.insert(key@, json_model(value)),
        ),
{
    if let serde_json::Value::Object(members) = object {
        members.insert(key, value);
    }
}

/// `Value::get` with a string index: the member under `key` where the value
/// is an object that has one, `None` otherwise.
#[verifier::external_body]
pub(crate) fn json_member<'a>(value: &'a serde_json::Value, key: &str) -> (r: Option<
    &'a serde_json::Value,
>)
    ensures
        r is Some <==> json_model(*value).member(key@) is Some,
        r is Some ==> json_model(*r->Some_0) == json_model(*value).member(key@)->Some_0,
{
    value.get(key)
}

/// `Value::as_str`: the text where the value is a string, `None` otherwise.
pub assume_specification<'a>[ serde_json::Value::as_str ](value: &'a serde_json::Value) -> (r:
    Option<&'a str>)
    ensures
        r is Some <==> json_model(*value) is Text,
        r is Some ==> r->Some_0@ == json_model(*value)->Text_0,
;

/// `Value::as_array`: the items where the value is an array, `None`
/// otherwise.
pub assume_specification<'a>[ serde_json::Value::as_array ](value: &'a serde_json::Value) -> (r:
    Option<&'a Vec<serde_json::Value>>)
    ensures
        r is Some <==> json_model(*value) is Array,
        r is Some ==> json_models(r->Some_0@) == json_model(*value)->Array_0,
;

/// `Value::is_null`: whether the value is `null`.
pub assume_specification[ serde_json::Value::is_null ](value: &serde_json::Value) -> (r: bool)
    ensures
        r == (json_model(*value) is Null),
;

} // verus!
