//! JSON documents, as `serde_json` holds, prints and parses them.
//!
//! A `serde_json::Value` is opaque to the verifier. The contracts speak of the
//! mathematical document that a value holds, [`json_model`], and everything
//! that is said of `serde_json` is said in this file.

use vstd::prelude::*;

use crate::failure::{Failure, FailureKind, FailureModel};
use crate::text::texts;

verus! {

/// A JSON document as a mathematical value.
pub enum Json {
    /// `null`.
    Null,
    /// `true` or `false`.
    Bool(bool),
    /// A number, kept as the text that `serde_json` prints for it.
    Number(Seq<char>),
    /// A string.
    String(Seq<char>),
    /// An array of documents.
    Array(Seq<Json>),
    /// An object: its member names and what each of them holds.
    Object(Map<Seq<char>, Json>),
}

/// `serde_json::Value`, held as it is. What is known of a value is the
/// document that it holds, [`json_model`].
#[verifier::external_type_specification]
#[verifier::external_body]
pub struct ExValue(serde_json::Value);

/// `serde_json::Error`, held as it is. What is known of an error is its
/// message, [`json_error_message`].
#[verifier::external_type_specification]
#[verifier::external_body]
pub struct ExJsonError(serde_json::Error);

/// The document that a `serde_json::Value` holds.
pub uninterp spec fn json_model(value: serde_json::Value) -> Json;

/// The compact text, in UTF-8, that `serde_json::to_vec` prints for a document.
pub uninterp spec fn json_bytes(document: Json) -> Seq<u8>;

/// The document that `serde_json::from_slice` reads from bytes, if it reads one.
pub uninterp spec fn json_parse(bytes: Seq<u8>) -> Option<Json>;

/// The message that `serde_json` shows for one of its errors.
pub uninterp spec fn json_error_message(error: serde_json::Error) -> Seq<char>;

/// The documents that a list of values holds.
pub open spec fn json_models(values: Seq<serde_json::Value>) -> Seq<Json> {
    Seq::new(values.len(), |i: int| json_model(values[i]))
}

/// Whether no name occurs twice in a list of named values.
pub open spec fn distinct_names(fields: Seq<(String, serde_json::Value)>) -> bool {
    forall|i: int, j: int|
        0 <= i < j < fields.len() ==> (#[trigger] fields[i]).0@ != (#[trigger] fields[j]).0@
}

/// The members that a list of named values makes.
pub open spec fn json_members(fields: Seq<(String, serde_json::Value)>) -> Map<Seq<char>, Json>
    decreases fields.len(),
{
    if fields.len() == 0 {
        Map::empty()
    } else {
        json_members(fields.drop_last()).insert(fields.last().0@, json_model(fields.last().1))
    }
}

/// What a document reads back as after it was printed and parsed again.
pub open spec fn json_round_trip(document: Json) -> Option<Json> {
    json_parse(json_bytes(document))
}

/// `serde_json::to_vec` on a `Value`: the compact text of the document that
/// the value holds. Printing a `Value` into a vector does not fail: a `Value`
/// fails to print only where the writer fails, and a vector takes all that
/// is written to it.
#[verifier::external_body]
pub(crate) fn to_vec(value: &serde_json::Value) -> (r: Result<Vec<u8>, serde_json::Error>)
    ensures
        r is Ok,
        r matches Ok(bytes) ==> bytes@ == json_bytes(json_model(*value)),
{
    serde_json::to_vec(value)
}

/// `serde_json::from_slice` into a `Value`: it succeeds on the bytes that
/// hold one JSON document, and hands that document out.
#[verifier::external_body]
pub(crate) fn from_slice(bytes: &[u8]) -> (r: Result<serde_json::Value, serde_json::Error>)
    ensures
        r is Ok <==> json_parse(bytes@) is Some,
        r matches Ok(value) ==> json_parse(bytes@) == Some(json_model(value)),
{
    serde_json::from_slice::<serde_json::Value>(bytes)
}

/// `Value::from` a string slice: the string document with that text.
#[verifier::external_body]
pub(crate) fn json_string(text: &str) -> (value: serde_json::Value)
    ensures
        json_model(value) == Json::String(text@),
{
    serde_json::Value::from(text)
}

/// `Value::from` a vector of values: the array document of their documents.
#[verifier::external_body]
pub(crate) fn json_array(items: Vec<serde_json::Value>) -> (value: serde_json::Value)
    ensures
        json_model(value) == Json::Array(json_models(items@)),
{
    serde_json::Value::from(items)
}

/// `Map::from_iter` over named values, as a `Value`: the object document
/// with those members. It is asked for lists without a name that occurs twice.
#[verifier::external_body]
pub(crate) fn json_object(fields: Vec<(String, serde_json::Value)>) -> (value: serde_json::Value)
    requires
        distinct_names(fields@),
    ensures
        json_model(value) == Json::Object(json_members(fields@)),
{
    serde_json::Value::from(serde_json::Map::from_iter(fields))
}

/// `Value::get` with a string key: the member of that name, where the value
/// is an object that has one.
#[verifier::external_body]
pub(crate) fn json_get<'a>(value: &'a serde_json::Value, name: &str) -> (member: Option<
    &'a serde_json::Value,
>)
    ensures
        member is Some <==> (json_model(*value) matches Json::Object(members)
            && members.dom().contains(name@)),
        member matches Some(found) ==> (json_model(*value) matches Json::Object(members)
            && members[name@] == json_model(*found)),
{
    value.get(name)
}

/// `Value::as_str`: the text of a string document, and nothing for any other.
pub assume_specification[ serde_json::Value::as_str ](value: &serde_json::Value) -> (text: Option<
    &str,
>)
    ensures
        text is Some <==> json_model(*value) is String,
        text matches Some(s) ==> json_model(*value) == Json::String(s@),
;

/// `Value::as_array`: the items of an array document, and nothing for any other.
pub assume_specification[ serde_json::Value::as_array ](value: &serde_json::Value) -> (items:
    Option<&Vec<serde_json::Value>>)
    ensures
        items is Some <==> json_model(*value) is Array,
        items matches Some(list) ==> json_model(*value) == Json::Array(json_models(list@)),
;

/// `Value::clone`: a value equal to the one cloned.
pub assume_specification[ <serde_json::Value as Clone>::clone ](
    value: &serde_json::Value,
) -> (copy: serde_json::Value)
    ensures
        copy == *value,
;

/// `Error::to_string`: the message of a `serde_json` error.
#[verifier::external_body]
pub(crate) fn json_error_text(error: &serde_json::Error) -> (message: String)
    ensures
        message@ == json_error_message(*error),
{
    error.to_string()
}

/// Whether `r` is what the printing of a document comes to: the bytes that
/// were printed, or an encoding failure with the message of the error.
pub open spec fn is_printed(
    printed: Result<Vec<u8>, serde_json::Error>,
    r: Result<Vec<u8>, Failure>,
) -> bool {
    match printed {
        Ok(bytes) => r == Ok::<Vec<u8>, Failure>(bytes),
        Err(error) => r matches Err(failure) && failure@ == (FailureModel {
            kind: FailureKind::Encoding,
            message: json_error_message(error),
        }),
    }
}

/// What the printing of a document comes to: the bytes, or an encoding
/// failure that carries the message of `serde_json`.
pub fn printed_bytes(printed: Result<Vec<u8>, serde_json::Error>) -> (r: Result<Vec<u8>, Failure>)
    ensures
        is_printed(printed, r),
{
    match printed {
        Ok(bytes) => Ok(bytes),
        Err(error) => Err(Failure { kind: FailureKind::Encoding, message: json_error_text(&error) }),
    }
}

/// The text of a member of an object, where the document is an object that
/// has a member of that name which is a string.
pub open spec fn member_text(document: Json, name: Seq<char>) -> Option<Seq<char>> {
    match document {
        Json::Object(members) => if members.dom().contains(name) {
            match members[name] {
                Json::String(text) => Some(text),
                _ => None,
            }
        } else {
            None
        },
        _ => None,
    }
}

/// The texts of a list of documents, where each of them is a string.
pub open spec fn document_texts(items: Seq<Json>) -> Option<Seq<Seq<char>>> {
    if forall|i: int| 0 <= i < items.len() ==> #[trigger] items[i] is String {
        Some(Seq::new(items.len(), |i: int| items[i]->String_0))
    } else {
        None
    }
}

/// The texts of a member of an object, where the document is an object that
/// has a member of that name which is an array of strings.
pub open spec fn member_texts(document: Json, name: Seq<char>) -> Option<Seq<Seq<char>>> {
    match document {
        Json::Object(members) => if members.dom().contains(name) {
            match members[name] {
                Json::Array(items) => document_texts(items),
                _ => None,
            }
        } else {
            None
        },
        _ => None,
    }
}

/// Reads the text of a member of an object: see [`member_text`].
pub fn text_member(document: &serde_json::Value, name: &str) -> (text: Option<String>)
    ensures
        text is Some <==> member_text(json_model(*document), name@) is Some,
        text matches Some(s) ==> member_text(json_model(*document), name@) == Some(s@),
{
    match json_get(document, name) {
        Some(member) => match member.as_str() {
            Some(text) => Some(String::from_str(text)),
            None => None,
        },
        None => None,
    }
}

/// Reads the texts of a member of an object: see [`member_texts`].
pub fn texts_member(document: &serde_json::Value, name: &str) -> (list: Option<Vec<String>>)
    ensures
        list is Some <==> member_texts(json_model(*document), name@) is Some,
        list matches Some(found) ==> member_texts(json_model(*document), name@) == Some(
            texts(found@),
        ),
{
    let member = match json_get(document, name) {
        Some(member) => member,
        None => {
            return None;
        },
    };
    let items = match member.as_array() {
        Some(items) => items,
        None => {
            return None;
        },
    };
    let ghost documents = json_models(items@);
    let mut found: Vec<String> = Vec::new();
    let mut i: usize = 0;
    while i < items.len()
        invariant
            i <= items.len(),
            documents == json_models(items@),
            member_texts(json_model(*document), name@) == document_texts(documents),
            found@.len() == i,
            forall|k: int| 0 <= k < i ==> #[trigger] documents[k] == Json::String(found@[k]@),
        decreases items.len() - i,
    {
        match items[i].as_str() {
            Some(text) => {
                found.push(String::from_str(text));
            },
            None => {
                assert(!(documents[i as int] is String));
                return None;
            },
        }
        i = i + 1;
    }
    assert(document_texts(documents) == Some(texts(found@)));
    Some(found)
}

} // verus!
