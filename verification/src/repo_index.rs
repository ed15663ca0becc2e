//! The table of repositories: how a repository's topics stand in a column.
//!
//! The table itself is kept by the program in a relational store. A column
//! holds text, so the topics of a repository are written as the compact text
//! of a JSON array of strings.

use vstd::prelude::*;
use vstd::utf8::{decode_utf8, encode_utf8, valid_utf8};

use crate::json::{
    document_texts, from_slice, json_array, json_bytes, json_model, json_models, json_parse,
    json_string, to_vec, Json,
};
use crate::text::{from_utf8, texts};

verus! {

/// The array document of a list of topics.
pub open spec fn topics_document(topics: Seq<Seq<char>>) -> Json {
    Json::Array(Seq::new(topics.len(), |i: int| Json::String(topics[i])))
}

/// The topics that a column's text holds: the texts of a JSON array of
/// strings, and no topics for any other text.
pub open spec fn column_topics(column: Seq<char>) -> Seq<Seq<char>> {
    match json_parse(encode_utf8(column)) {
        Some(Json::Array(items)) => match document_texts(items) {
            Some(topics) => topics,
            None => Seq::empty(),
        },
        _ => Seq::empty(),
    }
}

/// The text of a column from printed bytes: the text that the bytes encode,
/// and the empty text where nothing was printed or the bytes are not UTF-8.
pub open spec fn column_text(printed: Option<Seq<u8>>) -> Seq<char> {
    match printed {
        Some(bytes) => if valid_utf8(bytes) {
            decode_utf8(bytes)
        } else {
            Seq::empty()
        },
        None => Seq::empty(),
    }
}

/// The text of a column from what the printing of the topics came to.
pub fn column_of(printed: Result<Vec<u8>, serde_json::Error>) -> (column: String)
    ensures
        column@ == column_text(
            match printed {
                Ok(bytes) => Some(bytes@),
                Err(_) => None,
            },
        ),
{
    match printed {
        Ok(bytes) => match from_utf8(bytes) {
            Some(column) => column,
            None => String::new(),
        },
        Err(_) => String::new(),
    }
}

/// Writes topics as the text of a column: the compact text of their array
/// document, as [`column_of`] reads it from the printed bytes.
pub fn topics_to_column(topics: &Vec<String>) -> (column: String)
    ensures
        column@ == column_text(Some(json_bytes(topics_document(texts(topics@))))),
{
    let mut items: Vec<serde_json::Value> = Vec::new();
    let mut i: usize = 0;
    while i < topics.len()
        invariant
            i <= topics.len(),
            items@.len() == i,
            forall|k: int|
                0 <= k < i ==> #[trigger] json_model(items@[k]) == Json::String(topics@[k]@),
        decreases topics.len() - i,
    {
        items.push(json_string(topics[i].as_str()));
        i = i + 1;
    }
    assert(Json::Array(json_models(items@)) == topics_document(texts(topics@))) by {
        assert(json_models(items@) =~= Seq::new(
            texts(topics@).len(),
            |i: int| Json::String(texts(topics@)[i]),
        ));
    }
    let document = json_array(items);
    column_of(to_vec(&document))
}

/// Reads topics from the text of a column: see [`column_topics`].
pub fn topics_from_column(column: &str) -> (topics: Vec<String>)
    ensures
        texts(topics@) == column_topics(column@),
{
    let document = match from_slice(column.as_bytes()) {
        Ok(document) => document,
        Err(_) => {
            let none: Vec<String> = Vec::new();
            return none;
        },
    };
    let items = match document.as_array() {
        Some(items) => items,
        None => {
            let none: Vec<String> = Vec::new();
            return none;
        },
    };
    let ghost documents = json_models(items@);
    let mut topics: Vec<String> = Vec::new();
    let mut i: usize = 0;
    while i < items.len()
        invariant
            i <= items.len(),
            documents == json_models(items@),
            json_parse(encode_utf8(column@)) == Some(Json::Array(documents)),
            topics@.len() == i,
            forall|k: int| 0 <= k < i ==> #[trigger] documents[k] == Json::String(topics@[k]@),
        decreases items.len() - i,
    {
        match items[i].as_str() {
            Some(text) => {
                topics.push(String::from_str(text));
            },
            None => {
                assert(!(documents[i as int] is String));
                let none: Vec<String> = Vec::new();
                return none;
            },
        }
        i = i + 1;
    }
    assert(document_texts(documents) == Some(texts(topics@)));
    topics
}

} // verus!
