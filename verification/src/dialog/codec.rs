//! List-valued fields as they are kept in a single text column.
//!
//! Speaker-id lists and label lists are stored as JSON arrays of strings.
//! Writing and reading the JSON text is `serde_json`'s work; this module gives
//! the two calls a contract and maps the reader's error to [`EditorError`].

use crate::dialog::error::EditorError;
use vstd::prelude::*;

verus! {

/// `serde_json::Error`, of which nothing is known but that it is an error.
#[verifier::external_type_specification]
#[verifier::external_body]
pub struct ExJsonError(serde_json::Error);

/// The text that `serde_json::to_string` writes for a list of strings.
pub uninterp spec fn json_text(list: Seq<Seq<char>>) -> Seq<char>;

/// The list of strings that `serde_json::from_str` reads from a text, or
/// `None` where it reports an error.
pub uninterp spec fn json_list(text: Seq<char>) -> Option<Seq<Seq<char>>>;

/// The contents of a list of strings, each string as its characters.
pub open spec fn texts(list: Seq<String>) -> Seq<Seq<char>> {
    Seq::new(list.len(), |i: int| list[i]@)
}

/// Trusted: `serde_json::to_string` on a `Vec<String>`.
///
/// Claims that the call succeeds (its documentation names two causes of
/// failure, a failing `Serialize` impl and a map with non-string keys, and a
/// list of strings has neither), that the text depends on the list alone, and
/// that the text is a JSON array of the list's strings, each escaped as JSON
/// asks, so that `serde_json::from_str` reads the same list back from it.
#[verifier::external_body]
fn json_encode(list: &Vec<String>) -> (r: Result<String, serde_json::Error>)
    ensures
        r is Ok,
        r->Ok_0@ == json_text(texts(list@)),
        json_list(r->Ok_0@) == Some(texts(list@)),
{
    serde_json::to_string(list)
}

/// Trusted: `serde_json::from_str` with a `Vec<String>` as its target.
///
/// Claims only that the outcome depends on the text alone: the list on
/// success, and that an error is an error for every reading of that text.
#[verifier::external_body]
fn json_decode(text: &str) -> (r: Result<Vec<String>, serde_json::Error>)
    ensures
        match r {
            Ok(list) => json_list(text@) == Some(texts(list@)),
            Err(_) => json_list(text@) is None,
        },
{
    serde_json::from_str(text)
}

/// Serializes a list of strings for a text column.
///
/// The text is one that [`decode_list`] reads back as the same list.
pub fn encode_list(list: &Vec<String>) -> (text: String)
    ensures
        text@ == json_text(texts(list@)),
        json_list(text@) == Some(texts(list@)),
{
    json_encode(list).unwrap()
}

/// Reads a list of strings from the text of a column.
///
/// Fails with [`EditorError::MalformedList`] exactly when the text is not a
/// serialized list of strings.
pub fn decode_list(text: &String) -> (r: Result<Vec<String>, EditorError>)
    ensures
        match r {
            Ok(list) => json_list(text@) == Some(texts(list@)),
            Err(e) => e == EditorError::MalformedList && json_list(text@) is None,
        },
{
    match json_decode(text.as_str()) {
        Ok(list) => Ok(list),
        Err(_) => Err(EditorError::MalformedList),
    }
}

} // verus!
