//! The boundary to `serde_json`. A document is opaque here: what is known of
//! one is its compact text, and what the crate's functions return is stated
//! over such texts. Nothing in this file is proved.

use serde_json::Value;
use vstd::prelude::*;

verus! {

/// `serde_json::Value`: a JSON document. Nothing inside one is seen here.
#[verifier::external_type_specification]
#[verifier::external_body]
pub struct ExValue(serde_json::Value);

/// `serde_json::Error`: why a body was rejected. Nothing inside one is seen
/// here.
#[verifier::external_type_specification]
#[verifier::external_body]
pub struct ExError(serde_json::Error);

/// The compact JSON text of a document, without any white space between its
/// tokens: what `Display` writes for a `serde_json::Value`. Two documents
/// with the same text are the same document.
pub uninterp spec fn json_text(document: serde_json::Value) -> Seq<char>;

/// The compact text of the document that `serde_json::from_str` reads from a
/// body, and `None` for a body that it rejects.
pub uninterp spec fn decoded_text(body: Seq<char>) -> Option<Seq<char>>;

/// The compact text of what indexing a document, given by its compact text,
/// with a string key returns.
pub uninterp spec fn member_text(document: Seq<char>, key: Seq<char>) -> Seq<char>;

/// The compact text of what indexing a document, given by its compact text,
/// with a position returns.
pub uninterp spec fn element_text(document: Seq<char>, position: nat) -> Seq<char>;

/// What `Value::as_i64` returns for the document with the given compact text.
pub uninterp spec fn integer_value(document: Seq<char>) -> Option<i64>;

/// `serde_json::from_str::<Value>`: the document that the body holds, or the
/// error where the body is not one JSON document. The outcome depends on the
/// body alone.
#[verifier::external_body]
pub(crate) fn decode(body: &str) -> (decoded: Result<Value, serde_json::Error>)
    ensures
        match decoded {
            Ok(document) => decoded_text(body@) == Some(json_text(document)),
            Err(_) => decoded_text(body@) is None,
        },
{
    serde_json::from_str::<Value>(body)
}

/// `Value`'s index operator with a string key: the member of an object under
/// that key, and the null document where there is none or the document is no
/// object. It never panics. What it returns depends on the document and the
/// key alone.
#[verifier::external_body]
pub(crate) fn member<'a>(document: &'a Value, key: &str) -> (found: &'a Value)
    ensures
        json_text(*found) == member_text(json_text(*document), key@),
{
    &document[key]
}

/// `Value`'s index operator with a position: the element of an array at that
/// position, and the null document where there is none or the document is no
/// array. It never panics. What it returns depends on the document and the
/// position alone.
#[verifier::external_body]
pub(crate) fn element<'a>(document: &'a Value, position: usize) -> (found: &'a Value)
    ensures
        json_text(*found) == element_text(json_text(*document), position as nat),
{
    &document[position]
}

/// `Value`'s `to_string`, which goes through its `Display`: the compact text
/// of the document.
#[verifier::external_body]
pub(crate) fn render(document: &Value) -> (text: String)
    ensures
        text@ == json_text(*document),
{
    document.to_string()
}

/// `Value::as_i64`: the number that the document is, where it is an integer
/// that fits, else `None`. The outcome depends on the document alone.
#[verifier::external_body]
pub(crate) fn as_integer(document: &Value) -> (number: Option<i64>)
    ensures
        number == integer_value(json_text(*document)),
{
    document.as_i64()
}

/// `serde_json::Error`'s `to_string`: the message of a decoding error with
/// the place where it arose. Nothing is claimed of the text.
#[verifier::external_body]
pub(crate) fn describe(error: &serde_json::Error) -> (text: String)
{
    error.to_string()
}

} // verus!
