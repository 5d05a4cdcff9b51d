//! JSON values as identifiers of documents.

use vstd::prelude::*;
use crate::query::opt_text;

verus! {

/// `serde_json::Value`, a JSON value of any kind. Nothing is known of what
/// it holds but through the two names below.
#[verifier::external_type_specification]
#[verifier::external_body]
pub struct ExValue(serde_json::Value);

/// The content of a JSON value that is a string; `None` for any other value.
pub uninterp spec fn json_string(v: serde_json::Value) -> Option<Seq<char>>;

/// The compact JSON text of a value.
pub uninterp spec fn json_text(v: serde_json::Value) -> Seq<char>;

/// `serde_json::Value::as_str`: the string's content where the value is a
/// JSON string, nothing otherwise. The content is copied.
#[verifier::external_body]
fn value_as_str(v: &serde_json::Value) -> (s: Option<String>)
    ensures
        opt_text(s) == json_string(*v),
{
    v.as_str().map(String::from)
}

/// `serde_json::Value`'s `Display` through `to_string`: the value in compact
/// JSON, without added white space. Writing a value into a string does not
/// fail.
#[verifier::external_body]
fn value_to_string(v: &serde_json::Value) -> (s: String)
    ensures
        s@ == json_text(*v),
{
    v.to_string()
}

/// The identifier that a string content, if any, and a JSON text stand for:
/// the content where there is one, else the text.
pub open spec fn id_text(content: Option<Seq<char>>, text: Seq<char>) -> Seq<char> {
    match content {
        Some(s) => s,
        None => text,
    }
}

/// The document identifier that a JSON value stands for: a string verbatim,
/// any other value by its compact JSON text.
pub open spec fn coerced_id(v: serde_json::Value) -> Seq<char> {
    id_text(json_string(v), json_text(v))
}

/// Picks the identifier from a value's string content and its JSON text.
pub fn document_id_from(content: Option<String>, text: String) -> (id: String)
    ensures
        id@ == id_text(opt_text(content), text@),
        content matches Some(s) ==> id == s,
        content is None ==> id == text,
{
    match content {
        Some(s) => s,
        None => text,
    }
}

/// The document identifier that `v` stands for.
pub fn coerce_document_id(v: &serde_json::Value) -> (id: String)
    ensures
        id@ == coerced_id(*v),
{
    let content = value_as_str(v);
    let text = value_to_string(v);
    document_id_from(content, text)
}

/// The identifiers that the values of a batch stand for, in order.
pub open spec fn coerced_ids(body: Seq<serde_json::Value>) -> Seq<Seq<char>> {
    body.map_values(|v: serde_json::Value| coerced_id(v))
}

} // verus!
