//! What the JSON parser of `serde_json` makes of a text, as far as the token
//! filter reads it: whether a text is a JSON document, the elements of an
//! array, the members of an object and the content of a string, each part
//! given back as its raw JSON text.

use vstd::prelude::*;
use crate::text::string_views;

verus! {

/// Whether `serde_json` parses `text` as one JSON value.
pub uninterp spec fn json_document_parses(text: Seq<char>) -> bool;

/// The raw texts of the elements, in order, when `serde_json` parses `text`
/// as a JSON array.
pub uninterp spec fn json_array_elements(text: Seq<char>) -> Option<Seq<Seq<char>>>;

/// The keys and raw value texts of the members, when `serde_json` parses
/// `text` as a JSON object.
pub uninterp spec fn json_object_members(text: Seq<char>) -> Option<Seq<(Seq<char>, Seq<char>)>>;

/// The content of the string, when `serde_json` parses `text` as a JSON
/// string.
pub uninterp spec fn json_string_content(text: Seq<char>) -> Option<Seq<char>>;

/// The views of a sequence of pairs of strings.
pub open spec fn pair_views(v: Seq<(String, String)>) -> Seq<(Seq<char>, Seq<char>)> {
    v.map_values(|p: (String, String)| (p.0@, p.1@))
}

/// Calls `serde_json::from_str::<serde_json::Value>`: the result is whether it
/// succeeds, which depends on the text alone.
#[verifier::external_body]
pub(crate) fn json_parses(text: &str) -> (parses: bool)
    ensures
        parses == json_document_parses(text@),
{
    serde_json::from_str::<serde_json::Value>(text).is_ok()
}

/// Calls `serde_json::from_str` into a vector of raw values: on success, the
/// raw text of each element, in order. Nothing is claimed of these texts
/// beyond that they are a function of `text`.
#[verifier::external_body]
pub(crate) fn json_elements(text: &str) -> (elements: Option<Vec<String>>)
    ensures
        match elements {
            Some(v) => json_array_elements(text@) == Some(string_views(v@)),
            None => json_array_elements(text@) is None,
        },
{
    match serde_json::from_str::<Vec<&serde_json::value::RawValue>>(text) {
        Ok(raw) => Some(raw.iter().map(|r| r.get().to_string()).collect()),
        Err(_) => None,
    }
}

/// Calls `serde_json::from_str` into an ordered map from keys to raw values:
/// on success, each key with the raw text of its value, in key order.
#[verifier::external_body]
pub(crate) fn json_members(text: &str) -> (members: Option<Vec<(String, String)>>)
    ensures
        match members {
            Some(v) => json_object_members(text@) == Some(pair_views(v@)),
            None => json_object_members(text@) is None,
        },
{
    match serde_json::from_str::<std::collections::BTreeMap<String, &serde_json::value::RawValue>>(
        text,
    ) {
        Ok(map) => Some(map.into_iter().map(|(k, v)| (k, v.get().to_string())).collect()),
        Err(_) => None,
    }
}

/// Calls `serde_json::from_str::<String>`: on success, the string's content.
#[verifier::external_body]
pub(crate) fn json_string(text: &str) -> (content: Option<String>)
    ensures
        match content {
            Some(s) => json_string_content(text@) == Some(s@),
            None => json_string_content(text@) is None,
        },
{
    serde_json::from_str::<String>(text).ok()
}

} // verus!
