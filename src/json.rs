//! JSON encoding of role permissions, through serde_json.

use vstd::prelude::*;

verus! {

/// What `serde_json::to_string` writes for a list of texts.
pub uninterp spec fn json_of_text_list(v: Seq<Seq<char>>) -> Seq<char>;

/// What `serde_json::to_string` writes for one text.
pub uninterp spec fn json_of_text(s: Seq<char>) -> Seq<char>;

/// What `serde_json::from_str` reads as a list of texts, if the input is one.
pub uninterp spec fn text_list_of_json(s: Seq<char>) -> Option<Seq<Seq<char>>>;

/// Relies on `serde_json::to_string` for `Vec<String>`: the JSON array of the
/// texts. Its documentation names the only failures, a failing `Serialize`
/// impl and a map with non-string keys, and neither can occur for strings.
#[verifier::external_body]
pub(crate) fn encode_text_list(v: &Vec<String>) -> (r: Result<String, String>)
    ensures
        r is Ok,
        r matches Ok(s) ==> s@ == json_of_text_list(v.deep_view()),
{
    serde_json::to_string(v).map_err(|e| e.to_string())
}

/// Relies on `serde_json::to_string` for `str`: the text as a JSON string,
/// quoted and escaped. As for lists of texts, none of the failures that its
/// documentation names can occur for a string.
#[verifier::external_body]
pub(crate) fn encode_text(s: &str) -> (r: Result<String, String>)
    ensures
        r is Ok,
        r matches Ok(t) ==> t@ == json_of_text(s@),
{
    serde_json::to_string(s).map_err(|e| e.to_string())
}

/// Relies on `serde_json::from_str` for `Vec<String>`: the texts of a JSON
/// array of strings, or nothing when the input is not one. The outcome
/// depends on the input alone.
#[verifier::external_body]
pub(crate) fn decode_text_list(s: &str) -> (r: Option<Vec<String>>)
    ensures
        match r {
            Some(v) => text_list_of_json(s@) == Some(v.deep_view()),
            None => text_list_of_json(s@).is_none(),
        },
{
    serde_json::from_str::<Vec<String>>(s).ok()
}

} // verus!
