//! JSON documents carried through the library without being inspected.

use vstd::prelude::*;

verus! {

/// A JSON document (`serde_json::Value`). The library stores and moves such
/// documents but never reads inside them.
#[verifier::external_type_specification]
#[verifier::external_body]
pub struct ExJsonValue(serde_json::Value);

/// A JSON (de)serialisation error (`serde_json::Error`), carried as produced.
#[verifier::external_type_specification]
#[verifier::external_body]
pub struct ExJsonError(serde_json::Error);

/// Copies a JSON document (`<serde_json::Value as Clone>::clone`). The copy is
/// claimed to be the same document, as the derived structural clone makes it.
#[verifier::external_body]
pub(crate) fn clone_json(v: &serde_json::Value) -> (r: serde_json::Value)
    ensures
        r == *v,
{
    v.clone()
}

/// The JSON document that `serde_json::from_str::<serde_json::Value>` reads
/// from a text, or `None` where the text is not one JSON document. It depends
/// on the text alone.
pub uninterp spec fn json_document(text: Seq<char>) -> Option<serde_json::Value>;

/// The text `{}`.
pub open spec fn empty_object_text() -> Seq<char> {
    seq!['{', '}']
}

/// The document is the empty JSON object, the one the text `{}` reads as.
pub open spec fn is_empty_json_object(v: serde_json::Value) -> bool {
    json_document(empty_object_text()) == Some(v)
}

/// `serde_json::from_str::<serde_json::Value>`: reads a JSON document from a
/// text. The text `{}` is a JSON document (the empty object), so it always
/// reads.
#[verifier::external_body]
pub(crate) fn parse_json_document(text: &str) -> (r: Option<serde_json::Value>)
    ensures
        r == json_document(text@),
        text@ == empty_object_text() ==> r is Some,
{
    serde_json::from_str(text).ok()
}

/// The empty JSON object `{}`.
pub fn empty_json_object() -> (r: serde_json::Value)
    ensures
        is_empty_json_object(r),
{
    let text = "{}";
    proof {
        reveal_strlit("{}");
        assert(text@ =~= empty_object_text());
    }
    let parsed = parse_json_document(text);
    parsed.unwrap()
}

} // verus!
