//! The serialization boundary of the store.
//!
//! A document is a `serde_json::Value`, carried through the store without
//! being interpreted. Rendering a collection to file text and parsing file
//! text back are done by serde_json behind the trusted contracts below; the
//! two results are named by the uninterpreted functions `rendered` and
//! `parsed`, and everything the store claims about file content is stated
//! over those names.

use vstd::prelude::*;

verus! {

#[verifier::external_type_specification]
#[verifier::external_body]
pub struct ExValue(serde_json::Value);

#[verifier::external_type_specification]
#[verifier::external_body]
pub struct ExJsonError(serde_json::Error);

/// The text that `serde_json::to_string_pretty` produces for a given
/// sequence of documents. The output is a function of the documents alone.
pub uninterp spec fn rendered(docs: Seq<serde_json::Value>) -> Seq<char>;

/// What `serde_json::from_str::<Vec<serde_json::Value>>` makes of a given
/// text: `Some(docs)` where the text is a valid JSON array of documents,
/// `None` where it is not. The outcome is a function of the text alone.
pub uninterp spec fn parsed(text: Seq<char>) -> Option<Seq<serde_json::Value>>;

/// Relies on `serde_json::to_string_pretty`: serializing a vector of
/// `serde_json::Value`s writes to an in-memory buffer and never returns
/// `Err` (the values' maps have string keys and their numbers are always
/// finite), and the output is a function of the values alone.
///
/// The second clause relies on `serde_json::from_str` with the
/// `float_roundtrip` feature, under which every number it wrote is read
/// back to the identical value: parsing the rendered text either fails —
/// `from_str` refuses text nested beyond its recursion limit of 128 levels,
/// which the renderer does not enforce — or yields exactly the documents
/// that were rendered, never different ones. (Nesting that deep also makes
/// any recursive handling of the value, this serialization included, a
/// stack-exhaustion risk; the contracts here do not model resource
/// exhaustion.)
#[verifier::external_body]
pub(crate) fn render_documents(docs: &Vec<serde_json::Value>) -> (r: String)
    ensures
        r@ == rendered(docs@),
        parsed(r@) is Some ==> parsed(r@) == Some(docs@),
{
    serde_json::to_string_pretty(docs).unwrap()
}

/// Relies on `serde_json::from_str::<Vec<serde_json::Value>>`: it returns
/// `Ok` exactly on texts that are valid JSON arrays of documents, and `Err`
/// on all others.
#[verifier::external_body]
pub(crate) fn parse_documents(text: &str) -> (r: Result<
    Vec<serde_json::Value>,
    serde_json::Error,
>)
    ensures
        match r {
            Ok(docs) => parsed(text@) == Some(docs@),
            Err(_) => parsed(text@) is None,
        },
{
    serde_json::from_str(text)
}

/// Relies on `serde_json::Error`'s `Display` impl for a human-readable
/// description of a parse failure; nothing is claimed of the text.
#[verifier::external_body]
pub(crate) fn json_error_message(e: &serde_json::Error) -> String {
    e.to_string()
}

} // verus!
