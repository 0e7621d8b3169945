//! Reading the version out of a mod's `mod.json` text.
use vstd::prelude::*;

verus! {

#[verifier::external_type_specification]
#[verifier::external_body]
pub struct ExJsonValue(serde_json::Value);

#[verifier::external_type_specification]
#[verifier::external_body]
pub struct ExJsonError(serde_json::Error);

/// `text` is a single JSON document, as serde_json reads it.
pub uninterp spec fn is_json_doc(text: Seq<char>) -> bool;

/// Relies on serde_json::from_str: parses the whole text as one JSON value;
/// whether that succeeds depends on the text alone.
#[verifier::external_body]
fn parse_json(text: &str) -> (r: Result<serde_json::Value, serde_json::Error>)
    ensures
        r is Ok <==> is_json_doc(text@),
{
    serde_json::from_str(text)
}

/// Relies on serde_json::Value::get: the member `key` of an object.
#[verifier::external_body]
fn member<'a>(v: &'a serde_json::Value, key: &str) -> Option<&'a serde_json::Value> {
    v.get(key)
}

/// Relies on serde_json::Value::as_str: the text of a JSON string.
#[verifier::external_body]
fn string_text(v: &serde_json::Value) -> Option<String> {
    v.as_str().map(|s| s.to_string())
}

/// Why no version could be read.
pub enum ModVersionError {
    /// The text is not JSON.
    Json,
    /// The document has no string member `Version`.
    NoVersion,
}

/// The string member `Version` of a `mod.json` document. Text that is not
/// JSON fails with `Json`; a document without such a member with `NoVersion`.
pub fn mod_version(json_text: &str) -> (r: Result<String, ModVersionError>)
    ensures
        r matches Err(ModVersionError::Json) <==> !is_json_doc(json_text@),
{
    let doc = match parse_json(json_text) {
        Ok(doc) => doc,
        Err(_) => return Err(ModVersionError::Json),
    };
    match member(&doc, "Version") {
        Some(v) => match string_text(v) {
            Some(s) => Ok(s),
            None => Err(ModVersionError::NoVersion),
        },
        None => Err(ModVersionError::NoVersion),
    }
}

} // verus!
