//! JSON text, written by `serde_json`.

use vstd::prelude::*;

verus! {

/// `serde_json::Error`: carried from the JSON writer to the function that
/// describes it, and never looked into.
#[verifier::external_type_specification]
#[verifier::external_body]
pub struct ExJsonError(serde_json::Error);

/// The text that `serde_json::to_string` writes for the JSON object whose one
/// member is named `key` and has the string `value` as its value.
pub uninterp spec fn json_object_text(key: Seq<char>, value: Seq<char>) -> Seq<char>;

/// Whether a text is written between quotes as it stands: JSON escapes the
/// quote, the backslash and the control characters, and nothing else.
pub open spec fn is_plain(text: Seq<char>) -> bool {
    forall|i: int|
        0 <= i < text.len() ==> {
            &&& #[trigger] text[i] != '"'
            &&& text[i] != '\\'
            &&& text[i] >= ' '
        }
}

/// The object `{"key":"value"}`, written without a space and without an escape.
pub open spec fn plain_object_text(key: Seq<char>, value: Seq<char>) -> Seq<char> {
    seq!['{', '"'] + key + seq!['"', ':', '"'] + value + seq!['"', '}']
}

/// Builds the `serde_json::Value` of an object with one string member and has
/// `serde_json::to_string` write it. The writer succeeds on every such
/// object: it writes into a vector of bytes, which takes whatever it is
/// given, and the two failures that its documentation names, a value that
/// refuses to be written and a key that is no string, cannot occur in an
/// object of strings. What it writes is a function of the key and the value
/// alone, and where neither needs an escape it is the two between quotes, a
/// colon between them, in braces.
#[verifier::external_body]
pub(crate) fn encode_object(key: &str, value: &str) -> (out: Result<String, serde_json::Error>)
    ensures
        out is Ok,
        out matches Ok(text) ==> text@ == json_object_text(key@, value@),
        out matches Ok(text) ==> (is_plain(key@) && is_plain(value@) ==> text@
            == plain_object_text(key@, value@)),
{
    let mut members = serde_json::Map::new();
    members.insert(key.to_owned(), serde_json::Value::String(value.to_owned()));
    serde_json::to_string(&serde_json::Value::Object(members))
}

/// The message of a `serde_json::Error`, as its `Display` writes it. Nothing
/// is claimed of the text. It is there for the arm that takes the writer's
/// error, so that the type is handled without a panic.
#[verifier::external_body]
pub(crate) fn describe(error: &serde_json::Error) -> (out: String) {
    error.to_string()
}

} // verus!
