//! Reading single values out of JSON text.

use vstd::prelude::*;
use vstd::string::*;

verus! {

/// The string at a JSON pointer of a text: what `serde_json` parses, followed by
/// `Value::pointer` and `Value::as_str`. `None` where the text is no JSON, nothing
/// stands at the pointer, or what stands there is no string.
pub uninterp spec fn json_string_at(text: Seq<char>, pointer: Seq<char>) -> Option<Seq<char>>;

/// The length of the array at a JSON pointer of a text; `None` where the text is no
/// JSON, nothing stands at the pointer, or what stands there is no array.
pub uninterp spec fn json_array_at(text: Seq<char>, pointer: Seq<char>) -> Option<usize>;

/// Calls `serde_json::from_str` on the text, `Value::pointer` on the value and
/// `Value::as_str` on what stands there. The result is a function of the text and
/// the pointer; the grammar of JSON is not restated here.
#[verifier::external_body]
pub(crate) fn string_at(text: &str, pointer: &str) -> (r: Option<String>)
    ensures
        (match r {
            Some(s) => Some(s@),
            None => None,
        }) == json_string_at(text@, pointer@),
{
    let value: serde_json::Value = serde_json::from_str(text).ok()?;
    value.pointer(pointer)?.as_str().map(str::to_string)
}

/// Calls `serde_json::from_str` on the text, `Value::pointer` on the value and
/// `Value::as_array` on what stands there, and hands back the length of the array.
#[verifier::external_body]
pub(crate) fn array_len_at(text: &str, pointer: &str) -> (r: Option<usize>)
    ensures
        r == json_array_at(text@, pointer@),
{
    let value: serde_json::Value = serde_json::from_str(text).ok()?;
    value.pointer(pointer)?.as_array().map(Vec::len)
}

} // verus!
