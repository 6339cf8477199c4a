//! JSON documents and the operations on them that `serde_json` and
//! `json_value_merge` provide.
//!
//! A document is a `serde_json::Value`. Nothing here looks inside one: each
//! operation of the outside crates is a function of its arguments, and its
//! result has a name by which the contracts of this crate speak of it.

use crate::text::chars_of;
use json_value_merge::Merge;
use serde_json::Value;
use vstd::prelude::*;

verus! {

/// A JSON document, as `serde_json` holds it.
#[verifier::external_type_specification]
#[verifier::external_body]
pub struct ExValue(serde_json::Value);

/// The error of `serde_json`'s parser and printer.
#[verifier::external_type_specification]
#[verifier::external_body]
pub struct ExJsonError(serde_json::Error);

/// The error type in which `json_value_merge` reports a failed merge.
#[verifier::external_type_specification]
#[verifier::external_body]
pub struct ExIoError(std::io::Error);

/// The document that `text` holds; `None` when `text` is not one JSON document.
pub uninterp spec fn json_parsed(text: Seq<char>) -> Option<Value>;

/// The value that the JSON Pointer `pointer` addresses in `doc`; `None` when it
/// addresses nothing.
pub uninterp spec fn json_lookup(doc: Value, pointer: Seq<char>) -> Option<Value>;

/// The text of a JSON string value; `None` for every other kind of value.
pub uninterp spec fn json_string(v: Value) -> Option<Seq<char>>;

/// The compact JSON text by which a value is displayed.
pub uninterp spec fn json_display(v: Value) -> Seq<char>;

/// Whether a value is a JSON object.
pub uninterp spec fn json_is_object(v: Value) -> bool;

/// Whether a value is a JSON array.
pub uninterp spec fn json_is_array(v: Value) -> bool;

/// The document that results from merging the JSON string `text` into `doc` at
/// `pointer`; `None` when the merge is refused.
pub uninterp spec fn json_merged(doc: Value, pointer: Seq<char>, text: Seq<char>) -> Option<Value>;

/// The compact JSON text of a document; `None` when it cannot be written.
pub uninterp spec fn json_encoded(doc: Value) -> Option<Seq<char>>;

/// Whether the characters `~01` stand somewhere in `pointer`. In such a
/// pointer the two escapes `~0` and `~1` can be read in two ways, and a merge
/// at it need not come to an end.
pub open spec fn has_ambiguous_escape(pointer: Seq<char>) -> bool {
    exists|i: int|
        0 <= i && i + 2 < pointer.len() && #[trigger] pointer[i] == '~' && pointer[i + 1] == '0'
            && pointer[i + 2] == '1'
}

/// The string by which a value is substituted and compared: a string value
/// stands for its own text, any other value for its JSON text.
pub open spec fn text_of(v: Value) -> Seq<char> {
    match json_string(v) {
        Some(s) => s,
        None => json_display(v),
    }
}

/// Calls `serde_json::from_str` at the type `Value`. The parser reads nothing
/// but the text, so what it returns has a name: the contract says that the
/// call succeeds exactly where `json_parsed` is some document, and returns it.
#[verifier::external_body]
pub(crate) fn parse_document(text: &str) -> (r: Result<Value, serde_json::Error>)
    ensures
        match r {
            Ok(doc) => json_parsed(text@) == Some(doc),
            Err(_) => json_parsed(text@) is None,
        },
{
    serde_json::from_str(text)
}

/// Calls `Value::pointer`, which resolves a JSON Pointer by walking the
/// document and changes nothing. The contract names the value it returns, or
/// its absence, as `json_lookup` of the document and the pointer.
#[verifier::external_body]
pub(crate) fn lookup<'a>(doc: &'a Value, pointer: &str) -> (r: Option<&'a Value>)
    ensures
        match r {
            Some(found) => json_lookup(*doc, pointer@) == Some(*found),
            None => json_lookup(*doc, pointer@) is None,
        },
{
    doc.pointer(pointer)
}

/// Calls `Value::as_str`, which returns the text of a string value and `None`
/// for a value of any other kind. The contract names that as `json_string`.
#[verifier::external_body]
pub(crate) fn string_leaf<'a>(v: &'a Value) -> (r: Option<&'a str>)
    ensures
        match r {
            Some(s) => json_string(*v) == Some(s@),
            None => json_string(*v) is None,
        },
{
    v.as_str()
}

/// Calls `to_string` on a `Value`, which writes the value by its `Display`
/// impl: compact JSON. The contract names that text as `json_display`.
#[verifier::external_body]
pub(crate) fn display_text(v: &Value) -> (r: String)
    ensures
        r@ == json_display(*v),
{
    v.to_string()
}

/// Calls `Value::is_object`. The contract names its answer as
/// `json_is_object`.
#[verifier::external_body]
pub(crate) fn is_object(v: &Value) -> (r: bool)
    ensures
        r == json_is_object(*v),
{
    v.is_object()
}

/// Calls `Value::is_array`. The contract names its answer as `json_is_array`.
#[verifier::external_body]
pub(crate) fn is_array(v: &Value) -> (r: bool)
    ensures
        r == json_is_array(*v),
{
    v.is_array()
}

/// Calls `json_value_merge`'s `Merge::merge_in` with a JSON string as the new
/// value. The contract names the outcome as `json_merged`: after a success
/// the document is the merged one; of the document after a failure it says
/// nothing. A pointer with an ambiguous escape is left out by `requires`:
/// where the document lacks the key that such a pointer addresses, the outside
/// function creates a key under another reading of the escapes, does not find
/// it again, and recurses without end.
#[verifier::external_body]
pub(crate) fn merge_string_at(doc: &mut Value, pointer: &str, text: String) -> (r: Result<
    (),
    std::io::Error,
>)
    requires
        !has_ambiguous_escape(pointer@),
    ensures
        match r {
            Ok(_) => json_merged(*old(doc), pointer@, text@) == Some(*final(doc)),
            Err(_) => json_merged(*old(doc), pointer@, text@) is None,
        },
{
    doc.merge_in(pointer, &Value::String(text))
}

/// Calls `serde_json::to_string` on a `Value`. The contract names the text it
/// returns, or its failure, as `json_encoded`.
#[verifier::external_body]
pub(crate) fn encode_document(doc: &Value) -> (r: Result<String, serde_json::Error>)
    ensures
        match r {
            Ok(text) => json_encoded(*doc) == Some(text@),
            Err(_) => json_encoded(*doc) is None,
        },
{
    serde_json::to_string(doc)
}

/// Whether the characters `~01` stand somewhere in `pointer`.
pub fn ambiguous_escape_in(pointer: &str) -> (r: bool)
    ensures
        r == has_ambiguous_escape(pointer@),
{
    let chars = chars_of(pointer);
    let len = chars.len();
    let mut i: usize = 0;
    while i < len
        invariant
            len == chars@.len(),
            chars@ == pointer@,
            forall|j: int|
                0 <= j < i && j + 2 < len ==> !(#[trigger] chars@[j] == '~' && chars@[j + 1] == '0'
                    && chars@[j + 2] == '1'),
        decreases len - i,
    {
        if len - i > 2 && chars[i] == '~' && chars[i + 1] == '0' && chars[i + 2] == '1' {
            return true;
        }
        i = i + 1;
    }
    false
}

/// The string by which a value is substituted and compared.
pub fn value_text(v: &Value) -> (r: String)
    ensures
        r@ == text_of(*v),
{
    match string_leaf(v) {
        Some(s) => s.to_owned(),
        None => display_text(v),
    }
}

} // verus!
