//! The formatter: fetch the values that a format names, render its template
//! with them, and write the rendered string into the document.

use crate::config::{Format, FormatSpec};
use crate::error::FormatError;
use crate::json::{
    ambiguous_escape_in, encode_document, has_ambiguous_escape, is_array, is_object, json_display,
    json_encoded, json_is_array, json_is_object, json_lookup, json_merged, json_string, lookup,
    merge_string_at, text_of, value_text,
};
use crate::template::{placeholder_count, render, render_result};
use crate::text::is_text;
use serde_json::Value;
use vstd::prelude::*;

verus! {

/// The string that stands for the result of a lookup: the text of the value
/// that was found, the empty string when nothing was found.
pub open spec fn found_text(found: Option<Value>) -> Seq<char> {
    match found {
        Some(v) => text_of(v),
        None => Seq::empty(),
    }
}

/// The string that `path` contributes to a rendering of `doc`.
pub open spec fn substitution(doc: Value, path: Seq<char>) -> Seq<char> {
    found_text(json_lookup(doc, path))
}

/// The strings that `paths` contribute: one for each path, in their order.
pub open spec fn substitutions(doc: Value, paths: Seq<Seq<char>>) -> Seq<Seq<char>> {
    Seq::new(paths.len(), |i: int| substitution(doc, paths[i]))
}

/// The string that a format renders from a document.
pub open spec fn formatted_string(doc: Value, paths: Seq<Seq<char>>, template: Seq<char>) -> Result<
    Seq<char>,
    FormatError,
> {
    render_result(template, substitutions(doc, paths))
}

/// Whether a string can be written into `doc` at `destination`: only the
/// empty pointer addresses a document that is neither an object nor an array,
/// and no pointer with an ambiguous escape addresses anything.
pub open spec fn addressable(doc: Value, destination: Seq<char>) -> bool {
    &&& destination.len() == 0 || json_is_object(doc) || json_is_array(doc)
    &&& !has_ambiguous_escape(destination)
}

/// The text of `doc` after `rendered` was written into it at `destination`.
pub open spec fn merged_text(doc: Value, destination: Seq<char>, rendered: Seq<char>) -> Result<
    Seq<char>,
    FormatError,
> {
    if !addressable(doc, destination) {
        Err(FormatError::InvalidDocument)
    } else {
        match json_merged(doc, destination, rendered) {
            None => Err(FormatError::InvalidDocument),
            Some(merged) => match json_encoded(merged) {
                Some(text) => Ok(text),
                None => Err(FormatError::EncodingError),
            },
        }
    }
}

/// The text of `doc` after `format` was applied to it.
pub open spec fn formatted_document(doc: Value, format: FormatSpec) -> Result<
    Seq<char>,
    FormatError,
> {
    match formatted_string(doc, format.source_paths, format.template) {
        Ok(rendered) => merged_text(doc, format.destination_path, rendered),
        Err(e) => Err(e),
    }
}

/// The text of the string value that `path` addresses in `doc`; `None` when
/// it addresses nothing, or a value that is no string.
pub open spec fn string_leaf_at(doc: Value, path: Seq<char>) -> Option<Seq<char>> {
    match json_lookup(doc, path) {
        Some(v) => json_string(v),
        None => None,
    }
}

/// Where every source path addresses a string value, the strings that fill
/// the template are those values' texts, in the order of the paths: the
/// rendered string is the template rendered with them, and the result is that
/// string written into the document at the destination.
pub proof fn lemma_string_leaves_fill_template(
    doc: Value,
    format: FormatSpec,
    leaves: Seq<Seq<char>>,
)
    requires
        leaves.len() == format.source_paths.len(),
        forall|i: int|
            0 <= i < leaves.len() ==> #[trigger] string_leaf_at(doc, format.source_paths[i])
                == Some(leaves[i]),
    ensures
        substitutions(doc, format.source_paths) == leaves,
        formatted_string(doc, format.source_paths, format.template) == render_result(
            format.template,
            leaves,
        ),
        formatted_document(doc, format) == match render_result(format.template, leaves) {
            Ok(text) => merged_text(doc, format.destination_path, text),
            Err(e) => Err(e),
        },
{
    assert forall|i: int| 0 <= i < leaves.len() implies substitutions(
        doc,
        format.source_paths,
    )[i] == leaves[i] by {
        assert(string_leaf_at(doc, format.source_paths[i]) == Some(leaves[i]));
    }
    assert(substitutions(doc, format.source_paths) =~= leaves);
}

/// A source path that addresses nothing contributes the empty string, and is
/// no error: whether a string can be rendered depends on the number of paths
/// alone, not on what they address.
pub proof fn lemma_absent_path_is_empty(
    doc: Value,
    paths: Seq<Seq<char>>,
    template: Seq<char>,
    i: int,
)
    requires
        0 <= i < paths.len(),
        json_lookup(doc, paths[i]) is None,
    ensures
        substitutions(doc, paths).len() == paths.len(),
        substitutions(doc, paths)[i] == Seq::<char>::empty(),
        formatted_string(doc, paths, template) is Ok <==> placeholder_count(template)
            <= paths.len(),
{
}

/// A source path that addresses a value other than a string contributes the
/// JSON text of that value.
pub proof fn lemma_other_value_is_displayed(doc: Value, paths: Seq<Seq<char>>, i: int, v: Value)
    requires
        0 <= i < paths.len(),
        json_lookup(doc, paths[i]) == Some(v),
        json_string(v) is None,
    ensures
        substitutions(doc, paths)[i] == json_display(v),
{
}

/// The string that stands for the result of a lookup.
pub fn text_of_found(found: Option<&Value>) -> (r: String)
    ensures
        r@ == match found {
            Some(v) => text_of(*v),
            None => Seq::empty(),
        },
{
    match found {
        Some(v) => value_text(v),
        None => String::new(),
    }
}

/// Fetches the strings that `paths` contribute to a rendering of `doc`.
pub fn collect_substitutions(doc: &Value, paths: &Vec<String>) -> (r: Vec<String>)
    ensures
        r.deep_view() == substitutions(*doc, paths.deep_view()),
{
    let mut values: Vec<String> = Vec::new();
    let mut i: usize = 0;
    while i < paths.len()
        invariant
            i <= paths.len(),
            values.len() == i,
            forall|j: int|
                0 <= j < i ==> (#[trigger] values@[j])@ == substitution(*doc, paths@[j]@),
        decreases paths.len() - i,
    {
        let text = text_of_found(lookup(doc, paths[i].as_str()));
        values.push(text);
        i = i + 1;
    }
    assert(values.deep_view() =~= substitutions(*doc, paths.deep_view()));
    values
}

/// Looks up each path of `lookup` in `v` and renders `format_str` with what was
/// found: a string value as it is, another value as its JSON text, nothing for
/// a path that addresses no value. Fails only when `format_str` has more
/// placeholders than `lookup` has paths.
pub fn make_formatted_string(v: &Value, lookup: &Vec<String>, format_str: &String) -> (r: Result<
    String,
    FormatError,
>)
    ensures
        is_text(r, formatted_string(*v, lookup.deep_view(), format_str@)),
{
    let values = collect_substitutions(v, lookup);
    render(format_str.as_str(), &values)
}

/// Whether a string can be written into `doc` at `destination`.
pub fn is_addressable(doc: &Value, destination: &str) -> (r: bool)
    ensures
        r == addressable(*doc, destination@),
{
    let root_ok = destination.is_empty() || is_object(doc) || is_array(doc);
    root_ok && !ambiguous_escape_in(destination)
}

/// The document after a merge, given how the merge ended: a merge that was
/// refused makes the document invalid.
pub fn merge_outcome(doc: Value, outcome: Result<(), std::io::Error>) -> (r: Result<
    Value,
    FormatError,
>)
    ensures
        match outcome {
            Ok(_) => r == Ok::<Value, FormatError>(doc),
            Err(_) => r == Err::<Value, FormatError>(FormatError::InvalidDocument),
        },
{
    match outcome {
        Ok(_) => Ok(doc),
        Err(_) => Err(FormatError::InvalidDocument),
    }
}

/// The text of a document, given how writing it ended: a document that could
/// not be written is an encoding error.
pub fn encode_outcome(outcome: Result<String, serde_json::Error>) -> (r: Result<String, FormatError>)
    ensures
        match outcome {
            Ok(text) => r == Ok::<String, FormatError>(text),
            Err(_) => r == Err::<String, FormatError>(FormatError::EncodingError),
        },
{
    match outcome {
        Ok(text) => Ok(text),
        Err(_) => Err(FormatError::EncodingError),
    }
}

/// Writes `rendered` into `v` at `destination` and returns the text of the
/// updated document.
pub fn merge_at(v: Value, destination: &str, rendered: String) -> (r: Result<String, FormatError>)
    ensures
        is_text(r, merged_text(v, destination@, rendered@)),
{
    if !is_addressable(&v, destination) {
        return Err(FormatError::InvalidDocument);
    }
    let mut doc = v;
    let outcome = merge_string_at(&mut doc, destination, rendered);
    match merge_outcome(doc, outcome) {
        Ok(merged) => encode_outcome(encode_document(&merged)),
        Err(e) => Err(e),
    }
}

/// Applies `format` to the document `v`: renders the string and writes it into
/// the document at the format's destination. Returns the text of the updated
/// document.
pub fn process_format(v: Value, format: &Format) -> (r: Result<String, FormatError>)
    ensures
        is_text(r, formatted_document(v, format@)),
{
    match make_formatted_string(&v, &format.using, &format.with) {
        Ok(formatted) => merge_at(v, format.output.as_str(), formatted),
        Err(e) => Err(e),
    }
}

} // verus!
