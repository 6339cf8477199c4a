//! The rule engine: choose the format of a document by the first rule that
//! applies to it, and hand both to the formatter.

use crate::config::{Format, FormatSpec, Match, Params, RuleSet, RuleSpec};
use crate::error::RecordError;
use crate::formatter::{formatted_document, found_text, process_format, text_of_found};
use crate::json::{json_lookup, json_parsed, lookup, parse_document};
use crate::text::is_text;
use serde_json::Value;
use vstd::prelude::*;
use vstd::string::StringSliceAdditionalSpecFns;
use vstd::utf8::{decode_utf8, encode_utf8, valid_utf8};

verus! {

/// The error of `std::str::from_utf8`.
#[verifier::external_type_specification]
#[verifier::external_body]
pub struct ExUtf8Error(std::str::Utf8Error);

/// Whether a lookup found a value whose text is `expected`.
pub open spec fn found_matches(found: Option<Value>, expected: Seq<char>) -> bool {
    found is Some && found_text(found) == expected
}

/// Whether `rule` applies to `doc`: its pointer addresses a value, and the text
/// of that value is the rule's.
pub open spec fn rule_matches(doc: Value, rule: RuleSpec) -> bool {
    found_matches(json_lookup(doc, rule.match_path), rule.match_value)
}

/// The format that a rule set gives to `doc`: that of the first rule that
/// applies, and `default` when none does.
pub open spec fn selected_format(doc: Value, rules: Seq<RuleSpec>, default: FormatSpec) -> FormatSpec
    decreases rules.len(),
{
    if rules.len() == 0 {
        default
    } else if rule_matches(doc, rules[0]) {
        rules[0].format
    } else {
        selected_format(doc, rules.skip(1), default)
    }
}

/// What transforming the document text `data` under `params` gives.
pub open spec fn processed_record(data: Seq<char>, params: RuleSet) -> Result<
    Seq<char>,
    RecordError,
> {
    match json_parsed(data) {
        None => Err(RecordError::DecodeError),
        Some(doc) => match formatted_document(
            doc,
            selected_format(doc, params.rules, params.default),
        ) {
            Ok(text) => Ok(text),
            Err(e) => Err(RecordError::Format(e)),
        },
    }
}

/// What transforming the record `value` under `params` gives.
pub open spec fn transformed_record(value: Seq<u8>, params: RuleSet) -> Result<
    Seq<u8>,
    RecordError,
> {
    if !valid_utf8(value) {
        Err(RecordError::DecodeError)
    } else {
        match processed_record(decode_utf8(value), params) {
            Ok(text) => Ok(encode_utf8(text)),
            Err(e) => Err(e),
        }
    }
}

/// The first rule that applies decides: where rule `i` applies to `doc` and no
/// rule before it does, the format of rule `i` is selected, whatever the rules
/// after it are.
pub proof fn lemma_first_match_wins(doc: Value, rules: Seq<RuleSpec>, default: FormatSpec, i: int)
    requires
        0 <= i < rules.len(),
        rule_matches(doc, rules[i]),
        forall|j: int| 0 <= j < i ==> !rule_matches(doc, #[trigger] rules[j]),
    ensures
        selected_format(doc, rules, default) == rules[i].format,
    decreases rules.len(),
{
    if i > 0 {
        let rest = rules.skip(1);
        assert(!rule_matches(doc, rules[0]));
        assert forall|j: int| 0 <= j < i - 1 implies !rule_matches(doc, #[trigger] rest[j]) by {
            assert(rest[j] == rules[j + 1]);
        }
        lemma_first_match_wins(doc, rest, default, i - 1);
    }
}

/// Of two rules that both apply, the later one does not decide: the selected
/// format is that of a rule that applies and stands at or before the earlier
/// of the two.
pub proof fn lemma_earlier_rule_wins(
    doc: Value,
    rules: Seq<RuleSpec>,
    default: FormatSpec,
    i: int,
    j: int,
) -> (k: int)
    requires
        0 <= i < j < rules.len(),
        rule_matches(doc, rules[i]),
        rule_matches(doc, rules[j]),
    ensures
        0 <= k <= i,
        rule_matches(doc, rules[k]),
        selected_format(doc, rules, default) == rules[k].format,
    decreases rules.len(),
{
    if rule_matches(doc, rules[0]) {
        0
    } else {
        let rest = rules.skip(1);
        assert(rest[i - 1] == rules[i]);
        assert(rest[j - 1] == rules[j]);
        let k = lemma_earlier_rule_wins(doc, rest, default, i - 1, j - 1);
        assert(rest[k] == rules[k + 1]);
        k + 1
    }
}

/// Where no rule applies to `doc`, and so where there are no rules at all, the
/// default format is selected.
pub proof fn lemma_no_match_selects_default(doc: Value, rules: Seq<RuleSpec>, default: FormatSpec)
    requires
        forall|i: int| 0 <= i < rules.len() ==> !rule_matches(doc, #[trigger] rules[i]),
    ensures
        selected_format(doc, rules, default) == default,
    decreases rules.len(),
{
    if rules.len() > 0 {
        let rest = rules.skip(1);
        assert(!rule_matches(doc, rules[0]));
        assert forall|i: int| 0 <= i < rest.len() implies !rule_matches(doc, #[trigger] rest[i]) by {
            assert(rest[i] == rules[i + 1]);
        }
        lemma_no_match_selects_default(doc, rest, default);
    }
}

/// Whether a lookup found a value whose text is `expected`.
pub fn is_match(found: Option<&Value>, expected: &String) -> (r: bool)
    ensures
        r == match found {
            Some(v) => found_matches(Some(*v), expected@),
            None => false,
        },
{
    match found {
        Some(_) => text_of_found(found) == *expected,
        None => false,
    }
}

/// Whether `rule` applies to `doc`.
pub fn applies(doc: &Value, rule: &Match) -> (r: bool)
    ensures
        r == rule_matches(*doc, rule@),
{
    is_match(lookup(doc, rule.key.as_str()), &rule.value)
}

/// The index of the first rule that applies to `doc`, if any does.
pub fn first_match(doc: &Value, rules: &Vec<Match>) -> (r: Option<usize>)
    ensures
        match r {
            Some(i) => {
                &&& i < rules.len()
                &&& rule_matches(*doc, rules[i as int]@)
                &&& forall|j: int| 0 <= j < i ==> !rule_matches(*doc, #[trigger] rules[j]@)
            },
            None => forall|j: int| 0 <= j < rules.len() ==> !rule_matches(*doc, #[trigger] rules[j]@),
        },
{
    let mut i: usize = 0;
    while i < rules.len()
        invariant
            i <= rules.len(),
            forall|j: int| 0 <= j < i ==> !rule_matches(*doc, #[trigger] rules[j]@),
        decreases rules.len() - i,
    {
        if applies(doc, &rules[i]) {
            return Some(i);
        }
        i = i + 1;
    }
    None
}

/// The format of the first rule that applies to `doc`, the default format when
/// none does or when there are no rules.
pub fn select_format<'a>(doc: &Value, params: &'a Params) -> (format: &'a Format)
    ensures
        format@ == selected_format(*doc, params@.rules, params@.default),
{
    match &params.rules {
        None => &params.default.format,
        Some(rules) => match first_match(doc, rules) {
            Some(i) => {
                proof {
                    lemma_first_match_wins(*doc, params@.rules, params@.default, i as int);
                }
                &rules[i].format
            },
            None => {
                proof {
                    lemma_no_match_selects_default(*doc, params@.rules, params@.default);
                }
                &params.default.format
            },
        },
    }
}

/// The document of a record, given how reading it ended: a text that could not
/// be read is a decode error.
pub fn parse_outcome(outcome: Result<Value, serde_json::Error>) -> (r: Result<Value, RecordError>)
    ensures
        match outcome {
            Ok(doc) => r == Ok::<Value, RecordError>(doc),
            Err(_) => r == Err::<Value, RecordError>(RecordError::DecodeError),
        },
{
    match outcome {
        Ok(doc) => Ok(doc),
        Err(_) => Err(RecordError::DecodeError),
    }
}

/// Transforms one record text: reads `data` as a JSON document, chooses its
/// format by the first rule of `params` that applies, and returns the text of
/// the document with the rendered string written into it.
pub fn process_record(data: &str, params: &Params) -> (r: Result<String, RecordError>)
    ensures
        is_text(r, processed_record(data@, params@)),
{
    match parse_outcome(parse_document(data)) {
        Err(e) => Err(e),
        Ok(v) => {
            let format = select_format(&v, params);
            match process_format(v, format) {
                Ok(text) => Ok(text),
                Err(e) => Err(RecordError::Format(e)),
            }
        },
    }
}

/// Calls `std::str::from_utf8`. The contract says that it succeeds exactly on
/// valid UTF-8, and that the string it returns has the given bytes.
#[verifier::external_body]
fn utf8_text(bytes: &[u8]) -> (r: Result<&str, std::str::Utf8Error>)
    ensures
        r is Ok <==> valid_utf8(bytes@),
        r matches Ok(s) ==> s.spec_bytes() == bytes@,
{
    std::str::from_utf8(bytes)
}

/// Transforms one record: `value` holds, in UTF-8, the text of a JSON
/// document. Returns the key as it was given, and the bytes of the
/// transformed document.
pub fn map(key: Option<Vec<u8>>, value: &[u8], params: &Params) -> (r: Result<
    (Option<Vec<u8>>, Vec<u8>),
    RecordError,
>)
    ensures
        match r {
            Ok((k, bytes)) => k == key && transformed_record(value@, params@) == Ok::<
                Seq<u8>,
                RecordError,
            >(bytes@),
            Err(e) => transformed_record(value@, params@) == Err::<Seq<u8>, RecordError>(e),
        },
{
    match utf8_text(value) {
        Err(_) => Err(RecordError::DecodeError),
        Ok(data) => {
            proof {
                vstd::utf8::encode_utf8_decode_utf8(data@);
            }
            match process_record(data, params) {
                Ok(text) => Ok((key, text.as_str().as_bytes_vec())),
                Err(e) => Err(e),
            }
        },
    }
}

} // verus!
