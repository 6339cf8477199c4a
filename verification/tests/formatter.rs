use json_formatter::formatter::{
    collect_substitutions, encode_outcome, is_addressable, merge_at, merge_outcome, text_of_found,
};
use json_formatter::json::{ambiguous_escape_in, value_text};
use json_formatter::{make_formatted_string, process_format, Format, FormatError};
use serde_json::Value;

fn doc(text: &str) -> Value {
    serde_json::from_str(text).unwrap()
}

fn strings(values: &[&str]) -> Vec<String> {
    values.iter().map(|v| v.to_string()).collect()
}

fn format(with: &str, using: &[&str], output: &str) -> Format {
    Format { with: with.to_string(), using: strings(using), output: output.to_string() }
}

const ALICE: &str =
    r#"{"email":"alice@acme.com","name":"Alice Liddell","type":"subscribe","source":"front-page"}"#;

#[test]
fn string_leaves_fill_the_template_and_the_rest_stays() {
    let f = format("{} ({}) subscribed on {}", &["/name", "/email", "/source"], "/formatted");
    let out = process_format(doc(ALICE), &f).unwrap();
    assert_eq!(
        out,
        r#"{"email":"alice@acme.com","name":"Alice Liddell","type":"subscribe","source":"front-page","formatted":"Alice Liddell (alice@acme.com) subscribed on front-page"}"#
    );
    let mut expected = doc(ALICE);
    expected.as_object_mut().unwrap().insert(
        "formatted".to_string(),
        Value::String("Alice Liddell (alice@acme.com) subscribed on front-page".to_string()),
    );
    assert_eq!(doc(&out), expected);
}

#[test]
fn absent_source_path_gives_the_empty_string() {
    let v = doc(ALICE);
    let r = make_formatted_string(&v, &strings(&["/name", "/missing", "/email"]), &"{}|{}|{}".to_string());
    assert_eq!(r, Ok("Alice Liddell||alice@acme.com".to_string()));
    let r = make_formatted_string(&v, &strings(&["/a/b/c"]), &"[{}]".to_string());
    assert_eq!(r, Ok("[]".to_string()));
    assert_eq!(collect_substitutions(&v, &strings(&["/nope", "/type"])), strings(&["", "subscribe"]));
}

#[test]
fn repeated_source_path_is_fetched_each_time() {
    let v = doc(ALICE);
    let r = make_formatted_string(&v, &strings(&["/name", "/name"]), &"{} & {}".to_string());
    assert_eq!(r, Ok("Alice Liddell & Alice Liddell".to_string()));
}

#[test]
fn other_values_are_substituted_as_json_text() {
    let v = doc(r#"{"n":42,"f":1.5,"t":true,"z":null,"o":{"a":[1,"x"]},"l":[1,2],"s":"plain"}"#);
    let paths = strings(&["/n", "/f", "/t", "/z", "/o", "/l", "/s"]);
    assert_eq!(
        collect_substitutions(&v, &paths),
        strings(&["42", "1.5", "true", "null", r#"{"a":[1,"x"]}"#, "[1,2]", "plain"])
    );
    let r = make_formatted_string(&v, &strings(&["/n"]), &"n = {}".to_string());
    assert_eq!(r, Ok("n = 42".to_string()));
}

#[test]
fn value_text_tells_strings_from_other_values() {
    assert_eq!(value_text(&doc(r#""a \"b\"""#)), r#"a "b""#);
    assert_eq!(value_text(&doc("42")), "42");
    assert_eq!(value_text(&doc(r#"["a"]"#)), r#"["a"]"#);
    assert_eq!(text_of_found(None), "");
    assert_eq!(text_of_found(Some(&doc("false"))), "false");
    assert_eq!(text_of_found(Some(&doc(r#""""#))), "");
}

#[test]
fn source_paths_are_json_pointers() {
    let v = doc(r#"{"x":{"y":["z","zz"]},"a/b":"slash","m~n":"tilde","":"empty"}"#);
    let paths = strings(&["/x/y/1", "/x/y/2", "/x/y/01", "/a~1b", "/m~0n", "/", "x", "/x/y/0/deeper"]);
    assert_eq!(
        collect_substitutions(&v, &paths),
        strings(&["zz", "", "", "slash", "tilde", "empty", "", ""])
    );
    let whole = collect_substitutions(&doc(r#"{"k":1}"#), &strings(&[""]));
    assert_eq!(whole, strings(&[r#"{"k":1}"#]));
}

#[test]
fn too_few_source_paths_is_an_arity_mismatch() {
    let f = format("{} ({}) subscribed on {}", &["/name", "/email"], "/formatted");
    assert_eq!(process_format(doc(ALICE), &f), Err(FormatError::ArityMismatch));
    let r = make_formatted_string(&doc(ALICE), &strings(&[]), &"{}".to_string());
    assert_eq!(r, Err(FormatError::ArityMismatch));
}

#[test]
fn more_source_paths_than_placeholders_are_ignored() {
    let f = format("{}", &["/name", "/email", "/source"], "/formatted");
    let out = doc(&process_format(doc(ALICE), &f).unwrap());
    assert_eq!(out.pointer("/formatted"), Some(&Value::String("Alice Liddell".to_string())));
}

#[test]
fn destination_that_holds_a_value_is_overwritten() {
    let f = format("{}!", &["/name"], "/type");
    let out = process_format(doc(ALICE), &f).unwrap();
    assert_eq!(
        out,
        r#"{"email":"alice@acme.com","name":"Alice Liddell","type":"Alice Liddell!","source":"front-page"}"#
    );
    let f = format("{}", &["/a/b"], "/a");
    assert_eq!(process_format(doc(r#"{"a":{"b":"c"},"d":1}"#), &f).unwrap(), r#"{"a":"c","d":1}"#);
}

#[test]
fn destination_below_missing_fields_creates_objects() {
    let f = format("{}", &["/name"], "/meta/summary/text");
    let out = process_format(doc(r#"{"name":"Bob"}"#), &f).unwrap();
    assert_eq!(out, r#"{"name":"Bob","meta":{"summary":{"text":"Bob"}}}"#);
    let f = format("{}", &["/name"], "/meta/text");
    let out = process_format(doc(r#"{"name":"Bob","meta":{"kept":true}}"#), &f).unwrap();
    assert_eq!(out, r#"{"name":"Bob","meta":{"kept":true,"text":"Bob"}}"#);
}

#[test]
fn destination_keys_may_be_escaped() {
    let f = format("{}", &["/name"], "/a~1b");
    assert_eq!(process_format(doc(r#"{"name":"Bob"}"#), &f).unwrap(), r#"{"name":"Bob","a/b":"Bob"}"#);
    let f = format("{}", &["/name"], "/a~0b");
    assert_eq!(process_format(doc(r#"{"name":"Bob"}"#), &f).unwrap(), r#"{"name":"Bob","a~b":"Bob"}"#);
}

#[test]
fn root_that_holds_nothing_is_an_invalid_document() {
    let f = format("{}", &[""], "/formatted");
    assert_eq!(process_format(doc("42"), &f), Err(FormatError::InvalidDocument));
    assert_eq!(process_format(doc(r#""text""#), &f), Err(FormatError::InvalidDocument));
    assert_eq!(process_format(doc("null"), &f), Err(FormatError::InvalidDocument));
    assert_eq!(process_format(doc("true"), &f), Err(FormatError::InvalidDocument));
    assert!(!is_addressable(&doc("42"), "/formatted"));
    assert!(is_addressable(&doc("42"), ""));
    assert!(is_addressable(&doc("{}"), "/formatted"));
    assert!(is_addressable(&doc("[]"), "/0"));
}

#[test]
fn empty_destination_replaces_the_document() {
    let f = format("<{}>", &[""], "");
    assert_eq!(process_format(doc("42"), &f).unwrap(), r#""<42>""#);
}

#[test]
fn array_root_takes_an_element() {
    let f = format("{}+{}", &["/0", "/1"], "/1");
    assert_eq!(process_format(doc(r#"["a","b","c"]"#), &f).unwrap(), r#"["a","a+b","c"]"#);
}

#[test]
fn destination_with_ambiguous_escape_is_an_invalid_document() {
    let f = format("{}", &["/name"], "/a~01b");
    assert_eq!(process_format(doc(r#"{"name":"Bob"}"#), &f), Err(FormatError::InvalidDocument));
    assert!(!is_addressable(&doc("{}"), "/x/~01"));
    assert!(ambiguous_escape_in("~01"));
    assert!(ambiguous_escape_in("/a/b~01"));
    assert!(ambiguous_escape_in("/~0~01~1"));
    assert!(!ambiguous_escape_in(""));
    assert!(!ambiguous_escape_in("~0"));
    assert!(!ambiguous_escape_in("/~0/1"));
    assert!(!ambiguous_escape_in("/a~0b~1c~10"));
    assert!(!ambiguous_escape_in("/é~0é1"));
}

#[test]
fn arity_is_checked_before_the_destination() {
    let f = format("{}{}", &["/name"], "/formatted");
    assert_eq!(process_format(doc("42"), &f), Err(FormatError::ArityMismatch));
}

#[test]
fn merge_at_writes_the_string() {
    assert_eq!(merge_at(doc(r#"{"a":1}"#), "/b", "x".to_string()), Ok(r#"{"a":1,"b":"x"}"#.to_string()));
    assert_eq!(merge_at(doc("1"), "/b", "x".to_string()), Err(FormatError::InvalidDocument));
    let quoted = merge_at(doc("{}"), "/q", "say \"hi\"\n".to_string()).unwrap();
    assert_eq!(quoted, r#"{"q":"say \"hi\"\n"}"#);
}

#[test]
fn refused_merge_is_an_invalid_document() {
    let failure = std::io::Error::new(std::io::ErrorKind::Other, "refused");
    assert_eq!(merge_outcome(doc("{}"), Err(failure)), Err(FormatError::InvalidDocument));
    assert_eq!(merge_outcome(doc(r#"{"a":1}"#), Ok(())), Ok(doc(r#"{"a":1}"#)));
}

#[test]
fn failed_encoding_is_an_encoding_error() {
    let failure = serde_json::from_str::<Value>("{").unwrap_err();
    assert_eq!(encode_outcome(Err(failure)), Err(FormatError::EncodingError));
    assert_eq!(encode_outcome(Ok("{}".to_string())), Ok("{}".to_string()));
}

#[test]
fn output_reads_back_as_the_merged_document() {
    let f = format("{} <{}> #{}", &["/name", "/email", "/n"], "/formatted/text");
    let input = doc(r#"{"name":"Zoë \"Z\"","email":"z@x.io","n":-12.5e3,"list":[1,{"k":null}],"u":"é\n"}"#);
    let out = process_format(input.clone(), &f).unwrap();
    let mut merged = input;
    merged.as_object_mut().unwrap().insert(
        "formatted".to_string(),
        doc(r#"{"text":"Zoë \"Z\" <z@x.io> #-12500.0"}"#),
    );
    let read_back = doc(&out);
    assert_eq!(read_back, merged);
    assert_eq!(serde_json::to_string(&read_back).unwrap(), out);
}

fn all_strings(alphabet: &[char], longest: usize) -> Vec<String> {
    let mut all: Vec<String> = vec![String::new()];
    let mut start = 0;
    for _ in 0..longest {
        let end = all.len();
        for i in start..end {
            for c in alphabet {
                let mut next = all[i].clone();
                next.push(*c);
                all.push(next);
            }
        }
        start = end;
    }
    all
}

#[test]
fn ambiguous_escape_is_found_wherever_it_stands() {
    for pointer in all_strings(&['/', '~', '0', '1', 'é'], 6) {
        assert_eq!(ambiguous_escape_in(&pointer), pointer.contains("~01"), "pointer {:?}", pointer);
    }
}

#[test]
fn merge_ends_at_every_short_destination() {
    let documents = [
        r#"{"a":1,"0":{"a":[]},"":"e","~":2,"/":3}"#,
        r#"[1,{"a":"x"},[["y"]]]"#,
        r#"{"a":{"a":{"a":null},"1":[0,1]}}"#,
        "{}",
        "[]",
        "7",
    ];
    for destination in all_strings(&['/', '~', '0', '1', '*', 'a', '+'], 5) {
        for text in documents {
            let root = doc(text);
            let expect_ok = is_addressable(&root, &destination);
            assert_eq!(
                expect_ok,
                !destination.contains("~01")
                    && (destination.is_empty() || root.is_object() || root.is_array())
            );
            let out = merge_at(root, &destination, "new".to_string());
            if expect_ok {
                let written = out.unwrap_or_else(|e| panic!("{:?} at {:?}: {:?}", text, destination, e));
                assert_eq!(serde_json::to_string(&doc(&written)).unwrap(), written);
            } else {
                assert_eq!(out, Err(FormatError::InvalidDocument));
            }
        }
    }
}
