use chainsource::adapter::{decode_mixed, decode_single_file, decode_status_multi, StatusKind};
use chainsource::dispatch::{decode_response, AdapterKind};
use chainsource::errors::DecodeError;
use chainsource::json::JsonValue;
use chainsource::normalize::WrapRule;

fn obj(fields: Vec<(&str, JsonValue)>) -> JsonValue {
    JsonValue::Object(fields.into_iter().map(|(k, v)| (k.to_string(), v)).collect())
}

fn text(s: &str) -> JsonValue {
    JsonValue::Text(s.to_string())
}

fn status_envelope(status: JsonValue, items: Vec<JsonValue>) -> JsonValue {
    obj(vec![("status", status), ("result", JsonValue::Array(items))])
}

#[test]
fn status_error_yields_zero_files_and_no_fatal_error() {
    let env = status_envelope(text("0"), vec![obj(vec![("SourceCode", text("{}"))])]);
    let d = decode_status_multi("0xabc", &env, WrapRule::Direct, StatusKind::Text).unwrap();
    assert!(d.files.is_empty());
    assert!(d.status_failed);

    let env = status_envelope(text("0"), vec![obj(vec![("SourceCode", text("flat"))])]);
    let d = decode_mixed("0xabc", &env).unwrap();
    assert!(d.files.is_empty());
    assert!(d.status_failed);

    // an absent status field is a failure status, not a fatal error
    let env = obj(vec![("result", JsonValue::Array(vec![]))]);
    let d = decode_mixed("0xabc", &env).unwrap();
    assert!(d.files.is_empty());
    assert!(d.status_failed);
}

#[test]
fn numeric_status_gate_rejects_a_textual_flag() {
    // the numeric-status family wants the number 1, not the string "1"
    let env = status_envelope(text("1"), vec![obj(vec![("SourceCode", text("{}"))])]);
    let d = decode_status_multi("0xabc", &env, WrapRule::Direct, StatusKind::Numeric).unwrap();
    assert!(d.files.is_empty());
    assert!(d.status_failed);

    let env = status_envelope(JsonValue::Integer(1), vec![]);
    let d = decode_status_multi("0xabc", &env, WrapRule::Direct, StatusKind::Numeric).unwrap();
    assert!(d.files.is_empty());
    assert!(!d.status_failed);
}

#[test]
fn missing_result_array_is_fatal() {
    let env = obj(vec![("status", text("1"))]);
    let r = decode_status_multi("0xabc", &env, WrapRule::Direct, StatusKind::Text);
    assert_eq!(r.unwrap_err(), DecodeError::ResultNotArray);
    let env = obj(vec![("status", text("1")), ("result", text("oops"))]);
    let r = decode_mixed("0xabc", &env);
    assert_eq!(r.unwrap_err(), DecodeError::ResultNotArray);
}

#[test]
fn direct_family_decodes_a_bare_multi_file_document() {
    let env = status_envelope(
        text("1"),
        vec![obj(vec![(
            "SourceCode",
            text("{\"sources\":{\"Token.sol\":{\"content\":\"T\"},\"util/Math.sol\":{\"content\":\"M\"}}}"),
        )])],
    );
    let d = decode_status_multi("0xabc", &env, WrapRule::Direct, StatusKind::Text).unwrap();
    assert!(!d.status_failed);
    assert_eq!(d.files.len(), 2);
    assert_eq!(d.files[0].path, "0xabc/Token.sol");
    assert_eq!(d.files[0].content, "T");
    assert_eq!(d.files[1].path, "0xabc/util/Math.sol");
    assert_eq!(d.files[1].content, "M");
}

#[test]
fn direct_family_missing_source_code_fails_to_parse() {
    // the fixed fallback text of this family is not valid JSON, so the entry
    // is a fatal decode failure, as feeding the placeholder to the parser is
    let env = status_envelope(text("1"), vec![obj(vec![("ContractName", text("Foo"))])]);
    let r = decode_status_multi("0xabc", &env, WrapRule::Direct, StatusKind::Text);
    assert_eq!(r.unwrap_err(), DecodeError::InvalidJson);
}

#[test]
fn strip_family_decodes_a_double_wrapped_document() {
    let env = status_envelope(
        text("1"),
        vec![obj(vec![(
            "SourceCode",
            text("{{\"sources\":{\"A.sol\":{\"content\":\"X\"}}}}"),
        )])],
    );
    let d = decode_status_multi("0xabc", &env, WrapRule::StripDetected, StatusKind::Text).unwrap();
    assert_eq!(d.files.len(), 1);
    assert_eq!(d.files[0].path, "0xabc/A.sol");
    assert_eq!(d.files[0].content, "X");
}

#[test]
fn collapse_family_decodes_a_doubled_brace_document() {
    let env = status_envelope(
        text("1"),
        vec![obj(vec![("SourceCode", text("{{\"sources\":{\"A.sol\": {\"content\":\"X\"} }}}"))])],
    );
    let d = decode_status_multi("0xabc", &env, WrapRule::CollapseDoubled, StatusKind::Text)
        .unwrap();
    assert_eq!(d.files.len(), 1);
    assert_eq!(d.files[0].path, "0xabc/A.sol");
    assert_eq!(d.files[0].content, "X");
}

#[test]
fn mixed_family_skips_empty_entries_and_keeps_siblings() {
    let env = status_envelope(
        text("1"),
        vec![
            obj(vec![("SourceCode", text("contract A {}")), ("ContractName", text("Foo"))]),
            obj(vec![("SourceCode", text("")), ("ContractName", text("Gone"))]),
            obj(vec![("SourceCode", text("contract B {}")), ("ContractName", text("Bar"))]),
        ],
    );
    let d = decode_mixed("0xabc", &env).unwrap();
    assert_eq!(d.files.len(), 2);
    assert_eq!(d.files[0].path, "0xabc/Foo.sol");
    assert_eq!(d.files[0].content, "contract A {}");
    assert_eq!(d.files[1].path, "0xabc/Bar.sol");
    assert_eq!(d.files[1].content, "contract B {}");
}

#[test]
fn mixed_family_names_a_flat_source_after_its_contract() {
    let env = status_envelope(
        text("1"),
        vec![obj(vec![
            ("SourceCode", text("pragma solidity ^0.8.0;\ncontract Foo {}")),
            ("ContractName", text("Foo")),
        ])],
    );
    let d = decode_mixed("0xabc", &env).unwrap();
    assert_eq!(d.files.len(), 1);
    assert_eq!(d.files[0].path, "0xabc/Foo.sol");
    assert_eq!(d.files[0].content, "pragma solidity ^0.8.0;\ncontract Foo {}");
}

#[test]
fn mixed_family_substitutes_the_contract_name_placeholder() {
    let env = status_envelope(text("1"), vec![obj(vec![("SourceCode", text("flat body"))])]);
    let d = decode_mixed("0xabc", &env).unwrap();
    assert_eq!(d.files.len(), 1);
    assert_eq!(d.files[0].path, "0xabc/Error: No contract name.sol");
    assert_eq!(d.files[0].content, "flat body");
}

#[test]
fn mixed_family_unwraps_a_detected_double_brace_blob() {
    let env = status_envelope(
        text("1"),
        vec![obj(vec![(
            "SourceCode",
            text("{{\"sources\":{\"A.sol\":{\"content\":\"X\"},\"B.sol\":{\"content\":\"Y\"}}}}"),
        )])],
    );
    let d = decode_mixed("0xabc", &env).unwrap();
    assert_eq!(d.files.len(), 2);
    assert_eq!(d.files[0].path, "0xabc/A.sol");
    assert_eq!(d.files[0].content, "X");
    assert_eq!(d.files[1].path, "0xabc/B.sol");
    assert_eq!(d.files[1].content, "Y");
}

#[test]
fn single_file_family_emits_main_and_additional_sources() {
    let env = obj(vec![
        ("source_code", text("contract Main {}")),
        ("file_path", text("Main.sol")),
        (
            "additional_sources",
            JsonValue::Array(vec![
                obj(vec![("source_code", text("library L {}")), ("file_path", text("lib/L.sol"))]),
                obj(vec![("file_path", text("lib/M.sol"))]),
            ]),
        ),
    ]);
    let files = decode_single_file("0xabc", &env).unwrap();
    assert_eq!(files.len(), 3);
    assert_eq!(files[0].path, "0xabc/Main.sol");
    assert_eq!(files[0].content, "contract Main {}");
    assert_eq!(files[1].path, "0xabc/lib/L.sol");
    assert_eq!(files[1].content, "library L {}");
    assert_eq!(files[2].path, "0xabc/lib/M.sol");
    assert_eq!(files[2].content, "Error: No additional_sources code");
}

#[test]
fn single_file_family_requires_the_main_source() {
    let env = obj(vec![("file_path", text("Main.sol"))]);
    let r = decode_single_file("0xabc", &env);
    assert_eq!(r.unwrap_err(), DecodeError::MissingSourceCode);
}

#[test]
fn single_file_family_substitutes_the_main_path_placeholder() {
    let env = obj(vec![("source_code", text("contract Main {}"))]);
    let files = decode_single_file("0xabc", &env).unwrap();
    assert_eq!(files.len(), 1);
    assert_eq!(files[0].path, "0xabc/Error: No main file path");
    assert_eq!(files[0].content, "contract Main {}");
}

#[test]
fn decode_response_parses_the_raw_body() {
    let body = "{\"status\":\"1\",\"result\":[{\"SourceCode\":\"contract Foo {}\",\"ContractName\":\"Foo\"}]}";
    let d = decode_response(AdapterKind::Generic, "0xabc", body).unwrap();
    assert_eq!(d.files.len(), 1);
    assert_eq!(d.files[0].path, "0xabc/Foo.sol");
    assert_eq!(d.files[0].content, "contract Foo {}");

    let d = decode_response(AdapterKind::Snowtrace, "0xabc", "{\"status\":\"0\"}").unwrap();
    assert!(d.files.is_empty());
    assert!(d.status_failed);

    let body = "{\"source_code\":\"contract M {}\",\"file_path\":\"M.sol\"}";
    let d = decode_response(AdapterKind::Mode, "0xabc", body).unwrap();
    assert_eq!(d.files.len(), 1);
    assert_eq!(d.files[0].path, "0xabc/M.sol");

    let r = decode_response(AdapterKind::Merlin, "0xabc", "<html>rate limited</html>");
    assert_eq!(r.unwrap_err(), DecodeError::InvalidJson);

    let body = "{\"status\":\"1\",\"result\":[{\"SourceCode\":\"{{\\\"sources\\\":{\\\"A.sol\\\":{\\\"content\\\":\\\"X\\\"}}}}\"}]}";
    let d = decode_response(AdapterKind::Core, "0xabc", body).unwrap();
    assert_eq!(d.files.len(), 1);
    assert_eq!(d.files[0].path, "0xabc/A.sol");
    assert_eq!(d.files[0].content, "X");

    let body = "{\"source_code\":\"contract A {}\",\"file_path\":\"A.sol\",\"additional_sources\":[]}";
    let d = decode_response(AdapterKind::Ailayer, "0xabc", body).unwrap();
    assert_eq!(d.files.len(), 1);
    assert_eq!(d.files[0].path, "0xabc/A.sol");
    assert_eq!(d.files[0].content, "contract A {}");
}

#[test]
fn bitlayer_status_is_gated_numerically() {
    let body = "{\"status\":1,\"result\":[{\"SourceCode\":\"{\\\"sources\\\":{\\\"A.sol\\\":{\\\"content\\\":\\\"X\\\"}}}\"}]}";
    let d = decode_response(AdapterKind::Bitlayer, "0xabc", body).unwrap();
    assert_eq!(d.files.len(), 1);
    assert_eq!(d.files[0].path, "0xabc/A.sol");
    assert_eq!(d.files[0].content, "X");

    let d = decode_response(AdapterKind::Bitlayer, "0xabc", "{\"status\":\"1\",\"result\":[]}")
        .unwrap();
    assert!(d.status_failed);
}
