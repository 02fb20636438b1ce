use chainsource::errors::DecodeError;
use chainsource::normalize::{detect_doubled, normalize_sources, unwrap_source, WrapRule};

#[test]
fn detection_requires_doubled_braces_after_trimming() {
    assert!(detect_doubled("{{\"sources\":{}}}"));
    assert!(detect_doubled("  \t{{\"a\":1}}\r\n"));
    assert!(!detect_doubled("{\"sources\":{\"A.sol\":{\"content\":\"X\"}}}"));
    assert!(!detect_doubled("contract Foo {}"));
    assert!(!detect_doubled(""));
    assert!(!detect_doubled("{{"));
    assert!(!detect_doubled("   "));
}

#[test]
fn detection_trims_unicode_white_space() {
    assert!(detect_doubled("\u{00A0}{{\"a\":1}}\u{3000}"));
    assert!(!detect_doubled("\u{2028}\u{205F}"));
}

#[test]
fn chain_ids_render_in_decimal() {
    assert_eq!(chainsource::strutil::u32_decimal(0), "0");
    assert_eq!(chainsource::strutil::u32_decimal(7), "7");
    assert_eq!(chainsource::strutil::u32_decimal(200901), "200901");
    assert_eq!(chainsource::strutil::u32_decimal(u32::MAX), "4294967295");
}

#[test]
fn strip_detected_removes_one_outer_pair() {
    assert_eq!(
        unwrap_source("{{\"sources\":{\"A.sol\":{\"content\":\"X\"}}}}", WrapRule::StripDetected),
        "{\"sources\":{\"A.sol\":{\"content\":\"X\"}}}"
    );
}

#[test]
fn strip_detected_keeps_an_unwrapped_document_whole() {
    let bare = "{\"sources\":{\"A.sol\":{\"content\":\"X\"}}}";
    assert_eq!(unwrap_source(bare, WrapRule::StripDetected), bare);
}

#[test]
fn strip_detected_on_padded_blob_mirrors_failed_prefix_strip() {
    // detection trims, but the strip itself reads the raw text: a blob with
    // leading white space loses everything, as a failed prefix strip does
    assert_eq!(unwrap_source("  {{\"a\":1}}", WrapRule::StripDetected), "");
}

#[test]
fn collapse_doubled_replaces_brace_pairs() {
    assert_eq!(unwrap_source("{{\"a\":1}}", WrapRule::CollapseDoubled), "{\"a\":1}");
    assert_eq!(unwrap_source("{{{", WrapRule::CollapseDoubled), "{{");
    assert_eq!(unwrap_source("}}}}", WrapRule::CollapseDoubled), "}}");
    assert_eq!(unwrap_source("ab", WrapRule::CollapseDoubled), "ab");
    assert_eq!(unwrap_source("", WrapRule::CollapseDoubled), "");
}

#[test]
fn direct_rule_leaves_the_blob_unchanged() {
    assert_eq!(unwrap_source("{\"x\":2}", WrapRule::Direct), "{\"x\":2}");
}

#[test]
fn double_brace_round_trip_normalizes_to_one_file() {
    let files = normalize_sources(
        "0xabc",
        "{{\"sources\":{\"A.sol\":{\"content\":\"X\"}}}}",
        WrapRule::StripDetected,
    )
    .unwrap();
    assert_eq!(files.len(), 1);
    assert_eq!(files[0].path, "0xabc/A.sol");
    assert_eq!(files[0].content, "X");
}

#[test]
fn single_brace_variant_normalizes_to_the_same_file() {
    let files = normalize_sources(
        "0xabc",
        "{\"sources\":{\"A.sol\":{\"content\":\"X\"}}}",
        WrapRule::StripDetected,
    )
    .unwrap();
    assert_eq!(files.len(), 1);
    assert_eq!(files[0].path, "0xabc/A.sol");
    assert_eq!(files[0].content, "X");
}

#[test]
fn sources_entry_without_content_gets_the_placeholder() {
    let files = normalize_sources(
        "0xabc",
        "{\"sources\":{\"A.sol\":{},\"B.sol\":{\"content\":\"Y\"}}}",
        WrapRule::Direct,
    )
    .unwrap();
    assert_eq!(files.len(), 2);
    assert_eq!(files[0].path, "0xabc/A.sol");
    assert_eq!(files[0].content, "Error: No content");
    assert_eq!(files[1].path, "0xabc/B.sol");
    assert_eq!(files[1].content, "Y");
}

#[test]
fn document_without_sources_yields_no_files() {
    let files = normalize_sources("0xabc", "{\"language\":\"Solidity\"}", WrapRule::Direct)
        .unwrap();
    assert!(files.is_empty());
}

#[test]
fn unparsable_blob_is_a_fatal_decode_error() {
    let r = normalize_sources("0xabc", "not json at all", WrapRule::Direct);
    assert_eq!(r.unwrap_err(), DecodeError::InvalidJson);
    let r = normalize_sources("0xabc", "", WrapRule::StripDetected);
    assert_eq!(r.unwrap_err(), DecodeError::InvalidJson);
}
