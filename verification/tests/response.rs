use congress::error::Error;
use congress::response::{classify_response, deserialization_outcome, is_success, parse_error_body, JsonFailure};

#[test]
fn success_statuses() {
    assert!(is_success(200));
    assert!(is_success(204));
    assert!(is_success(299));
    assert!(!is_success(199));
    assert!(!is_success(300));
    assert!(!is_success(404));
    assert!(!is_success(500));
}

#[test]
fn rate_limited_body_is_an_upstream_error() {
    // a rejected request with a structured body is the server's word,
    // not a parse failure
    let r = classify_response(429, "{\"error\":\"rate limited\"}");
    match r {
        Some(Error::Congress { source }) => assert_eq!(source.error, "rate limited"),
        other => panic!("expected an upstream error, got {:?}", other),
    }
}

#[test]
fn success_status_is_not_classified_as_an_error() {
    assert_eq!(classify_response(200, "{\"bills\":[]}"), None);
}

#[test]
fn unstructured_failure_body_is_a_json_error() {
    let r = classify_response(500, "gateway exploded");
    assert!(matches!(r, Some(Error::JsonParseError { .. })));
    let r = classify_response(500, "{\"message\":\"nope\"}");
    assert!(matches!(r, Some(Error::JsonParseError { .. })));
}

#[test]
fn error_body_tolerates_whitespace_and_escapes() {
    let m = parse_error_body(" {\n  \"error\" : \"no \\\"key\\\"\\n\" }\n").unwrap();
    assert_eq!(m, "no \"key\"\n");
}

#[test]
fn error_body_rejects_other_shapes() {
    assert_eq!(parse_error_body(""), None);
    assert_eq!(parse_error_body("{}"), None);
    assert_eq!(parse_error_body("{\"error\":1}"), None);
    assert_eq!(parse_error_body("{\"error\":\"x\"} trailing"), None);
    assert_eq!(parse_error_body("{\"error\":\"x\""), None);
}

#[test]
fn error_body_reads_unicode_escapes() {
    // the same escapes the schema engine accepts: code points, and
    // surrogate pairs for the supplementary planes
    assert_eq!(parse_error_body("{\"error\":\"\\u0041\"}").as_deref(), Some("A"));
    assert_eq!(parse_error_body("{\"error\":\"\\u00e9tat\"}").as_deref(), Some("\u{e9}tat"));
    assert_eq!(parse_error_body("{\"error\":\"\\uD83D\\uDE00\"}").as_deref(), Some("\u{1F600}"));
    let engine: serde_json::Value =
        serde_json::from_str("{\"error\":\"\\uD83D\\uDE00 \\u00e9\"}").unwrap();
    assert_eq!(
        parse_error_body("{\"error\":\"\\uD83D\\uDE00 \\u00e9\"}").as_deref(),
        engine.get("error").and_then(|v| v.as_str())
    );
}

#[test]
fn error_body_rejects_lone_surrogates() {
    assert_eq!(parse_error_body("{\"error\":\"\\uD83D\"}"), None);
    assert_eq!(parse_error_body("{\"error\":\"\\uD83Dx\"}"), None);
    assert_eq!(parse_error_body("{\"error\":\"\\uDE00\"}"), None);
    assert_eq!(parse_error_body("{\"error\":\"\\uD83D\\u0041\"}"), None);
    assert_eq!(parse_error_body("{\"error\":\"\\uZZZZ\"}"), None);
}

#[test]
fn schema_mismatch_keeps_its_path() {
    // the executor reports where deserialization diverged
    let parsed: Result<u32, JsonFailure> = Err(JsonFailure {
        path: "bills[0].congress".to_string(),
        message: "missing field `congress`".to_string(),
    });
    match deserialization_outcome(parsed) {
        Err(Error::JsonParseError { path, message }) => {
            assert_eq!(path, "bills[0].congress");
            assert_eq!(message, "missing field `congress`");
        },
        other => panic!("expected a JSON parse error, got {:?}", other),
    }
}

#[test]
fn successful_deserialization_passes_through() {
    let parsed: Result<u32, JsonFailure> = Ok(7);
    assert_eq!(deserialization_outcome(parsed), Ok(7));
}
