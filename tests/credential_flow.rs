use gke_exec_credential::codec::{
    credential_from_helper, decode_credential, encode_compact, encode_pretty,
};
use gke_exec_credential::credential::{new_credential, CredentialError, ExecCredential, API_VERSION, KIND};
use gke_exec_credential::session::{
    get_cached_token, on_cache_loaded, on_cache_written, on_helper_finished, Action,
};
use gke_exec_credential::validity::{
    is_token_valid_at, is_valid_at, parse_timestamp, Instant,
};

// 2024-01-01T00:00:00Z
const NEW_YEAR: i64 = 1_704_067_200;

fn at(secs: i64) -> Instant {
    Instant { secs, nanos: 0 }
}

fn record(token: &str, expiry: &str) -> ExecCredential {
    new_credential(token.to_string(), expiry.to_string())
}

fn helper_stdout(token: &str, expiry: &str) -> String {
    format!(
        "{{\"configuration\":{{\"active_configuration\":\"default\"}},\"credential\":{{\"access_token\":\"{}\",\"token_expiry\":\"{}\"}},\"sentinels\":{{}}}}",
        token, expiry
    )
}

#[test]
fn new_credential_uses_fixed_constants() {
    let c = record("abc", "2024-01-01T00:00:00Z");
    assert_eq!(c.api_version, "client.authentication.k8s.io/v1beta1");
    assert_eq!(c.kind, "ExecCredential");
    assert_eq!(API_VERSION, c.api_version);
    assert_eq!(KIND, c.kind);
    assert_eq!(c.status.token, "abc");
    assert_eq!(c.status.expiration_timestamp, "2024-01-01T00:00:00Z");
}

#[test]
fn compact_encoding_is_exact() {
    let c = record("tok", "2024-01-01T00:00:00Z");
    assert_eq!(
        encode_compact(&c),
        "{\"apiVersion\":\"client.authentication.k8s.io/v1beta1\",\"kind\":\"ExecCredential\",\"status\":{\"token\":\"tok\",\"expirationTimestamp\":\"2024-01-01T00:00:00Z\"}}"
    );
}

#[test]
fn pretty_encoding_is_exact() {
    let c = record("tok", "2024-01-01T00:00:00Z");
    assert_eq!(
        encode_pretty(&c),
        "{\n  \"apiVersion\": \"client.authentication.k8s.io/v1beta1\",\n  \"kind\": \"ExecCredential\",\n  \"status\": {\n    \"token\": \"tok\",\n    \"expirationTimestamp\": \"2024-01-01T00:00:00Z\"\n  }\n}"
    );
}

#[test]
fn encoding_escapes_strings() {
    let c = record("a\"b\\c\n", "x");
    let text = encode_compact(&c);
    assert!(text.contains("\"token\":\"a\\\"b\\\\c\\n\""));
    assert_eq!(decode_credential(&text), Ok(c));
}

#[test]
fn encoding_escapes_control_characters() {
    let c = record("\u{1}\u{1f}\t\u{8}\u{c}\r/é\u{7f}", "x");
    assert!(encode_compact(&c).contains("\"token\":\"\\u0001\\u001f\\t\\b\\f\\r/é\u{7f}\""));
    assert_eq!(decode_credential(&encode_compact(&c)), Ok(c));
}

#[test]
fn pretty_and_compact_parse_to_same_value() {
    let c = record("tok", "2024-01-01T00:00:00Z");
    let reparsed: serde_json::Value = serde_json::from_str(&encode_pretty(&c)).unwrap();
    let compact: serde_json::Value = serde_json::from_str(&encode_compact(&c)).unwrap();
    assert_eq!(reparsed, compact);
    assert_eq!(reparsed["status"]["token"], "tok");
}

#[test]
fn saved_cache_reloads_to_emitted_record() {
    let stdout = helper_stdout("ya29.fresh", "2024-01-01T01:00:00Z");
    let c = credential_from_helper(&stdout, "").unwrap();
    let reloaded = decode_credential(&encode_compact(&c)).unwrap();
    assert_eq!(reloaded, c);
    assert_eq!(encode_pretty(&reloaded), encode_pretty(&c));
}

#[test]
fn decode_rejects_invalid_json() {
    assert_eq!(
        decode_credential("{not json"),
        Err(CredentialError::MalformedCache(String::new()))
    );
}

#[test]
fn decode_names_missing_field() {
    assert_eq!(
        decode_credential("{\"apiVersion\":\"v\",\"kind\":\"k\",\"status\":{\"token\":\"t\"}}"),
        Err(CredentialError::MalformedCache("/status/expirationTimestamp".to_string()))
    );
    assert_eq!(
        decode_credential("{\"apiVersion\":1,\"kind\":\"k\"}"),
        Err(CredentialError::MalformedCache("/apiVersion".to_string()))
    );
}

#[test]
fn decode_keeps_version_and_kind_as_read() {
    let c = decode_credential(
        "{\"apiVersion\":\"v\",\"kind\":\"k\",\"status\":{\"token\":\"t\",\"expirationTimestamp\":\"e\"},\"extra\":1}",
    )
    .unwrap();
    assert_eq!(c.api_version, "v");
    assert_eq!(c.kind, "k");
    assert_eq!(c.status.token, "t");
    assert_eq!(c.status.expiration_timestamp, "e");
}

#[test]
fn no_cache_file_gives_none() {
    assert_eq!(get_cached_token(None), Ok(None));
}

#[test]
fn parse_timestamp_reads_offsets() {
    assert_eq!(parse_timestamp("2024-01-01T00:00:30Z"), Ok(at(NEW_YEAR + 30)));
    assert_eq!(parse_timestamp("2024-01-01T02:00:30+02:00"), Ok(at(NEW_YEAR + 30)));
    assert_eq!(
        parse_timestamp("2024-01-01T00:00:00.25Z"),
        Ok(Instant { secs: NEW_YEAR, nanos: 250_000_000 })
    );
}

#[test]
fn parse_timestamp_rejects_garbage() {
    assert_eq!(
        parse_timestamp("tomorrow"),
        Err(CredentialError::MalformedTimestamp("tomorrow".to_string()))
    );
}

#[test]
fn validity_boundary_is_strict() {
    let now = at(NEW_YEAR);
    assert!(!is_valid_at(at(NEW_YEAR + 30), now));
    assert!(is_valid_at(Instant { secs: NEW_YEAR + 30, nanos: 1_000_000 }, now));
    assert!(!is_valid_at(at(NEW_YEAR + 29), now));
    assert!(is_valid_at(at(NEW_YEAR + 3600), now));
}

#[test]
fn validity_at_extreme_instants() {
    assert!(is_valid_at(at(i64::MAX), at(i64::MIN)));
    assert!(!is_valid_at(at(i64::MIN), at(i64::MAX)));
}

#[test]
fn token_validity_uses_timestamp() {
    let c = record("t", "2024-01-01T00:00:30Z");
    assert_eq!(is_token_valid_at(&c, at(NEW_YEAR)), Ok(false));
    assert_eq!(is_token_valid_at(&c, at(NEW_YEAR - 1)), Ok(true));
    let bad = record("t", "soon");
    assert_eq!(
        is_token_valid_at(&bad, at(NEW_YEAR)),
        Err(CredentialError::MalformedTimestamp("soon".to_string()))
    );
}

#[test]
fn valid_cache_is_emitted_without_helper() {
    let c = record("cached", "2024-01-01T01:00:00Z");
    let text = encode_compact(&c);
    assert_eq!(on_cache_loaded(Some(&text), at(NEW_YEAR)), Action::Emit(encode_pretty(&c)));
}

#[test]
fn expiry_at_margin_triggers_refresh() {
    let exact = encode_compact(&record("t", "2024-01-01T00:00:30Z"));
    assert_eq!(on_cache_loaded(Some(&exact), at(NEW_YEAR)), Action::RunHelper);
    let later = record("t", "2024-01-01T00:00:30.001Z");
    assert_eq!(
        on_cache_loaded(Some(&encode_compact(&later)), at(NEW_YEAR)),
        Action::Emit(encode_pretty(&later))
    );
}

#[test]
fn corrupt_cache_fails_without_refresh() {
    assert_eq!(
        on_cache_loaded(Some("{\"apiVersion\":"), at(NEW_YEAR)),
        Action::Fail(CredentialError::MalformedCache(String::new()))
    );
}

#[test]
fn malformed_cached_timestamp_fails() {
    let text = encode_compact(&record("t", "not a time"));
    assert_eq!(
        on_cache_loaded(Some(&text), at(NEW_YEAR)),
        Action::Fail(CredentialError::MalformedTimestamp("not a time".to_string()))
    );
}

#[test]
fn helper_error_stream_is_fatal() {
    let stdout = helper_stdout("t", "2024-01-01T01:00:00Z");
    assert_eq!(
        on_helper_finished(&stdout, "WARNING: something\n"),
        Action::Fail(CredentialError::AuthHelper("WARNING: something\n".to_string()))
    );
}

#[test]
fn helper_output_must_be_json() {
    assert_eq!(
        credential_from_helper("oops", ""),
        Err(CredentialError::MalformedHelperOutput(String::new()))
    );
}

#[test]
fn helper_output_names_missing_field() {
    assert_eq!(
        credential_from_helper("{\"credential\":{\"access_token\":\"t\"}}", ""),
        Err(CredentialError::MalformedHelperOutput("/credential/token_expiry".to_string()))
    );
    assert_eq!(
        credential_from_helper("{\"credential\":{\"access_token\":5,\"token_expiry\":\"e\"}}", ""),
        Err(CredentialError::MalformedHelperOutput("/credential/access_token".to_string()))
    );
}

#[test]
fn first_run_refreshes_once_and_saves() {
    let now = at(NEW_YEAR);
    assert_eq!(on_cache_loaded(None, now), Action::RunHelper);
    let stdout = helper_stdout("ya29.new", "2024-01-01T01:00:00Z");
    let expected = record("ya29.new", "2024-01-01T01:00:00Z");
    match on_helper_finished(&stdout, "") {
        Action::Save { cache_text, output } => {
            assert_eq!(cache_text, encode_compact(&expected));
            assert_eq!(output, encode_pretty(&expected));
            assert_eq!(decode_credential(&cache_text), Ok(expected.clone()));
            assert_eq!(on_cache_loaded(Some(&cache_text), now), Action::Emit(output.clone()));
            assert_eq!(on_cache_written(output.clone(), None), Action::Emit(output));
        }
        other => panic!("expected a save, got {:?}", other),
    }
}

#[test]
fn failed_cache_write_is_io_error() {
    assert_eq!(
        on_cache_written("out".to_string(), Some("permission denied".to_string())),
        Action::Fail(CredentialError::Io("permission denied".to_string()))
    );
}
