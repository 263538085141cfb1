//! The error taxonomy: transport failures, decode failures and domain
//! errors each surface as their own kind.

use supabasic::error::SupabasicError;
use supabasic::json::{decode_value, json_result_to_value};

#[test]
fn a_body_that_is_not_json_is_a_decode_error() {
    let err = decode_value("not json at all").unwrap_err();
    assert!(err.is_json());
    assert!(!err.is_http());
    assert!(!err.is_other());
}

#[test]
fn a_json_body_decodes() {
    let value = decode_value("{\"rows\":[1,2,3]}").unwrap();
    assert_eq!(value.get("rows").unwrap().as_array().unwrap().len(), 3);
}

#[test]
fn parse_outcomes_map_exactly() {
    let ok: Result<serde_json::Value, serde_json::Error> = serde_json::from_str("[1]");
    assert!(json_result_to_value(ok).is_ok());
    let bad: Result<serde_json::Value, serde_json::Error> = serde_json::from_str("[1");
    let err = json_result_to_value(bad).unwrap_err();
    assert!(err.is_json());
}

#[test]
fn a_transport_failure_surfaces_as_a_transport_error() {
    // Port 9 (discard) on loopback: the connection is refused, which is
    // the transport failing, not a panic and not an empty result.
    let failed = reqwest::blocking::Client::new()
        .get("http://127.0.0.1:9/rest/v1/entities?select=id")
        .send();
    let e = failed.expect_err("sending to a closed port must fail");
    let err = SupabasicError::from_http(e);
    assert!(err.is_http());
    assert!(!err.is_json());
    assert!(!err.is_other());
}

#[test]
fn a_domain_error_keeps_its_message() {
    let err = SupabasicError::other("No entity returned");
    assert!(err.is_other());
    assert!(matches!(err, SupabasicError::Other(m) if m == "No entity returned"));
}
