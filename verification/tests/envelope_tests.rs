use stremio::{ApiResponse, AuthError, GenericApiResponse};

#[test]
fn null_fields_decode_to_empty_defaults() {
    let resp = ApiResponse::from_json("{\"result\": null, \"error\": null}").unwrap();
    assert_eq!(resp.result.len(), 0);
    assert_eq!(resp.error.len(), 0);
}

#[test]
fn object_fields_decode_to_their_entries() {
    let resp = ApiResponse::from_json(
        "{\"result\": {\"authKey\": \"abc123\"}, \"error\": null}",
    )
    .unwrap();
    assert_eq!(resp.result.len(), 1);
    assert_eq!(resp.result[0].0, "authKey");
    assert_eq!(
        resp.result[0].1,
        serde_json::Value::String("abc123".to_string())
    );
    assert_eq!(resp.error.len(), 0);
}

#[test]
fn error_object_decodes_while_result_is_null() {
    let resp = ApiResponse::from_json(
        "{\"result\": null, \"error\": {\"message\": \"bad credentials\"}}",
    )
    .unwrap();
    assert_eq!(resp.result.len(), 0);
    assert_eq!(resp.error.len(), 1);
    assert_eq!(resp.error[0].0, "message");
    assert_eq!(
        resp.error[0].1,
        serde_json::Value::String("bad credentials".to_string())
    );
}

#[test]
fn non_json_body_is_a_transport_error() {
    let r = ApiResponse::from_json("this is not json");
    assert!(matches!(r, Err(AuthError::TransportError(_))));
}

#[test]
fn missing_error_field_is_a_transport_error() {
    let r = ApiResponse::from_json("{\"result\": {}}");
    assert!(matches!(r, Err(AuthError::TransportError(_))));
}

#[test]
fn missing_result_field_is_a_transport_error() {
    let r = ApiResponse::from_json("{\"error\": null}");
    assert!(matches!(r, Err(AuthError::TransportError(_))));
}

#[test]
fn scalar_result_field_is_a_transport_error() {
    let r = ApiResponse::from_json("{\"result\": \"nope\", \"error\": null}");
    assert!(matches!(r, Err(AuthError::TransportError(_))));
}

#[test]
fn array_body_is_a_transport_error() {
    let r = ApiResponse::from_json("[1, 2, 3]");
    assert!(matches!(r, Err(AuthError::TransportError(_))));
}

#[test]
fn generic_envelope_keeps_raw_values() {
    let resp = GenericApiResponse::from_json(
        "{\"result\": [1, 2], \"error\": null}",
    )
    .unwrap();
    assert!(resp.result.is_array());
    assert_eq!(resp.result.get(0), Some(&serde_json::Value::from(1)));
    assert!(resp.error.is_null());
}

#[test]
fn generic_envelope_missing_field_is_a_transport_error() {
    let r = GenericApiResponse::from_json("{\"result\": [1, 2]}");
    assert!(matches!(r, Err(AuthError::TransportError(_))));
}

#[test]
fn generic_envelope_non_json_is_a_transport_error() {
    let r = GenericApiResponse::from_json("{{{{");
    assert!(matches!(r, Err(AuthError::TransportError(_))));
}

#[test]
fn error_is_empty_reports_the_error_field() {
    let ok = ApiResponse::from_json("{\"result\": null, \"error\": null}").unwrap();
    assert!(ok.error_is_empty());
    let bad = ApiResponse::from_json(
        "{\"result\": null, \"error\": {\"message\": \"x\"}}",
    )
    .unwrap();
    assert!(!bad.error_is_empty());
}
