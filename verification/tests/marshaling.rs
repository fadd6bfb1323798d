use chat4000_pyvodozemac::errors::BindingError;
use chat4000_pyvodozemac::machine::one_time_key_counts;
use chat4000_pyvodozemac::requests::{
    to_gateway_req, AnyOutgoingRequest, HttpRequestParts, OutgoingRequest,
};

#[test]
fn gateway_req_serializes_to_the_documented_shape() {
    // The frame the program parses: {id, kind, method, path, body}, here for a
    // key upload whose body is `{ "device_keys": {} }`.
    let req = OutgoingRequest {
        request_id: "txn1".to_string(),
        request: AnyOutgoingRequest::KeysUpload(Ok(HttpRequestParts {
            method: "POST".to_string(),
            path: "/_matrix/client/v3/keys/upload".to_string(),
            query: None,
            body: br#"{ "device_keys": {} }"#.to_vec(),
        })),
    };
    let v = to_gateway_req(&req).unwrap();
    assert_eq!(v.id, "txn1");
    assert_eq!(v.kind, "keys_upload");
    assert_eq!(v.method, "POST");
    assert!(v.path.starts_with("/_matrix/"));
    let body: serde_json::Value = serde_json::from_slice(&v.body).unwrap();
    assert!(body.is_object());
}

#[test]
fn one_time_key_counts_parse_from_plugin_json() {
    // The exact shape the program pulls out of a sync frame's e2ee extension.
    let raw = one_time_key_counts(br#"{"signed_curve25519": 50}"#).unwrap();
    assert_eq!(raw, vec![("signed_curve25519".to_string(), 50u64)]);
    assert!(matches!(one_time_key_counts(b"[50]"), Err(BindingError::Json(_))));
}
