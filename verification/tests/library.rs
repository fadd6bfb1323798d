use chat4000_pyvodozemac::responses::TypedResponse;
use ruma::api::{MatrixVersion, OutgoingRequest as _, SendAccessToken};
use chat4000_pyvodozemac::errors::BindingError;
use chat4000_pyvodozemac::ids::{room_id, user_id, user_ids};
use chat4000_pyvodozemac::machine::{
    fallback_key_algorithms, one_time_key_counts, response_kind, room_event_input, sent_response,
    sync_inputs, MAX_SAFE_UINT,
};
use chat4000_pyvodozemac::requests::{
    http_response, keys_claim_to_gateway, lower, to_device_to_gateway, to_device_to_gateway_all,
    to_gateway_req, to_gateway_reqs, AnyOutgoingRequest, HttpRequestParts, OutgoingRequest,
    RequestKind, RoomMessageRequest, ToDeviceRequest,
};

fn parts(method: &str, path: &str, query: Option<&str>, body: &[u8]) -> HttpRequestParts {
    HttpRequestParts {
        method: method.to_string(),
        path: path.to_string(),
        query: query.map(|q| q.to_string()),
        body: body.to_vec(),
    }
}

fn to_device(event_type: &str, txn: &str, messages: &[u8]) -> ToDeviceRequest {
    ToDeviceRequest {
        event_type: event_type.to_string(),
        txn_id: txn.to_string(),
        messages: messages.to_vec(),
    }
}

#[test]
fn kind_tags_are_the_documented_names() {
    assert_eq!(RequestKind::KeysUpload.tag(), "keys_upload");
    assert_eq!(RequestKind::KeysQuery.tag(), "keys_query");
    assert_eq!(RequestKind::KeysClaim.tag(), "keys_claim");
    assert_eq!(RequestKind::SignatureUpload.tag(), "signature_upload");
    assert_eq!(RequestKind::KeysBackup.tag(), "keys_backup");
    assert_eq!(RequestKind::ToDevice.tag(), "to_device");
    assert_eq!(RequestKind::RoomMessage.tag(), "room_message");
}

#[test]
fn lower_keeps_query_and_empty_body_becomes_object() {
    let l = lower(&Ok(parts("GET", "/_matrix/client/v3/keys/changes", Some("from=a&to=b"), b"")))
        .unwrap();
    assert_eq!(l.method, "GET");
    assert_eq!(l.path, "/_matrix/client/v3/keys/changes?from=a&to=b");
    assert_eq!(l.body, b"{}".to_vec());
}

#[test]
fn lower_keeps_a_compact_json_body() {
    let l = lower(&Ok(parts("POST", "/_matrix/client/v3/keys/query", None, br#"{"device_keys":{"@a:b":[]}}"#)))
        .unwrap();
    assert_eq!(l.path, "/_matrix/client/v3/keys/query");
    assert_eq!(l.body, br#"{"device_keys":{"@a:b":[]}}"#.to_vec());
}

#[test]
fn lower_refuses_a_body_that_is_not_json() {
    let r = lower(&Ok(parts("POST", "/x", None, b"{not json")));
    assert!(matches!(r, Err(BindingError::Json(_))));
}

#[test]
fn lower_passes_on_the_http_form_error() {
    let r = lower(&Err("missing path argument".to_string()));
    match r {
        Err(BindingError::HttpForm(m)) => assert_eq!(m, "missing path argument"),
        other => panic!("unexpected {:?}", other),
    }
}

#[test]
fn to_device_frame_has_put_path_and_messages_body() {
    let r = to_device("m.room_key", "txn42", br#"{"@bob:example.org":{"DEV":{"k":1}}}"#);
    let g = to_device_to_gateway(&r).unwrap();
    assert_eq!(g.id, "txn42");
    assert_eq!(g.kind, "to_device");
    assert_eq!(g.method, "PUT");
    assert_eq!(g.path, "/_matrix/client/v3/sendToDevice/m.room_key/txn42");
    assert_eq!(g.body, br#"{"messages":{"@bob:example.org":{"DEV":{"k":1}}}}"#.to_vec());
    let body: serde_json::Value = serde_json::from_slice(&g.body).unwrap();
    assert!(body["messages"]["@bob:example.org"]["DEV"].is_object());
}

#[test]
fn to_device_frame_is_the_same_either_way() {
    let r = to_device("m.room_key", "txn7", br#"{}"#);
    let direct = to_device_to_gateway(&r).unwrap();
    let via = to_gateway_req(&OutgoingRequest {
        request_id: "txn7".to_string(),
        request: AnyOutgoingRequest::ToDevice(r.clone()),
    })
    .unwrap();
    assert_eq!(direct, via);
}

#[test]
fn room_message_frame_path() {
    let g = to_gateway_req(&OutgoingRequest {
        request_id: "r1".to_string(),
        request: AnyOutgoingRequest::RoomMessage(RoomMessageRequest {
            room_id: "!room:example.org".to_string(),
            txn_id: "t9".to_string(),
            event_type: "m.key.verification.ready".to_string(),
            content: br#"{"method":"m.sas.v1"}"#.to_vec(),
        }),
    })
    .unwrap();
    assert_eq!(g.kind, "room_message");
    assert_eq!(g.method, "PUT");
    assert_eq!(g.path, "/_matrix/client/v3/rooms/!room:example.org/send/m.key.verification.ready/t9");
    assert_eq!(g.body, br#"{"method":"m.sas.v1"}"#.to_vec());
}

#[test]
fn keys_claim_frame_takes_the_transaction_id() {
    let g = keys_claim_to_gateway(
        "claim-1",
        &Ok(parts("POST", "/_matrix/client/v3/keys/claim", None, br#"{"one_time_keys":{}}"#)),
    )
    .unwrap();
    assert_eq!(g.id, "claim-1");
    assert_eq!(g.kind, "keys_claim");
    assert_eq!(g.method, "POST");
    assert_eq!(g.path, "/_matrix/client/v3/keys/claim");
}

#[test]
fn batch_keeps_order_and_stops_at_first_failure() {
    let ok = vec![
        OutgoingRequest {
            request_id: "a".to_string(),
            request: AnyOutgoingRequest::KeysQuery(Ok(parts("POST", "/q", None, b"{}"))),
        },
        OutgoingRequest {
            request_id: "b".to_string(),
            request: AnyOutgoingRequest::ToDevice(to_device("m.dummy", "b", b"{}")),
        },
    ];
    let out = to_gateway_reqs(&ok).unwrap();
    assert_eq!(out.len(), 2);
    assert_eq!(out[0].id, "a");
    assert_eq!(out[0].kind, "keys_query");
    assert_eq!(out[1].id, "b");
    assert_eq!(out[1].kind, "to_device");

    let bad = vec![
        OutgoingRequest {
            request_id: "a".to_string(),
            request: AnyOutgoingRequest::SignatureUpload(Err("first".to_string())),
        },
        OutgoingRequest {
            request_id: "b".to_string(),
            request: AnyOutgoingRequest::KeysBackup(Err("second".to_string())),
        },
    ];
    match to_gateway_reqs(&bad) {
        Err(BindingError::HttpForm(m)) => assert_eq!(m, "first"),
        other => panic!("unexpected {:?}", other),
    }
}

#[test]
fn shared_room_key_requests_keep_their_order() {
    let reqs = vec![to_device("m.room.encrypted", "t1", b"{}"), to_device("m.room.encrypted", "t2", b"{}")];
    let out = to_device_to_gateway_all(&reqs);
    assert_eq!(out.len(), 2);
    assert_eq!(out[0].id, "t1");
    assert_eq!(out[1].id, "t2");
    assert_eq!(out[1].path, "/_matrix/client/v3/sendToDevice/m.room.encrypted/t2");
}

#[test]
fn http_response_checks_body_then_status() {
    let r = http_response(200, br#"{"one_time_key_counts":{}}"#).unwrap();
    assert_eq!(r.status, 200);
    assert_eq!(r.body, br#"{"one_time_key_counts":{}}"#.to_vec());
    assert_eq!(http_response(100, b"{}").unwrap().status, 100);
    assert_eq!(http_response(999, b"{}").unwrap().status, 999);
    match http_response(99, b"{}") {
        Err(BindingError::HttpForm(m)) => assert_eq!(m, "invalid status code"),
        other => panic!("unexpected {:?}", other),
    }
    assert!(matches!(http_response(1000, b"{}"), Err(BindingError::HttpForm(_))));
    assert!(matches!(http_response(1000, b"nope"), Err(BindingError::Json(_))));
    assert!(matches!(http_response(200, b""), Err(BindingError::Json(_))));
}

#[test]
fn response_kinds_follow_the_tags() {
    for k in [
        RequestKind::KeysUpload,
        RequestKind::KeysQuery,
        RequestKind::KeysClaim,
        RequestKind::SignatureUpload,
        RequestKind::ToDevice,
        RequestKind::KeysBackup,
        RequestKind::RoomMessage,
    ] {
        assert_eq!(response_kind(&k.tag()).unwrap(), k);
    }
    assert_eq!(response_kind("room_message").unwrap(), RequestKind::RoomMessage);
    match response_kind("room_messages") {
        Err(BindingError::UnknownRequestType(m)) => assert_eq!(m, "room_messages"),
        other => panic!("unexpected {:?}", other),
    }
    assert!(matches!(response_kind("keys"), Err(BindingError::UnknownRequestType(_))));
}

#[test]
fn a_frame_answer_comes_back_to_its_request() {
    let g = keys_claim_to_gateway("c1", &Ok(parts("POST", "/_matrix/client/v3/keys/claim", None, b"{}")))
        .unwrap();
    let s = sent_response(&g.id, &g.kind, 200, br#"{"one_time_keys":{}}"#).unwrap();
    assert_eq!(s.txn_id, "c1");
    assert_eq!(s.kind, RequestKind::KeysClaim);
    assert_eq!(s.response.status, 200);

    let room = to_gateway_req(&OutgoingRequest {
        request_id: "r".to_string(),
        request: AnyOutgoingRequest::RoomMessage(RoomMessageRequest {
            room_id: "!r:x".to_string(),
            txn_id: "t".to_string(),
            event_type: "m.key.verification.done".to_string(),
            content: b"{}".to_vec(),
        }),
    })
    .unwrap();
    let answer = sent_response(&room.id, &room.kind, 200, br#"{"event_id": "$ev"}"#).unwrap();
    assert_eq!(answer.txn_id, "r");
    assert_eq!(answer.kind, RequestKind::RoomMessage);
    assert_eq!(answer.response.body, br#"{"event_id":"$ev"}"#.to_vec());
}

#[test]
fn sent_response_checks_the_body_before_the_kind() {
    assert!(matches!(sent_response("t", "bogus", 200, b"{"), Err(BindingError::Json(_))));
    assert!(matches!(sent_response("t", "bogus", 42, b"{}"), Err(BindingError::HttpForm(_))));
    assert!(matches!(sent_response("t", "bogus", 200, b"{}"), Err(BindingError::UnknownRequestType(_))));
}

#[test]
fn key_counts_too_large_for_json_are_dropped() {
    let text = format!(
        r#"{{"signed_curve25519": {}, "curve25519": {}, "a": 3}}"#,
        MAX_SAFE_UINT,
        MAX_SAFE_UINT + 1
    );
    let counts = one_time_key_counts(text.as_bytes()).unwrap();
    assert_eq!(counts, vec![("a".to_string(), 3), ("signed_curve25519".to_string(), MAX_SAFE_UINT)]);
    assert!(matches!(one_time_key_counts(br#"{"x": -1}"#), Err(BindingError::Json(_))));
}

#[test]
fn fallback_keys_are_optional() {
    assert!(matches!(fallback_key_algorithms(None), Ok(None)));
    assert_eq!(
        fallback_key_algorithms(Some(br#"["signed_curve25519"]"#)).unwrap(),
        Some(vec!["signed_curve25519".to_string()])
    );
    assert!(matches!(fallback_key_algorithms(Some(b"{}")), Err(BindingError::Json(_))));
}

#[test]
fn sync_inputs_parse_every_part() {
    let s = sync_inputs(
        br#"[{"type":"m.dummy","sender":"@a:b","content":{}}]"#,
        br#"{"changed":["@alice:example.org"],"left":[]}"#,
        br#"{"signed_curve25519": 50}"#,
        Some(br#"[]"#),
    )
    .unwrap();
    assert_eq!(s.to_device_events.len(), 1);
    assert_eq!(
        s.to_device_events[0].as_ruma().json().get(),
        r#"{"type":"m.dummy","sender":"@a:b","content":{}}"#
    );
    assert_eq!(s.changed_devices.len(), 1);
    assert_eq!(s.changed_devices[0].as_ruma().as_str(), "@alice:example.org");
    assert!(s.left_devices.is_empty());
    assert_eq!(s.one_time_key_counts, vec![("signed_curve25519".to_string(), 50)]);
    assert_eq!(s.unused_fallback_keys, Some(vec![]));

    assert!(matches!(sync_inputs(b"{}", b"{}", b"{}", None), Err(BindingError::Json(_))));
    assert!(matches!(sync_inputs(b"[]", br#"{"changed":["nope"]}"#, b"{}", None), Err(BindingError::Json(_))));
    let empty = sync_inputs(b"[]", b"{}", b"{}", None).unwrap();
    assert!(empty.to_device_events.is_empty());
    assert!(empty.unused_fallback_keys.is_none());
}

#[test]
fn user_ids_parse_in_order() {
    assert!(user_id("@alice:example.org").is_ok());
    assert!(matches!(user_id("alice"), Err(BindingError::Id(_))));
    assert!(matches!(user_id("@alice"), Err(BindingError::Id(_))));
    let list = vec!["@a:example.org".to_string(), "@b:example.org".to_string()];
    let ids = user_ids(&list).unwrap();
    assert_eq!(ids.len(), 2);
    assert_eq!(ids[0].as_ruma().as_str(), "@a:example.org");
    assert_eq!(ids[1].as_ruma().as_str(), "@b:example.org");
    assert_eq!(user_id("@alice:example.org").unwrap().as_ruma().as_str(), "@alice:example.org");
    let bad = vec!["@a:example.org".to_string(), "b".to_string()];
    assert!(matches!(user_ids(&bad), Err(BindingError::Id(_))));
    assert!(user_ids(&vec![]).unwrap().is_empty());
}

#[test]
fn room_ids_need_the_sigil() {
    assert_eq!(room_id("!room:example.org").unwrap().as_ruma().as_str(), "!room:example.org");
    assert!(matches!(room_id("#alias:example.org"), Err(BindingError::Id(_))));
    assert!(matches!(room_id(""), Err(BindingError::Id(_))));
}

#[test]
fn room_event_inputs_check_room_then_json() {
    let ok = room_event_input::<ruma::events::AnyMessageLikeEventContent>("!r:example.org", r#"{"body":"hi"}"#)
        .unwrap();
    assert_eq!(ok.0.as_ruma().as_str(), "!r:example.org");
    assert_eq!(ok.1.as_ruma().json().get(), r#"{"body":"hi"}"#);
    assert!(matches!(
        room_event_input::<ruma::events::AnyMessageLikeEventContent>("r", "not json"),
        Err(BindingError::Id(_))
    ));
    assert!(matches!(
        room_event_input::<ruma::events::AnyTimelineEvent>("!r:example.org", "not json"),
        Err(BindingError::Json(_))
    ));
}

#[test]
fn error_messages_name_their_cause() {
    assert_eq!(BindingError::Store("locked".to_string()).message(), "crypto store error: locked");
    assert_eq!(BindingError::Machine("m".to_string()).message(), "OlmMachine error: m");
    assert_eq!(BindingError::Id("x".to_string()).message(), "invalid Matrix identifier: x");
    assert_eq!(
        BindingError::UnknownRequestType("room_message".to_string()).message(),
        "unknown or unsupported outgoing-request type: room_message"
    );
    assert_eq!(
        BindingError::HttpForm("invalid status code".to_string()).message(),
        "could not build HTTP form of request: invalid status code"
    );
    let e = match http_response(200, b"{") {
        Err(e) => e,
        Ok(_) => panic!("accepted"),
    };
    assert!(e.message().starts_with("invalid JSON at the Python<->Rust boundary: "));
    assert!(e.message().len() > "invalid JSON at the Python<->Rust boundary: ".len());
}

#[test]
fn a_real_ruma_key_upload_lowers_to_its_endpoint() {
    let req = ruma::api::client::keys::upload_keys::v3::Request::new();
    let http_req = req
        .try_into_http_request::<Vec<u8>>(
            "https://gateway.invalid",
            SendAccessToken::IfRequired("placeholder"),
            &[MatrixVersion::V1_11],
        )
        .unwrap();
    let form = HttpRequestParts {
        method: http_req.method().as_str().to_string(),
        path: http_req.uri().path().to_string(),
        query: http_req.uri().query().map(|q| q.to_string()),
        body: http_req.body().clone(),
    };
    let g = to_gateway_req(&OutgoingRequest {
        request_id: "u1".to_string(),
        request: AnyOutgoingRequest::KeysUpload(Ok(form)),
    })
    .unwrap();
    assert_eq!(g.method, "POST");
    assert_eq!(g.path, "/_matrix/client/v3/keys/upload");
    let body: serde_json::Value = serde_json::from_slice(&g.body).unwrap();
    assert!(body.is_object());
}

#[test]
fn room_ids_of_any_length_are_accepted() {
    let long = format!("!{}:example.org", "a".repeat(300));
    assert!(room_id(&long).is_ok());
}

#[test]
fn the_last_duplicate_key_count_wins() {
    let counts = one_time_key_counts(br#"{"k": 1, "k": 2}"#).unwrap();
    assert_eq!(counts, vec![("k".to_string(), 2)]);
}

#[test]
fn json_bodies_are_written_back_compactly() {
    let l = lower(&Ok(parts("POST", "/p", None, br#"{ "b": 1,  "a": [ 1, 2 ] }"#))).unwrap();
    let v: serde_json::Value = serde_json::from_slice(&l.body).unwrap();
    assert_eq!(v, serde_json::from_slice::<serde_json::Value>(br#"{"a":[1,2],"b":1}"#).unwrap());
    assert!(!l.body.contains(&b' '));
    let r = http_response(200, br#"{"k": 1, "k": 2}"#).unwrap();
    assert_eq!(r.body, br#"{"k":2}"#.to_vec());
}

#[test]
fn sync_inputs_keep_the_events_in_order() {
    let s = sync_inputs(br#"[{"type":"a"}, {"type":"b"}, 7]"#, b"{}", b"{}", None).unwrap();
    let texts: Vec<&str> = s.to_device_events.iter().map(|e| e.as_ruma().json().get()).collect();
    assert_eq!(texts, vec![r#"{"type":"a"}"#, r#"{"type":"b"}"#, "7"]);
    let lists = sync_inputs(b"[]", br#"{"changed":["@x:a.org"],"left":["@y:b.org","@z:c.org"]}"#, b"{}", None)
        .unwrap();
    assert_eq!(lists.left_devices.len(), 2);
    assert_eq!(lists.left_devices[1].as_ruma().as_str(), "@z:c.org");
}

#[test]
fn ruma_reads_the_answer_as_the_requests_response() {
    let s = sent_response("u", "keys_upload", 200, br#"{"one_time_key_counts": {"signed_curve25519": 50}}"#)
        .unwrap();
    match s.typed {
        TypedResponse::KeysUpload(r) => assert_eq!(r.one_time_key_counts.len(), 1),
        other => panic!("unexpected {:?}", other),
    }
    let m = sent_response("m", "room_message", 200, br#"{"event_id": "$ev:example.org"}"#).unwrap();
    assert!(matches!(m.typed, TypedResponse::RoomMessage(_)));
    assert!(matches!(
        sent_response("e", "keys_upload", 429, br#"{"errcode": "M_LIMIT_EXCEEDED", "error": "slow down"}"#),
        Err(BindingError::HttpForm(_))
    ));
    assert!(matches!(sent_response("m", "room_message", 200, b"{}"), Err(BindingError::HttpForm(_))));
}

#[test]
fn raw_json_keeps_the_value_without_surrounding_whitespace() {
    let (_, raw) = room_event_input::<ruma::events::AnyMessageLikeEventContent>("!r:x", " {} ").unwrap();
    assert_eq!(raw.as_ruma().json().get(), "{}");
    let (_, raw) = room_event_input::<ruma::events::AnyMessageLikeEventContent>("!r:x", "{ \"a\" : 1 }").unwrap();
    assert_eq!(raw.as_ruma().json().get(), "{ \"a\" : 1 }");
}

#[test]
fn error_statuses_are_refused_by_every_response_type() {
    for k in ["keys_upload", "keys_query", "keys_claim", "signature_upload", "to_device", "keys_backup", "room_message"] {
        assert!(matches!(sent_response("t", k, 400, b"{}"), Err(BindingError::HttpForm(_))));
        assert!(matches!(sent_response("t", k, 500, br#"{"errcode":"M_UNKNOWN"}"#), Err(BindingError::HttpForm(_))));
    }
}

#[test]
fn the_typed_response_is_read_from_the_answer_itself() {
    let a = sent_response("u", "keys_upload", 200, br#"{"one_time_key_counts": {"signed_curve25519": 7, "curve25519": 3}}"#)
        .unwrap();
    match a.typed {
        TypedResponse::KeysUpload(r) => assert_eq!(r.one_time_key_counts.len(), 2),
        other => panic!("unexpected {:?}", other),
    }
    let b = sent_response("u", "keys_upload", 200, br#"{"one_time_key_counts": {}}"#).unwrap();
    match b.typed {
        TypedResponse::KeysUpload(r) => assert!(r.one_time_key_counts.is_empty()),
        other => panic!("unexpected {:?}", other),
    }
}
