//! Gateway answers read as ruma's typed responses, which the crypto machine
//! takes when a request is marked as sent.

use vstd::prelude::*;

use crate::requests::RequestKind;

verus! {

/// ruma's error for an HTTP response that does not read as the endpoint's
/// response type.
#[verifier::external_type_specification]
#[verifier::external_body]
#[verifier::reject_recursive_types(E)]
pub struct ExFromHttpResponseError<E>(ruma::api::error::FromHttpResponseError<E>);

/// The client API's error body type.
#[verifier::external_type_specification]
#[verifier::external_body]
pub struct ExClientApiError(ruma::api::client::Error);

/// ruma's response type for a `/keys/upload` request.
#[verifier::external_type_specification]
#[verifier::external_body]
pub struct ExKeysUploadResponse(ruma::api::client::keys::upload_keys::v3::Response);

/// ruma's response type for a `/keys/query` request.
#[verifier::external_type_specification]
#[verifier::external_body]
pub struct ExKeysQueryResponse(ruma::api::client::keys::get_keys::v3::Response);

/// ruma's response type for a `/keys/claim` request.
#[verifier::external_type_specification]
#[verifier::external_body]
pub struct ExKeysClaimResponse(ruma::api::client::keys::claim_keys::v3::Response);

/// ruma's response type for a `/keys/signatures/upload` request.
#[verifier::external_type_specification]
#[verifier::external_body]
pub struct ExSignatureUploadResponse(ruma::api::client::keys::upload_signatures::v3::Response);

/// ruma's response type for a `/sendToDevice` request.
#[verifier::external_type_specification]
#[verifier::external_body]
pub struct ExToDeviceResponse(ruma::api::client::to_device::send_event_to_device::v3::Response);

/// ruma's response type for a `/room_keys/keys` request.
#[verifier::external_type_specification]
#[verifier::external_body]
pub struct ExKeysBackupResponse(ruma::api::client::backup::add_backup_keys::v3::Response);

/// ruma's response type for a room `/send` request.
#[verifier::external_type_specification]
#[verifier::external_body]
pub struct ExRoomMessageResponse(ruma::api::client::message::send_message_event::v3::Response);

/// What `keys::upload_keys::v3::Response::try_from_http_response` reads from an
/// HTTP response with this status and body (and no headers); `None` where it
/// refuses it.
pub uninterp spec fn keys_upload_response(status: u16, body: Seq<u8>) -> Option<ruma::api::client::keys::upload_keys::v3::Response>;

/// The gateway's answer as ruma's response to a `/keys/upload` request: the status and
/// body form an `http::Response` (the status is valid, so the builder cannot
/// fail), which `try_from_http_response` reads. Trusted: the outcome and the
/// response are the name applied to the status and body (the reading is a
/// function of them alone: the response is built with no headers), and, as
/// ruma's generated
/// `try_from_http_response` shows, a status of 400 or more is always refused
/// (as the server's error).
#[verifier::external_body]
fn read_keys_upload(status: u16, body: &[u8]) -> (r: Result<
    ruma::api::client::keys::upload_keys::v3::Response,
    ruma::api::error::FromHttpResponseError<ruma::api::client::Error>,
>)
    requires
        100 <= status <= 999,
    ensures
        r is Ok ==> status < 400,
        r is Ok <==> keys_upload_response(status, body@) is Some,
        r matches Ok(x) ==> Some(x) == keys_upload_response(status, body@),
{
    let http = http::Response::builder().status(status).body(body.to_vec()).expect("a valid status");
    <ruma::api::client::keys::upload_keys::v3::Response as ruma::api::IncomingResponse>::try_from_http_response(http)
}

/// What `keys::get_keys::v3::Response::try_from_http_response` reads from an
/// HTTP response with this status and body (and no headers); `None` where it
/// refuses it.
pub uninterp spec fn keys_query_response(status: u16, body: Seq<u8>) -> Option<ruma::api::client::keys::get_keys::v3::Response>;

/// The gateway's answer as ruma's response to a `/keys/query` request: the status and
/// body form an `http::Response` (the status is valid, so the builder cannot
/// fail), which `try_from_http_response` reads. Trusted: the outcome and the
/// response are the name applied to the status and body (the reading is a
/// function of them alone: the response is built with no headers), and, as
/// ruma's generated
/// `try_from_http_response` shows, a status of 400 or more is always refused
/// (as the server's error).
#[verifier::external_body]
fn read_keys_query(status: u16, body: &[u8]) -> (r: Result<
    ruma::api::client::keys::get_keys::v3::Response,
    ruma::api::error::FromHttpResponseError<ruma::api::client::Error>,
>)
    requires
        100 <= status <= 999,
    ensures
        r is Ok ==> status < 400,
        r is Ok <==> keys_query_response(status, body@) is Some,
        r matches Ok(x) ==> Some(x) == keys_query_response(status, body@),
{
    let http = http::Response::builder().status(status).body(body.to_vec()).expect("a valid status");
    <ruma::api::client::keys::get_keys::v3::Response as ruma::api::IncomingResponse>::try_from_http_response(http)
}

/// What `keys::claim_keys::v3::Response::try_from_http_response` reads from an
/// HTTP response with this status and body (and no headers); `None` where it
/// refuses it.
pub uninterp spec fn keys_claim_response(status: u16, body: Seq<u8>) -> Option<ruma::api::client::keys::claim_keys::v3::Response>;

/// The gateway's answer as ruma's response to a `/keys/claim` request: the status and
/// body form an `http::Response` (the status is valid, so the builder cannot
/// fail), which `try_from_http_response` reads. Trusted: the outcome and the
/// response are the name applied to the status and body (the reading is a
/// function of them alone: the response is built with no headers), and, as
/// ruma's generated
/// `try_from_http_response` shows, a status of 400 or more is always refused
/// (as the server's error).
#[verifier::external_body]
fn read_keys_claim(status: u16, body: &[u8]) -> (r: Result<
    ruma::api::client::keys::claim_keys::v3::Response,
    ruma::api::error::FromHttpResponseError<ruma::api::client::Error>,
>)
    requires
        100 <= status <= 999,
    ensures
        r is Ok ==> status < 400,
        r is Ok <==> keys_claim_response(status, body@) is Some,
        r matches Ok(x) ==> Some(x) == keys_claim_response(status, body@),
{
    let http = http::Response::builder().status(status).body(body.to_vec()).expect("a valid status");
    <ruma::api::client::keys::claim_keys::v3::Response as ruma::api::IncomingResponse>::try_from_http_response(http)
}

/// What `keys::upload_signatures::v3::Response::try_from_http_response` reads from an
/// HTTP response with this status and body (and no headers); `None` where it
/// refuses it.
pub uninterp spec fn signature_upload_response(status: u16, body: Seq<u8>) -> Option<ruma::api::client::keys::upload_signatures::v3::Response>;

/// The gateway's answer as ruma's response to a `/keys/signatures/upload` request: the status and
/// body form an `http::Response` (the status is valid, so the builder cannot
/// fail), which `try_from_http_response` reads. Trusted: the outcome and the
/// response are the name applied to the status and body (the reading is a
/// function of them alone: the response is built with no headers), and, as
/// ruma's generated
/// `try_from_http_response` shows, a status of 400 or more is always refused
/// (as the server's error).
#[verifier::external_body]
fn read_signature_upload(status: u16, body: &[u8]) -> (r: Result<
    ruma::api::client::keys::upload_signatures::v3::Response,
    ruma::api::error::FromHttpResponseError<ruma::api::client::Error>,
>)
    requires
        100 <= status <= 999,
    ensures
        r is Ok ==> status < 400,
        r is Ok <==> signature_upload_response(status, body@) is Some,
        r matches Ok(x) ==> Some(x) == signature_upload_response(status, body@),
{
    let http = http::Response::builder().status(status).body(body.to_vec()).expect("a valid status");
    <ruma::api::client::keys::upload_signatures::v3::Response as ruma::api::IncomingResponse>::try_from_http_response(http)
}

/// What `to_device::send_event_to_device::v3::Response::try_from_http_response` reads from an
/// HTTP response with this status and body (and no headers); `None` where it
/// refuses it.
pub uninterp spec fn to_device_response(status: u16, body: Seq<u8>) -> Option<ruma::api::client::to_device::send_event_to_device::v3::Response>;

/// The gateway's answer as ruma's response to a `/sendToDevice` request: the status and
/// body form an `http::Response` (the status is valid, so the builder cannot
/// fail), which `try_from_http_response` reads. Trusted: the outcome and the
/// response are the name applied to the status and body (the reading is a
/// function of them alone: the response is built with no headers), and, as
/// ruma's generated
/// `try_from_http_response` shows, a status of 400 or more is always refused
/// (as the server's error).
#[verifier::external_body]
fn read_to_device(status: u16, body: &[u8]) -> (r: Result<
    ruma::api::client::to_device::send_event_to_device::v3::Response,
    ruma::api::error::FromHttpResponseError<ruma::api::client::Error>,
>)
    requires
        100 <= status <= 999,
    ensures
        r is Ok ==> status < 400,
        r is Ok <==> to_device_response(status, body@) is Some,
        r matches Ok(x) ==> Some(x) == to_device_response(status, body@),
{
    let http = http::Response::builder().status(status).body(body.to_vec()).expect("a valid status");
    <ruma::api::client::to_device::send_event_to_device::v3::Response as ruma::api::IncomingResponse>::try_from_http_response(http)
}

/// What `backup::add_backup_keys::v3::Response::try_from_http_response` reads from an
/// HTTP response with this status and body (and no headers); `None` where it
/// refuses it.
pub uninterp spec fn keys_backup_response(status: u16, body: Seq<u8>) -> Option<ruma::api::client::backup::add_backup_keys::v3::Response>;

/// The gateway's answer as ruma's response to a `/room_keys/keys` request: the status and
/// body form an `http::Response` (the status is valid, so the builder cannot
/// fail), which `try_from_http_response` reads. Trusted: the outcome and the
/// response are the name applied to the status and body (the reading is a
/// function of them alone: the response is built with no headers), and, as
/// ruma's generated
/// `try_from_http_response` shows, a status of 400 or more is always refused
/// (as the server's error).
#[verifier::external_body]
fn read_keys_backup(status: u16, body: &[u8]) -> (r: Result<
    ruma::api::client::backup::add_backup_keys::v3::Response,
    ruma::api::error::FromHttpResponseError<ruma::api::client::Error>,
>)
    requires
        100 <= status <= 999,
    ensures
        r is Ok ==> status < 400,
        r is Ok <==> keys_backup_response(status, body@) is Some,
        r matches Ok(x) ==> Some(x) == keys_backup_response(status, body@),
{
    let http = http::Response::builder().status(status).body(body.to_vec()).expect("a valid status");
    <ruma::api::client::backup::add_backup_keys::v3::Response as ruma::api::IncomingResponse>::try_from_http_response(http)
}

/// What `message::send_message_event::v3::Response::try_from_http_response` reads from an
/// HTTP response with this status and body (and no headers); `None` where it
/// refuses it.
pub uninterp spec fn room_message_response(status: u16, body: Seq<u8>) -> Option<ruma::api::client::message::send_message_event::v3::Response>;

/// The gateway's answer as ruma's response to a room `/send` request: the status and
/// body form an `http::Response` (the status is valid, so the builder cannot
/// fail), which `try_from_http_response` reads. Trusted: the outcome and the
/// response are the name applied to the status and body (the reading is a
/// function of them alone: the response is built with no headers), and, as
/// ruma's generated
/// `try_from_http_response` shows, a status of 400 or more is always refused
/// (as the server's error).
#[verifier::external_body]
fn read_room_message(status: u16, body: &[u8]) -> (r: Result<
    ruma::api::client::message::send_message_event::v3::Response,
    ruma::api::error::FromHttpResponseError<ruma::api::client::Error>,
>)
    requires
        100 <= status <= 999,
    ensures
        r is Ok ==> status < 400,
        r is Ok <==> room_message_response(status, body@) is Some,
        r matches Ok(x) ==> Some(x) == room_message_response(status, body@),
{
    let http = http::Response::builder().status(status).body(body.to_vec()).expect("a valid status");
    <ruma::api::client::message::send_message_event::v3::Response as ruma::api::IncomingResponse>::try_from_http_response(http)
}

/// The `Display` text of ruma's response error. Nothing is stated of it.
#[verifier::external_body]
fn response_error_text(e: &ruma::api::error::FromHttpResponseError<ruma::api::client::Error>) -> String {
    e.to_string()
}

/// A gateway answer as the typed response of the request it answers.
#[derive(Debug)]
pub enum TypedResponse {
    KeysUpload(ruma::api::client::keys::upload_keys::v3::Response),
    KeysQuery(ruma::api::client::keys::get_keys::v3::Response),
    KeysClaim(ruma::api::client::keys::claim_keys::v3::Response),
    SignatureUpload(ruma::api::client::keys::upload_signatures::v3::Response),
    ToDevice(ruma::api::client::to_device::send_event_to_device::v3::Response),
    KeysBackup(ruma::api::client::backup::add_backup_keys::v3::Response),
    RoomMessage(ruma::api::client::message::send_message_event::v3::Response),
}

/// The kind of request a typed response answers.
pub open spec fn typed_kind(t: TypedResponse) -> RequestKind {
    match t {
        TypedResponse::KeysUpload(_) => RequestKind::KeysUpload,
        TypedResponse::KeysQuery(_) => RequestKind::KeysQuery,
        TypedResponse::KeysClaim(_) => RequestKind::KeysClaim,
        TypedResponse::SignatureUpload(_) => RequestKind::SignatureUpload,
        TypedResponse::ToDevice(_) => RequestKind::ToDevice,
        TypedResponse::KeysBackup(_) => RequestKind::KeysBackup,
        TypedResponse::RoomMessage(_) => RequestKind::RoomMessage,
    }
}

/// What ruma reads an answer with this status and body as, for the given kind
/// of request; `None` where it refuses it.
pub open spec fn typed_spec(k: RequestKind, status: u16, body: Seq<u8>) -> Option<TypedResponse> {
    match k {
        RequestKind::KeysUpload => match keys_upload_response(status, body) {
            Some(x) => Some(TypedResponse::KeysUpload(x)),
            None => None,
        },
        RequestKind::KeysQuery => match keys_query_response(status, body) {
            Some(x) => Some(TypedResponse::KeysQuery(x)),
            None => None,
        },
        RequestKind::KeysClaim => match keys_claim_response(status, body) {
            Some(x) => Some(TypedResponse::KeysClaim(x)),
            None => None,
        },
        RequestKind::SignatureUpload => match signature_upload_response(status, body) {
            Some(x) => Some(TypedResponse::SignatureUpload(x)),
            None => None,
        },
        RequestKind::ToDevice => match to_device_response(status, body) {
            Some(x) => Some(TypedResponse::ToDevice(x)),
            None => None,
        },
        RequestKind::KeysBackup => match keys_backup_response(status, body) {
            Some(x) => Some(TypedResponse::KeysBackup(x)),
            None => None,
        },
        RequestKind::RoomMessage => match room_message_response(status, body) {
            Some(x) => Some(TypedResponse::RoomMessage(x)),
            None => None,
        },
    }
}

/// Whether ruma reads an answer with this status and body as the response of
/// the given kind of request.
pub open spec fn response_accepted(k: RequestKind, status: u16, body: Seq<u8>) -> bool {
    typed_spec(k, status, body) is Some
}

/// Reads an answer with a valid status as the typed response of the given kind
/// of request; ruma's refusal is returned as its error text.
pub(crate) fn typed_response(k: RequestKind, status: u16, body: &[u8]) -> (r: Result<TypedResponse, String>)
    requires
        100 <= status <= 999,
    ensures
        r is Ok ==> status < 400,
        r is Ok <==> response_accepted(k, status, body@),
        r matches Ok(t) ==> typed_kind(t) == k,
        r matches Ok(t) ==> Some(t) == typed_spec(k, status, body@),
{
    match k {
        RequestKind::KeysUpload => match read_keys_upload(status, body) {
            Ok(x) => Ok(TypedResponse::KeysUpload(x)),
            Err(e) => Err(response_error_text(&e)),
        },
        RequestKind::KeysQuery => match read_keys_query(status, body) {
            Ok(x) => Ok(TypedResponse::KeysQuery(x)),
            Err(e) => Err(response_error_text(&e)),
        },
        RequestKind::KeysClaim => match read_keys_claim(status, body) {
            Ok(x) => Ok(TypedResponse::KeysClaim(x)),
            Err(e) => Err(response_error_text(&e)),
        },
        RequestKind::SignatureUpload => match read_signature_upload(status, body) {
            Ok(x) => Ok(TypedResponse::SignatureUpload(x)),
            Err(e) => Err(response_error_text(&e)),
        },
        RequestKind::ToDevice => match read_to_device(status, body) {
            Ok(x) => Ok(TypedResponse::ToDevice(x)),
            Err(e) => Err(response_error_text(&e)),
        },
        RequestKind::KeysBackup => match read_keys_backup(status, body) {
            Ok(x) => Ok(TypedResponse::KeysBackup(x)),
            Err(e) => Err(response_error_text(&e)),
        },
        RequestKind::RoomMessage => match read_room_message(status, body) {
            Ok(x) => Ok(TypedResponse::RoomMessage(x)),
            Err(e) => Err(response_error_text(&e)),
        },
    }
}

/// Every kind of request has its answer read as ruma's response type for that
/// kind, and nothing else decides: an answer is accepted exactly when ruma reads
/// it as that type, and what is handed on is ruma's reading.
pub proof fn lemma_each_kind_reads_its_own_response(status: u16, body: Seq<u8>)
    ensures
        response_accepted(RequestKind::KeysUpload, status, body) <==> keys_upload_response(status, body) is Some,
        keys_upload_response(status, body) matches Some(x) ==> typed_spec(RequestKind::KeysUpload, status, body) == Some(
            TypedResponse::KeysUpload(x),
        ),
        response_accepted(RequestKind::KeysQuery, status, body) <==> keys_query_response(status, body) is Some,
        keys_query_response(status, body) matches Some(x) ==> typed_spec(RequestKind::KeysQuery, status, body) == Some(
            TypedResponse::KeysQuery(x),
        ),
        response_accepted(RequestKind::KeysClaim, status, body) <==> keys_claim_response(status, body) is Some,
        keys_claim_response(status, body) matches Some(x) ==> typed_spec(RequestKind::KeysClaim, status, body) == Some(
            TypedResponse::KeysClaim(x),
        ),
        response_accepted(RequestKind::SignatureUpload, status, body) <==> signature_upload_response(status, body) is Some,
        signature_upload_response(status, body) matches Some(x) ==> typed_spec(RequestKind::SignatureUpload, status, body) == Some(
            TypedResponse::SignatureUpload(x),
        ),
        response_accepted(RequestKind::ToDevice, status, body) <==> to_device_response(status, body) is Some,
        to_device_response(status, body) matches Some(x) ==> typed_spec(RequestKind::ToDevice, status, body) == Some(
            TypedResponse::ToDevice(x),
        ),
        response_accepted(RequestKind::KeysBackup, status, body) <==> keys_backup_response(status, body) is Some,
        keys_backup_response(status, body) matches Some(x) ==> typed_spec(RequestKind::KeysBackup, status, body) == Some(
            TypedResponse::KeysBackup(x),
        ),
        response_accepted(RequestKind::RoomMessage, status, body) <==> room_message_response(status, body) is Some,
        room_message_response(status, body) matches Some(x) ==> typed_spec(RequestKind::RoomMessage, status, body) == Some(
            TypedResponse::RoomMessage(x),
        ),
{
}

} // verus!
