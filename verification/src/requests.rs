//! Marshaling between the crypto machine's outgoing requests and the gateway's
//! `req`/`resp` frames.
//!
//! The embedding program owns the socket. For each crypto request the machine
//! wants made, the library hands it a plain `{ id, kind, method, path, body }`
//! frame it can drop straight into a gateway `req`; when the `resp` comes back,
//! `kind` tells which response type to re-type it into.
//!
//! Request and response bodies are JSON text, kept as bytes.

use vstd::prelude::*;
use vstd::slice::slice_to_vec;

use crate::errors::{BindingError, ErrorView};
use crate::json::{json_normal_form, normalize_json};


verus! {

/// The kinds of outgoing crypto request, each with the tag that names it in a
/// gateway frame (and that the program echoes back with the response).
#[derive(Clone, Copy, Debug, PartialEq, Eq, Structural)]
pub enum RequestKind {
    KeysUpload,
    KeysQuery,
    KeysClaim,
    SignatureUpload,
    KeysBackup,
    ToDevice,
    RoomMessage,
}

/// The tag of each kind.
pub open spec fn kind_tag(k: RequestKind) -> Seq<char> {
    match k {
        RequestKind::KeysUpload => "keys_upload"@,
        RequestKind::KeysQuery => "keys_query"@,
        RequestKind::KeysClaim => "keys_claim"@,
        RequestKind::SignatureUpload => "signature_upload"@,
        RequestKind::KeysBackup => "keys_backup"@,
        RequestKind::ToDevice => "to_device"@,
        RequestKind::RoomMessage => "room_message"@,
    }
}

impl RequestKind {
    /// The tag of this kind, as it stands in a gateway frame.
    pub fn tag(&self) -> (s: String)
        ensures
            s@ == kind_tag(*self),
    {
        match self {
            RequestKind::KeysUpload => String::from_str("keys_upload"),
            RequestKind::KeysQuery => String::from_str("keys_query"),
            RequestKind::KeysClaim => String::from_str("keys_claim"),
            RequestKind::SignatureUpload => String::from_str("signature_upload"),
            RequestKind::KeysBackup => String::from_str("keys_backup"),
            RequestKind::ToDevice => String::from_str("to_device"),
            RequestKind::RoomMessage => String::from_str("room_message"),
        }
    }
}

/// What the program hands the gateway for one outgoing crypto request.
#[derive(Clone, Debug, PartialEq, Eq)]
pub struct GatewayReq {
    pub id: String,
    pub kind: String,
    pub method: String,
    pub path: String,
    /// The JSON body, as text.
    pub body: Vec<u8>,
}

pub struct GatewayReqView {
    pub id: Seq<char>,
    pub kind: Seq<char>,
    pub method: Seq<char>,
    pub path: Seq<char>,
    pub body: Seq<u8>,
}

impl View for GatewayReq {
    type V = GatewayReqView;

    open spec fn view(&self) -> GatewayReqView {
        GatewayReqView {
            id: self.id@,
            kind: self.kind@,
            method: self.method@,
            path: self.path@,
            body: self.body@,
        }
    }
}

/// A request in its HTTP form, as ruma builds it against a placeholder base:
/// the method, the URI's path and query, and the body bytes.
#[derive(Clone, Debug)]
pub struct HttpRequestParts {
    pub method: String,
    pub path: String,
    pub query: Option<String>,
    pub body: Vec<u8>,
}

/// A request lowered to (method, path, body).
#[derive(Clone, Debug, PartialEq, Eq)]
pub struct Lowered {
    pub method: String,
    pub path: String,
    pub body: Vec<u8>,
}

pub struct LoweredView {
    pub method: Seq<char>,
    pub path: Seq<char>,
    pub body: Seq<u8>,
}

impl View for Lowered {
    type V = LoweredView;

    open spec fn view(&self) -> LoweredView {
        LoweredView { method: self.method@, path: self.path@, body: self.body@ }
    }
}

/// A to-device request: `PUT …/sendToDevice/{event_type}/{txn_id}`.
#[derive(Clone, Debug)]
pub struct ToDeviceRequest {
    pub event_type: String,
    pub txn_id: String,
    /// The JSON text of the user -> device -> content map.
    pub messages: Vec<u8>,
}

/// A room message request: `PUT …/rooms/{room_id}/send/{event_type}/{txn_id}`.
#[derive(Clone, Debug)]
pub struct RoomMessageRequest {
    pub room_id: String,
    pub txn_id: String,
    pub event_type: String,
    /// The JSON text of the event content.
    pub content: Vec<u8>,
}

/// Every request the crypto machine can ask for. The requests that are plain
/// ruma client-API requests carry their HTTP form, or the message of the error
/// ruma gave when building it.
#[derive(Debug)]
pub enum AnyOutgoingRequest {
    KeysUpload(Result<HttpRequestParts, String>),
    KeysQuery(Result<HttpRequestParts, String>),
    KeysClaim(Result<HttpRequestParts, String>),
    SignatureUpload(Result<HttpRequestParts, String>),
    KeysBackup(Result<HttpRequestParts, String>),
    ToDevice(ToDeviceRequest),
    RoomMessage(RoomMessageRequest),
}

/// One outgoing request with the unique id that its response must name.
#[derive(Debug)]
pub struct OutgoingRequest {
    pub request_id: String,
    pub request: AnyOutgoingRequest,
}

/// The kind of each request.
pub open spec fn kind_of(r: AnyOutgoingRequest) -> RequestKind {
    match r {
        AnyOutgoingRequest::KeysUpload(_) => RequestKind::KeysUpload,
        AnyOutgoingRequest::KeysQuery(_) => RequestKind::KeysQuery,
        AnyOutgoingRequest::KeysClaim(_) => RequestKind::KeysClaim,
        AnyOutgoingRequest::SignatureUpload(_) => RequestKind::SignatureUpload,
        AnyOutgoingRequest::KeysBackup(_) => RequestKind::KeysBackup,
        AnyOutgoingRequest::ToDevice(_) => RequestKind::ToDevice,
        AnyOutgoingRequest::RoomMessage(_) => RequestKind::RoomMessage,
    }
}

/// The bytes of `{}`.
pub open spec fn empty_object() -> Seq<u8> {
    seq![0x7bu8, 0x7du8]
}

/// The bytes of `{"messages":`.
pub open spec fn messages_prefix() -> Seq<u8> {
    seq![0x7bu8, 0x22u8, 0x6du8, 0x65u8, 0x73u8, 0x73u8, 0x61u8, 0x67u8, 0x65u8, 0x73u8, 0x22u8, 0x3au8]
}

/// The body `{"messages": m}`.
pub open spec fn messages_object(m: Seq<u8>) -> Seq<u8> {
    messages_prefix() + m + seq![0x7du8]
}

/// The path of a lowered request: the URI's path, then `?` and the query if
/// there is one.
pub open spec fn lowered_path(path: Seq<char>, query: Option<Seq<char>>) -> Seq<char> {
    match query {
        Some(q) => path + "?"@ + q,
        None => path,
    }
}

pub open spec fn option_view(o: Option<String>) -> Option<Seq<char>> {
    match o {
        Some(s) => Some(s@),
        None => None,
    }
}

/// What lowering an HTTP form gives: the form's error; else the method, the
/// path with its query, and the body as the JSON value serde_json reads from it
/// (written back compactly), `{}` where the body is empty; a JSON error where a
/// non-empty body does not parse.
pub open spec fn lower_spec(form: Result<HttpRequestParts, String>) -> Result<LoweredView, ErrorView> {
    match form {
        Err(m) => Err(ErrorView::HttpForm(m@)),
        Ok(p) => if p.body@.len() == 0 {
            Ok(
                LoweredView {
                    method: p.method@,
                    path: lowered_path(p.path@, option_view(p.query)),
                    body: empty_object(),
                },
            )
        } else {
            match json_normal_form(p.body@) {
                Some(n) => Ok(
                    LoweredView {
                        method: p.method@,
                        path: lowered_path(p.path@, option_view(p.query)),
                        body: n,
                    },
                ),
                None => Err(ErrorView::Json),
            }
        },
    }
}

/// The path of a to-device request.
pub open spec fn to_device_path(r: ToDeviceRequest) -> Seq<char> {
    "/_matrix/client/v3/sendToDevice/"@ + r.event_type@ + "/"@ + r.txn_id@
}

/// The path of a room message request.
pub open spec fn room_message_path(r: RoomMessageRequest) -> Seq<char> {
    "/_matrix/client/v3/rooms/"@ + r.room_id@ + "/send/"@ + r.event_type@ + "/"@ + r.txn_id@
}

/// The frame a request becomes, or the error it fails with.
pub open spec fn gateway_spec(id: Seq<char>, r: AnyOutgoingRequest) -> Result<GatewayReqView, ErrorView> {
    match r {
        AnyOutgoingRequest::ToDevice(t) => Ok(
            GatewayReqView {
                id,
                kind: kind_tag(RequestKind::ToDevice),
                method: "PUT"@,
                path: to_device_path(t),
                body: messages_object(t.messages@),
            },
        ),
        AnyOutgoingRequest::RoomMessage(m) => Ok(
            GatewayReqView {
                id,
                kind: kind_tag(RequestKind::RoomMessage),
                method: "PUT"@,
                path: room_message_path(m),
                body: m.content@,
            },
        ),
        AnyOutgoingRequest::KeysUpload(f) => with_kind_spec(id, RequestKind::KeysUpload, lower_spec(f)),
        AnyOutgoingRequest::KeysQuery(f) => with_kind_spec(id, RequestKind::KeysQuery, lower_spec(f)),
        AnyOutgoingRequest::KeysClaim(f) => with_kind_spec(id, RequestKind::KeysClaim, lower_spec(f)),
        AnyOutgoingRequest::SignatureUpload(f) => with_kind_spec(id, RequestKind::SignatureUpload, lower_spec(f)),
        AnyOutgoingRequest::KeysBackup(f) => with_kind_spec(id, RequestKind::KeysBackup, lower_spec(f)),
    }
}

pub open spec fn with_kind_spec(id: Seq<char>, k: RequestKind, l: Result<LoweredView, ErrorView>) -> Result<GatewayReqView, ErrorView> {
    match l {
        Ok(l) => Ok(GatewayReqView { id, kind: kind_tag(k), method: l.method, path: l.path, body: l.body }),
        Err(e) => Err(e),
    }
}

pub open spec fn lowered_result_view(r: Result<Lowered, BindingError>) -> Result<LoweredView, ErrorView> {
    match r {
        Ok(l) => Ok(l@),
        Err(e) => Err(e@),
    }
}

pub open spec fn gateway_result_view(r: Result<GatewayReq, BindingError>) -> Result<GatewayReqView, ErrorView> {
    match r {
        Ok(g) => Ok(g@),
        Err(e) => Err(e@),
    }
}

fn string_copy(s: &String) -> (r: String)
    ensures
        r@ == s@,
{
    String::from_str(s.as_str())
}

/// Lowers a request's HTTP form to (method, path, body): keeps the path and
/// query of the URI (the gateway adds the host and the access token), and takes
/// the body as a JSON value, `{}` where it is empty.
pub fn lower(form: &Result<HttpRequestParts, String>) -> (r: Result<Lowered, BindingError>)
    ensures
        lowered_result_view(r) == lower_spec(*form),
{
    match form {
        Err(m) => Err(BindingError::HttpForm(string_copy(m))),
        Ok(p) => {
            let method = string_copy(&p.method);
            let path = match &p.query {
                Some(q) => {
                    let mut s = string_copy(&p.path);
                    s.append("?");
                    s.append(q.as_str());
                    s
                },
                None => string_copy(&p.path),
            };
            let body = if p.body.len() == 0 {
                let e: Vec<u8> = vec![0x7bu8, 0x7du8];
                assert(e@ =~= empty_object());
                e
            } else {
                match normalize_json(p.body.as_slice()) {
                    Ok(n) => n,
                    Err(e) => {
                        return Err(BindingError::Json(e));
                    },
                }
            };
            Ok(Lowered { method, path, body })
        },
    }
}

/// Tags a lowered request with its kind: `(kind, method, path, body)`.
fn with_kind(kind: RequestKind, l: Lowered) -> (r: (String, String, String, Vec<u8>))
    ensures
        r.0@ == kind_tag(kind),
        r.1@ == l.method@,
        r.2@ == l.path@,
        r.3@ == l.body@,
{
    (kind.tag(), l.method, l.path, l.body)
}

/// `PUT …/sendToDevice/{eventType}/{txnId}` with `{ "messages": … }`.
fn to_device_parts(r: &ToDeviceRequest) -> (p: (String, String, Vec<u8>))
    ensures
        p.0@ == "PUT"@,
        p.1@ == to_device_path(*r),
        p.2@ == messages_object(r.messages@),
{
    let mut path = String::from_str("/_matrix/client/v3/sendToDevice/");
    path.append(r.event_type.as_str());
    path.append("/");
    path.append(r.txn_id.as_str());
    let mut body: Vec<u8> = vec![0x7bu8, 0x22u8, 0x6du8, 0x65u8, 0x73u8, 0x73u8, 0x61u8, 0x67u8, 0x65u8, 0x73u8, 0x22u8, 0x3au8];
    assert(body@ =~= messages_prefix());
    let mut messages = slice_to_vec(r.messages.as_slice());
    body.append(&mut messages);
    body.push(0x7du8);
    assert(body@ =~= messages_object(r.messages@));
    (String::from_str("PUT"), path, body)
}

/// `PUT …/rooms/{roomId}/send/{eventType}/{txnId}` with the content as body.
fn room_message_parts(r: &RoomMessageRequest) -> (p: (String, String, Vec<u8>))
    ensures
        p.0@ == "PUT"@,
        p.1@ == room_message_path(*r),
        p.2@ == r.content@,
{
    let mut path = String::from_str("/_matrix/client/v3/rooms/");
    path.append(r.room_id.as_str());
    path.append("/send/");
    path.append(r.event_type.as_str());
    path.append("/");
    path.append(r.txn_id.as_str());
    (String::from_str("PUT"), path, slice_to_vec(r.content.as_slice()))
}

/// Lowers any request to `(kind, method, path, body)`.
fn lower_any(inner: &AnyOutgoingRequest) -> (r: Result<(String, String, String, Vec<u8>), BindingError>)
    ensures
        match gateway_spec(Seq::empty(), *inner) {
            Ok(g) => r matches Ok(t) && t.0@ == g.kind && t.1@ == g.method && t.2@ == g.path && t.3@ == g.body,
            Err(e) => r matches Err(x) && x@ == e,
        },
{
    let (kind, form) = match inner {
        AnyOutgoingRequest::KeysUpload(f) => (RequestKind::KeysUpload, f),
        AnyOutgoingRequest::KeysQuery(f) => (RequestKind::KeysQuery, f),
        AnyOutgoingRequest::KeysClaim(f) => (RequestKind::KeysClaim, f),
        AnyOutgoingRequest::SignatureUpload(f) => (RequestKind::SignatureUpload, f),
        AnyOutgoingRequest::KeysBackup(f) => (RequestKind::KeysBackup, f),
        AnyOutgoingRequest::ToDevice(t) => {
            let (method, path, body) = to_device_parts(t);
            return Ok((RequestKind::ToDevice.tag(), method, path, body));
        },
        AnyOutgoingRequest::RoomMessage(m) => {
            let (method, path, body) = room_message_parts(m);
            return Ok((RequestKind::RoomMessage.tag(), method, path, body));
        },
    };
    match lower(form) {
        Ok(l) => Ok(with_kind(kind, l)),
        Err(e) => Err(e),
    }
}

/// Lowers one outgoing request to the gateway frame that carries it.
pub fn to_gateway_req(req: &OutgoingRequest) -> (r: Result<GatewayReq, BindingError>)
    ensures
        gateway_result_view(r) == gateway_spec(req.request_id@, req.request),
{
    let id = string_copy(&req.request_id);
    match lower_any(&req.request) {
        Ok((kind, method, path, body)) => Ok(GatewayReq { id, kind, method, path, body }),
        Err(e) => Err(e),
    }
}

/// Lowers the `/keys/claim` request that a missing-sessions query produces (it
/// comes with its own transaction id).
pub fn keys_claim_to_gateway(txn: &str, req: &Result<HttpRequestParts, String>) -> (r: Result<
    GatewayReq,
    BindingError,
>)
    ensures
        gateway_result_view(r) == gateway_spec(txn@, AnyOutgoingRequest::KeysClaim(*req)),
{
    match lower(req) {
        Ok(l) => Ok(
            GatewayReq {
                id: String::from_str(txn),
                kind: RequestKind::KeysClaim.tag(),
                method: l.method,
                path: l.path,
                body: l.body,
            },
        ),
        Err(e) => Err(e),
    }
}

/// The frame of a to-device request, with the given id.
fn to_device_frame(r: &ToDeviceRequest) -> (g: GatewayReq)
    ensures
        gateway_spec(r.txn_id@, AnyOutgoingRequest::ToDevice(*r)) == Ok::<GatewayReqView, ErrorView>(g@),
{
    let (method, path, body) = to_device_parts(r);
    GatewayReq { id: string_copy(&r.txn_id), kind: RequestKind::ToDevice.tag(), method, path, body }
}

/// Lowers a to-device request that sharing a room key produces; its id is the
/// request's transaction id. It never fails.
pub fn to_device_to_gateway(r: &ToDeviceRequest) -> (g: Result<GatewayReq, BindingError>)
    ensures
        gateway_result_view(g) == gateway_spec(r.txn_id@, AnyOutgoingRequest::ToDevice(*r)),
        g is Ok,
{
    Ok(to_device_frame(r))
}

/// Lowers every outgoing request, in order, stopping at the first that fails.
pub fn to_gateway_reqs(reqs: &Vec<OutgoingRequest>) -> (r: Result<Vec<GatewayReq>, BindingError>)
    ensures
        r is Ok <==> forall|i: int|
            0 <= i < reqs@.len() ==> (#[trigger] gateway_spec(reqs@[i].request_id@, reqs@[i].request)) is Ok,
        r matches Ok(v) ==> v@.len() == reqs@.len() && forall|i: int|
            0 <= i < reqs@.len() ==> gateway_spec(reqs@[i].request_id@, reqs@[i].request) == Ok::<
                GatewayReqView,
                ErrorView,
            >(#[trigger] v@[i]@),
        r matches Err(e) ==> exists|i: int|
            0 <= i < reqs@.len() && gateway_spec(reqs@[i].request_id@, reqs@[i].request) == Err::<
                GatewayReqView,
                ErrorView,
            >(e@) && forall|j: int|
                0 <= j < i ==> (#[trigger] gateway_spec(reqs@[j].request_id@, reqs@[j].request)) is Ok,
{
    let mut out: Vec<GatewayReq> = Vec::new();
    let mut i: usize = 0;
    while i < reqs.len()
        invariant
            i <= reqs@.len(),
            out@.len() == i,
            forall|j: int|
                0 <= j < i ==> gateway_spec(reqs@[j].request_id@, reqs@[j].request) == Ok::<
                    GatewayReqView,
                    ErrorView,
                >(#[trigger] out@[j]@),
            forall|j: int|
                0 <= j < i ==> (#[trigger] gateway_spec(reqs@[j].request_id@, reqs@[j].request)) is Ok,
        decreases reqs@.len() - i,
    {
        match to_gateway_req(&reqs[i]) {
            Ok(g) => out.push(g),
            Err(e) => {
                assert(gateway_spec(reqs@[i as int].request_id@, reqs@[i as int].request) == Err::<
                    GatewayReqView,
                    ErrorView,
                >(e@));
                return Err(e);
            },
        }
        i = i + 1;
    }
    Ok(out)
}

/// Lowers every to-device request that sharing a room key produces, in order.
pub fn to_device_to_gateway_all(reqs: &Vec<ToDeviceRequest>) -> (v: Vec<GatewayReq>)
    ensures
        v@.len() == reqs@.len(),
        forall|i: int|
            0 <= i < reqs@.len() ==> gateway_spec(reqs@[i].txn_id@, AnyOutgoingRequest::ToDevice(reqs@[i]))
                == Ok::<GatewayReqView, ErrorView>(#[trigger] v@[i]@),
{
    let mut out: Vec<GatewayReq> = Vec::new();
    let mut i: usize = 0;
    while i < reqs.len()
        invariant
            i <= reqs@.len(),
            out@.len() == i,
            forall|j: int|
                0 <= j < i ==> gateway_spec(reqs@[j].txn_id@, AnyOutgoingRequest::ToDevice(reqs@[j]))
                    == Ok::<GatewayReqView, ErrorView>(#[trigger] out@[j]@),
        decreases reqs@.len() - i,
    {
        out.push(to_device_frame(&reqs[i]));
        i = i + 1;
    }
    out
}

/// http's status code type.
#[verifier::external_type_specification]
#[verifier::external_body]
pub struct ExStatusCode(http::StatusCode);

/// http's error for a number that is no status code.
#[verifier::external_type_specification]
#[verifier::external_body]
pub struct ExInvalidStatusCode(http::status::InvalidStatusCode);

/// `http::StatusCode::from_u16`, which the response builder applies to the
/// status it is given. Trusted: as http's source shows, it accepts exactly the
/// numbers from 100 to 999.
#[verifier::external_body]
fn status_code(status: u16) -> (r: Result<http::StatusCode, http::status::InvalidStatusCode>)
    ensures
        r is Ok <==> 100 <= status <= 999,
{
    http::StatusCode::from_u16(status)
}

/// The `Display` text of http's status error. Trusted: http writes the fixed
/// text `invalid status code` (and its `http::Error` shows the same text).
#[verifier::external_body]
fn status_error_text(e: &http::status::InvalidStatusCode) -> (s: String)
    ensures
        s@ == "invalid status code"@,
{
    e.to_string()
}

/// A gateway response in the form the ruma response parsers take: a status
/// code and the JSON body bytes.
#[derive(Clone, Debug, PartialEq, Eq)]
pub struct HttpResponse {
    pub status: u16,
    pub body: Vec<u8>,
}

pub struct HttpResponseView {
    pub status: u16,
    pub body: Seq<u8>,
}

impl View for HttpResponse {
    type V = HttpResponseView;

    open spec fn view(&self) -> HttpResponseView {
        HttpResponseView { status: self.status, body: self.body@ }
    }
}

/// What a gateway answer becomes: a JSON error where the body does not parse,
/// an HTTP-form error where the status is no status code, else the response
/// with the status and the body's JSON value written back compactly.
pub open spec fn response_spec(status: u16, body: Seq<u8>) -> Result<HttpResponseView, ErrorView> {
    match json_normal_form(body) {
        None => Err(ErrorView::Json),
        Some(n) => if !(100 <= status <= 999) {
            Err(ErrorView::HttpForm("invalid status code"@))
        } else {
            Ok(HttpResponseView { status, body: n })
        },
    }
}

pub open spec fn response_result_view(r: Result<HttpResponse, BindingError>) -> Result<HttpResponseView, ErrorView> {
    match r {
        Ok(x) => Ok(x@),
        Err(e) => Err(e@),
    }
}

/// Builds the HTTP response that the ruma response parsers expect from the
/// gateway's status and JSON body: the body is read as a JSON value and written
/// back compactly, the status must be a valid HTTP status code (100 to 999);
/// checked in that order.
pub fn http_response(status: u16, body: &[u8]) -> (r: Result<HttpResponse, BindingError>)
    ensures
        response_result_view(r) == response_spec(status, body@),
{
    let json = match normalize_json(body) {
        Ok(n) => n,
        Err(e) => {
            return Err(BindingError::Json(e));
        },
    };
    match status_code(status) {
        Ok(_) => Ok(HttpResponse { status, body: json }),
        Err(e) => Err(BindingError::HttpForm(status_error_text(&e))),
    }
}

/// Distinct kinds have distinct tags, so the tag a response echoes back names
/// exactly one kind of request.
pub proof fn lemma_kind_tags_distinct(a: RequestKind, b: RequestKind)
    ensures
        kind_tag(a) == kind_tag(b) ==> a == b,
{
    reveal_strlit("keys_upload");
    reveal_strlit("keys_query");
    reveal_strlit("keys_claim");
    reveal_strlit("signature_upload");
    reveal_strlit("keys_backup");
    reveal_strlit("to_device");
    reveal_strlit("room_message");
    if kind_tag(a) == kind_tag(b) && a != b {
        let ta = kind_tag(a);
        let tb = kind_tag(b);
        assert(ta.len() == tb.len());
        assert(ta[5] == tb[5]);
        assert(ta[0] == tb[0]);
    }
}

/// The requests the library frames itself (to-device messages and room
/// messages) always lower to a `PUT` under the client API's `/_matrix/client/v3/`
/// prefix, whatever their ids.
pub proof fn lemma_built_requests_put_under_client_api(id: Seq<char>, r: AnyOutgoingRequest)
    requires
        r is ToDevice || r is RoomMessage,
    ensures
        gateway_spec(id, r) matches Ok(g) && g.method == "PUT"@ && g.path.len() >= "/_matrix/client/v3/"@.len()
            && g.path.subrange(0, "/_matrix/client/v3/"@.len() as int) == "/_matrix/client/v3/"@
            && g.id == id && g.kind == kind_tag(kind_of(r)),
{
    reveal_strlit("/_matrix/client/v3/");
    reveal_strlit("/_matrix/client/v3/sendToDevice/");
    reveal_strlit("/_matrix/client/v3/rooms/");
    let p = "/_matrix/client/v3/"@;
    match r {
        AnyOutgoingRequest::ToDevice(t) => {
            let path = to_device_path(t);
            assert(path.subrange(0, p.len() as int) =~= p);
        },
        AnyOutgoingRequest::RoomMessage(m) => {
            let path = room_message_path(m);
            assert(path.subrange(0, p.len() as int) =~= p);
        },
        _ => {},
    }
}

/// The HTTP form of a request that ruma builds, where it is one.
pub open spec fn ruma_form(r: AnyOutgoingRequest) -> Option<Result<HttpRequestParts, String>> {
    match r {
        AnyOutgoingRequest::KeysUpload(f) => Some(f),
        AnyOutgoingRequest::KeysQuery(f) => Some(f),
        AnyOutgoingRequest::KeysClaim(f) => Some(f),
        AnyOutgoingRequest::SignatureUpload(f) => Some(f),
        AnyOutgoingRequest::KeysBackup(f) => Some(f),
        _ => None,
    }
}

/// A request that ruma builds goes out as its HTTP form says, whatever its
/// kind: the frame carries the request's id, the form's own method, the form's
/// path (followed by `?` and the query where there is one), and the JSON value
/// of the form's body written back compactly (`{}` for an empty body). Its
/// lowering fails only where the form could not be built (with ruma's message)
/// or the body is not JSON.
pub proof fn lemma_ruma_frames_follow_their_form(id: Seq<char>, r: AnyOutgoingRequest)
    requires
        ruma_form(r) is Some,
    ensures
        ruma_form(r) matches Some(Err(m)) ==> gateway_spec(id, r) == Err::<GatewayReqView, ErrorView>(
            ErrorView::HttpForm(m@),
        ),
        ruma_form(r) matches Some(Ok(p)) ==> {
            &&& p.body@.len() > 0 && json_normal_form(p.body@) is None ==> gateway_spec(id, r) == Err::<
                GatewayReqView,
                ErrorView,
            >(ErrorView::Json)
            &&& (p.body@.len() == 0 || json_normal_form(p.body@) is Some) ==> gateway_spec(id, r) is Ok
            &&& gateway_spec(id, r) matches Ok(g) ==> {
                &&& g.id == id
                &&& g.method == p.method@
                &&& p.query is None ==> g.path == p.path@
                &&& p.query matches Some(q) ==> g.path == p.path@ + "?"@ + q@
                &&& p.body@.len() == 0 ==> g.body == seq![0x7bu8, 0x7du8]
                &&& p.body@.len() > 0 ==> Some(g.body) == json_normal_form(p.body@)
            }
        },
{
}

/// A to-device request goes out as `PUT /_matrix/client/v3/sendToDevice/{event
/// type}/{transaction id}` with the body `{"messages":` followed by the
/// request's messages text exactly as given, then `}`; it never fails.
pub proof fn lemma_to_device_frames_carry_their_messages(id: Seq<char>, r: ToDeviceRequest)
    ensures
        gateway_spec(id, AnyOutgoingRequest::ToDevice(r)) matches Ok(g) && {
            &&& g.id == id
            &&& g.kind == "to_device"@
            &&& g.method == "PUT"@
            &&& g.path == "/_matrix/client/v3/sendToDevice/"@ + r.event_type@ + "/"@ + r.txn_id@
            &&& g.body.len() == r.messages@.len() + 13
            &&& g.body.subrange(0, 12) == seq![0x7bu8, 0x22u8, 0x6du8, 0x65u8, 0x73u8, 0x73u8, 0x61u8, 0x67u8, 0x65u8, 0x73u8, 0x22u8, 0x3au8]
            &&& g.body.subrange(12, 12 + r.messages@.len() as int) == r.messages@
            &&& g.body[12 + r.messages@.len() as int] == 0x7du8
        },
{
    let g = gateway_spec(id, AnyOutgoingRequest::ToDevice(r));
    let b = messages_object(r.messages@);
    assert(b.subrange(0, 12) =~= messages_prefix());
    assert(b.subrange(12, 12 + r.messages@.len() as int) =~= r.messages@);
}

/// A room message goes out as `PUT /_matrix/client/v3/rooms/{room id}/send/{event
/// type}/{transaction id}` with the content text exactly as given as its body; it
/// never fails.
pub proof fn lemma_room_message_frames_carry_their_content(id: Seq<char>, m: RoomMessageRequest)
    ensures
        gateway_spec(id, AnyOutgoingRequest::RoomMessage(m)) matches Ok(g) && {
            &&& g.id == id
            &&& g.kind == "room_message"@
            &&& g.method == "PUT"@
            &&& g.path == "/_matrix/client/v3/rooms/"@ + m.room_id@ + "/send/"@ + m.event_type@ + "/"@ + m.txn_id@
            &&& g.body == m.content@
        },
{
}

} // verus!
