//! The decisions around the crypto machine's calls.
//!
//! The machine itself (its store, its async operations) lives with the program
//! that embeds this library. What happens before and after each call is decided
//! here: which inputs a sync frame gives the machine, which response type a
//! gateway answer is re-typed into, and what a room event call is handed.

use vstd::prelude::*;

use crate::errors::{BindingError, ErrorView};
use crate::ids::{room_id, user_ids, user_id_accepted, MatrixRoomId, MatrixUserId};
pub use crate::values::{json_space, raw_json_text, unpadded, RawJson};
use crate::values::raw_from_json_string;
use crate::json::{text_lt, json_normal_form, keys_ascending, json_string_array, json_u64_object, pairs_view, parse_string_array, parse_u64_object, strings_view};
use crate::responses::{response_accepted, typed_kind, typed_response, typed_spec, TypedResponse};
use crate::requests::{
    gateway_spec, http_response, kind_of, kind_tag, lemma_kind_tags_distinct, response_spec, AnyOutgoingRequest,
    HttpResponse, HttpResponseView, RequestKind,
};

verus! {

/// ruma's raw JSON wrapper, typed by what the JSON is meant to hold.
#[verifier::external_type_specification]
#[verifier::external_body]
#[verifier::reject_recursive_types(T)]
pub struct ExRaw<T>(ruma::serde::Raw<T>);

/// ruma's to-device event enum.
#[verifier::external_type_specification]
#[verifier::external_body]
pub struct ExAnyToDeviceEvent(ruma::events::AnyToDeviceEvent);

/// The JSON texts of the events in `text`, in order, where
/// `serde_json::from_slice::<Vec<Raw<AnyToDeviceEvent>>>` accepts it; else `None`.
pub uninterp spec fn json_raw_event_texts(text: Seq<u8>) -> Option<Seq<Seq<char>>>;

/// `serde_json::from_slice::<Vec<Raw<AnyToDeviceEvent>>>`, each raw event taken
/// out as its JSON text (`Raw::json().get()`). Trusted: the outcome and the texts
/// are the name applied to the text; and each text, being the exact text of one
/// JSON value that serde_json recorded (without surrounding whitespace), is
/// accepted by `Raw::from_json_string` and kept by it as it is.
#[verifier::external_body]
fn parse_to_device_events(text: &[u8]) -> (r: Result<Vec<String>, serde_json::Error>)
    ensures
        r is Ok <==> json_raw_event_texts(text@) is Some,
        r matches Ok(v) ==> strings_view(v@) == json_raw_event_texts(text@).unwrap(),
        r matches Ok(v) ==> forall|i: int|
            0 <= i < v@.len() ==> raw_json_text(#[trigger] v@[i]@) == Some(v@[i]@),
{
    match serde_json::from_slice::<Vec<ruma::serde::Raw<ruma::events::AnyToDeviceEvent>>>(text) {
        Ok(v) => Ok(v.iter().map(|e| e.json().get().to_string()).collect()),
        Err(e) => Err(e),
    }
}

/// The `changed` and `left` user IDs of a sync `device_lists` object, as text
/// and in order, where `serde_json::from_slice::<DeviceLists>` accepts `text`;
/// else `None`.
pub uninterp spec fn json_device_lists(text: Seq<u8>) -> Option<(Seq<Seq<char>>, Seq<Seq<char>>)>;

/// `serde_json::from_slice::<DeviceLists>`, its two lists taken out as the
/// identifiers' texts. Trusted: the outcome and the texts are the name applied
/// to the text; and every identifier in them was read by ruma's `Deserialize` for
/// `OwnedUserId`, which calls `UserId::parse`, so `UserId::parse` accepts it.
#[verifier::external_body]
fn parse_device_lists(text: &[u8]) -> (r: Result<(Vec<String>, Vec<String>), serde_json::Error>)
    ensures
        r is Ok <==> json_device_lists(text@) is Some,
        r matches Ok(l) ==> (strings_view(l.0@), strings_view(l.1@)) == json_device_lists(text@).unwrap(),
        r matches Ok(l) ==> forall|i: int| 0 <= i < l.0@.len() ==> user_id_accepted(#[trigger] l.0@[i]@),
        r matches Ok(l) ==> forall|i: int| 0 <= i < l.1@.len() ==> user_id_accepted(#[trigger] l.1@[i]@),
{
    match serde_json::from_slice::<ruma::api::client::sync::sync_events::DeviceLists>(text) {
        Ok(l) => Ok((
            l.changed.iter().map(|u| u.as_str().to_string()).collect(),
            l.left.iter().map(|u| u.as_str().to_string()).collect(),
        )),
        Err(e) => Err(e),
    }
}

/// The texts of a list of raw values.
pub open spec fn raw_texts<T>(v: Seq<RawJson<T>>) -> Seq<Seq<char>> {
    v.map_values(|r: RawJson<T>| r@)
}

/// The texts of a list of user IDs.
pub open spec fn user_id_texts(v: Seq<MatrixUserId>) -> Seq<Seq<char>> {
    v.map_values(|u: MatrixUserId| u@)
}

/// The largest integer that JSON (and so Matrix) can carry exactly: 2^53 - 1.
pub const MAX_SAFE_UINT: u64 = 0x001F_FFFF_FFFF_FFFFu64;

/// Whether `ruma::UInt::try_from(v)` succeeds. Trusted: js_int's source accepts
/// exactly the values up to `MAX_SAFE_UINT`.
#[verifier::external_body]
fn js_uint_fits(v: u64) -> (r: bool)
    ensures
        r == (v <= MAX_SAFE_UINT),
{
    ruma::UInt::try_from(v).is_ok()
}

/// The one-time-key counts that can be handed on: those whose count fits a
/// Matrix integer, in order.
pub open spec fn safe_counts(s: Seq<(Seq<char>, u64)>) -> Seq<(Seq<char>, u64)>
    decreases s.len(),
{
    if s.len() == 0 {
        Seq::empty()
    } else {
        let rest = safe_counts(s.drop_last());
        if s.last().1 <= MAX_SAFE_UINT {
            rest.push(s.last())
        } else {
            rest
        }
    }
}

/// What the one-time-key counts of a sync frame (`{"signed_curve25519": 50}`)
/// become.
pub open spec fn counts_spec(text: Seq<u8>) -> Result<Seq<(Seq<char>, u64)>, ErrorView> {
    match json_u64_object(text) {
        Some(entries) => Ok(safe_counts(entries)),
        None => Err(ErrorView::Json),
    }
}

pub open spec fn counts_result_view(r: Result<Vec<(String, u64)>, BindingError>) -> Result<Seq<(Seq<char>, u64)>, ErrorView> {
    match r {
        Ok(v) => Ok(pairs_view(v@)),
        Err(e) => Err(e@),
    }
}

/// Parses the one-time-key counts of a sync frame, a JSON object from key
/// algorithm to count, and drops each count too large for a Matrix integer.
pub fn one_time_key_counts(text: &[u8]) -> (r: Result<Vec<(String, u64)>, BindingError>)
    ensures
        counts_result_view(r) == counts_spec(text@),
        r matches Ok(v) ==> keys_ascending(pairs_view(v@)),
{
    let parsed = match parse_u64_object(text) {
        Ok(p) => p,
        Err(e) => {
            return Err(BindingError::Json(e));
        },
    };
    let ghost entries = pairs_view(parsed@);
    let mut out: Vec<(String, u64)> = Vec::new();
    let mut i: usize = 0;
    while i < parsed.len()
        invariant
            i <= parsed@.len(),
            entries == pairs_view(parsed@),
            pairs_view(out@) == safe_counts(entries.take(i as int)),
        decreases parsed@.len() - i,
    {
        let count = parsed[i].1;
        let ghost before = out@;
        assert(entries.take(i + 1).drop_last() =~= entries.take(i as int));
        if js_uint_fits(count) {
            let name = String::from_str(parsed[i].0.as_str());
            out.push((name, count));
            assert(pairs_view(out@) =~= pairs_view(before).push(entries[i as int]));
        }
        i = i + 1;
    }
    assert(entries.take(parsed@.len() as int) =~= entries);
    proof {
        lemma_safe_counts_ascending(entries);
    }
    Ok(out)
}

/// Parses the optional list of unused fallback-key algorithms.
pub fn fallback_key_algorithms(text: Option<&[u8]>) -> (r: Result<Option<Vec<String>>, BindingError>)
    ensures
        text is None ==> r matches Ok(None),
        text matches Some(t) ==> match json_string_array(t@) {
            Some(names) => r matches Ok(Some(v)) && strings_view(v@) == names,
            None => r matches Err(e) && e@ == ErrorView::Json,
        },
{
    match text {
        None => Ok(None),
        Some(t) => match parse_string_array(t) {
            Ok(v) => Ok(Some(v)),
            Err(e) => Err(BindingError::Json(e)),
        },
    }
}

/// What a sync frame gives the crypto machine.
pub struct SyncInputs {
    /// The to-device events, as raw JSON, in the order the frame lists them.
    pub to_device_events: Vec<RawJson<ruma::events::AnyToDeviceEvent>>,
    /// The users whose devices changed.
    pub changed_devices: Vec<MatrixUserId>,
    /// The users who no longer share an encrypted room.
    pub left_devices: Vec<MatrixUserId>,
    /// Key algorithm and count, each count fitting a Matrix integer.
    pub one_time_key_counts: Vec<(String, u64)>,
    pub unused_fallback_keys: Option<Vec<String>>,
}

/// Wraps each event text as ruma's raw JSON, in order.
fn raw_events(texts: &Vec<String>) -> (r: Result<Vec<RawJson<ruma::events::AnyToDeviceEvent>>, BindingError>)
    requires
        forall|i: int| 0 <= i < texts@.len() ==> raw_json_text(#[trigger] texts@[i]@) == Some(texts@[i]@),
    ensures
        r matches Ok(v) && raw_texts(v@) == strings_view(texts@),
{
    let mut out: Vec<RawJson<ruma::events::AnyToDeviceEvent>> = Vec::new();
    let mut i: usize = 0;
    while i < texts.len()
        invariant
            i <= texts@.len(),
            forall|j: int| 0 <= j < texts@.len() ==> raw_json_text(#[trigger] texts@[j]@) == Some(texts@[j]@),
            raw_texts(out@) == strings_view(texts@).take(i as int),
        decreases texts@.len() - i,
    {
        let ghost before = out@;
        match raw_from_json_string(String::from_str(texts[i].as_str())) {
            Ok(raw) => {
                out.push(raw);
                assert(raw_texts(out@) =~= raw_texts(before).push(texts@[i as int]@));
                assert(strings_view(texts@).take(i + 1) =~= strings_view(texts@).take(i as int).push(
                    texts@[i as int]@,
                ));
            },
            Err(e) => {
                return Err(BindingError::Json(e));
            },
        }
        i = i + 1;
    }
    assert(strings_view(texts@).take(texts@.len() as int) =~= strings_view(texts@));
    Ok(out)
}

/// Turns each text, all accepted by ruma, into a user ID, in order.
fn accepted_user_ids(texts: &Vec<String>) -> (r: Vec<MatrixUserId>)
    requires
        forall|i: int| 0 <= i < texts@.len() ==> user_id_accepted(#[trigger] texts@[i]@),
    ensures
        user_id_texts(r@) == strings_view(texts@),
{
    match user_ids(texts) {
        Ok(v) => {
            assert(user_id_texts(v@) =~= strings_view(texts@));
            v
        },
        Err(_) => Vec::new(),
    }
}

/// Checks and parses everything a sync frame carries for the crypto layer, in
/// the order the frame's parts are given: the to-device events, the changed
/// device lists, the one-time-key counts, the unused fallback-key algorithms.
/// Any part that does not parse is a JSON error.
pub fn sync_inputs(
    to_device_events: &[u8],
    changed_devices: &[u8],
    one_time_key_counts_json: &[u8],
    unused_fallback_keys: Option<&[u8]>,
) -> (r: Result<SyncInputs, BindingError>)
    ensures
        r is Ok <==> {
            &&& json_raw_event_texts(to_device_events@) is Some
            &&& json_device_lists(changed_devices@) is Some
            &&& json_u64_object(one_time_key_counts_json@) is Some
            &&& (unused_fallback_keys matches Some(t) ==> json_string_array(t@) is Some)
        },
        r matches Err(e) ==> e@ == ErrorView::Json,
        r matches Ok(s) ==> {
            &&& raw_texts(s.to_device_events@) == json_raw_event_texts(to_device_events@).unwrap()
            &&& user_id_texts(s.changed_devices@) == json_device_lists(changed_devices@).unwrap().0
            &&& user_id_texts(s.left_devices@) == json_device_lists(changed_devices@).unwrap().1
            &&& Ok::<Seq<(Seq<char>, u64)>, ErrorView>(pairs_view(s.one_time_key_counts@)) == counts_spec(
                one_time_key_counts_json@,
            )
            &&& keys_ascending(pairs_view(s.one_time_key_counts@))
            &&& unused_fallback_keys is None ==> s.unused_fallback_keys is None
            &&& unused_fallback_keys matches Some(t) ==> (s.unused_fallback_keys matches Some(v)
                && Some(strings_view(v@)) == json_string_array(t@))
        },
{
    let texts = match parse_to_device_events(to_device_events) {
        Ok(v) => v,
        Err(e) => {
            return Err(BindingError::Json(e));
        },
    };
    let events = match raw_events(&texts) {
        Ok(v) => v,
        Err(e) => {
            return Err(e);
        },
    };
    let (changed, left) = match parse_device_lists(changed_devices) {
        Ok(l) => l,
        Err(e) => {
            return Err(BindingError::Json(e));
        },
    };
    let changed_ids = accepted_user_ids(&changed);
    let left_ids = accepted_user_ids(&left);
    let counts = match one_time_key_counts(one_time_key_counts_json) {
        Ok(c) => c,
        Err(e) => {
            return Err(e);
        },
    };
    let fallback = match fallback_key_algorithms(unused_fallback_keys) {
        Ok(f) => f,
        Err(e) => {
            return Err(e);
        },
    };
    Ok(
        SyncInputs {
            to_device_events: events,
            changed_devices: changed_ids,
            left_devices: left_ids,
            one_time_key_counts: counts,
            unused_fallback_keys: fallback,
        },
    )
}

/// The response type a gateway answer's echoed `kind` tag selects: the kind
/// whose tag it is, for every kind of request the library frames.
pub open spec fn response_kind_of(tag: Seq<char>) -> Option<RequestKind> {
    if tag == kind_tag(RequestKind::KeysUpload) {
        Some(RequestKind::KeysUpload)
    } else if tag == kind_tag(RequestKind::KeysQuery) {
        Some(RequestKind::KeysQuery)
    } else if tag == kind_tag(RequestKind::KeysClaim) {
        Some(RequestKind::KeysClaim)
    } else if tag == kind_tag(RequestKind::SignatureUpload) {
        Some(RequestKind::SignatureUpload)
    } else if tag == kind_tag(RequestKind::ToDevice) {
        Some(RequestKind::ToDevice)
    } else if tag == kind_tag(RequestKind::KeysBackup) {
        Some(RequestKind::KeysBackup)
    } else if tag == kind_tag(RequestKind::RoomMessage) {
        Some(RequestKind::RoomMessage)
    } else {
        None
    }
}

/// Selects the response type for an echoed `kind` tag; any other tag is an
/// unknown request type.
pub fn response_kind(kind: &str) -> (r: Result<RequestKind, BindingError>)
    ensures
        match response_kind_of(kind@) {
            Some(k) => r matches Ok(x) && x == k,
            None => r matches Err(e) && e@ == ErrorView::UnknownRequestType(kind@),
        },
{
    let k = String::from_str(kind);
    if k == RequestKind::KeysUpload.tag() {
        Ok(RequestKind::KeysUpload)
    } else if k == RequestKind::KeysQuery.tag() {
        Ok(RequestKind::KeysQuery)
    } else if k == RequestKind::KeysClaim.tag() {
        Ok(RequestKind::KeysClaim)
    } else if k == RequestKind::SignatureUpload.tag() {
        Ok(RequestKind::SignatureUpload)
    } else if k == RequestKind::ToDevice.tag() {
        Ok(RequestKind::ToDevice)
    } else if k == RequestKind::KeysBackup.tag() {
        Ok(RequestKind::KeysBackup)
    } else if k == RequestKind::RoomMessage.tag() {
        Ok(RequestKind::RoomMessage)
    } else {
        Err(BindingError::UnknownRequestType(k))
    }
}

/// A gateway answer, read as the typed ruma response of the request it
/// answers, ready to be handed to the machine.
#[derive(Debug)]
pub struct SentResponse {
    pub txn_id: String,
    pub kind: RequestKind,
    /// The HTTP response that ruma read.
    pub response: HttpResponse,
    /// What ruma read it as.
    pub typed: TypedResponse,
}

pub struct SentResponseView {
    pub txn_id: Seq<char>,
    pub kind: RequestKind,
    pub response: HttpResponseView,
}

/// What a gateway answer becomes before ruma reads it: first its body and
/// status are checked (as `http_response` does), then its `kind` tag selects
/// the response type.
pub open spec fn sent_spec(request_id: Seq<char>, kind: Seq<char>, status: u16, body: Seq<u8>) -> Result<
    SentResponseView,
    ErrorView,
> {
    match response_spec(status, body) {
        Err(e) => Err(e),
        Ok(resp) => match response_kind_of(kind) {
            None => Err(ErrorView::UnknownRequestType(kind)),
            Some(k) => Ok(SentResponseView { txn_id: request_id, kind: k, response: resp }),
        },
    }
}

pub open spec fn sent_result_view(r: Result<SentResponse, BindingError>) -> Result<SentResponseView, ErrorView> {
    match r {
        Ok(s) => Ok(SentResponseView { txn_id: s.txn_id@, kind: s.kind, response: s.response@ }),
        Err(e) => Err(e@),
    }
}

/// Prepares the gateway's answer to a previously drained request: the JSON
/// body and the status become an HTTP response, the echoed `kind` selects the
/// ruma response type, and ruma reads the response as that type (its refusal is
/// an HTTP-form error).
pub fn sent_response(request_id: &str, kind: &str, status: u16, body: &[u8]) -> (r: Result<
    SentResponse,
    BindingError,
>)
    ensures
        match sent_spec(request_id@, kind@, status, body@) {
            Err(e) => r matches Err(x) && x@ == e,
            Ok(v) => if response_accepted(v.kind, status, v.response.body) {
                r matches Ok(s) && sent_result_view(r) == Ok::<SentResponseView, ErrorView>(v)
                    && typed_kind(s.typed) == v.kind && Some(s.typed) == typed_spec(
                    v.kind,
                    s.response.status,
                    s.response.body@,
                )
            } else {
                r matches Err(x) && x is HttpForm
            },
        },
        r is Ok ==> status < 400,
{
    let response = match http_response(status, body) {
        Ok(resp) => resp,
        Err(e) => {
            return Err(e);
        },
    };
    let txn_id = String::from_str(request_id);
    let k = match response_kind(kind) {
        Ok(k) => k,
        Err(e) => {
            return Err(e);
        },
    };
    match typed_response(k, response.status, response.body.as_slice()) {
        Ok(typed) => Ok(SentResponse { txn_id, kind: k, response, typed }),
        Err(m) => Err(BindingError::HttpForm(m)),
    }
}

/// Checks the two inputs of a room event call, in order: the room ID, then the
/// event (or content) JSON, kept as ruma's raw JSON of the expected type (the
/// JSON value's own text, the input without the whitespace around it).
pub fn room_event_input<T>(room: &str, json: &str) -> (r: Result<(MatrixRoomId, RawJson<T>), BindingError>)
    ensures
        r is Ok <==> (room@.len() > 0 && room@[0] == '!' && raw_json_text(json@) is Some),
        r matches Ok(p) ==> p.0@ == room@ && p.1@ == raw_json_text(json@).unwrap(),
        r matches Ok(p) ==> (unpadded(json@) ==> p.1@ == json@),
        !(room@.len() > 0 && room@[0] == '!') ==> (r matches Err(e) && e is Id),
        (room@.len() > 0 && room@[0] == '!' && raw_json_text(json@) is None) ==> (r matches Err(e)
            && e@ == ErrorView::Json),
{
    let rid = match room_id(room) {
        Ok(id) => id,
        Err(e) => {
            return Err(e);
        },
    };
    match raw_from_json_string(String::from_str(json)) {
        Ok(raw) => Ok((rid, raw)),
        Err(e) => Err(BindingError::Json(e)),
    }
}

/// The tag of every kind of request selects that same kind when a response
/// echoes it back.
pub proof fn lemma_response_kind_round_trip(k: RequestKind)
    ensures
        response_kind_of(kind_tag(k)) == Some(k),
{
    lemma_kind_tags_distinct(k, RequestKind::KeysUpload);
    lemma_kind_tags_distinct(k, RequestKind::KeysQuery);
    lemma_kind_tags_distinct(k, RequestKind::KeysClaim);
    lemma_kind_tags_distinct(k, RequestKind::SignatureUpload);
    lemma_kind_tags_distinct(k, RequestKind::ToDevice);
    lemma_kind_tags_distinct(k, RequestKind::KeysBackup);
    lemma_kind_tags_distinct(k, RequestKind::RoomMessage);
}

/// Every frame a drained request becomes carries the request's own id and one
/// of the seven kind tags, the one of the request's kind, which names that kind
/// when echoed back.
pub proof fn lemma_drained_frame_kind(id: Seq<char>, r: AnyOutgoingRequest)
    ensures
        gateway_spec(id, r) matches Ok(g) ==> g.id == id && g.kind == kind_tag(kind_of(r)) && response_kind_of(
            g.kind,
        ) == Some(kind_of(r)),
{
    lemma_response_kind_round_trip(kind_of(r));
}

/// The round trip of the loop: every gateway frame the library builds carries a
/// `kind` that, echoed back with a JSON body and a valid status, re-types the
/// answer as a response to the same kind of request, for the frame's own id.
pub proof fn lemma_frame_answer_round_trip(id: Seq<char>, r: AnyOutgoingRequest, status: u16, body: Seq<u8>)
    requires
        gateway_spec(id, r) is Ok,
        json_normal_form(body) is Some,
        100 <= status <= 999,
    ensures
        gateway_spec(id, r) matches Ok(g) && sent_spec(g.id, g.kind, status, body) == Ok::<
            SentResponseView,
            ErrorView,
        >(
            SentResponseView {
                txn_id: id,
                kind: kind_of(r),
                response: HttpResponseView { status, body: json_normal_form(body).unwrap() },
            },
        ),
{
    lemma_response_kind_round_trip(kind_of(r));
}

/// Every one-time-key count that is handed on fits a Matrix integer and is an
/// entry of the parsed object; every entry that fits is handed on.
pub proof fn lemma_safe_counts_exact(s: Seq<(Seq<char>, u64)>)
    ensures
        safe_counts(s).len() <= s.len(),
        forall|i: int| 0 <= i < safe_counts(s).len() ==> (#[trigger] safe_counts(s)[i]).1 <= MAX_SAFE_UINT
            && s.contains(safe_counts(s)[i]),
        forall|i: int| 0 <= i < s.len() && (#[trigger] s[i]).1 <= MAX_SAFE_UINT ==> safe_counts(s).contains(s[i]),
    decreases s.len(),
{
    if s.len() > 0 {
        let init = s.drop_last();
        lemma_safe_counts_exact(init);
        let rest = safe_counts(init);
        assert forall|i: int| 0 <= i < safe_counts(s).len() implies (#[trigger] safe_counts(s)[i]).1
            <= MAX_SAFE_UINT && s.contains(safe_counts(s)[i]) by {
            if i < rest.len() {
                let j = choose|j: int| 0 <= j < init.len() && init[j] == rest[i];
                assert(s[j] == rest[i]);
            } else {
                assert(s[s.len() - 1] == s.last());
            }
        }
        assert forall|i: int| 0 <= i < s.len() && (#[trigger] s[i]).1 <= MAX_SAFE_UINT implies safe_counts(
            s,
        ).contains(s[i]) by {
            if i < s.len() - 1 {
                assert(init[i] == s[i]);
                let j = choose|j: int| 0 <= j < rest.len() && rest[j] == init[i];
                assert(safe_counts(s)[j] == rest[j]);
            } else {
                assert(safe_counts(s)[safe_counts(s).len() - 1] == s.last());
            }
        }
    }
}

/// The one-time-key counts handed on keep the order of the parsed object: where
/// its names ascend, so do theirs.
pub proof fn lemma_safe_counts_ascending(s: Seq<(Seq<char>, u64)>)
    requires
        keys_ascending(s),
    ensures
        keys_ascending(safe_counts(s)),
    decreases s.len(),
{
    if s.len() > 0 {
        let init = s.drop_last();
        assert(keys_ascending(init)) by {
            assert forall|i: int, j: int| 0 <= i < j < init.len() implies text_lt(
                #[trigger] init[i].0,
                #[trigger] init[j].0,
            ) by {
                assert(init[i] == s[i] && init[j] == s[j]);
            }
        }
        lemma_safe_counts_ascending(init);
        lemma_safe_counts_exact(init);
        let rest = safe_counts(init);
        if s.last().1 <= MAX_SAFE_UINT {
            let out = safe_counts(s);
            assert(out == rest.push(s.last()));
            assert forall|i: int, j: int| 0 <= i < j < out.len() implies text_lt(
                #[trigger] out[i].0,
                #[trigger] out[j].0,
            ) by {
                if j < rest.len() {
                    assert(out[i] == rest[i] && out[j] == rest[j]);
                } else {
                    assert(out[i] == rest[i]);
                    assert(init.contains(rest[i]));
                    let k = choose|k: int| 0 <= k < init.len() && init[k] == rest[i];
                    assert(s[k] == init[k]);
                    assert(out[j] == s[s.len() - 1]);
                }
            }
        }
    }
}

} // verus!
