//! The values this library hands to the crypto machine that come out of ruma:
//! user IDs, room IDs and raw JSON, each with the text it holds.
//!
//! Their fields are private to this module, and only the trusted parsers here
//! build them: elsewhere a value cannot be paired with a text it does not hold.

use vstd::prelude::*;

verus! {

/// A Matrix user ID that ruma has accepted, with the text it was read from:
/// its view is that text, which is also the identifier's own text (ruma keeps
/// the text it validated, as `as_str` gives back).
pub struct MatrixUserId {
    id: ruma::OwnedUserId,
    text: Ghost<Seq<char>>,
}

impl View for MatrixUserId {
    type V = Seq<char>;

    closed spec fn view(&self) -> Seq<char> {
        self.text@
    }
}

impl MatrixUserId {
    /// The ruma identifier.
    pub fn as_ruma(&self) -> &ruma::OwnedUserId {
        &self.id
    }

    /// The ruma identifier, by value.
    pub fn into_ruma(self) -> ruma::OwnedUserId {
        self.id
    }
}

/// A Matrix room ID that ruma has accepted, with the text it was read from (its
/// view, which is also the identifier's own text).
pub struct MatrixRoomId {
    id: ruma::OwnedRoomId,
    text: Ghost<Seq<char>>,
}

impl View for MatrixRoomId {
    type V = Seq<char>;

    closed spec fn view(&self) -> Seq<char> {
        self.text@
    }
}

impl MatrixRoomId {
    /// The ruma identifier.
    pub fn as_ruma(&self) -> &ruma::OwnedRoomId {
        &self.id
    }

    /// The ruma identifier, by value.
    pub fn into_ruma(self) -> ruma::OwnedRoomId {
        self.id
    }
}

/// Whether `ruma::UserId::parse` accepts the text.
pub uninterp spec fn user_id_accepted(s: Seq<char>) -> bool;

/// `ruma::UserId::parse`. Trusted: `Ok` exactly when the name says so (the parse
/// is a function of the text alone); the identifier it returns holds the text it
/// was given (ruma's `parse` validates and then keeps `s` as it is); and, as
/// ruma-identifiers-validation's `user_id::validate` shows, only a text that
/// starts with the sigil `@` and holds a `:` is accepted. The server-name rules
/// that follow the first `:` are not restated.
#[verifier::external_body]
pub(crate) fn parse_user_id(s: &str) -> (r: Result<MatrixUserId, ruma::IdParseError>)
    ensures
        r is Ok <==> user_id_accepted(s@),
        r matches Ok(u) ==> u@ == s@,
        r is Ok ==> s@.len() > 0 && s@[0] == '@' && s@.contains(':'),
{
    match ruma::UserId::parse(s) {
        Ok(id) => Ok(MatrixUserId { id, text: Ghost(s@) }),
        Err(e) => Err(e),
    }
}

/// `ruma::RoomId::parse`. Trusted: in this build ruma carries the
/// `compat-arbitrary-length-ids` feature (matrix-sdk-crypto turns it on), so
/// `room_id::validate` only checks that the first byte is the sigil `!`; the
/// result is `Ok` exactly then, and the identifier holds the text it was given.
#[verifier::external_body]
pub(crate) fn parse_room_id(s: &str) -> (r: Result<MatrixRoomId, ruma::IdParseError>)
    ensures
        r is Ok <==> (s@.len() > 0 && s@[0] == '!'),
        r matches Ok(id) ==> id@ == s@,
{
    match ruma::RoomId::parse(s) {
        Ok(id) => Ok(MatrixRoomId { id, text: Ghost(s@) }),
        Err(e) => Err(e),
    }
}

/// What `ruma::serde::Raw::from_json_string` keeps of the text: `None` where it
/// refuses it (the text must be one JSON value, whatever the raw value's type),
/// else the JSON text the raw value holds (serde_json's `RawValue::from_string`
/// records the value without the whitespace around it).
pub uninterp spec fn raw_json_text(s: Seq<char>) -> Option<Seq<char>>;

/// The four characters JSON treats as whitespace.
pub open spec fn json_space(c: char) -> bool {
    c == ' ' || c == '\t' || c == '\n' || c == '\r'
}

/// A text that neither starts nor ends with JSON whitespace.
pub open spec fn unpadded(s: Seq<char>) -> bool {
    s.len() > 0 && !json_space(s[0]) && !json_space(s.last())
}

/// ruma's raw JSON of the expected type, with the JSON text it holds (its view).
#[verifier::reject_recursive_types(T)]
pub struct RawJson<T> {
    raw: ruma::serde::Raw<T>,
    text: Ghost<Seq<char>>,
}

impl<T> View for RawJson<T> {
    type V = Seq<char>;

    closed spec fn view(&self) -> Seq<char> {
        self.text@
    }
}

impl<T> RawJson<T> {
    /// The ruma raw value.
    pub fn as_ruma(&self) -> &ruma::serde::Raw<T> {
        &self.raw
    }

    /// The ruma raw value, by value.
    pub fn into_ruma(self) -> ruma::serde::Raw<T> {
        self.raw
    }
}

/// `ruma::serde::Raw::<T>::from_json_string`. Trusted: the outcome and the
/// text the raw value holds are the name applied to the given text; and, as
/// serde_json's `RawValue::from_string` shows, a text with no whitespace around
/// it is kept as it is (only a longer input is replaced by the recorded value).
#[verifier::external_body]
pub(crate) fn raw_from_json_string<T>(json: String) -> (r: Result<RawJson<T>, serde_json::Error>)
    ensures
        r is Ok <==> raw_json_text(json@) is Some,
        r matches Ok(x) ==> x@ == raw_json_text(json@).unwrap(),
        r is Ok && unpadded(json@) ==> raw_json_text(json@) == Some(json@),
{
    let text: Ghost<Seq<char>> = Ghost(raw_json_text(json@).unwrap());
    match ruma::serde::Raw::from_json_string(json) {
        Ok(raw) => Ok(RawJson { raw, text }),
        Err(e) => Err(e),
    }
}

} // verus!
