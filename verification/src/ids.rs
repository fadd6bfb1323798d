//! Matrix user and room identifiers, parsed by ruma.

use vstd::prelude::*;

use crate::errors::BindingError;
pub use crate::values::{user_id_accepted, MatrixRoomId, MatrixUserId};
use crate::values::{parse_room_id, parse_user_id};

verus! {

/// An owned, validated Matrix user ID (`@localpart:server`).
#[verifier::external_type_specification]
#[verifier::external_body]
pub struct ExOwnedUserId(ruma::OwnedUserId);

/// An owned, validated Matrix room ID (`!opaque:server`).
#[verifier::external_type_specification]
#[verifier::external_body]
pub struct ExOwnedRoomId(ruma::OwnedRoomId);

/// ruma's identifier parse error.
#[verifier::external_type_specification]
#[verifier::external_body]
pub struct ExIdParseError(ruma::IdParseError);

/// The `Display` text of ruma's identifier error. Nothing is stated of it.
#[verifier::external_body]
pub(crate) fn id_error_text(e: &ruma::IdParseError) -> String {
    e.to_string()
}

/// Parses one user ID; a refusal becomes `BindingError::Id` with ruma's reason.
pub fn user_id(s: &str) -> (r: Result<MatrixUserId, BindingError>)
    ensures
        r is Ok <==> user_id_accepted(s@),
        r matches Ok(u) ==> u@ == s@,
        r is Ok ==> s@.len() > 0 && s@[0] == '@' && s@.contains(':'),
        r matches Err(e) ==> e is Id,
{
    match parse_user_id(s) {
        Ok(u) => Ok(u),
        Err(e) => Err(BindingError::Id(id_error_text(&e))),
    }
}

/// Parses every user ID of the list, in order, stopping at the first refusal.
pub fn user_ids(list: &Vec<String>) -> (r: Result<Vec<MatrixUserId>, BindingError>)
    ensures
        r is Ok <==> (forall|i: int| 0 <= i < list@.len() ==> user_id_accepted(#[trigger] list@[i]@)),
        r matches Ok(v) ==> v@.len() == list@.len() && forall|i: int|
            0 <= i < list@.len() ==> (#[trigger] v@[i])@ == list@[i]@,
        r matches Err(e) ==> e is Id,
{
    let mut out: Vec<MatrixUserId> = Vec::new();
    let mut i: usize = 0;
    while i < list.len()
        invariant
            i <= list@.len(),
            out@.len() == i,
            forall|j: int| 0 <= j < i ==> user_id_accepted(#[trigger] list@[j]@),
            forall|j: int| 0 <= j < i ==> (#[trigger] out@[j])@ == list@[j]@,
        decreases list@.len() - i,
    {
        match user_id(list[i].as_str()) {
            Ok(u) => out.push(u),
            Err(e) => {
                return Err(e);
            },
        }
        i = i + 1;
    }
    Ok(out)
}

/// Parses one room ID; a refusal becomes `BindingError::Id` with ruma's reason.
pub fn room_id(s: &str) -> (r: Result<MatrixRoomId, BindingError>)
    ensures
        r is Ok <==> (s@.len() > 0 && s@[0] == '!'),
        r matches Ok(id) ==> id@ == s@,
        r matches Err(e) ==> e is Id,
{
    match parse_room_id(s) {
        Ok(id) => Ok(id),
        Err(e) => Err(BindingError::Id(id_error_text(&e))),
    }
}

} // verus!
