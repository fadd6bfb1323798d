//! The JSON parser that the boundary relies on (serde_json), behind trusted items.
//!
//! Each name below stands for what one serde_json entry point returns on a given
//! text; serde_json's grammar is not restated here.

use std::collections::BTreeMap;

use vstd::prelude::*;

verus! {

/// serde_json's error type, carried opaquely inside `BindingError::Json`.
#[verifier::external_type_specification]
#[verifier::external_body]
pub struct ExJsonError(serde_json::Error);

/// The compact text serde_json writes for the JSON value it reads from `text`
/// (`from_slice::<serde_json::Value>`, then `to_vec` of that value); `None`
/// where it refuses the text (or could not write the value back, which a
/// `Value` never causes).
pub uninterp spec fn json_normal_form(text: Seq<u8>) -> Option<Seq<u8>>;

/// Reads `text` as a `serde_json::Value` and writes the value back as compact
/// JSON. Trusted: the outcome and the bytes are the name applied to the text;
/// both steps are functions of their input alone.
#[verifier::external_body]
pub(crate) fn normalize_json(text: &[u8]) -> (r: Result<Vec<u8>, serde_json::Error>)
    ensures
        r is Ok <==> json_normal_form(text@) is Some,
        r matches Ok(v) ==> v@ == json_normal_form(text@).unwrap(),
{
    match serde_json::from_slice::<serde_json::Value>(text) {
        Ok(v) => serde_json::to_vec(&v),
        Err(e) => Err(e),
    }
}

/// The `Display` text of a serde_json error (`ToString::to_string`). Nothing is
/// stated of it: the text depends on the error's hidden position and cause.
#[verifier::external_body]
pub(crate) fn json_error_text(e: &serde_json::Error) -> String {
    e.to_string()
}

/// The entries of a JSON object whose values are all unsigned 64-bit integers, as
/// `serde_json::from_slice::<BTreeMap<String, u64>>` reads `text`: `None` where
/// it refuses the text, else the entries in the map's key order (a later
/// duplicate key replacing an earlier one).
pub uninterp spec fn json_u64_object(text: Seq<u8>) -> Option<Seq<(Seq<char>, u64)>>;

/// `a` comes before `b` in the order of Rust's `String` (byte order of the
/// UTF-8 text, which is the order of the code points).
pub open spec fn text_lt(a: Seq<char>, b: Seq<char>) -> bool {
    exists|k: int|
        #![trigger a.subrange(0, k)]
        0 <= k <= a.len() && k <= b.len() && a.subrange(0, k) == b.subrange(0, k) && ((k == a.len() && k
            < b.len()) || (k < a.len() && k < b.len() && (a[k] as u32) < (b[k] as u32)))
}

/// Every name comes strictly before the next ones: the names are sorted and
/// no name occurs twice.
pub open spec fn keys_ascending(s: Seq<(Seq<char>, u64)>) -> bool {
    forall|i: int, j: int| 0 <= i < j < s.len() ==> text_lt(#[trigger] s[i].0, #[trigger] s[j].0)
}

/// The view of a list of (name, count) pairs.
pub open spec fn pairs_view(v: Seq<(String, u64)>) -> Seq<(Seq<char>, u64)> {
    v.map_values(|p: (String, u64)| (p.0@, p.1))
}

/// `serde_json::from_slice::<BTreeMap<String, u64>>`, its entries taken out in
/// the map's order. Trusted: the result is the name applied to the text, and a
/// `BTreeMap`'s entries come out once per key in ascending key order, as std
/// documents.
#[verifier::external_body]
pub(crate) fn parse_u64_object(text: &[u8]) -> (r: Result<Vec<(String, u64)>, serde_json::Error>)
    ensures
        r is Ok <==> json_u64_object(text@) is Some,
        r matches Ok(v) ==> pairs_view(v@) == json_u64_object(text@).unwrap(),
        r matches Ok(v) ==> keys_ascending(pairs_view(v@)),
{
    match serde_json::from_slice::<BTreeMap<String, u64>>(text) {
        Ok(m) => Ok(m.into_iter().collect()),
        Err(e) => Err(e),
    }
}

/// The strings of a JSON array of strings, as
/// `serde_json::from_slice::<Vec<String>>` reads `text`; `None` where it
/// refuses the text.
pub uninterp spec fn json_string_array(text: Seq<u8>) -> Option<Seq<Seq<char>>>;

/// The view of a list of strings.
pub open spec fn strings_view(v: Seq<String>) -> Seq<Seq<char>> {
    v.map_values(|s: String| s@)
}

/// `serde_json::from_slice::<Vec<String>>`. Trusted: the result is the name
/// applied to the text.
#[verifier::external_body]
pub(crate) fn parse_string_array(text: &[u8]) -> (r: Result<Vec<String>, serde_json::Error>)
    ensures
        r is Ok <==> json_string_array(text@) is Some,
        r matches Ok(v) ==> strings_view(v@) == json_string_array(text@).unwrap(),
{
    serde_json::from_slice::<Vec<String>>(text)
}

} // verus!
