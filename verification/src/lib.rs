//! chat4000-pyvodozemac: the transport-agnostic core around matrix-sdk-crypto's
//! `OlmMachine`.
//!
//! The crate does no networking. The embedding program feeds it sync-derived data,
//! drains the crypto requests the machine wants made, ships each one over its own
//! gateway socket as a `{ id, kind, method, path, body }` frame, and reports the
//! gateway's answer back. This library holds the part of that loop that is pure
//! computation: checking and parsing what crosses the boundary, lowering each
//! outgoing request to its gateway frame, and re-typing a gateway response so that
//! the machine can take it.

pub mod errors;
pub mod ids;
pub mod json;
pub mod machine;
pub mod requests;
pub mod responses;
pub mod values;
