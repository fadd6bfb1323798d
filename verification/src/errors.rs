//! The one error type of the library, and the messages it carries.
//!
//! Everything that can fail (bad JSON at the boundary, a crypto-store error, an
//! `OlmMachine` operation, an invalid Matrix identifier, an unknown request type,
//! a request or response that cannot take its HTTP form) collapses into one
//! `BindingError`; its `message` is the text that reaches the embedding program.

use vstd::prelude::*;

use crate::json::json_error_text;

verus! {

/// Every way the binding can fail.
#[derive(Debug)]
pub enum BindingError {
    /// Invalid JSON at the boundary, with the parser's own error.
    Json(serde_json::Error),
    /// The crypto store could not be opened or used.
    Store(String),
    /// An `OlmMachine` operation failed.
    Machine(String),
    /// A Matrix user or room identifier did not parse.
    Id(String),
    /// A response came back tagged with a kind that cannot be re-typed.
    UnknownRequestType(String),
    /// A request or response could not take its HTTP form.
    HttpForm(String),
}

/// What a `BindingError` is, without the parser's opaque error value.
pub enum ErrorView {
    Json,
    Store(Seq<char>),
    Machine(Seq<char>),
    Id(Seq<char>),
    UnknownRequestType(Seq<char>),
    HttpForm(Seq<char>),
}

impl View for BindingError {
    type V = ErrorView;

    open spec fn view(&self) -> ErrorView {
        match self {
            BindingError::Json(_) => ErrorView::Json,
            BindingError::Store(s) => ErrorView::Store(s@),
            BindingError::Machine(s) => ErrorView::Machine(s@),
            BindingError::Id(s) => ErrorView::Id(s@),
            BindingError::UnknownRequestType(s) => ErrorView::UnknownRequestType(s@),
            BindingError::HttpForm(s) => ErrorView::HttpForm(s@),
        }
    }
}

/// The fixed text that opens the message of each kind of error.
pub open spec fn message_prefix(e: ErrorView) -> Seq<char> {
    match e {
        ErrorView::Json => "invalid JSON at the Python<->Rust boundary: "@,
        ErrorView::Store(_) => "crypto store error: "@,
        ErrorView::Machine(_) => "OlmMachine error: "@,
        ErrorView::Id(_) => "invalid Matrix identifier: "@,
        ErrorView::UnknownRequestType(_) => "unknown or unsupported outgoing-request type: "@,
        ErrorView::HttpForm(_) => "could not build HTTP form of request: "@,
    }
}

/// The cause that follows the prefix, for the kinds whose cause is plain text.
pub open spec fn message_detail(e: ErrorView) -> Option<Seq<char>> {
    match e {
        ErrorView::Json => None,
        ErrorView::Store(s) => Some(s),
        ErrorView::Machine(s) => Some(s),
        ErrorView::Id(s) => Some(s),
        ErrorView::UnknownRequestType(s) => Some(s),
        ErrorView::HttpForm(s) => Some(s),
    }
}

impl BindingError {
    /// The human-readable message: the kind's fixed prefix, then the cause.
    pub fn message(&self) -> (m: String)
        ensures
            m@.len() >= message_prefix(self@).len(),
            m@.subrange(0, message_prefix(self@).len() as int) == message_prefix(self@),
            message_detail(self@) matches Some(d) ==> m@ == message_prefix(self@) + d,
    {
        let (mut m, detail) = match self {
            BindingError::Json(e) => (
                String::from_str("invalid JSON at the Python<->Rust boundary: "),
                json_error_text(e),
            ),
            BindingError::Store(s) => (String::from_str("crypto store error: "), s.clone()),
            BindingError::Machine(s) => (String::from_str("OlmMachine error: "), s.clone()),
            BindingError::Id(s) => (String::from_str("invalid Matrix identifier: "), s.clone()),
            BindingError::UnknownRequestType(s) => (
                String::from_str("unknown or unsupported outgoing-request type: "),
                s.clone(),
            ),
            BindingError::HttpForm(s) => (
                String::from_str("could not build HTTP form of request: "),
                s.clone(),
            ),
        };
        let ghost prefix = m@;
        m.append(detail.as_str());
        assert(m@.subrange(0, prefix.len() as int) =~= prefix);
        m
    }
}

} // verus!
