//! The error taxonomy of the core.
//!
//! `NotFound` — a player, ban or admin lookup came up empty.
//! `Unauthorized` — the caller has no verifiable identity, or the action
//! cannot be attributed to a named actor; authorization is fail-closed.
//! `RemoteRejected` — the administrative API returned a structured business
//! error; its message is operator-actionable and is surfaced verbatim.
//! `TransportFailure` — network trouble or a malformed response; the detail
//! is kept for diagnostics, the operator sees a generic message.
//! `ConfigurationFailure` — a client could not be constructed.

use vstd::prelude::*;
use crate::envelope::ErrorResponse;
use crate::envelope::EnvelopeV;

verus! {

/// One failure of the resolution or relay pipeline.
#[derive(Debug)]
pub enum Error {
    NotFound,
    Unauthorized,
    RemoteRejected(ErrorResponse),
    TransportFailure(String),
    ConfigurationFailure(String),
}

/// The specification-level value of an [`Error`].
pub enum ErrorV {
    NotFound,
    Unauthorized,
    RemoteRejected(EnvelopeV),
    TransportFailure(Seq<char>),
    ConfigurationFailure(Seq<char>),
}

impl View for Error {
    type V = ErrorV;

    open spec fn view(&self) -> ErrorV {
        match self {
            Error::NotFound => ErrorV::NotFound,
            Error::Unauthorized => ErrorV::Unauthorized,
            Error::RemoteRejected(e) => ErrorV::RemoteRejected(e@),
            Error::TransportFailure(d) => ErrorV::TransportFailure(d@),
            Error::ConfigurationFailure(d) => ErrorV::ConfigurationFailure(d@),
        }
    }
}

} // verus!
