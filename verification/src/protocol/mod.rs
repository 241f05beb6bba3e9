//! Protocol: what a diagnostic message means, independent of how it
//! travels. Protocol implementations build and parse messages here and
//! delegate byte transfer to a `Transport`.
//!
//! The UDS service subset (`0x10`, `0x19`, `0x22`, `0x3E`) lives in `uds`.

pub mod roundtrip;
pub mod uds;

use crate::transport::{transport_error_text, TransportError, TransportErrorModel};
use vstd::prelude::*;

verus! {

#[derive(Debug, PartialEq, Eq)]
pub enum ProtocolError {
    Transport(TransportError),
    UnexpectedResponse(String),
}

/// A `ProtocolError` with its texts taken by their character sequences.
pub enum ProtocolErrorModel {
    Transport(TransportErrorModel),
    UnexpectedResponse(Seq<char>),
}

impl View for ProtocolError {
    type V = ProtocolErrorModel;

    open spec fn view(&self) -> ProtocolErrorModel {
        match self {
            ProtocolError::Transport(e) => ProtocolErrorModel::Transport(e@),
            ProtocolError::UnexpectedResponse(reason) => ProtocolErrorModel::UnexpectedResponse(
                reason@,
            ),
        }
    }
}

/// The human-readable text of a protocol error.
pub open spec fn protocol_error_text(e: ProtocolErrorModel) -> Seq<char> {
    match e {
        ProtocolErrorModel::Transport(t) => "transport error: "@ + transport_error_text(t),
        ProtocolErrorModel::UnexpectedResponse(reason) => "unexpected response: "@ + reason,
    }
}

impl ProtocolError {
    /// The human-readable text of this error.
    pub fn message(&self) -> (r: String)
        ensures
            r@ == protocol_error_text(self@),
    {
        match self {
            ProtocolError::Transport(e) => {
                let mut s = String::from_str("transport error: ");
                let inner = e.message();
                s.append(inner.as_str());
                s
            },
            ProtocolError::UnexpectedResponse(reason) => {
                let mut s = String::from_str("unexpected response: ");
                s.append(reason.as_str());
                s
            },
        }
    }
}

impl From<TransportError> for ProtocolError {
    fn from(err: TransportError) -> (r: Self) {
        ProtocolError::Transport(err)
    }
}

impl vstd::std_specs::convert::FromSpecImpl<TransportError> for ProtocolError {
    open spec fn obeys_from_spec() -> bool {
        true
    }

    open spec fn from_spec(v: TransportError) -> ProtocolError {
        ProtocolError::Transport(v)
    }
}

/// Diagnostic protocol built on top of a `Transport`.
pub trait Protocol {
    /// Human-readable name for logs and telemetry (e.g. "UDS").
    fn name(&self) -> &'static str;
}

} // verus!
