//! Transport: how raw bytes reach the vehicle. Protocol implementations
//! build frames and hand them to a `Transport`; a transport knows nothing
//! about diagnostic protocols, only byte transfer.
//!
//! Times are whole milliseconds (`u64`) throughout this crate.

pub mod mock;
pub mod mock_ecu;

use vstd::prelude::*;

verus! {

#[derive(Debug, PartialEq, Eq)]
pub enum TransportError {
    ConnectionFailed(String),
    Timeout,
    NotConnected,
    Io(String),
}

/// A `TransportError` with its texts taken by their character sequences.
pub enum TransportErrorModel {
    ConnectionFailed(Seq<char>),
    Timeout,
    NotConnected,
    Io(Seq<char>),
}

impl View for TransportError {
    type V = TransportErrorModel;

    open spec fn view(&self) -> TransportErrorModel {
        match self {
            TransportError::ConnectionFailed(reason) => TransportErrorModel::ConnectionFailed(reason@),
            TransportError::Timeout => TransportErrorModel::Timeout,
            TransportError::NotConnected => TransportErrorModel::NotConnected,
            TransportError::Io(reason) => TransportErrorModel::Io(reason@),
        }
    }
}

/// The human-readable text of a transport error.
pub open spec fn transport_error_text(e: TransportErrorModel) -> Seq<char> {
    match e {
        TransportErrorModel::ConnectionFailed(reason) => "connection failed: "@ + reason,
        TransportErrorModel::Timeout => "timeout waiting for response"@,
        TransportErrorModel::NotConnected => "not connected"@,
        TransportErrorModel::Io(reason) => "I/O error: "@ + reason,
    }
}

impl TransportError {
    /// The human-readable text of this error.
    pub fn message(&self) -> (r: String)
        ensures
            r@ == transport_error_text(self@),
    {
        match self {
            TransportError::ConnectionFailed(reason) => {
                let mut s = String::from_str("connection failed: ");
                s.append(reason.as_str());
                s
            },
            TransportError::Timeout => String::from_str("timeout waiting for response"),
            TransportError::NotConnected => String::from_str("not connected"),
            TransportError::Io(reason) => {
                let mut s = String::from_str("I/O error: ");
                s.append(reason.as_str());
                s
            },
        }
    }
}

/// The outcome of one send/receive, with bytes and texts taken by their views.
pub open spec fn transport_result_view(r: Result<Vec<u8>, TransportError>) -> Result<
    Seq<u8>,
    TransportErrorModel,
> {
    match r {
        Ok(bytes) => Ok(bytes@),
        Err(e) => Err(e@),
    }
}

/// Raw byte-level transport to the vehicle. Implementations in this crate:
/// `MockTransport`; hardware transports implement the same trait.
///
/// An implementation may describe its exchanges by a relation, `step`:
/// what it may answer to a request, and the state it is left in. One that
/// does not describe them keeps the default, which promises nothing.
pub trait Transport: Send {
    /// Whether this transport, in this state, may answer `request` sent
    /// with `timeout_ms` by `response` and be left in state `next`.
    open spec fn step(
        &self,
        request: Seq<u8>,
        timeout_ms: u64,
        response: Result<Seq<u8>, TransportErrorModel>,
        next: &Self,
    ) -> bool {
        true
    }

    fn connect(&mut self) -> Result<(), TransportError>;

    fn disconnect(&mut self) -> Result<(), TransportError>;

    fn is_connected(&self) -> bool;

    /// Sends raw bytes and waits up to `timeout_ms` milliseconds for a raw
    /// response. Only the transport-level outcome is reported; what a
    /// negative response means is the protocol's business.
    fn send_receive(&mut self, data: &[u8], timeout_ms: u64) -> (r: Result<Vec<u8>, TransportError>)
        ensures
            old(self).step(data@, timeout_ms, transport_result_view(r), &*final(self)),
    ;
}

} // verus!
