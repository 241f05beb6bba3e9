//! In-memory transport for development and testing without hardware.
//!
//! Without a `MockEcu` attached, every request times out; that is still a
//! useful configuration (it exercises the "nothing answers" path). With one
//! attached (`MockTransport::with_ecu`), requests are routed to it and
//! answered like a real ECU would.

use super::mock_ecu::{ecu_after, ecu_answer, EcuModel, MockEcu};
use super::{Transport, TransportError, TransportErrorModel, transport_result_view};
use vstd::prelude::*;

verus! {

/// The abstract state of a mock transport.
pub struct MockTransportModel {
    pub connected: bool,
    pub ecu: Option<EcuModel>,
}

/// The outcome of sending `req` with `timeout_ms` through a mock transport
/// in state `t`.
pub open spec fn mock_outcome(t: MockTransportModel, req: Seq<u8>, timeout_ms: u64) -> Result<
    Seq<u8>,
    TransportErrorModel,
> {
    if !t.connected {
        Err(TransportErrorModel::NotConnected)
    } else {
        match t.ecu {
            None => Err(TransportErrorModel::Timeout),
            Some(ecu) => if ecu.latency_ms > timeout_ms {
                Err(TransportErrorModel::Timeout)
            } else {
                Ok(ecu_answer(ecu, req))
            },
        }
    }
}

/// The state of a mock transport after sending `req` with `timeout_ms`:
/// only a request that reached the ECU changes anything, and only the ECU.
pub open spec fn mock_after(t: MockTransportModel, req: Seq<u8>, timeout_ms: u64) -> MockTransportModel {
    match t.ecu {
        Some(ecu) => if t.connected && ecu.latency_ms <= timeout_ms {
            MockTransportModel { ecu: Some(ecu_after(ecu, req)), ..t }
        } else {
            t
        },
        None => t,
    }
}

/// A connected mock transport with an ECU answers a request with the ECU's
/// answer exactly when the ECU's latency is within the timeout passed, for
/// every timeout, and otherwise times out; only an answered request reaches
/// the ECU. So a longer timeout never turns an answer into a timeout.
pub proof fn lemma_mock_answers_within_timeout(t: MockTransportModel, req: Seq<u8>, timeout_ms: u64)
    requires
        t.connected,
        t.ecu is Some,
    ensures
        t.ecu.unwrap().latency_ms <= timeout_ms ==> mock_outcome(t, req, timeout_ms) == Ok::<
            Seq<u8>,
            TransportErrorModel,
        >(ecu_answer(t.ecu.unwrap(), req)),
        t.ecu.unwrap().latency_ms <= timeout_ms ==> mock_after(t, req, timeout_ms) == (MockTransportModel {
            connected: true,
            ecu: Some(ecu_after(t.ecu.unwrap(), req)),
        }),
        t.ecu.unwrap().latency_ms > timeout_ms ==> mock_outcome(t, req, timeout_ms) == Err::<
            Seq<u8>,
            TransportErrorModel,
        >(TransportErrorModel::Timeout),
        t.ecu.unwrap().latency_ms > timeout_ms ==> mock_after(t, req, timeout_ms) == t,
{
}

/// Lengthening the timeout never changes an answered request's outcome:
/// what a connected mock transport answers with one timeout, it answers
/// the same with any longer one.
pub proof fn lemma_mock_longer_timeout_same_answer(t: MockTransportModel, req: Seq<u8>, short_ms: u64, long_ms: u64)
    requires
        short_ms <= long_ms,
        mock_outcome(t, req, short_ms) is Ok,
    ensures
        mock_outcome(t, req, long_ms) == mock_outcome(t, req, short_ms),
        mock_after(t, req, long_ms) == mock_after(t, req, short_ms),
{
}

pub struct MockTransport {
    connected: bool,
    ecu: Option<MockEcu>,
}

/// The abstract state of an optional simulated ECU.
pub open spec fn ecu_model(ecu: Option<MockEcu>) -> Option<EcuModel> {
    match ecu {
        Some(e) => Some(e@),
        None => None,
    }
}

impl View for MockTransport {
    type V = MockTransportModel;

    closed spec fn view(&self) -> MockTransportModel {
        MockTransportModel { connected: self.connected, ecu: ecu_model(self.ecu) }
    }
}

impl MockTransport {
    /// A disconnected transport with nothing behind it.
    pub fn new() -> (t: Self)
        ensures
            t@ == (MockTransportModel { connected: false, ecu: None }),
    {
        MockTransport { connected: false, ecu: None }
    }

    /// A disconnected transport routing requests to `ecu`.
    pub fn with_ecu(ecu: MockEcu) -> (t: Self)
        ensures
            t@ == (MockTransportModel { connected: false, ecu: Some(ecu@) }),
    {
        MockTransport { connected: false, ecu: Some(ecu) }
    }
}

impl Default for MockTransport {
    fn default() -> (t: Self)
        ensures
            t@ == (MockTransportModel { connected: false, ecu: None }),
    {
        Self::new()
    }
}

impl Transport for MockTransport {
    /// The mock answers as `mock_outcome` says and moves as `mock_after` says.
    open spec fn step(
        &self,
        request: Seq<u8>,
        timeout_ms: u64,
        response: Result<Seq<u8>, TransportErrorModel>,
        next: &Self,
    ) -> bool {
        &&& response == mock_outcome(self@, request, timeout_ms)
        &&& next@ == mock_after(self@, request, timeout_ms)
    }

    fn connect(&mut self) -> (r: Result<(), TransportError>)
        ensures
            r is Ok,
            final(self)@ == (MockTransportModel { connected: true, ..old(self)@ }),
    {
        self.connected = true;
        Ok(())
    }

    fn disconnect(&mut self) -> (r: Result<(), TransportError>)
        ensures
            r is Ok,
            final(self)@ == (MockTransportModel { connected: false, ..old(self)@ }),
    {
        self.connected = false;
        Ok(())
    }

    fn is_connected(&self) -> (r: bool)
        ensures
            r == self@.connected,
    {
        self.connected
    }

    fn send_receive(&mut self, data: &[u8], timeout_ms: u64) -> (r: Result<Vec<u8>, TransportError>)
        ensures
            transport_result_view(r) == mock_outcome(old(self)@, data@, timeout_ms),
            final(self)@ == mock_after(old(self)@, data@, timeout_ms),
    {
        if !self.connected {
            Err(TransportError::NotConnected)
        } else {
            match &mut self.ecu {
                Some(ecu) => {
                    if ecu.simulated_latency() > timeout_ms {
                        Err(TransportError::Timeout)
                    } else {
                        Ok(ecu.handle_request(data))
                    }
                },
                None => Err(TransportError::Timeout),
            }
        }
    }
}

} // verus!
