//! What the UDS client reads back from the simulated ECU: the request
//! encodings of `uds`, the answers of `mock_ecu` and the response decoding
//! of `uds`, taken together, and the same through `MockTransport`.

use crate::protocol::uds::{
    parse_dtcs, positive_outcome, read_did_outcome, read_did_request, read_dtc_outcome,
    read_dtc_request, session_control_outcome, session_control_request, tester_present_outcome,
    tester_present_request, Dtc, DEFAULT_TIMEOUT_MS,
};
use crate::protocol::ProtocolErrorModel;
use crate::text::hex_byte;
use crate::protocol::uds::exchanged;
use crate::transport::mock::{mock_after, mock_outcome, MockTransport, MockTransportModel};
use crate::transport::mock_ecu::{
    be16, dtc_records, ecu_after, ecu_answer, lemma_dtc_records_index, lemma_dtc_records_len,
    EcuModel,
};
use crate::transport::TransportErrorModel;
use vstd::prelude::*;

verus! {

/// The session of the simulated ECU that a UDS session request selects.
pub open spec fn ecu_session(session: crate::protocol::uds::DiagnosticSession) -> crate::transport::mock_ecu::DiagnosticSession {
    match session {
        crate::protocol::uds::DiagnosticSession::Default => crate::transport::mock_ecu::DiagnosticSession::Default,
        crate::protocol::uds::DiagnosticSession::Extended => crate::transport::mock_ecu::DiagnosticSession::Extended,
    }
}

/// The DTCs a client reads for the stored list: the code keeps its low
/// three bytes (the wire carries three), the status is unchanged.
pub open spec fn reported_dtcs(dtcs: Seq<(u32, u8)>) -> Seq<Dtc> {
    dtcs.map_values(|d: (u32, u8)| Dtc { code: d.0 % 0x1000000, status: d.1 })
}

proof fn lemma_code_bytes(c: u32)
    ensures
        ((((c / 0x10000) % 0x100) as u8) * 0x10000 + (((c / 0x100) % 0x100) as u8) * 0x100 + ((c
            % 0x100) as u8)) as u32 == c % 0x1000000,
{
    let b0 = ((c / 0x10000) % 0x100) as u8;
    let b1 = ((c / 0x100) % 0x100) as u8;
    let b2 = (c % 0x100) as u8;
    assert(b0 == (c / 0x10000) % 0x100);
    assert(b1 == (c / 0x100) % 0x100);
    assert(b2 == c % 0x100);
    assert(((c / 0x10000) % 0x100) * 0x10000 + ((c / 0x100) % 0x100) * 0x100 + c % 0x100
        == c % 0x1000000) by (bit_vector);
}

/// Reading a configured DID gives back exactly the configured value.
pub proof fn lemma_read_configured_did(ecu: EcuModel, did: u16)
    requires
        ecu.dids.contains_key(did),
    ensures
        read_did_outcome(Ok(ecu_answer(ecu, read_did_request(did)))) == Ok::<
            Seq<u8>,
            ProtocolErrorModel,
        >(ecu.dids[did]),
{
    let req = read_did_request(did);
    assert(be16(req[1], req[2]) == did);
    let answer = ecu_answer(ecu, req);
    assert(answer == seq![0x62u8, req[1], req[2]] + ecu.dids[did]);
    assert(answer.skip(3) =~= ecu.dids[did]);
}

/// Reading a DID the ECU does not hold fails with the ECU's negative
/// response (SID `0x22`, NRC RequestOutOfRange `0x31`).
pub proof fn lemma_read_unknown_did(ecu: EcuModel, did: u16)
    requires
        !ecu.dids.contains_key(did),
    ensures
        read_did_outcome(Ok(ecu_answer(ecu, read_did_request(did)))) == Err::<
            Seq<u8>,
            ProtocolErrorModel,
        >(
            ProtocolErrorModel::UnexpectedResponse(
                "negative response for SID 0x"@ + hex_byte(0x22) + ": NRC 0x"@ + hex_byte(0x31),
            ),
        ),
{
    let req = read_did_request(did);
    assert(be16(req[1], req[2]) == did);
}

/// Reading the DTCs gives back the stored list, in order, each code cut to
/// its low three bytes.
pub proof fn lemma_read_stored_dtcs(ecu: EcuModel)
    ensures
        read_dtc_outcome(Ok(ecu_answer(ecu, read_dtc_request()))) == Ok::<
            Seq<Dtc>,
            ProtocolErrorModel,
        >(reported_dtcs(ecu.dtcs)),
{
    let records = dtc_records(ecu.dtcs);
    let answer = ecu_answer(ecu, read_dtc_request());
    assert(answer == seq![0x59u8, 0x02, 0xFF] + records);
    assert(answer.skip(3) =~= records);
    lemma_dtc_records_len(ecu.dtcs);
    let n = ecu.dtcs.len();
    assert(records.len() / 4 == n);
    assert forall|i: int| 0 <= i < n implies #[trigger] parse_dtcs(records)[i] == reported_dtcs(
        ecu.dtcs,
    )[i] by {
        lemma_dtc_records_index(ecu.dtcs, i, 0);
        lemma_dtc_records_index(ecu.dtcs, i, 1);
        lemma_dtc_records_index(ecu.dtcs, i, 2);
        lemma_dtc_records_index(ecu.dtcs, i, 3);
        lemma_code_bytes(ecu.dtcs[i].0);
    }
    assert(parse_dtcs(records) =~= reported_dtcs(ecu.dtcs));
}

/// A session request is acknowledged and leaves the ECU in that session,
/// with its DIDs, DTCs and latency untouched.
pub proof fn lemma_session_control_switches(ecu: EcuModel, session: crate::protocol::uds::DiagnosticSession)
    ensures
        session_control_outcome(Ok(ecu_answer(ecu, session_control_request(session)))) == Ok::<
            (),
            ProtocolErrorModel,
        >(()),
        ecu_after(ecu, session_control_request(session)) == (EcuModel {
            session: ecu_session(session),
            ..ecu
        }),
{
}

/// TesterPresent is always acknowledged.
pub proof fn lemma_tester_present_acknowledged(ecu: EcuModel)
    ensures
        tester_present_outcome(Ok(ecu_answer(ecu, tester_present_request()))) == Ok::<
            (),
            ProtocolErrorModel,
        >(()),
        ecu_after(ecu, tester_present_request()) == ecu,
{
}

/// Through a connected mock transport whose ECU answers within the UDS
/// timeout, reading a configured DID gives back the configured value.
pub proof fn lemma_mock_transport_reads_configured_did(t: MockTransportModel, did: u16)
    requires
        t.connected,
        t.ecu is Some,
        t.ecu.unwrap().latency_ms <= DEFAULT_TIMEOUT_MS,
        t.ecu.unwrap().dids.contains_key(did),
    ensures
        read_did_outcome(mock_outcome(t, read_did_request(did), DEFAULT_TIMEOUT_MS)) == Ok::<
            Seq<u8>,
            ProtocolErrorModel,
        >(t.ecu.unwrap().dids[did]),
        mock_after(t, read_did_request(did), DEFAULT_TIMEOUT_MS) == t,
{
    lemma_read_configured_did(t.ecu.unwrap(), did);
}

/// End to end: when `Uds::read_data_by_identifier` goes through a connected
/// mock transport whose ECU holds `did` and answers within the UDS timeout,
/// the client returns exactly the configured value, and the transport is
/// left as it was.
pub proof fn lemma_uds_reads_configured_did_through_mock(
    before: MockTransport,
    after: MockTransport,
    did: u16,
    result: Result<Seq<u8>, ProtocolErrorModel>,
)
    requires
        before@.connected,
        before@.ecu is Some,
        before@.ecu.unwrap().latency_ms <= DEFAULT_TIMEOUT_MS,
        before@.ecu.unwrap().dids.contains_key(did),
        exists|response: Result<Seq<u8>, TransportErrorModel>|
            #[trigger] exchanged(before, after, read_did_request(did), response) && result
                == read_did_outcome(response),
    ensures
        result == Ok::<Seq<u8>, ProtocolErrorModel>(before@.ecu.unwrap().dids[did]),
        after@ == before@,
{
    lemma_mock_transport_reads_configured_did(before@, did);
}

/// End to end: `Uds::read_dtc_information` through a connected mock
/// transport whose ECU answers within the UDS timeout returns the stored
/// DTCs, in order, each code cut to its low three bytes.
pub proof fn lemma_uds_reads_stored_dtcs_through_mock(
    before: MockTransport,
    after: MockTransport,
    result: Result<Seq<Dtc>, ProtocolErrorModel>,
)
    requires
        before@.connected,
        before@.ecu is Some,
        before@.ecu.unwrap().latency_ms <= DEFAULT_TIMEOUT_MS,
        exists|response: Result<Seq<u8>, TransportErrorModel>|
            #[trigger] exchanged(before, after, read_dtc_request(), response) && result
                == read_dtc_outcome(response),
    ensures
        result == Ok::<Seq<Dtc>, ProtocolErrorModel>(reported_dtcs(before@.ecu.unwrap().dtcs)),
        after@ == before@,
{
    lemma_read_stored_dtcs(before@.ecu.unwrap());
}

/// Whatever the request, a mock transport with no ECU behind it surfaces a
/// transport timeout, and one that is not connected surfaces
/// `NotConnected`; neither changes state.
pub proof fn lemma_mock_transport_failures(t: MockTransportModel, req: Seq<u8>, timeout_ms: u64)
    ensures
        !t.connected ==> positive_outcome(mock_outcome(t, req, timeout_ms), req[0]) == Err::<
            Seq<u8>,
            ProtocolErrorModel,
        >(ProtocolErrorModel::Transport(TransportErrorModel::NotConnected)),
        t.connected && (t.ecu is None || t.ecu.unwrap().latency_ms > timeout_ms)
            ==> positive_outcome(mock_outcome(t, req, timeout_ms), req[0]) == Err::<
            Seq<u8>,
            ProtocolErrorModel,
        >(ProtocolErrorModel::Transport(TransportErrorModel::Timeout)),
        !t.connected || t.ecu is None || t.ecu.unwrap().latency_ms > timeout_ms ==> mock_after(
            t,
            req,
            timeout_ms,
        ) == t,
{
}

} // verus!
