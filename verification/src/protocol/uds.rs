//! UDS (ISO 14229), the diagnostic protocol V1 needs. Builds and
//! interprets the service subset DiagnosticSessionControl (`0x10`),
//! ReadDataByIdentifier (`0x22`), ReadDTCInformation (`0x19`) and
//! TesterPresent (`0x3E`). A positive response starts with the SID plus
//! `0x40`; a negative one is `0x7F [SID] [NRC]`.

use crate::protocol::{Protocol, ProtocolError, ProtocolErrorModel};
use crate::text::{hex_byte, push_hex_byte};
use crate::transport::{transport_result_view, Transport, TransportError, TransportErrorModel};
use vstd::prelude::*;

verus! {

/// Timeout of one UDS request/response, in milliseconds (P2Server is about
/// 50 ms in the ISO 14229 literature; this leaves margin).
pub const DEFAULT_TIMEOUT_MS: u64 = 500;

#[derive(Debug, Clone, Copy, PartialEq, Eq, Structural)]
pub enum DiagnosticSession {
    Default,
    Extended,
}

#[derive(Debug, Clone, PartialEq, Eq, Structural)]
pub struct Dtc {
    pub code: u32,
    pub status: u8,
}

// ----- requests -----

/// The sub-function byte selecting a diagnostic session.
pub open spec fn session_sub_function(session: DiagnosticSession) -> u8 {
    match session {
        DiagnosticSession::Default => 0x01,
        DiagnosticSession::Extended => 0x03,
    }
}

pub open spec fn session_control_request(session: DiagnosticSession) -> Seq<u8> {
    seq![0x10u8, session_sub_function(session)]
}

/// ReadDataByIdentifier: the DID follows the SID, big-endian.
pub open spec fn read_did_request(did: u16) -> Seq<u8> {
    seq![0x22u8, (did / 256) as u8, (did % 256) as u8]
}

/// ReadDTCInformation, sub-function reportDTCByStatusMask.
pub open spec fn read_dtc_request() -> Seq<u8> {
    seq![0x19u8, 0x02]
}

pub open spec fn tester_present_request() -> Seq<u8> {
    seq![0x3Eu8, 0x00]
}

/// The services the client may send: DiagnosticSessionControl,
/// ReadDTCInformation, ReadDataByIdentifier and TesterPresent. None of them
/// writes to the ECU (no WriteDataByIdentifier, RoutineControl, download...).
pub open spec fn read_only_service(sid: u8) -> bool {
    sid == 0x10 || sid == 0x19 || sid == 0x22 || sid == 0x3E
}

/// Every request the client builds names a read-only service.
pub proof fn lemma_requests_are_read_only(session: DiagnosticSession, did: u16)
    ensures
        read_only_service(session_control_request(session)[0]),
        read_only_service(read_did_request(did)[0]),
        read_only_service(read_dtc_request()[0]),
        read_only_service(tester_present_request()[0]),
{
}

// ----- responses -----

/// The byte at `i`, or 0 where the response is shorter.
pub open spec fn byte_or_zero(s: Seq<u8>, i: int) -> u8 {
    if i < s.len() {
        s[i]
    } else {
        0
    }
}

/// What is wrong with `response` when a positive response starting with
/// `expected` was awaited; `None` when nothing is.
pub open spec fn response_problem(response: Seq<u8>, expected: u8) -> Option<Seq<char>> {
    if response.len() == 0 {
        Some("empty response"@)
    } else if response[0] == 0x7F {
        Some(
            "negative response for SID 0x"@ + hex_byte(byte_or_zero(response, 1)) + ": NRC 0x"@
                + hex_byte(byte_or_zero(response, 2)),
        )
    } else if response[0] == expected {
        None
    } else {
        Some("expected response 0x"@ + hex_byte(expected) + ", got 0x"@ + hex_byte(response[0]))
    }
}

/// A response passes the positive check exactly when it is non-empty and
/// starts with the awaited byte, unless that byte is the negative-response
/// marker `0x7F`, which never passes.
pub proof fn lemma_positive_check(response: Seq<u8>, expected: u8)
    ensures
        response_problem(response, expected) is None <==> (response.len() > 0 && response[0]
            == expected && expected != 0x7F),
{
}

/// The text reported for a positive response too short to hold its payload.
pub open spec fn truncated_text() -> Seq<char> {
    "truncated positive response"@
}

/// A transport outcome checked for a positive response starting with
/// `expected`: the response bytes when it is one.
pub open spec fn positive_outcome(
    response: Result<Seq<u8>, TransportErrorModel>,
    expected: u8,
) -> Result<Seq<u8>, ProtocolErrorModel> {
    match response {
        Err(e) => Err(ProtocolErrorModel::Transport(e)),
        Ok(bytes) => match response_problem(bytes, expected) {
            Some(m) => Err(ProtocolErrorModel::UnexpectedResponse(m)),
            None => Ok(bytes),
        },
    }
}

pub open spec fn session_control_outcome(response: Result<Seq<u8>, TransportErrorModel>) -> Result<
    (),
    ProtocolErrorModel,
> {
    match positive_outcome(response, 0x50) {
        Ok(_) => Ok(()),
        Err(e) => Err(e),
    }
}

/// The data record of a ReadDataByIdentifier answer: what follows the SID
/// and the echoed DID.
pub open spec fn read_did_outcome(response: Result<Seq<u8>, TransportErrorModel>) -> Result<
    Seq<u8>,
    ProtocolErrorModel,
> {
    match positive_outcome(response, 0x62) {
        Ok(bytes) => if bytes.len() < 3 {
            Err(ProtocolErrorModel::UnexpectedResponse(truncated_text()))
        } else {
            Ok(bytes.skip(3))
        },
        Err(e) => Err(e),
    }
}

/// The DTCs in a run of four-byte records (three code bytes, big-endian,
/// then the status byte); a trailing partial record is ignored.
pub open spec fn parse_dtcs(records: Seq<u8>) -> Seq<Dtc> {
    Seq::new(
        records.len() / 4,
        |i: int|
            Dtc {
                code: (records[4 * i] * 0x10000 + records[4 * i + 1] * 0x100 + records[4 * i
                    + 2]) as u32,
                status: records[4 * i + 3],
            },
    )
}

/// The DTCs of a ReadDTCInformation answer: the records after the SID, the
/// sub-function and the status availability mask.
pub open spec fn read_dtc_outcome(response: Result<Seq<u8>, TransportErrorModel>) -> Result<
    Seq<Dtc>,
    ProtocolErrorModel,
> {
    match positive_outcome(response, 0x59) {
        Ok(bytes) => if bytes.len() < 3 {
            Err(ProtocolErrorModel::UnexpectedResponse(truncated_text()))
        } else {
            Ok(parse_dtcs(bytes.skip(3)))
        },
        Err(e) => Err(e),
    }
}

pub open spec fn tester_present_outcome(response: Result<Seq<u8>, TransportErrorModel>) -> Result<
    (),
    ProtocolErrorModel,
> {
    match positive_outcome(response, 0x7E) {
        Ok(_) => Ok(()),
        Err(e) => Err(e),
    }
}

/// The DTC report is decoded from the records alone: every positive
/// ReadDTCInformation response of at least three bytes gives one DTC per
/// complete 4-byte record after the 3-byte header, in order, the code being
/// the record's first three bytes big-endian and the status its fourth,
/// whatever the status availability mask (byte 2) says.
pub proof fn lemma_dtc_report_decoding(bytes: Seq<u8>)
    requires
        bytes.len() >= 3,
        bytes[0] == 0x59,
    ensures
        read_dtc_outcome(Ok(bytes)) matches Ok(dtcs) && dtcs.len() == (bytes.len() - 3) / 4
            && forall|k: int|
            0 <= k < dtcs.len() ==> #[trigger] dtcs[k] == (Dtc {
                code: (bytes[3 + 4 * k] * 0x10000 + bytes[4 + 4 * k] * 0x100 + bytes[5 + 4 * k]) as u32,
                status: bytes[6 + 4 * k],
            }),
{
    let dtcs = parse_dtcs(bytes.skip(3));
    assert forall|k: int| 0 <= k < dtcs.len() implies #[trigger] dtcs[k] == (Dtc {
        code: (bytes[3 + 4 * k] * 0x10000 + bytes[4 + 4 * k] * 0x100 + bytes[5 + 4 * k]) as u32,
        status: bytes[6 + 4 * k],
    }) by {
        assert(4 * k + 4 <= bytes.len() - 3) by (nonlinear_arith)
            requires
                0 <= k < (bytes.len() - 3) / 4,
        ;
        assert(bytes.skip(3)[4 * k] == bytes[3 + 4 * k]);
        assert(bytes.skip(3)[4 * k + 1] == bytes[4 + 4 * k]);
        assert(bytes.skip(3)[4 * k + 2] == bytes[5 + 4 * k]);
        assert(bytes.skip(3)[4 * k + 3] == bytes[6 + 4 * k]);
    }
}

/// Two positive ReadDTCInformation responses that differ only in the status
/// availability mask (byte 2) report the same DTCs.
pub proof fn lemma_dtc_report_ignores_mask(a: Seq<u8>, b: Seq<u8>)
    requires
        a.len() == b.len(),
        a.len() >= 3,
        a[0] == 0x59,
        forall|i: int| 0 <= i < a.len() && i != 2 ==> a[i] == b[i],
    ensures
        read_dtc_outcome(Ok(a)) == read_dtc_outcome(Ok(b)),
{
    assert(a.skip(3) =~= b.skip(3));
}

/// TesterPresent succeeds exactly when the transport delivers a response
/// starting with `0x7E`. A transport error is passed on; any other response
/// (empty, negative `0x7F [SID] [NRC]`, or another first byte) is an
/// unexpected response, and a negative one names its SID and NRC.
pub proof fn lemma_tester_present_acknowledgement(response: Result<Seq<u8>, TransportErrorModel>)
    ensures
        tester_present_outcome(response) is Ok <==> (response matches Ok(bytes) && bytes.len() > 0
            && bytes[0] == 0x7E),
        response matches Err(e) ==> tester_present_outcome(response) == Err::<(), ProtocolErrorModel>(
            ProtocolErrorModel::Transport(e),
        ),
        response matches Ok(bytes) && !(bytes.len() > 0 && bytes[0] == 0x7E) ==> tester_present_outcome(
            response,
        ) is Err && tester_present_outcome(response)->Err_0 is UnexpectedResponse,
        (response is Ok && response->Ok_0.len() >= 3 && response->Ok_0[0] == 0x7F)
            ==> tester_present_outcome(response) == Err::<(), ProtocolErrorModel>(
            ProtocolErrorModel::UnexpectedResponse(
                "negative response for SID 0x"@ + hex_byte(response->Ok_0[1]) + ": NRC 0x"@
                    + hex_byte(response->Ok_0[2]),
            ),
        ),
{
}

/// DiagnosticSessionControl succeeds exactly when the transport delivers a
/// response starting with `0x50`; any other response is an unexpected
/// response, and a transport error is passed on.
pub proof fn lemma_session_control_acknowledgement(response: Result<Seq<u8>, TransportErrorModel>)
    ensures
        session_control_outcome(response) is Ok <==> (response matches Ok(bytes) && bytes.len() > 0
            && bytes[0] == 0x50),
        response matches Err(e) ==> session_control_outcome(response) == Err::<(), ProtocolErrorModel>(
            ProtocolErrorModel::Transport(e),
        ),
        response matches Ok(bytes) && !(bytes.len() > 0 && bytes[0] == 0x50) ==> session_control_outcome(
            response,
        ) is Err && session_control_outcome(response)->Err_0 is UnexpectedResponse,
{
}

// ----- views of results -----

pub open spec fn unit_result_view(r: Result<(), ProtocolError>) -> Result<(), ProtocolErrorModel> {
    match r {
        Ok(()) => Ok(()),
        Err(e) => Err(e@),
    }
}

pub open spec fn bytes_result_view(r: Result<Vec<u8>, ProtocolError>) -> Result<
    Seq<u8>,
    ProtocolErrorModel,
> {
    match r {
        Ok(v) => Ok(v@),
        Err(e) => Err(e@),
    }
}

pub open spec fn dtcs_result_view(r: Result<Vec<Dtc>, ProtocolError>) -> Result<
    Seq<Dtc>,
    ProtocolErrorModel,
> {
    match r {
        Ok(v) => Ok(v@),
        Err(e) => Err(e@),
    }
}

// ----- exchanges -----

/// The transport went from `before` to `after` by one exchange that sent
/// `request` with the UDS timeout and got `response` back.
pub open spec fn exchanged<T: Transport>(
    before: T,
    after: T,
    request: Seq<u8>,
    response: Result<Seq<u8>, TransportErrorModel>,
) -> bool {
    before.step(request, DEFAULT_TIMEOUT_MS, response, &after)
}

pub struct Uds<T: Transport> {
    transport: T,
}

impl<T: Transport> Uds<T> {
    /// The transport this client talks through.
    pub closed spec fn link(&self) -> T {
        self.transport
    }

    pub fn new(transport: T) -> (u: Self)
        ensures
            u.link() == transport,
    {
        Uds { transport }
    }

    /// Switches the ECU to `session`.
    pub fn diagnostic_session_control(&mut self, session: DiagnosticSession) -> (r: Result<
        (),
        ProtocolError,
    >)
        ensures
            exists|response: Result<Seq<u8>, TransportErrorModel>|
                #[trigger] exchanged(old(self).link(), final(self).link(), session_control_request(session), response)
                    && unit_result_view(r) == session_control_outcome(response),
    {
        let sub_function: u8 = match session {
            DiagnosticSession::Default => 0x01,
            DiagnosticSession::Extended => 0x03,
        };
        let req = [0x10u8, sub_function];
        assert(req@ =~= session_control_request(session));
        let response = self.request(&req)?;
        expect_positive(response.as_slice(), 0x50)?;
        Ok(())
    }

    /// Reads the data record stored under `did`. A positive response too
    /// short to hold the echoed DID is reported as `truncated positive
    /// response`.
    pub fn read_data_by_identifier(&mut self, did: u16) -> (r: Result<Vec<u8>, ProtocolError>)
        ensures
            exists|response: Result<Seq<u8>, TransportErrorModel>|
                #[trigger] exchanged(old(self).link(), final(self).link(), read_did_request(did), response)
                    && bytes_result_view(r) == read_did_outcome(response),
    {
        let hi = (did / 256) as u8;
        let lo = (did % 256) as u8;
        let req = [0x22u8, hi, lo];
        assert(req@ =~= read_did_request(did));
        let response = self.request(&req)?;
        expect_positive(response.as_slice(), 0x62)?;
        if response.len() < 3 {
            return Err(ProtocolError::UnexpectedResponse(String::from_str("truncated positive response")));
        }
        let mut data: Vec<u8> = Vec::new();
        let mut i: usize = 3;
        while i < response.len()
            invariant
                3 <= i <= response@.len(),
                data@ == response@.subrange(3, i as int),
            decreases response@.len() - i,
        {
            data.push(response[i]);
            i = i + 1;
            assert(data@ =~= response@.subrange(3, i as int));
        }
        assert(data@ =~= response@.skip(3));
        Ok(data)
    }

    /// Reads the stored DTCs (reportDTCByStatusMask). A positive response
    /// too short to hold its header is reported as `truncated positive
    /// response`; a trailing partial record is ignored.
    pub fn read_dtc_information(&mut self) -> (r: Result<Vec<Dtc>, ProtocolError>)
        ensures
            exists|response: Result<Seq<u8>, TransportErrorModel>|
                #[trigger] exchanged(old(self).link(), final(self).link(), read_dtc_request(), response)
                    && dtcs_result_view(r) == read_dtc_outcome(response),
    {
        let req = [0x19u8, 0x02];
        assert(req@ =~= read_dtc_request());
        let response = self.request(&req)?;
        expect_positive(response.as_slice(), 0x59)?;
        if response.len() < 3 {
            return Err(ProtocolError::UnexpectedResponse(String::from_str("truncated positive response")));
        }
        let ghost records = response@.skip(3);
        let count: usize = (response.len() - 3) / 4;
        let mut dtcs: Vec<Dtc> = Vec::new();
        let mut j: usize = 0;
        while j < count
            invariant
                count == records.len() / 4,
                response@.len() >= 3,
                records == response@.skip(3),
                records.len() == response@.len() - 3,
                response@.len() <= usize::MAX,
                j <= count,
                dtcs@ == parse_dtcs(records).take(j as int),
            decreases count - j,
        {
            assert(4 * j + 4 <= records.len()) by (nonlinear_arith)
                requires
                    j < count,
                    count == records.len() / 4,
            ;
            let at: usize = 3 + 4 * j;
            let code: u32 = (response[at] as u32) * 0x10000 + (response[at + 1] as u32) * 0x100
                + (response[at + 2] as u32);
            let dtc = Dtc { code, status: response[at + 3] };
            assert(dtc == parse_dtcs(records)[j as int]);
            dtcs.push(dtc);
            j = j + 1;
            assert(dtcs@ =~= parse_dtcs(records).take(j as int));
        }
        assert(parse_dtcs(records).take(count as int) =~= parse_dtcs(records));
        Ok(dtcs)
    }

    /// Keeps a non-default session alive.
    pub fn tester_present(&mut self) -> (r: Result<(), ProtocolError>)
        ensures
            exists|response: Result<Seq<u8>, TransportErrorModel>|
                #[trigger] exchanged(old(self).link(), final(self).link(), tester_present_request(), response)
                    && unit_result_view(r) == tester_present_outcome(response),
    {
        let req = [0x3Eu8, 0x00];
        assert(req@ =~= tester_present_request());
        let response = self.request(&req)?;
        expect_positive(response.as_slice(), 0x7E)?;
        Ok(())
    }

    /// Sends `data` with the UDS timeout and returns the raw response.
    fn request(&mut self, data: &[u8]) -> (r: Result<Vec<u8>, ProtocolError>)
        ensures
            exists|response: Result<Seq<u8>, TransportErrorModel>|
                #[trigger] exchanged(old(self).link(), final(self).link(), data@, response)
                    && bytes_result_view(r) == match response {
                    Ok(bytes) => Ok(bytes),
                    Err(e) => Err(ProtocolErrorModel::Transport(e)),
                },
    {
        let r = self.transport.send_receive(data, DEFAULT_TIMEOUT_MS);
        assert(exchanged(old(self).link(), self.link(), data@, transport_result_view(r)));
        match r {
            Ok(bytes) => Ok(bytes),
            Err(e) => Err(ProtocolError::from(e)),
        }
    }
}

impl<T: Transport> Protocol for Uds<T> {
    fn name(&self) -> (r: &'static str)
        ensures
            r@ == "UDS"@,
    {
        "UDS"
    }
}

/// Checks that `response` is a positive response starting with
/// `expected_first_byte`, reporting what is wrong otherwise.
pub fn expect_positive(response: &[u8], expected_first_byte: u8) -> (r: Result<(), ProtocolError>)
    ensures
        unit_result_view(r) == match response_problem(response@, expected_first_byte) {
            Some(m) => Err(ProtocolErrorModel::UnexpectedResponse(m)),
            None => Ok(()),
        },
{
    if response.len() == 0 {
        return Err(ProtocolError::UnexpectedResponse(String::from_str("empty response")));
    }
    let first = response[0];
    if first == 0x7F {
        let sid: u8 = if response.len() > 1 { response[1] } else { 0 };
        let nrc: u8 = if response.len() > 2 { response[2] } else { 0 };
        let mut m = String::from_str("negative response for SID 0x");
        push_hex_byte(&mut m, sid);
        m.append(": NRC 0x");
        push_hex_byte(&mut m, nrc);
        Err(ProtocolError::UnexpectedResponse(m))
    } else if first == expected_first_byte {
        Ok(())
    } else {
        let mut m = String::from_str("expected response 0x");
        push_hex_byte(&mut m, expected_first_byte);
        m.append(", got 0x");
        push_hex_byte(&mut m, first);
        Err(ProtocolError::UnexpectedResponse(m))
    }
}

} // verus!
