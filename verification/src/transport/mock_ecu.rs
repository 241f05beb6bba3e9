//! In-memory state machine that answers UDS requests like a real ECU would:
//! session control, configurable DIDs/DTCs, negative responses, simulated
//! latency. It sits behind `MockTransport` so the UDS client can be built
//! and tested end to end without the vehicle.
//!
//! Only the V1 service subset is answered: DiagnosticSessionControl
//! (`0x10`), ReadDataByIdentifier (`0x22`), ReadDTCInformation by status
//! mask (`0x19 0x02`) and TesterPresent (`0x3E`).

use std::collections::HashMap;
use vstd::prelude::*;

verus! {

broadcast use vstd::std_specs::hash::group_hash_axioms;

#[derive(Debug, Clone, Copy, PartialEq, Eq, Structural)]
pub enum DiagnosticSession {
    Default,
    Extended,
}

/// UDS Negative Response Codes used by the mock (ISO 14229-1).
#[derive(Debug, Clone, Copy, PartialEq, Eq, Structural)]
pub enum Nrc {
    ServiceNotSupported,
    SubFunctionNotSupported,
    RequestOutOfRange,
}

/// The wire value of a negative response code.
pub open spec fn nrc_byte(nrc: Nrc) -> u8 {
    match nrc {
        Nrc::ServiceNotSupported => 0x11,
        Nrc::SubFunctionNotSupported => 0x12,
        Nrc::RequestOutOfRange => 0x31,
    }
}

impl Nrc {
    /// The wire value of this negative response code.
    pub fn code(&self) -> (b: u8)
        ensures
            b == nrc_byte(*self),
    {
        match self {
            Nrc::ServiceNotSupported => 0x11,
            Nrc::SubFunctionNotSupported => 0x12,
            Nrc::RequestOutOfRange => 0x31,
        }
    }
}

/// The VIN the simulated ECU reports under DID `0xF190` unless reconfigured:
/// the ASCII bytes of `WBAF12345LC000001` (17 characters, like a real VIN).
pub open spec fn default_vin() -> Seq<u8> {
    seq![
        0x57u8, 0x42, 0x41, 0x46, 0x31, 0x32, 0x33, 0x34, 0x35, 0x4C, 0x43, 0x30, 0x30, 0x30,
        0x30, 0x30, 0x31,
    ]
}

/// The DID of the vehicle identification number (ISO 14229).
pub open spec fn vin_did() -> u16 {
    0xF190
}

/// The abstract state of a simulated ECU.
pub struct EcuModel {
    pub session: DiagnosticSession,
    pub dids: Map<u16, Seq<u8>>,
    pub dtcs: Seq<(u32, u8)>,
    pub latency_ms: u64,
}

/// The state of a freshly built simulated ECU.
pub open spec fn initial_ecu() -> EcuModel {
    EcuModel {
        session: DiagnosticSession::Default,
        dids: Map::empty().insert(vin_did(), default_vin()),
        dtcs: Seq::empty(),
        latency_ms: 0,
    }
}

/// A negative response `0x7F [SID] [NRC]`.
pub open spec fn negative(sid: u8, nrc: Nrc) -> Seq<u8> {
    seq![0x7Fu8, sid, nrc_byte(nrc)]
}

/// The session a session-control request selects, if any.
pub open spec fn requested_session(req: Seq<u8>) -> Option<DiagnosticSession> {
    if req.len() < 2 {
        None
    } else if req[1] == 0x01 {
        Some(DiagnosticSession::Default)
    } else if req[1] == 0x03 {
        Some(DiagnosticSession::Extended)
    } else {
        None
    }
}

/// Answer to DiagnosticSessionControl (`0x10`): the positive response echoes
/// the sub-function and carries P2Server = 50 ms and P2*Server = 500 (10 ms units).
pub open spec fn session_control_answer(req: Seq<u8>) -> Seq<u8> {
    match requested_session(req) {
        Some(_) => seq![0x50u8, req[1], 0x00, 0x32, 0x01, 0xF4],
        None => negative(0x10, Nrc::SubFunctionNotSupported),
    }
}

/// The 16-bit big-endian value of two bytes.
pub open spec fn be16(hi: u8, lo: u8) -> u16 {
    (hi * 256 + lo) as u16
}

/// Answer to ReadDataByIdentifier (`0x22`).
pub open spec fn read_did_answer(dids: Map<u16, Seq<u8>>, req: Seq<u8>) -> Seq<u8> {
    if req.len() < 3 {
        negative(0x22, Nrc::RequestOutOfRange)
    } else if dids.contains_key(be16(req[1], req[2])) {
        seq![0x62u8, req[1], req[2]] + dids[be16(req[1], req[2])]
    } else {
        negative(0x22, Nrc::RequestOutOfRange)
    }
}

/// The four bytes reporting one DTC: its low three code bytes, big-endian,
/// then its status byte.
pub open spec fn dtc_record(dtc: (u32, u8)) -> Seq<u8> {
    seq![
        ((dtc.0 / 0x10000) % 0x100) as u8,
        ((dtc.0 / 0x100) % 0x100) as u8,
        (dtc.0 % 0x100) as u8,
        dtc.1,
    ]
}

/// The records of a list of DTCs, in list order.
pub open spec fn dtc_records(dtcs: Seq<(u32, u8)>) -> Seq<u8>
    decreases dtcs.len(),
{
    if dtcs.len() == 0 {
        Seq::empty()
    } else {
        dtc_records(dtcs.drop_last()) + dtc_record(dtcs.last())
    }
}

/// Answer to ReadDTCInformation (`0x19`); only reportDTCByStatusMask (`0x02`)
/// is supported, with every status bit available (`0xFF`).
pub open spec fn read_dtc_answer(dtcs: Seq<(u32, u8)>, req: Seq<u8>) -> Seq<u8> {
    if req.len() < 2 || req[1] != 0x02 {
        negative(0x19, Nrc::SubFunctionNotSupported)
    } else {
        seq![0x59u8, 0x02, 0xFF] + dtc_records(dtcs)
    }
}

/// Answer to TesterPresent (`0x3E`).
pub open spec fn tester_present_answer(req: Seq<u8>) -> Seq<u8> {
    if req.len() >= 2 && req[1] == 0x00 {
        seq![0x7Eu8, 0x00]
    } else {
        negative(0x3E, Nrc::SubFunctionNotSupported)
    }
}

/// The raw response of a simulated ECU in state `ecu` to the raw request `req`.
pub open spec fn ecu_answer(ecu: EcuModel, req: Seq<u8>) -> Seq<u8> {
    if req.len() == 0 {
        negative(0x00, Nrc::ServiceNotSupported)
    } else if req[0] == 0x10 {
        session_control_answer(req)
    } else if req[0] == 0x22 {
        read_did_answer(ecu.dids, req)
    } else if req[0] == 0x19 {
        read_dtc_answer(ecu.dtcs, req)
    } else if req[0] == 0x3E {
        tester_present_answer(req)
    } else {
        negative(req[0], Nrc::ServiceNotSupported)
    }
}

/// The state of a simulated ECU after a session-control request: the
/// requested session if the sub-function is known, otherwise unchanged.
pub open spec fn session_control_after(ecu: EcuModel, req: Seq<u8>) -> EcuModel {
    match requested_session(req) {
        Some(s) => EcuModel { session: s, ..ecu },
        None => ecu,
    }
}

/// The state of a simulated ECU after it answered `req`: only an accepted
/// session-control request changes it, by switching the session.
pub open spec fn ecu_after(ecu: EcuModel, req: Seq<u8>) -> EcuModel {
    if req.len() > 0 && req[0] == 0x10 {
        session_control_after(ecu, req)
    } else {
        ecu
    }
}

/// The records of `n` DTCs take `4 * n` bytes.
pub proof fn lemma_dtc_records_len(dtcs: Seq<(u32, u8)>)
    ensures
        dtc_records(dtcs).len() == 4 * dtcs.len(),
    decreases dtcs.len(),
{
    if dtcs.len() > 0 {
        lemma_dtc_records_len(dtcs.drop_last());
    }
}

/// Byte `k` of the record of DTC `i` sits at `4 * i + k`.
pub proof fn lemma_dtc_records_index(dtcs: Seq<(u32, u8)>, i: int, k: int)
    requires
        0 <= i < dtcs.len(),
        0 <= k < 4,
    ensures
        dtc_records(dtcs)[4 * i + k] == dtc_record(dtcs[i])[k],
    decreases dtcs.len(),
{
    lemma_dtc_records_len(dtcs.drop_last());
    if i < dtcs.len() - 1 {
        lemma_dtc_records_index(dtcs.drop_last(), i, k);
    }
}

/// The DTC report lists the stored DTCs in insertion order, duplicates
/// kept: after `0x59 0x02 0xFF`, four bytes per DTC (the low three code
/// bytes, big-endian, then the status); any other sub-function, or a
/// missing one, is refused with SubFunctionNotSupported.
pub proof fn lemma_dtc_answer_shape(dtcs: Seq<(u32, u8)>, req: Seq<u8>)
    ensures
        req.len() >= 2 && req[1] == 0x02 ==> {
            let a = read_dtc_answer(dtcs, req);
            &&& a.len() == 3 + 4 * dtcs.len()
            &&& a[0] == 0x59 && a[1] == 0x02 && a[2] == 0xFF
            &&& forall|i: int, k: int|
                0 <= i < dtcs.len() && 0 <= k < 4 ==> a[3 + 4 * i + k] == #[trigger] dtc_record(
                    dtcs[i],
                )[k]
        },
        !(req.len() >= 2 && req[1] == 0x02) ==> read_dtc_answer(dtcs, req) == negative(
            0x19,
            Nrc::SubFunctionNotSupported,
        ),
{
    lemma_dtc_records_len(dtcs);
    if req.len() >= 2 && req[1] == 0x02 {
        let a = read_dtc_answer(dtcs, req);
        assert forall|i: int, k: int|
            0 <= i < dtcs.len() && 0 <= k < 4 implies a[3 + 4 * i + k] == #[trigger] dtc_record(
            dtcs[i],
        )[k] by {
            lemma_dtc_records_index(dtcs, i, k);
        }
    }
}

/// Every accepted session-control request (sub-function `0x01` or `0x03`)
/// is answered with six bytes: `0x50`, the sub-function, then the same
/// timing record for every session, P2Server = 50 ms (`0x0032`) and
/// P2*Server = 500 in 10 ms units (`0x01F4`).
pub proof fn lemma_session_answer_carries_timing(ecu: EcuModel, req: Seq<u8>)
    requires
        req.len() >= 2,
        req[0] == 0x10,
        req[1] == 0x01 || req[1] == 0x03,
    ensures
        ecu_answer(ecu, req) =~= seq![0x50u8, req[1], 0x00, 0x32, 0x01, 0xF4],
        ecu_answer(ecu, req).len() == 6,
{
}

/// ISO 14229 framing of every answer: either positive, starting with the
/// request's SID plus `0x40`, or the three bytes `0x7F [SID] [NRC]` with one
/// of the NRCs the mock uses (SID `0x00` for an empty request).
pub proof fn lemma_answer_framing(ecu: EcuModel, req: Seq<u8>)
    ensures
        ({
            let a = ecu_answer(ecu, req);
            ||| (req.len() > 0 && a.len() >= 2 && a[0] == req[0] + 0x40)
            ||| (a.len() == 3 && a[0] == 0x7F && a[1] == (if req.len() > 0 {
                req[0]
            } else {
                0u8
            }) && (a[2] == 0x11 || a[2] == 0x12 || a[2] == 0x31))
        }),
{
}

/// Answering never changes the configured DIDs, DTCs or latency; the
/// session changes only on an accepted session-control request, and a
/// negative answer leaves the ECU exactly as it was.
pub proof fn lemma_answer_keeps_configuration(ecu: EcuModel, req: Seq<u8>)
    ensures
        ecu_after(ecu, req).dids == ecu.dids,
        ecu_after(ecu, req).dtcs == ecu.dtcs,
        ecu_after(ecu, req).latency_ms == ecu.latency_ms,
        ecu_after(ecu, req).session != ecu.session ==> req.len() >= 2 && req[0] == 0x10 && (
        req[1] == 0x01 || req[1] == 0x03),
        ecu_answer(ecu, req)[0] == 0x7F ==> ecu_after(ecu, req) == ecu,
{
}

pub struct MockEcu {
    session: DiagnosticSession,
    dids: HashMap<u16, Vec<u8>>,
    dtcs: Vec<(u32, u8)>,
    latency_ms: u64,
}

impl View for MockEcu {
    type V = EcuModel;

    closed spec fn view(&self) -> EcuModel {
        EcuModel {
            session: self.session,
            dids: self.dids@.map_values(|v: Vec<u8>| v@),
            dtcs: self.dtcs@,
            latency_ms: self.latency_ms,
        }
    }
}

impl MockEcu {
    /// A simulated ECU in the default session, answering only the VIN DID
    /// (`0xF190`), with no stored DTCs and no latency.
    pub fn new() -> (ecu: Self)
        ensures
            ecu@ == initial_ecu(),
    {
        let mut dids: HashMap<u16, Vec<u8>> = HashMap::new();
        let vin: Vec<u8> = vec![
            0x57u8, 0x42, 0x41, 0x46, 0x31, 0x32, 0x33, 0x34, 0x35, 0x4C, 0x43, 0x30, 0x30, 0x30,
            0x30, 0x30, 0x31,
        ];
        dids.insert(0xF190u16, vin);
        let ecu = MockEcu {
            session: DiagnosticSession::Default,
            dids,
            dtcs: Vec::new(),
            latency_ms: 0,
        };
        assert(ecu@.dids =~= initial_ecu().dids);
        assert(ecu@.dtcs =~= initial_ecu().dtcs);
        ecu
    }

    /// The same ECU with one more stored DTC, reported after the existing ones.
    pub fn with_dtc(self, code: u32, status: u8) -> (ecu: Self)
        ensures
            ecu@ == (EcuModel { dtcs: self@.dtcs.push((code, status)), ..self@ }),
    {
        let mut ecu = self;
        ecu.dtcs.push((code, status));
        ecu
    }

    /// The same ECU answering `value` for `did` (replacing any earlier value).
    pub fn with_did(self, did: u16, value: Vec<u8>) -> (ecu: Self)
        ensures
            ecu@ == (EcuModel { dids: self@.dids.insert(did, value@), ..self@ }),
    {
        let mut ecu = self;
        let ghost v = value@;
        ecu.dids.insert(did, value);
        assert(ecu@.dids =~= self@.dids.insert(did, v));
        ecu
    }

    /// The same ECU taking `latency_ms` milliseconds to answer.
    pub fn with_latency(self, latency_ms: u64) -> (ecu: Self)
        ensures
            ecu@ == (EcuModel { latency_ms, ..self@ }),
    {
        let mut ecu = self;
        ecu.latency_ms = latency_ms;
        ecu
    }

    /// How long this ECU takes to answer, in milliseconds.
    pub fn simulated_latency(&self) -> (ms: u64)
        ensures
            ms == self@.latency_ms,
    {
        self.latency_ms
    }

    /// The diagnostic session the ECU is in.
    pub fn session(&self) -> (s: DiagnosticSession)
        ensures
            s == self@.session,
    {
        self.session
    }

    /// Processes one raw UDS request and returns the raw response, positive
    /// or negative, exactly as the bytes would come back over the wire.
    pub fn handle_request(&mut self, request: &[u8]) -> (response: Vec<u8>)
        ensures
            response@ == ecu_answer(old(self)@, request@),
            final(self)@ == ecu_after(old(self)@, request@),
    {
        if request.len() == 0 {
            return negative_response(0x00, Nrc::ServiceNotSupported);
        }
        let sid = request[0];
        if sid == 0x10 {
            self.diagnostic_session_control(request)
        } else if sid == 0x22 {
            self.read_data_by_identifier(request)
        } else if sid == 0x19 {
            self.read_dtc_information(request)
        } else if sid == 0x3E {
            self.tester_present(request)
        } else {
            negative_response(sid, Nrc::ServiceNotSupported)
        }
    }

    fn diagnostic_session_control(&mut self, request: &[u8]) -> (response: Vec<u8>)
        ensures
            response@ == session_control_answer(request@),
            final(self)@ == session_control_after(old(self)@, request@),
    {
        if request.len() < 2 {
            return negative_response(0x10, Nrc::SubFunctionNotSupported);
        }
        let sub_function = request[1];
        if sub_function == 0x01 {
            self.session = DiagnosticSession::Default;
        } else if sub_function == 0x03 {
            self.session = DiagnosticSession::Extended;
        } else {
            return negative_response(0x10, Nrc::SubFunctionNotSupported);
        }
        let response = vec![0x50u8, sub_function, 0x00, 0x32, 0x01, 0xF4];
        assert(response@ =~= session_control_answer(request@));
        response
    }

    fn read_data_by_identifier(&self, request: &[u8]) -> (response: Vec<u8>)
        ensures
            response@ == read_did_answer(self@.dids, request@),
    {
        if request.len() < 3 {
            return negative_response(0x22, Nrc::RequestOutOfRange);
        }
        let hi = request[1];
        let lo = request[2];
        let did: u16 = (hi as u16) * 256 + (lo as u16);
        assert(did == be16(hi, lo));
        match self.dids.get(&did) {
            Some(value) => {
                let mut response = vec![0x62u8, hi, lo];
                let ghost head = response@;
                let mut i: usize = 0;
                while i < value.len()
                    invariant
                        i <= value@.len(),
                        response@ == head + value@.take(i as int),
                    decreases value@.len() - i,
                {
                    response.push(value[i]);
                    i = i + 1;
                    assert(response@ =~= head + value@.take(i as int));
                }
                assert(value@.take(value@.len() as int) =~= value@);
                assert(self@.dids.contains_key(did));
                assert(self@.dids[did] == value@);
                assert(head =~= seq![0x62u8, request@[1], request@[2]]);
                response
            },
            None => {
                assert(!self@.dids.contains_key(did));
                negative_response(0x22, Nrc::RequestOutOfRange)
            },
        }
    }

    fn read_dtc_information(&self, request: &[u8]) -> (response: Vec<u8>)
        ensures
            response@ == read_dtc_answer(self@.dtcs, request@),
    {
        if request.len() < 2 {
            return negative_response(0x19, Nrc::SubFunctionNotSupported);
        }
        let sub_function = request[1];
        if sub_function != 0x02 {
            return negative_response(0x19, Nrc::SubFunctionNotSupported);
        }
        let mut response = vec![0x59u8, sub_function, 0xFF];
        let ghost head = response@;
        let mut i: usize = 0;
        while i < self.dtcs.len()
            invariant
                i <= self.dtcs@.len(),
                response@ == head + dtc_records(self.dtcs@.take(i as int)),
            decreases self.dtcs@.len() - i,
        {
            let (code, status) = self.dtcs[i];
            response.push(((code / 0x10000) % 0x100) as u8);
            response.push(((code / 0x100) % 0x100) as u8);
            response.push((code % 0x100) as u8);
            response.push(status);
            proof {
                let taken = self.dtcs@.take(i + 1);
                assert(taken.drop_last() =~= self.dtcs@.take(i as int));
                assert(taken.last() == self.dtcs@[i as int]);
            }
            i = i + 1;
            assert(response@ =~= head + dtc_records(self.dtcs@.take(i as int)));
        }
        assert(self.dtcs@.take(self.dtcs@.len() as int) =~= self.dtcs@);
        assert(head =~= seq![0x59u8, 0x02, 0xFF]);
        response
    }

    fn tester_present(&self, request: &[u8]) -> (response: Vec<u8>)
        ensures
            response@ == tester_present_answer(request@),
    {
        if request.len() >= 2 && request[1] == 0x00 {
            let response = vec![0x7Eu8, 0x00];
            assert(response@ =~= tester_present_answer(request@));
            response
        } else {
            negative_response(0x3E, Nrc::SubFunctionNotSupported)
        }
    }
}

impl Default for MockEcu {
    fn default() -> (ecu: Self)
        ensures
            ecu@ == initial_ecu(),
    {
        Self::new()
    }
}

/// The negative response `0x7F [sid] [nrc]`.
fn negative_response(sid: u8, nrc: Nrc) -> (response: Vec<u8>)
    ensures
        response@ == negative(sid, nrc),
{
    let response = vec![0x7Fu8, sid, nrc.code()];
    assert(response@ =~= negative(sid, nrc));
    response
}

} // verus!
