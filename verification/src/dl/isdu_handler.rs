//! ISDU handler of the data link layer (7.3.6.4, A.5): collects the
//! segments of an ISDU request, answers with "busy" until the application
//! has answered, and hands out the response segment by segment.
use vstd::prelude::*;
use crate::al::ApplicationLayer;
use crate::al::od_handler::{al_od_apply, al_od_isdu_ind, AlOdEvent, AlOdModel, IsduMessage, MAX_ISDU_LENGTH};
use crate::dl::od_handler::OdIndData;
use crate::errors::{IoLinkError, IoLinkResult};
use crate::dl::message_handler::MessageHandler;
use crate::protocol::{
    ComChannel, ConfState, RwDirection, FLOW_CTRL_ABORT, FLOW_CTRL_IDLE_1, FLOW_CTRL_IDLE_2,
    FLOW_CTRL_START,
};

verus! {

/// Longest ISDU in octets.
pub const MAX_ISDU_FRAME: usize = 238;

/// Longest On-request Data of a message, and so of a response segment.
pub const MAX_SEGMENT_LENGTH: usize = 32;

/// States of the ISDU handler.
#[derive(Debug, Clone, Copy, PartialEq, Eq, Structural)]
pub enum IsduHandlerState {
    /// Inactive.
    Inactive,
    /// Idle.
    Idle,
    /// Receiving a request.
    ISDURequest,
    /// Sending a response.
    ISDUResponse,
    /// Waiting for the application's answer.
    ISDUWait,
}

/// Transitions of the ISDU handler with work left for `poll`.
#[derive(Debug, Clone, Copy, PartialEq, Eq, Structural)]
pub enum IsduTransition {
    /// Nothing to do.
    Tn,
    /// Activated.
    T1,
    /// A request starts.
    T2,
    /// A request segment arrived.
    T3,
    /// The request is complete.
    T4,
    /// Read while waiting: answer "busy".
    T5,
    /// The response starts: segment number and length.
    T6(u8, u8),
    /// A response segment: segment number and length.
    T7(u8, u8),
    /// The response was sent.
    T8,
    /// Abort while receiving.
    T9,
    /// Abort while waiting.
    T10,
    /// Abort while responding.
    T11,
    /// Deactivated.
    T12,
    /// Error while receiving.
    T13,
    /// Read while idle: answer "no service".
    T14,
    /// Error while waiting.
    T15,
    /// Error while responding.
    T16,
}

/// Events of the ISDU handler.
#[derive(Debug, Clone, Copy, PartialEq, Eq, Structural)]
pub enum IsduEvent {
    /// A read of a segment: segment number and length.
    IsduRead(u8, u8),
    /// IH_Conf active.
    IhConfActive,
    /// A request segment was written.
    IsduWrite,
    /// A request starts.
    IsduStart,
    /// An error.
    IsduError,
    /// IH_Conf inactive.
    IhConfInactive,
    /// The response was read completely.
    IsduSendComplete,
    /// Abort.
    IsduAbort,
    /// The request was received completely.
    IsduRecComplete,
    /// The response starts: segment number and length.
    IsduRespStart(u8, u8),
}

/// The state machine of the ISDU handler.
pub open spec fn isdu_next(s: IsduHandlerState, e: IsduEvent) -> Option<(IsduTransition, IsduHandlerState)> {
    match (s, e) {
        (IsduHandlerState::Inactive, IsduEvent::IhConfActive) => Some(
            (IsduTransition::T1, IsduHandlerState::Idle),
        ),
        (IsduHandlerState::Idle, IsduEvent::IsduStart) => Some(
            (IsduTransition::T2, IsduHandlerState::ISDURequest),
        ),
        (IsduHandlerState::Idle, IsduEvent::IhConfInactive) => Some(
            (IsduTransition::T12, IsduHandlerState::Inactive),
        ),
        (IsduHandlerState::Idle, IsduEvent::IsduRead(_, _)) => Some(
            (IsduTransition::T14, IsduHandlerState::Idle),
        ),
        (IsduHandlerState::ISDURequest, IsduEvent::IsduWrite) => Some(
            (IsduTransition::T3, IsduHandlerState::ISDURequest),
        ),
        (IsduHandlerState::ISDURequest, IsduEvent::IsduRecComplete) => Some(
            (IsduTransition::T4, IsduHandlerState::ISDUWait),
        ),
        (IsduHandlerState::ISDURequest, IsduEvent::IsduError) => Some(
            (IsduTransition::T13, IsduHandlerState::Idle),
        ),
        (IsduHandlerState::ISDURequest, IsduEvent::IsduAbort) => Some(
            (IsduTransition::T9, IsduHandlerState::Idle),
        ),
        (IsduHandlerState::ISDUWait, IsduEvent::IsduRead(_, _)) => Some(
            (IsduTransition::T5, IsduHandlerState::ISDUWait),
        ),
        (IsduHandlerState::ISDUWait, IsduEvent::IsduRespStart(sg, n)) => Some(
            (IsduTransition::T6(sg, n), IsduHandlerState::ISDUResponse),
        ),
        (IsduHandlerState::ISDUWait, IsduEvent::IsduAbort) => Some(
            (IsduTransition::T10, IsduHandlerState::Idle),
        ),
        (IsduHandlerState::ISDUWait, IsduEvent::IsduError) => Some(
            (IsduTransition::T15, IsduHandlerState::Idle),
        ),
        (IsduHandlerState::ISDUResponse, IsduEvent::IsduRead(sg, n)) => Some(
            (IsduTransition::T7(sg, n), IsduHandlerState::ISDUResponse),
        ),
        (IsduHandlerState::ISDUResponse, IsduEvent::IsduSendComplete) => Some(
            (IsduTransition::T8, IsduHandlerState::Idle),
        ),
        (IsduHandlerState::ISDUResponse, IsduEvent::IsduAbort) => Some(
            (IsduTransition::T11, IsduHandlerState::Idle),
        ),
        (IsduHandlerState::ISDUResponse, IsduEvent::IsduError) => Some(
            (IsduTransition::T16, IsduHandlerState::Idle),
        ),
        _ => None,
    }
}

/// A flow control value of the ISDU channel: a segment count, START,
/// IDLE_1, IDLE_2 or ABORT.
pub open spec fn isdu_flow_known(flow: u8) -> bool {
    flow <= 0x0F || flow == FLOW_CTRL_START || flow == FLOW_CTRL_IDLE_1 || flow == FLOW_CTRL_IDLE_2
        || flow == FLOW_CTRL_ABORT
}

/// The event that an access on the ISDU channel, with direction `rw`, flow
/// control `flow` and requested length `n`, gives a handler in state `s`
/// whose response is ready where `tx_ready`: a written count is request
/// data and a written START a new request; a read count asks for a segment
/// outside the request; a read START completes the request, or starts the
/// response once it is ready; IDLE_1 read ends the transfer, ABORT aborts
/// it, and anything else is an ISDU error.
pub open spec fn isdu_od_event(s: IsduHandlerState, tx_ready: bool, rw: RwDirection, flow: u8, n: u8) -> IsduEvent {
    if !isdu_flow_known(flow) {
        IsduEvent::IsduError
    } else if flow == FLOW_CTRL_ABORT {
        IsduEvent::IsduAbort
    } else if flow <= 0x0F {
        if rw is Write {
            IsduEvent::IsduWrite
        } else if !(s is ISDURequest || s is Inactive) {
            IsduEvent::IsduRead(flow, n)
        } else {
            IsduEvent::IsduError
        }
    } else if flow == FLOW_CTRL_START {
        if rw is Write {
            IsduEvent::IsduStart
        } else {
            match s {
                IsduHandlerState::ISDURequest => IsduEvent::IsduRecComplete,
                IsduHandlerState::ISDUWait => if tx_ready {
                    IsduEvent::IsduRespStart(0, n)
                } else {
                    IsduEvent::IsduRead(0, n)
                },
                _ => IsduEvent::IsduError,
            }
        }
    } else if flow == FLOW_CTRL_IDLE_1 && rw is Read {
        IsduEvent::IsduSendComplete
    } else {
        IsduEvent::IsduError
    }
}

/// The XOR of the octets `s[0..n]`.
pub open spec fn xor_prefix(s: Seq<u8>, n: int) -> u8
    decreases n,
{
    if n <= 0 {
        0
    } else {
        xor_prefix(s, n - 1) ^ s[n - 1]
    }
}

/// An ISDU with its check octet: the octets, then their XOR, so that the
/// XOR over the whole ISDU is zero.
pub open spec fn with_chkpdu(s: Seq<u8>) -> Seq<u8> {
    s.push(xor_prefix(s, s.len() as int))
}

/// The ISDU "no service".
pub open spec fn isdu_no_service() -> Seq<u8> {
    seq![0x00u8]
}

/// The ISDU "busy".
pub open spec fn isdu_busy() -> Seq<u8> {
    seq![0x01u8]
}

/// The head of a response with I-Service `service` and `n` data octets:
/// the length in the I-Service octet up to 15 octets in all, else an
/// extended length octet.
pub open spec fn isdu_head(service: u8, n: nat) -> Seq<u8> {
    if n + 2 <= 15 {
        seq![(service * 16 + n + 2) as u8]
    } else {
        seq![(service * 16 + 1) as u8, (n + 3) as u8]
    }
}

/// Read response (+) with its data.
pub open spec fn isdu_read_success(data: Seq<u8>) -> Seq<u8> {
    with_chkpdu(isdu_head(0xD, data.len()) + data)
}

/// Write response (+).
pub open spec fn isdu_write_success() -> Seq<u8> {
    with_chkpdu(seq![0x52u8])
}

/// Read response (-) with ErrorCode and AdditionalCode.
pub open spec fn isdu_read_failure(error: u8, additional: u8) -> Seq<u8> {
    with_chkpdu(seq![0xC4u8, error, additional])
}

/// Write response (-) with ErrorCode and AdditionalCode.
pub open spec fn isdu_write_failure(error: u8, additional: u8) -> Seq<u8> {
    with_chkpdu(seq![0x44u8, error, additional])
}

/// The direction of a request's I-Service: read requests 0x9 to 0xB,
/// write requests 0x1 to 0x3; other codes are no request.
pub open spec fn request_direction(i_service: u8) -> Option<RwDirection> {
    if 0x9 <= i_service <= 0xB {
        Some(RwDirection::Read)
    } else if 0x1 <= i_service <= 0x3 {
        Some(RwDirection::Write)
    } else {
        None
    }
}

/// What the work of the pending transition `t` of an ISDU handler whose
/// received request is `rx` does to the On-request Data handler `od` of the
/// application layer: T4 hands on a well-formed request whose data fit,
/// the transitions that abort the service hand on the abort, any other
/// leaves it as it is.
pub open spec fn isdu_poll_al_od(t: IsduTransition, rx: Seq<u8>, od: AlOdModel) -> AlOdModel {
    match t {
        IsduTransition::T4 => if isdu_request_valid(rx) && isdu_request_data(rx).len()
            <= MAX_ISDU_LENGTH {
            al_od_isdu_ind(
                od,
                isdu_request_index(rx),
                isdu_request_subindex(rx),
                request_direction(rx[0] / 16)->0,
                isdu_request_data(rx),
            )
        } else {
            od
        },
        IsduTransition::T10 | IsduTransition::T11 | IsduTransition::T13 | IsduTransition::T15
        | IsduTransition::T16 => al_od_apply(od, AlOdEvent::DlIsduAbort),
        _ => od,
    }
}

/// The segment of a response at segment `k` of length `n`: its octets
/// from `n * k`, filled up with zeros where the response ends first.
pub open spec fn response_segment(tx: Seq<u8>, k: int, n: int) -> Seq<u8> {
    let from = n * k;
    let to = from + n;
    if to > tx.len() {
        tx.subrange(from, tx.len() as int) + Seq::new((to - tx.len()) as nat, |i: int| 0u8)
    } else {
        tx.subrange(from, to)
    }
}

/// What sending response segment `segment` of `n` octets does, from
/// state `s`, pending transition `t`, `k` segments sent, response `tx` and
/// On-request Data `od` of the next message: the new state, pending
/// transition, number of segments sent and On-request Data. A segment out
/// of turn, or one that starts beyond the response, is an ISDU error; one
/// longer than a message carries is refused; any other is sent, filled up
/// with zeros where the response ends.
pub open spec fn isdu_segment_step(
    s: IsduHandlerState,
    t: IsduTransition,
    k: u8,
    tx: Seq<u8>,
    segment: u8,
    n: u8,
    od: Seq<u8>,
) -> (IsduHandlerState, IsduTransition, u8, Seq<u8>) {
    let err = match isdu_next(s, IsduEvent::IsduError) {
        Some((t1, s1)) => (s1, t1),
        None => (s, t),
    };
    let from = n * k;
    if segment != k % 16 {
        (err.0, err.1, k, od)
    } else if from >= tx.len() {
        (err.0, err.1, (k + 1) as u8, od)
    } else if n > MAX_SEGMENT_LENGTH || (from + n > tx.len() && tx.len() - from > MAX_SEGMENT_LENGTH) {
        (s, t, (k + 1) as u8, od)
    } else {
        (s, t, (k + 1) as u8, response_segment(tx, k as int, n as int))
    }
}

/// Octets of the index in a request with I-Service `service`: two for the
/// codes with a 16-bit index (0x3 and 0xB), else one.
pub open spec fn isdu_index_octets(service: u8) -> int {
    if service == 0x3 || service == 0xB {
        2
    } else {
        1
    }
}

/// A request with I-Service `service` carries a subindex: all request codes
/// but the index-only ones, 0x1 and 0x9.
pub open spec fn isdu_has_subindex(service: u8) -> bool {
    service != 0x1 && service != 0x9
}

/// Position of the index in a request: after the I-Service octet, and after
/// the extended length octet where the length nibble is 1.
pub open spec fn isdu_index_position(rx: Seq<u8>) -> int {
    if rx[0] % 16 == 1 {
        2
    } else {
        1
    }
}

/// The length of a request in octets, CHKPDU included: the length nibble of
/// the I-Service octet, or the extended length octet where the nibble is 1.
pub open spec fn isdu_request_length(rx: Seq<u8>) -> int {
    if rx[0] % 16 == 1 {
        rx[1] as int
    } else {
        (rx[0] % 16) as int
    }
}

/// The octets of a request before its data: I-Service, extended length,
/// index and subindex.
pub open spec fn isdu_request_header(rx: Seq<u8>) -> int {
    isdu_index_position(rx) + isdu_index_octets(rx[0] / 16) + if isdu_has_subindex(rx[0] / 16) {
        1int
    } else {
        0int
    }
}

/// The octets received hold a well-formed request: a read or write
/// I-Service, a length that covers the header and the CHKPDU and fits in
/// what was received, no data in a read, and an XOR of zero over the
/// request.
pub open spec fn isdu_request_valid(rx: Seq<u8>) -> bool {
    &&& rx.len() >= 2
    &&& request_direction(rx[0] / 16) is Some
    &&& isdu_request_header(rx) < isdu_request_length(rx) <= rx.len()
    &&& (request_direction(rx[0] / 16) == Some(RwDirection::Read) ==> isdu_request_length(rx)
        == isdu_request_header(rx) + 1)
    &&& xor_prefix(rx, isdu_request_length(rx)) == 0
}

/// The index of a request: one octet, or two with the low octet first.
pub open spec fn isdu_request_index(rx: Seq<u8>) -> u16 {
    let p = isdu_index_position(rx);
    if isdu_index_octets(rx[0] / 16) == 2 {
        (rx[p] + rx[p + 1] * 256) as u16
    } else {
        rx[p] as u16
    }
}

/// The subindex of a request, 0 where it carries none.
pub open spec fn isdu_request_subindex(rx: Seq<u8>) -> u8 {
    if isdu_has_subindex(rx[0] / 16) {
        rx[isdu_index_position(rx) + isdu_index_octets(rx[0] / 16)]
    } else {
        0
    }
}

/// The data of a request: the octets between its header and its CHKPDU.
pub open spec fn isdu_request_data(rx: Seq<u8>) -> Seq<u8> {
    rx.subrange(isdu_request_header(rx), isdu_request_length(rx) - 1)
}

/// The XOR of the first `n` octets of `s`.
pub(crate) fn xor_of(s: &[u8], n: usize) -> (r: u8)
    requires
        n <= s@.len(),
    ensures
        r == xor_prefix(s@, n as int),
{
    let mut x: u8 = 0;
    let mut i: usize = 0;
    while i < n
        invariant
            i <= n <= s@.len(),
            x == xor_prefix(s@, i as int),
        decreases n - i,
    {
        x = x ^ s[i];
        i = i + 1;
    }
    x
}

/// Decodes the request octets collected from the master; `None` where they
/// hold no well-formed request.
pub fn decode_isdu_request(rx: &[u8]) -> (r: Option<IsduMessage>)
    ensures
        r is Some <==> isdu_request_valid(rx@),
        r matches Some(m) ==> {
            &&& Some(m.direction) == request_direction(rx@[0] / 16)
            &&& m.index == isdu_request_index(rx@)
            &&& m.sub_index == isdu_request_subindex(rx@)
            &&& m.data@ == isdu_request_data(rx@)
        },
{
    if rx.len() < 2 {
        return None;
    }
    let first = rx[0];
    let service = first >> 4u8;
    let nibble = first & 0x0Fu8;
    assert(first >> 4u8 == first / 16) by (bit_vector);
    assert(first & 0x0Fu8 == first % 16) by (bit_vector);
    let direction = if 0x9 <= service && service <= 0xB {
        RwDirection::Read
    } else if 0x1 <= service && service <= 0x3 {
        RwDirection::Write
    } else {
        return None;
    };
    let ext = nibble == 1;
    let length: usize = if ext {
        rx[1] as usize
    } else {
        nibble as usize
    };
    let position: usize = if ext {
        2
    } else {
        1
    };
    let index_octets: usize = if service == 0x3 || service == 0xB {
        2
    } else {
        1
    };
    let has_sub = service != 0x1 && service != 0x9;
    let header: usize = position + index_octets + if has_sub {
        1
    } else {
        0
    };
    assert(header == isdu_request_header(rx@));
    assert(length == isdu_request_length(rx@));
    if !(header < length && length <= rx.len()) {
        return None;
    }
    let is_read = match direction {
        RwDirection::Read => true,
        RwDirection::Write => false,
    };
    if is_read && length != header + 1 {
        return None;
    }
    if xor_of(rx, length) != 0 {
        return None;
    }
    let index: u16 = if index_octets == 2 {
        (rx[position] as u16) + (rx[position + 1] as u16) * 256
    } else {
        rx[position] as u16
    };
    let sub_index: u8 = if has_sub {
        rx[position + index_octets]
    } else {
        0
    };
    let data = vstd::slice::slice_to_vec(vstd::slice::slice_subrange(rx, header, length - 1));
    Some(IsduMessage { index, sub_index, direction, data })
}

/// Appends octets to a vector.
fn append(v: &mut Vec<u8>, data: &[u8])
    ensures
        final(v)@ == old(v)@ + data@,
{
    let mut i: usize = 0;
    while i < data.len()
        invariant
            i <= data@.len(),
            v@ == old(v)@ + data@.subrange(0, i as int),
        decreases data@.len() - i,
    {
        v.push(data[i]);
        i = i + 1;
        assert(v@ =~= old(v)@ + data@.subrange(0, i as int));
    }
    assert(data@.subrange(0, data@.len() as int) =~= data@);
}

/// The XOR of all octets, to close an ISDU.
fn chkpdu(s: &Vec<u8>) -> (r: u8)
    ensures
        r == xor_prefix(s@, s@.len() as int),
{
    let mut x: u8 = 0;
    let mut i: usize = 0;
    while i < s.len()
        invariant
            i <= s@.len(),
            x == xor_prefix(s@, i as int),
        decreases s@.len() - i,
    {
        x = x ^ s[i];
        i = i + 1;
    }
    x
}

/// Closes an ISDU with its check octet.
fn close(mut s: Vec<u8>) -> (r: Vec<u8>)
    ensures
        r@ == with_chkpdu(s@),
{
    let c = chkpdu(&s);
    s.push(c);
    s
}

/// Encodes a read response (+).
pub fn encode_read_success(data: &[u8]) -> (r: Vec<u8>)
    requires
        data@.len() <= MAX_ISDU_LENGTH,
    ensures
        r@ == isdu_read_success(data@),
{
    let n = data.len();
    let mut head: Vec<u8> = Vec::new();
    if n + 2 <= 15 {
        head.push((0xD0 + n + 2) as u8);
    } else {
        head.push(0xD1);
        head.push((n + 3) as u8);
    }
    assert(head@ =~= isdu_head(0xD, data@.len()));
    append(&mut head, data);
    close(head)
}

/// Encodes a write response (+).
pub fn encode_write_success() -> (r: Vec<u8>)
    ensures
        r@ == isdu_write_success(),
{
    let v = vec![0x52u8];
    assert(v@ =~= seq![0x52u8]);
    close(v)
}

/// Encodes a read response (-).
pub fn encode_read_failure(error: u8, additional: u8) -> (r: Vec<u8>)
    ensures
        r@ == isdu_read_failure(error, additional),
{
    let v = vec![0xC4u8, error, additional];
    assert(v@ =~= seq![0xC4u8, error, additional]);
    close(v)
}

/// Encodes a write response (-).
pub fn encode_write_failure(error: u8, additional: u8) -> (r: Vec<u8>)
    ensures
        r@ == isdu_write_failure(error, additional),
{
    let v = vec![0x44u8, error, additional];
    assert(v@ =~= seq![0x44u8, error, additional]);
    close(v)
}

/// The ISDU handler.
pub struct IsduHandler {
    state: IsduHandlerState,
    exec_transition: IsduTransition,
    tx_buffer: Vec<u8>,
    tx_ready: bool,
    rx_buffer: Vec<u8>,
    expected_segment: u8,
}

impl IsduHandler {
    /// The state.
    pub closed spec fn spec_state(&self) -> IsduHandlerState {
        self.state
    }

    /// The pending transition.
    pub closed spec fn spec_transition(&self) -> IsduTransition {
        self.exec_transition
    }

    /// The response octets.
    pub closed spec fn spec_tx(&self) -> Seq<u8> {
        self.tx_buffer@
    }

    /// The application has answered and the response is ready.
    pub closed spec fn spec_tx_ready(&self) -> bool {
        self.tx_ready
    }

    /// The request octets received so far.
    pub closed spec fn spec_rx(&self) -> Seq<u8> {
        self.rx_buffer@
    }

    /// The number of response segments sent so far.
    pub closed spec fn spec_expected_segment(&self) -> u8 {
        self.expected_segment
    }

    /// Inactive, with empty buffers.
    pub fn new() -> (r: IsduHandler)
        ensures
            r.spec_state() == IsduHandlerState::Inactive,
            r.spec_transition() == IsduTransition::Tn,
            r.spec_tx() == Seq::<u8>::empty(),
            !r.spec_tx_ready(),
            r.spec_rx() == Seq::<u8>::empty(),
            r.spec_expected_segment() == 0,
    {
        IsduHandler {
            state: IsduHandlerState::Inactive,
            exec_transition: IsduTransition::Tn,
            tx_buffer: Vec::new(),
            tx_ready: false,
            rx_buffer: Vec::new(),
            expected_segment: 0,
        }
    }

    /// Feeds one event to the state machine; one that is not accepted
    /// changes nothing and gives `InvalidEvent`.
    fn process_event(&mut self, event: IsduEvent) -> (r: IoLinkResult<()>)
        ensures
            match isdu_next(old(self).spec_state(), event) {
                Some((t, s)) => r is Ok && final(self).spec_state() == s
                    && final(self).spec_transition() == t,
                None => r == Err::<(), IoLinkError>(IoLinkError::InvalidEvent)
                    && final(self).spec_state() == old(self).spec_state()
                    && final(self).spec_transition() == old(self).spec_transition(),
            },
            final(self).spec_tx() == old(self).spec_tx(),
            final(self).spec_tx_ready() == old(self).spec_tx_ready(),
            final(self).spec_rx() == old(self).spec_rx(),
            final(self).spec_expected_segment() == old(self).spec_expected_segment(),
    {
        let next = match (self.state, event) {
            (IsduHandlerState::Inactive, IsduEvent::IhConfActive) => Some(
                (IsduTransition::T1, IsduHandlerState::Idle),
            ),
            (IsduHandlerState::Idle, IsduEvent::IsduStart) => Some(
                (IsduTransition::T2, IsduHandlerState::ISDURequest),
            ),
            (IsduHandlerState::Idle, IsduEvent::IhConfInactive) => Some(
                (IsduTransition::T12, IsduHandlerState::Inactive),
            ),
            (IsduHandlerState::Idle, IsduEvent::IsduRead(_, _)) => Some(
                (IsduTransition::T14, IsduHandlerState::Idle),
            ),
            (IsduHandlerState::ISDURequest, IsduEvent::IsduWrite) => Some(
                (IsduTransition::T3, IsduHandlerState::ISDURequest),
            ),
            (IsduHandlerState::ISDURequest, IsduEvent::IsduRecComplete) => Some(
                (IsduTransition::T4, IsduHandlerState::ISDUWait),
            ),
            (IsduHandlerState::ISDURequest, IsduEvent::IsduError) => Some(
                (IsduTransition::T13, IsduHandlerState::Idle),
            ),
            (IsduHandlerState::ISDURequest, IsduEvent::IsduAbort) => Some(
                (IsduTransition::T9, IsduHandlerState::Idle),
            ),
            (IsduHandlerState::ISDUWait, IsduEvent::IsduRead(_, _)) => Some(
                (IsduTransition::T5, IsduHandlerState::ISDUWait),
            ),
            (IsduHandlerState::ISDUWait, IsduEvent::IsduRespStart(sg, n)) => Some(
                (IsduTransition::T6(sg, n), IsduHandlerState::ISDUResponse),
            ),
            (IsduHandlerState::ISDUWait, IsduEvent::IsduAbort) => Some(
                (IsduTransition::T10, IsduHandlerState::Idle),
            ),
            (IsduHandlerState::ISDUWait, IsduEvent::IsduError) => Some(
                (IsduTransition::T15, IsduHandlerState::Idle),
            ),
            (IsduHandlerState::ISDUResponse, IsduEvent::IsduRead(sg, n)) => Some(
                (IsduTransition::T7(sg, n), IsduHandlerState::ISDUResponse),
            ),
            (IsduHandlerState::ISDUResponse, IsduEvent::IsduSendComplete) => Some(
                (IsduTransition::T8, IsduHandlerState::Idle),
            ),
            (IsduHandlerState::ISDUResponse, IsduEvent::IsduAbort) => Some(
                (IsduTransition::T11, IsduHandlerState::Idle),
            ),
            (IsduHandlerState::ISDUResponse, IsduEvent::IsduError) => Some(
                (IsduTransition::T16, IsduHandlerState::Idle),
            ),
            _ => None,
        };
        match next {
            Some((t, s)) => {
                self.exec_transition = t;
                self.state = s;
                Ok(())
            },
            None => Err(IoLinkError::InvalidEvent),
        }
    }

    /// The pending work is a response segment while the segment count has
    /// reached its limit: counting one more segment would overflow.
    pub fn segment_count_exhausted(&self) -> (r: bool)
        ensures
            r == ((self.spec_transition() is T6 || self.spec_transition() is T7)
                && self.spec_expected_segment() >= 255),
    {
        let pending_segment = match self.exec_transition {
            IsduTransition::T6(_, _) | IsduTransition::T7(_, _) => true,
            _ => false,
        };
        pending_segment && self.expected_segment >= 255
    }

    /// Replaces the response by an ISDU of the handler's own (busy or no
    /// service) and hands it to the message handler.
    fn send_own(&mut self, isdu: u8, message_handler: &mut MessageHandler)
        ensures
            final(self).spec_tx() == seq![isdu],
            !final(self).spec_tx_ready(),
            final(self).spec_state() == old(self).spec_state(),
            final(self).spec_transition() == old(self).spec_transition(),
            final(self).spec_rx() == old(self).spec_rx(),
            final(self).spec_expected_segment() == old(self).spec_expected_segment(),
            final(message_handler).spec_od_response() == seq![isdu],
            final(message_handler).same_settings(old(message_handler)),
            final(message_handler).same_rx(old(message_handler)),
            final(message_handler).spec_tx() == old(message_handler).spec_tx(),
            final(message_handler).spec_state() == old(message_handler).spec_state(),
            final(message_handler).spec_transition() == old(message_handler).spec_transition(),
            final(message_handler).spec_event_flag() == old(message_handler).spec_event_flag(),
    {
        self.tx_buffer = vec![isdu];
        self.tx_ready = false;
        let _ = message_handler.od_rsp(1, self.tx_buffer.as_slice());
        assert(self.tx_buffer@.subrange(0, 1) =~= seq![isdu]);
    }

    /// Empties the response.
    fn clear_tx(&mut self)
        ensures
            final(self).spec_tx() == Seq::<u8>::empty(),
            !final(self).spec_tx_ready(),
            final(self).spec_state() == old(self).spec_state(),
            final(self).spec_transition() == old(self).spec_transition(),
            final(self).spec_rx() == old(self).spec_rx(),
            final(self).spec_expected_segment() == old(self).spec_expected_segment(),
    {
        self.tx_buffer = Vec::new();
        self.tx_ready = false;
    }

    /// Sends the response segment `segment` of `data_length` octets.
    /// A segment out of turn is an error, as is one beyond the response.
    fn execute_t7(&mut self, segment: u8, data_length: u8, message_handler: &mut MessageHandler) -> (r:
        IoLinkResult<()>)
        requires
            old(self).spec_expected_segment() < 255,
        ensures
            final(self).spec_tx() == old(self).spec_tx(),
            final(self).spec_tx_ready() == old(self).spec_tx_ready(),
            final(self).spec_rx() == old(self).spec_rx(),
            final(message_handler).same_settings(old(message_handler)),
            final(message_handler).same_rx(old(message_handler)),
            final(message_handler).spec_tx() == old(message_handler).spec_tx(),
            final(message_handler).spec_state() == old(message_handler).spec_state(),
            final(message_handler).spec_transition() == old(message_handler).spec_transition(),
            final(message_handler).spec_event_flag() == old(message_handler).spec_event_flag(),
            (final(self).spec_state(), final(self).spec_transition(), final(self).spec_expected_segment(), final(message_handler).spec_od_response())
                == isdu_segment_step(
                old(self).spec_state(),
                old(self).spec_transition(),
                old(self).spec_expected_segment(),
                old(self).spec_tx(),
                segment,
                data_length,
                old(message_handler).spec_od_response(),
            ),
            ({
                let k = old(self).spec_expected_segment();
                let tx = old(self).spec_tx();
                let from = data_length * k;
                if segment != k % 16 {
                    &&& r == Err::<(), IoLinkError>(IoLinkError::InvalidIndex)
                    &&& final(self).spec_expected_segment() == k
                    &&& final(message_handler).spec_od_response() == old(message_handler).spec_od_response()
                    &&& match isdu_next(old(self).spec_state(), IsduEvent::IsduError) {
                        Some((t, s)) => final(self).spec_state() == s
                            && final(self).spec_transition() == t,
                        None => final(self).spec_state() == old(self).spec_state()
                            && final(self).spec_transition() == old(self).spec_transition(),
                    }
                } else {
                    &&& final(self).spec_expected_segment() == k + 1
                    &&& if from >= tx.len() {
                        &&& r == Err::<(), IoLinkError>(IoLinkError::InvalidEvent)
                        &&& final(message_handler).spec_od_response() == old(message_handler).spec_od_response()
                        &&& match isdu_next(old(self).spec_state(), IsduEvent::IsduError) {
                            Some((t, s)) => final(self).spec_state() == s
                                && final(self).spec_transition() == t,
                            None => final(self).spec_state() == old(self).spec_state()
                                && final(self).spec_transition() == old(self).spec_transition(),
                        }
                    } else if data_length > MAX_SEGMENT_LENGTH || (from + data_length > tx.len()
                        && tx.len() - from > MAX_SEGMENT_LENGTH) {
                        &&& r == Err::<(), IoLinkError>(IoLinkError::InvalidLength)
                        &&& final(message_handler).spec_od_response() == old(message_handler).spec_od_response()
                        &&& final(self).spec_state() == old(self).spec_state()
                        &&& final(self).spec_transition() == old(self).spec_transition()
                    } else {
                        &&& r is Ok
                        &&& final(message_handler).spec_od_response() == response_segment(
                            tx,
                            k as int,
                            data_length as int,
                        )
                        &&& final(self).spec_state() == old(self).spec_state()
                        &&& final(self).spec_transition() == old(self).spec_transition()
                    }
                }
            }),
    {
        if segment != self.expected_segment % 16 {
            let _ = self.process_event(IsduEvent::IsduError);
            return Err(IoLinkError::InvalidIndex);
        }
        assert((data_length as usize) * (self.expected_segment as usize) <= 255 * 255) by (
        nonlinear_arith);
        let from: usize = (data_length as usize) * (self.expected_segment as usize);
        let to: usize = from + (data_length as usize);
        let buffer_len = self.tx_buffer.len();
        self.expected_segment = self.expected_segment + 1;
        if from >= buffer_len {
            let _ = self.process_event(IsduEvent::IsduError);
            return Err(IoLinkError::InvalidEvent);
        }
        if data_length as usize > MAX_SEGMENT_LENGTH {
            return Err(IoLinkError::InvalidLength);
        }
        let mut seg: Vec<u8> = Vec::new();
        if to > buffer_len {
            if buffer_len - from > MAX_SEGMENT_LENGTH {
                return Err(IoLinkError::InvalidLength);
            }
            let part = vstd::slice::slice_subrange(self.tx_buffer.as_slice(), from, buffer_len);
            append(&mut seg, part);
            let mut i: usize = buffer_len;
            while i < to
                invariant
                    buffer_len <= i <= to,
                    from < buffer_len,
                    buffer_len == self.tx_buffer@.len(),
                    seg@ == self.tx_buffer@.subrange(from as int, buffer_len as int) + Seq::new(
                        (i - buffer_len) as nat,
                        |j: int| 0u8,
                    ),
                decreases to - i,
            {
                seg.push(0);
                i = i + 1;
                assert(seg@ =~= self.tx_buffer@.subrange(from as int, buffer_len as int)
                    + Seq::new((i - buffer_len) as nat, |j: int| 0u8));
            }
        } else {
            let part = vstd::slice::slice_subrange(self.tx_buffer.as_slice(), from, to);
            append(&mut seg, part);
        }
        assert(seg@ =~= response_segment(
            self.tx_buffer@,
            old(self).spec_expected_segment() as int,
            data_length as int,
        ));
        let n = seg.len();
        assert(n <= MAX_SEGMENT_LENGTH);
        let _ = message_handler.od_rsp(n as u8, seg.as_slice());
        assert(seg@.subrange(0, n as int) =~= seg@);
        Ok(())
    }

    /// Does the work of the pending transition on the buffers, the message
    /// handler and the application layer; the pending transition is
    /// consumed. A complete request is answered "busy" and decoded: a
    /// well-formed one goes to the application layer, any other is an error
    /// of the ISDU.
    pub fn poll(&mut self, message_handler: &mut MessageHandler, application_layer: &mut ApplicationLayer) -> (r:
        IoLinkResult<()>)
        requires
            (old(self).spec_transition() is T6 || old(self).spec_transition() is T7) ==> old(self).spec_expected_segment() < 255,
            old(application_layer).wf(),
        ensures
            r is Ok,
            final(application_layer).wf(),
            final(application_layer).spec_parameter_manager() == old(application_layer).spec_parameter_manager(),
            final(application_layer).spec_event_handler() == old(application_layer).spec_event_handler(),
            final(application_layer).spec_data_storage() == old(application_layer).spec_data_storage(),
            final(self).spec_rx() == old(self).spec_rx(),
            final(message_handler).same_settings(old(message_handler)),
            final(message_handler).same_rx(old(message_handler)),
            final(message_handler).spec_tx() == old(message_handler).spec_tx(),
            final(message_handler).spec_state() == old(message_handler).spec_state(),
            final(message_handler).spec_transition() == old(message_handler).spec_transition(),
            final(message_handler).spec_event_flag() == old(message_handler).spec_event_flag(),
            final(application_layer).spec_od_handler() == isdu_poll_al_od(
                old(self).spec_transition(),
                old(self).spec_rx(),
                old(application_layer).spec_od_handler(),
            ),
            match old(self).spec_transition() {
                IsduTransition::T4 => {
                    let rx = old(self).spec_rx();
                    &&& final(self).spec_expected_segment() == 0
                    &&& final(self).spec_tx() == isdu_busy()
                    &&& final(message_handler).spec_od_response() == isdu_busy()
                    &&& if !isdu_request_valid(rx) {
                        &&& final(application_layer).spec_od_handler() == old(application_layer).spec_od_handler()
                        &&& match isdu_next(old(self).spec_state(), IsduEvent::IsduError) {
                            Some((t, s)) => final(self).spec_state() == s
                                && final(self).spec_transition() == t,
                            None => final(self).spec_state() == old(self).spec_state()
                                && final(self).spec_transition() == IsduTransition::Tn,
                        }
                    } else {
                        &&& final(self).spec_state() == old(self).spec_state()
                        &&& final(self).spec_transition() == IsduTransition::Tn
                        &&& if isdu_request_data(rx).len() > MAX_ISDU_LENGTH {
                            final(application_layer).spec_od_handler() == old(application_layer).spec_od_handler()
                        } else {
                            final(application_layer).spec_od_handler() == al_od_isdu_ind(
                                old(application_layer).spec_od_handler(),
                                isdu_request_index(rx),
                                isdu_request_subindex(rx),
                                request_direction(rx[0] / 16)->0,
                                isdu_request_data(rx),
                            )
                        }
                    }
                },
                IsduTransition::T5 => {
                    &&& final(self).spec_state() == old(self).spec_state()
                    &&& final(self).spec_transition() == IsduTransition::Tn
                    &&& final(self).spec_expected_segment() == old(self).spec_expected_segment()
                    &&& final(self).spec_tx() == isdu_busy()
                    &&& final(message_handler).spec_od_response() == isdu_busy()
                    &&& final(application_layer).spec_od_handler() == old(application_layer).spec_od_handler()
                },
                IsduTransition::T8 | IsduTransition::T14 => {
                    &&& final(self).spec_state() == old(self).spec_state()
                    &&& final(self).spec_transition() == IsduTransition::Tn
                    &&& (old(self).spec_transition() is T8 ==> final(self).spec_expected_segment()
                        == 0)
                    &&& (old(self).spec_transition() is T14 ==> final(self).spec_expected_segment() == old(self).spec_expected_segment())
                    &&& final(self).spec_tx() == isdu_no_service()
                    &&& final(message_handler).spec_od_response() == isdu_no_service()
                    &&& final(application_layer).spec_od_handler() == old(application_layer).spec_od_handler()
                },
                IsduTransition::T2 | IsduTransition::T3 => {
                    &&& final(self).spec_state() == old(self).spec_state()
                    &&& final(self).spec_transition() == IsduTransition::Tn
                    &&& final(message_handler).spec_od_response() == Seq::<u8>::empty()
                    &&& (old(self).spec_transition() is T2 ==> final(self).spec_tx()
                        == Seq::<u8>::empty() && final(self).spec_expected_segment() == 0)
                    &&& (old(self).spec_transition() is T3 ==> final(self).spec_tx() == old(self).spec_tx() && final(self).spec_expected_segment() == old(self).spec_expected_segment())
                    &&& final(application_layer).spec_od_handler() == old(application_layer).spec_od_handler()
                },
                IsduTransition::T6(segment, n) | IsduTransition::T7(segment, n) => {
                    &&& final(self).spec_tx() == old(self).spec_tx()
                    &&& final(application_layer).spec_od_handler() == old(application_layer).spec_od_handler()
                    &&& (final(self).spec_state(), final(self).spec_transition(), final(self).spec_expected_segment(), final(message_handler).spec_od_response())
                        == isdu_segment_step(
                        old(self).spec_state(),
                        IsduTransition::Tn,
                        old(self).spec_expected_segment(),
                        old(self).spec_tx(),
                        segment,
                        n,
                        old(message_handler).spec_od_response(),
                    )
                },
                IsduTransition::T1 | IsduTransition::T9 => {
                    &&& final(self).spec_state() == old(self).spec_state()
                    &&& final(self).spec_transition() == IsduTransition::Tn
                    &&& final(self).spec_tx() == Seq::<u8>::empty()
                    &&& final(self).spec_expected_segment() == 0
                    &&& final(message_handler).spec_od_response() == old(message_handler).spec_od_response()
                    &&& final(application_layer).spec_od_handler() == old(application_layer).spec_od_handler()
                },
                IsduTransition::T10 | IsduTransition::T11 | IsduTransition::T13
                | IsduTransition::T15 | IsduTransition::T16 => {
                    &&& final(self).spec_state() == old(self).spec_state()
                    &&& final(self).spec_transition() == IsduTransition::Tn
                    &&& final(self).spec_tx() == Seq::<u8>::empty()
                    &&& final(self).spec_expected_segment() == 0
                    &&& final(message_handler).spec_od_response() == old(message_handler).spec_od_response()
                    &&& final(application_layer).spec_od_handler() == al_od_apply(
                        old(application_layer).spec_od_handler(),
                        AlOdEvent::DlIsduAbort,
                    )
                },
                _ => {
                    &&& final(self).spec_state() == old(self).spec_state()
                    &&& final(self).spec_transition() == IsduTransition::Tn
                    &&& final(self).spec_tx() == old(self).spec_tx()
                    &&& final(self).spec_expected_segment() == old(self).spec_expected_segment()
                    &&& final(message_handler).spec_od_response() == old(message_handler).spec_od_response()
                    &&& final(application_layer).spec_od_handler() == old(application_layer).spec_od_handler()
                },
            },
    {
        let t = self.exec_transition;
        self.exec_transition = IsduTransition::Tn;
        match t {
            IsduTransition::T1 | IsduTransition::T9 => {
                self.expected_segment = 0;
                self.clear_tx();
            },
            IsduTransition::T2 => {
                self.expected_segment = 0;
                self.clear_tx();
                let empty: [u8; 0] = [];
                let _ = message_handler.od_rsp(0, &empty);
            },
            IsduTransition::T3 => {
                let empty: [u8; 0] = [];
                let _ = message_handler.od_rsp(0, &empty);
            },
            IsduTransition::T4 => {
                let _ = self.execute_t4(message_handler, application_layer);
            },
            IsduTransition::T5 => {
                self.send_own(0x01, message_handler);
            },
            IsduTransition::T6(segment, length) | IsduTransition::T7(segment, length) => {
                let _ = self.execute_t7(segment, length, message_handler);
            },
            IsduTransition::T8 => {
                self.expected_segment = 0;
                self.send_own(0x00, message_handler);
            },
            IsduTransition::T14 => {
                self.send_own(0x00, message_handler);
            },
            IsduTransition::T10 | IsduTransition::T11 | IsduTransition::T13
            | IsduTransition::T15 | IsduTransition::T16 => {
                self.expected_segment = 0;
                self.clear_tx();
                let _ = application_layer.dl_isdu_abort();
            },
            _ => {},
        }
        Ok(())
    }

    /// Work of T4, the request is complete: the master reads "busy" until
    /// the application answers, and the request, decoded, goes to the
    /// application layer. Octets that hold no request are an ISDU error;
    /// data longer than an ISDU carries is refused.
    fn execute_t4(&mut self, message_handler: &mut MessageHandler, application_layer: &mut ApplicationLayer) -> (r:
        IoLinkResult<()>)
        requires
            old(application_layer).wf(),
        ensures
            final(application_layer).wf(),
            final(application_layer).spec_parameter_manager() == old(application_layer).spec_parameter_manager(),
            final(application_layer).spec_event_handler() == old(application_layer).spec_event_handler(),
            final(application_layer).spec_data_storage() == old(application_layer).spec_data_storage(),
            final(self).spec_rx() == old(self).spec_rx(),
            final(self).spec_expected_segment() == 0,
            final(self).spec_tx() == isdu_busy(),
            final(message_handler).spec_od_response() == isdu_busy(),
            final(message_handler).same_settings(old(message_handler)),
            final(message_handler).same_rx(old(message_handler)),
            final(message_handler).spec_tx() == old(message_handler).spec_tx(),
            final(message_handler).spec_state() == old(message_handler).spec_state(),
            final(message_handler).spec_transition() == old(message_handler).spec_transition(),
            final(message_handler).spec_event_flag() == old(message_handler).spec_event_flag(),
            ({
                let rx = old(self).spec_rx();
                if !isdu_request_valid(rx) {
                    &&& r == Err::<(), IoLinkError>(IoLinkError::InvalidData)
                    &&& final(application_layer).spec_od_handler() == old(application_layer).spec_od_handler()
                    &&& match isdu_next(old(self).spec_state(), IsduEvent::IsduError) {
                        Some((t, s)) => final(self).spec_state() == s
                            && final(self).spec_transition() == t,
                        None => final(self).spec_state() == old(self).spec_state()
                            && final(self).spec_transition() == old(self).spec_transition(),
                    }
                } else {
                    &&& final(self).spec_state() == old(self).spec_state()
                    &&& final(self).spec_transition() == old(self).spec_transition()
                    &&& if isdu_request_data(rx).len() > MAX_ISDU_LENGTH {
                        &&& r == Err::<(), IoLinkError>(IoLinkError::InvalidLength)
                        &&& final(application_layer).spec_od_handler() == old(application_layer).spec_od_handler()
                    } else {
                        final(application_layer).spec_od_handler() == al_od_isdu_ind(
                            old(application_layer).spec_od_handler(),
                            isdu_request_index(rx),
                            isdu_request_subindex(rx),
                            request_direction(rx[0] / 16)->0,
                            isdu_request_data(rx),
                        )
                    }
                }
            }),
    {
        self.expected_segment = 0;
        self.send_own(0x01, message_handler);
        match decode_isdu_request(self.rx_buffer.as_slice()) {
            None => {
                let _ = self.process_event(IsduEvent::IsduError);
                Err(IoLinkError::InvalidData)
            },
            Some(message) => {
                if message.data.len() > MAX_ISDU_LENGTH {
                    return Err(IoLinkError::InvalidLength);
                }
                application_layer.dl_isdu_transport_ind(message)
            },
        }
    }

    /// DL_ISDUTransport read response (+): the first `length` octets of
    /// `data` become the response.
    pub fn dl_isdu_transport_read_rsp(&mut self, length: u8, data: &[u8]) -> (r: IoLinkResult<()>)
        requires
            length <= data@.len(),
            length <= MAX_ISDU_LENGTH,
        ensures
            r is Ok,
            final(self).spec_tx() == isdu_read_success(data@.subrange(0, length as int)),
            final(self).spec_tx_ready(),
            final(self).spec_state() == old(self).spec_state(),
            final(self).spec_transition() == old(self).spec_transition(),
            final(self).spec_rx() == old(self).spec_rx(),
            final(self).spec_expected_segment() == old(self).spec_expected_segment(),
    {
        let part = vstd::slice::slice_subrange(data, 0, length as usize);
        self.tx_buffer = encode_read_success(part);
        self.tx_ready = true;
        Ok(())
    }

    /// DL_ISDUTransport write response (+).
    pub fn dl_isdu_transport_write_rsp(&mut self) -> (r: IoLinkResult<()>)
        ensures
            r is Ok,
            final(self).spec_tx() == isdu_write_success(),
            final(self).spec_tx_ready(),
            final(self).spec_state() == old(self).spec_state(),
            final(self).spec_transition() == old(self).spec_transition(),
            final(self).spec_rx() == old(self).spec_rx(),
            final(self).spec_expected_segment() == old(self).spec_expected_segment(),
    {
        self.tx_buffer = encode_write_success();
        self.tx_ready = true;
        Ok(())
    }

    /// DL_ISDUTransport read response (-).
    pub fn dl_isdu_transport_read_error_rsp(&mut self, error: u8, additional_error: u8) -> (r:
        IoLinkResult<()>)
        ensures
            r is Ok,
            final(self).spec_tx() == isdu_read_failure(error, additional_error),
            final(self).spec_tx_ready(),
            final(self).spec_state() == old(self).spec_state(),
            final(self).spec_transition() == old(self).spec_transition(),
            final(self).spec_rx() == old(self).spec_rx(),
            final(self).spec_expected_segment() == old(self).spec_expected_segment(),
    {
        self.tx_buffer = encode_read_failure(error, additional_error);
        self.tx_ready = true;
        Ok(())
    }

    /// DL_ISDUTransport write response (-).
    pub fn dl_isdu_transport_write_error_rsp(&mut self, error: u8, additional_error: u8) -> (r:
        IoLinkResult<()>)
        ensures
            r is Ok,
            final(self).spec_tx() == isdu_write_failure(error, additional_error),
            final(self).spec_tx_ready(),
            final(self).spec_state() == old(self).spec_state(),
            final(self).spec_transition() == old(self).spec_transition(),
            final(self).spec_rx() == old(self).spec_rx(),
            final(self).spec_expected_segment() == old(self).spec_expected_segment(),
    {
        self.tx_buffer = encode_write_failure(error, additional_error);
        self.tx_ready = true;
        Ok(())
    }

    /// IH_Conf: activates or deactivates the handler; a refused event is
    /// ignored.
    pub fn ih_conf(&mut self, state: ConfState) -> (r: IoLinkResult<()>)
        ensures
            r is Ok,
            final(self).spec_tx() == old(self).spec_tx(),
            final(self).spec_rx() == old(self).spec_rx(),
            ({
                let e = if state is Active {
                    IsduEvent::IhConfActive
                } else {
                    IsduEvent::IhConfInactive
                };
                match isdu_next(old(self).spec_state(), e) {
                    Some((t, s)) => final(self).spec_state() == s && final(self).spec_transition()
                        == t,
                    None => final(self).spec_state() == old(self).spec_state()
                        && final(self).spec_transition() == old(self).spec_transition(),
                }
            }),
    {
        let _ = match state {
            ConfState::Active => self.process_event(IsduEvent::IhConfActive),
            ConfState::Inactive => self.process_event(IsduEvent::IhConfInactive),
        };
        Ok(())
    }

    /// OD indication on the ISDU channel: the flow control octet says
    /// whether the master writes a request segment, starts a request, reads
    /// a response segment, has read the response, or aborts.
    pub fn od_ind(&mut self, od_ind_data: &OdIndData) -> (r: IoLinkResult<()>)
        ensures
            final(self).spec_tx() == old(self).spec_tx(),
            final(self).spec_tx_ready() == old(self).spec_tx_ready(),
            final(self).spec_expected_segment() == old(self).spec_expected_segment(),
            !(od_ind_data.com_channel is Isdu) ==> r == Err::<(), IoLinkError>(
                IoLinkError::InvalidEvent,
            ) && final(self).spec_state() == old(self).spec_state()
                && final(self).spec_transition() == old(self).spec_transition()
                && final(self).spec_rx() == old(self).spec_rx(),
            ({
                let d = od_ind_data;
                let overflow = d.rw_direction is Write && d.address_ctrl <= 0x0F && d.data@.len()
                    + old(self).spec_rx().len() > MAX_ISDU_FRAME;
                let e = isdu_od_event(
                    old(self).spec_state(),
                    old(self).spec_tx_ready(),
                    d.rw_direction,
                    d.address_ctrl,
                    d.req_length,
                );
                d.com_channel is Isdu ==> if overflow {
                    &&& r == Err::<(), IoLinkError>(IoLinkError::InvalidLength)
                    &&& final(self).spec_rx() == old(self).spec_rx()
                    &&& final(self).spec_state() == old(self).spec_state()
                    &&& final(self).spec_transition() == old(self).spec_transition()
                } else {
                    &&& final(self).spec_rx() == if isdu_flow_known(d.address_ctrl) && d.rw_direction is Write
                        && d.address_ctrl == FLOW_CTRL_START {
                        d.data@
                    } else if isdu_flow_known(d.address_ctrl) && d.rw_direction is Write && d.address_ctrl <= 0x0F {
                        old(self).spec_rx() + d.data@
                    } else {
                        old(self).spec_rx()
                    }
                    &&& match isdu_next(old(self).spec_state(), e) {
                        Some((t, s)) => final(self).spec_state() == s && final(self).spec_transition() == t,
                        None => final(self).spec_state() == old(self).spec_state()
                            && final(self).spec_transition() == old(self).spec_transition(),
                    }
                    &&& (r is Ok <==> isdu_flow_known(d.address_ctrl) && isdu_next(old(self).spec_state(), e) is Some)
                    &&& (r is Err ==> r == Err::<(), IoLinkError>(IoLinkError::InvalidEvent))
                }
            }),
    {
        match od_ind_data.com_channel {
            ComChannel::Isdu => {},
            _ => {
                return Err(IoLinkError::InvalidEvent);
            },
        }
        let flow = od_ind_data.address_ctrl;
        let is_count = flow <= 0x0F;
        let is_read = match od_ind_data.rw_direction {
            RwDirection::Read => true,
            RwDirection::Write => false,
        };
        if !(is_count || flow == FLOW_CTRL_START || flow == FLOW_CTRL_IDLE_1 || flow
            == FLOW_CTRL_IDLE_2 || flow == FLOW_CTRL_ABORT) {
            let res = self.process_event(IsduEvent::IsduError);
            if res.is_err() {
                return res;
            }
            return Err(IoLinkError::InvalidEvent);
        }
        if flow == FLOW_CTRL_ABORT {
            return self.process_event(IsduEvent::IsduAbort);
        }
        if is_count && !is_read {
            if od_ind_data.data.len() > MAX_ISDU_FRAME || self.rx_buffer.len() > MAX_ISDU_FRAME
                - od_ind_data.data.len() {
                return Err(IoLinkError::InvalidLength);
            }
            append(&mut self.rx_buffer, od_ind_data.data.as_slice());
            return self.process_event(IsduEvent::IsduWrite);
        }
        if is_count && is_read {
            let busy_or_idle = match self.state {
                IsduHandlerState::ISDURequest | IsduHandlerState::Inactive => false,
                _ => true,
            };
            if busy_or_idle {
                return self.process_event(IsduEvent::IsduRead(flow, od_ind_data.req_length));
            } else {
                return self.process_event(IsduEvent::IsduError);
            }
        }
        if flow == FLOW_CTRL_START && is_read {
            match self.state {
                IsduHandlerState::ISDURequest => {
                    return self.process_event(IsduEvent::IsduRecComplete);
                },
                IsduHandlerState::ISDUWait => {
                    if self.tx_ready {
                        return self.process_event(
                            IsduEvent::IsduRespStart(0, od_ind_data.req_length),
                        );
                    } else {
                        return self.process_event(IsduEvent::IsduRead(0, od_ind_data.req_length));
                    }
                },
                _ => {
                    return self.process_event(IsduEvent::IsduError);
                },
            }
        }
        if flow == FLOW_CTRL_START && !is_read {
            self.rx_buffer = vstd::slice::slice_to_vec(od_ind_data.data.as_slice());
            return self.process_event(IsduEvent::IsduStart);
        }
        if flow == FLOW_CTRL_IDLE_1 && is_read {
            return self.process_event(IsduEvent::IsduSendComplete);
        }
        self.process_event(IsduEvent::IsduError)
    }
}

/// Appending an octet leaves the XOR of the octets before it as it was.
proof fn lemma_xor_prefix_push(s: Seq<u8>, x: u8, k: int)
    requires
        0 <= k <= s.len(),
    ensures
        xor_prefix(s.push(x), k) == xor_prefix(s, k),
    decreases k,
{
    if k > 0 {
        lemma_xor_prefix_push(s, x, k - 1);
    }
}

/// The XOR over a whole ISDU closed by its check octet is zero.
pub proof fn chkpdu_closes(s: Seq<u8>)
    ensures
        xor_prefix(with_chkpdu(s), with_chkpdu(s).len() as int) == 0,
{
    let c = xor_prefix(s, s.len() as int);
    lemma_xor_prefix_push(s, c, s.len() as int);
    assert(with_chkpdu(s)[s.len() as int] == c);
    assert(c ^ c == 0u8) by (bit_vector);
}

/// Each segment of a response is the response, filled up with zeros, at
/// the segment's place: the segments sent one after another give back the
/// response.
pub proof fn segment_is_part_of_response(tx: Seq<u8>, k: int, n: int)
    requires
        0 <= k,
        0 < n,
        n * k < tx.len(),
    ensures
        ({
            let padded = tx + Seq::new(n as nat, |i: int| 0u8);
            &&& n * k + n <= padded.len()
            &&& response_segment(tx, k, n) == padded.subrange(n * k, n * k + n)
        }),
{
    let padded = tx + Seq::new(n as nat, |i: int| 0u8);
    let from = n * k;
    let to = from + n;
    if to > tx.len() {
        assert(response_segment(tx, k, n) =~= padded.subrange(from, to));
    } else {
        assert(response_segment(tx, k, n) =~= padded.subrange(from, to));
    }
}

/// A read response (+) announces its own length: the I-Service octet
/// carries the code 0xD and, up to 15 octets, the length of the whole
/// response in its low nibble; a longer response has a nibble of 1 and its
/// length in the next octet.
pub proof fn read_response_announces_length(data: Seq<u8>)
    requires
        data.len() <= MAX_ISDU_LENGTH,
    ensures
        ({
            let r = isdu_read_success(data);
            &&& r[0] / 16 == 0xD
            &&& if r.len() <= 15 {
                r[0] % 16 == r.len()
            } else {
                r[0] % 16 == 1 && r[1] == r.len()
            }
        }),
{
    let h = isdu_head(0xD, data.len());
    let r = isdu_read_success(data);
    assert(r.len() == h.len() + data.len() + 1);
    assert(r[0] == h[0]);
    if data.len() + 2 > 15 {
        assert(r[1] == h[1]);
    }
}


/// What an access on the ISDU channel does in the states where it ends or
/// cannot start a service: ABORT, read or written, ends the request (T9),
/// the wait (T10) or the response (T11) in Idle; a read of a segment count
/// while idle is answered with "no service" (T14) and stays idle.
pub proof fn isdu_abort_and_idle_read(tx_ready: bool, rw: RwDirection, flow: u8, n: u8)
    ensures
        isdu_next(
            IsduHandlerState::ISDURequest,
            isdu_od_event(IsduHandlerState::ISDURequest, tx_ready, rw, FLOW_CTRL_ABORT, n),
        ) == Some((IsduTransition::T9, IsduHandlerState::Idle)),
        isdu_next(
            IsduHandlerState::ISDUWait,
            isdu_od_event(IsduHandlerState::ISDUWait, tx_ready, rw, FLOW_CTRL_ABORT, n),
        ) == Some((IsduTransition::T10, IsduHandlerState::Idle)),
        isdu_next(
            IsduHandlerState::ISDUResponse,
            isdu_od_event(IsduHandlerState::ISDUResponse, tx_ready, rw, FLOW_CTRL_ABORT, n),
        ) == Some((IsduTransition::T11, IsduHandlerState::Idle)),
        flow <= 0x0F ==> isdu_next(
            IsduHandlerState::Idle,
            isdu_od_event(IsduHandlerState::Idle, tx_ready, RwDirection::Read, flow, n),
        ) == Some((IsduTransition::T14, IsduHandlerState::Idle)),
{
}

} // verus!
