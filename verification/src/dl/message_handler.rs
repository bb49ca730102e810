//! Message handler of the data link layer (7.2.2.2, 7.3.2): receives the
//! octets of a master message, checks it, hands its Process and On-request
//! Data to their handlers, and compiles and sends the response once its
//! data is set; it works in the operating mode and at the transmission rate
//! that DL_Mode gives it.
use vstd::prelude::*;
use crate::errors::{IoLinkError, IoLinkResult};
use crate::protocol::{
    ComChannel, ConfState, DeviceOperationMode, DlMode, MHInfo, PdStatus, RwDirection, Timer,
    TransmissionRate,
};
use crate::dl::mseq::{
    check_master_message, check_request, compile_response, decode_mc, device_response,
    expected_request_length, extract_od, extract_pd_out, mc_address, mc_channel, mc_direction,
    od_octets, od_octets_of, pd_out_octets, pd_out_octets_of, request_length, request_od,
    request_pd_out,
};
use crate::dev_config::on_req_data::{operate, pre_operate};
use crate::dev_config::process_data::{config_pd_in_length_in_bytes, config_pd_out_length_in_bytes};
use crate::dl::od_handler::{OdIndData, OnRequestDataHandler, od_ind_event, dl_od_next};
use crate::dl::pd_handler::{ProcessDataHandler, dl_pd_next, DlPdEvent};

verus! {

/// States of the message handler.
#[derive(Debug, Clone, Copy, PartialEq, Eq, Structural)]
pub enum MessageHandlerState {
    /// Inactive.
    Inactive,
    /// Idle.
    Idle,
    /// Receiving a message.
    GetMessage,
    /// Checking a received message.
    CheckMessage,
    /// Creating the response to a read or write request.
    CreateMessage(RwDirection),
}

/// Transitions of the message handler with work left for `poll`.
#[derive(Debug, Clone, Copy, PartialEq, Eq, Structural)]
pub enum MhTransition {
    /// Nothing to do.
    Tn,
    /// Activated.
    T1,
    /// Message complete.
    T4,
    /// Message valid.
    T5,
    /// Response sent.
    T6,
    /// Checksum error.
    T7,
    /// Wrong M-sequence type.
    T8,
    /// Frame time exceeded.
    T9,
    /// Cycle time exceeded.
    T10,
    /// Deactivated.
    T11,
}

/// Events of the message handler.
#[derive(Debug, Clone, Copy, PartialEq, Eq, Structural)]
pub enum MhEvent {
    /// MH_Conf active.
    MhConfActive,
    /// MH_Conf inactive.
    MhConfInactive,
    /// An octet arrived.
    PlTransfer,
    /// The message is complete.
    Completed,
    /// The message is valid: a read or a write request.
    NoError(RwDirection),
    /// The response is ready.
    Ready,
    /// Checksum error.
    ChecksumError,
    /// Wrong M-sequence type.
    TypeError,
    /// MaxCycleTime elapsed.
    TimerMaxCycle,
    /// MaxUARTframeTime elapsed.
    TimerMaxUARTFrame,
}

/// The state machine of the message handler; an event that is not accepted
/// keeps the state and clears the pending transition.
pub open spec fn mh_next(s: MessageHandlerState, e: MhEvent) -> (MhTransition, MessageHandlerState) {
    match (s, e) {
        (MessageHandlerState::Inactive, MhEvent::MhConfActive) => (
            MhTransition::T1,
            MessageHandlerState::Idle,
        ),
        (MessageHandlerState::Inactive, MhEvent::MhConfInactive) => (
            MhTransition::T11,
            MessageHandlerState::Inactive,
        ),
        (MessageHandlerState::Idle, MhEvent::PlTransfer) => (
            MhTransition::Tn,
            MessageHandlerState::GetMessage,
        ),
        (MessageHandlerState::Idle, MhEvent::TimerMaxCycle) => (
            MhTransition::T10,
            MessageHandlerState::Idle,
        ),
        (MessageHandlerState::GetMessage, MhEvent::PlTransfer) => (
            MhTransition::Tn,
            MessageHandlerState::GetMessage,
        ),
        (MessageHandlerState::GetMessage, MhEvent::Completed) => (
            MhTransition::T4,
            MessageHandlerState::CheckMessage,
        ),
        (MessageHandlerState::GetMessage, MhEvent::TimerMaxUARTFrame) => (
            MhTransition::T9,
            MessageHandlerState::Idle,
        ),
        (MessageHandlerState::CheckMessage, MhEvent::NoError(d)) => (
            MhTransition::T5,
            MessageHandlerState::CreateMessage(d),
        ),
        (MessageHandlerState::CheckMessage, MhEvent::ChecksumError) => (
            MhTransition::T7,
            MessageHandlerState::Idle,
        ),
        (MessageHandlerState::CheckMessage, MhEvent::TypeError) => (
            MhTransition::T8,
            MessageHandlerState::Idle,
        ),
        (MessageHandlerState::CreateMessage(_), MhEvent::Ready) => (
            MhTransition::T6,
            MessageHandlerState::Idle,
        ),
        _ => (MhTransition::Tn, s),
    }
}

/// The parts of a checked request message of the master, decoded from its
/// octets.
pub struct MasterRequest {
    /// Read or write, from the M-sequence control octet.
    pub rw_direction: RwDirection,
    /// Communication channel, from the M-sequence control octet.
    pub com_channel: ComChannel,
    /// Address or flow control, from the M-sequence control octet.
    pub address_ctrl: u8,
    /// Output Process Data of the message.
    pub pd_out: Vec<u8>,
    /// On-request Data that the master writes.
    pub od: Vec<u8>,
}

/// Longest master message in octets: control and check/type octets, 32
/// octets of Process Data and 32 of On-request Data.
pub const MAX_RX_FRAME_SIZE: usize = 66;

/// MaxUARTframeTime in microseconds at a transmission rate: the eleven bit
/// times of a UART frame and one bit time of gap, rounded up.
pub open spec fn max_uart_frame_time_us(rate: TransmissionRate) -> u32 {
    match rate {
        TransmissionRate::Com1 => 2500,
        TransmissionRate::Com2 => 313,
        TransmissionRate::Com3 => 53,
    }
}

/// MaxUARTframeTime in microseconds at a transmission rate.
pub fn max_uart_frame_time(rate: TransmissionRate) -> (r: u32)
    ensures
        r == max_uart_frame_time_us(rate),
{
    match rate {
        TransmissionRate::Com1 => 2500,
        TransmissionRate::Com2 => 313,
        TransmissionRate::Com3 => 53,
    }
}

/// Requests of the message handler to the physical layer.
#[derive(Debug, Clone)]
pub enum PlRequest {
    /// Start a timer for a duration in microseconds.
    StartTimer(Timer, u32),
    /// Restart a timer for a duration in microseconds.
    RestartTimer(Timer, u32),
    /// Stop a timer.
    StopTimer(Timer),
    /// Send a response message.
    Transfer(Vec<u8>),
}

/// What one `poll` of the message handler leaves to the caller: requests
/// to the physical layer, in order, and information for the DL-mode
/// handler.
#[derive(Debug, Clone)]
pub struct MhPollOutput {
    /// Requests to the physical layer.
    pub requests: Vec<PlRequest>,
    /// Information for the DL-mode handler.
    pub mh_info: Option<MHInfo>,
}

/// The response to a message of a mode is ready: its On-request Data was
/// set, and in OPERATE its Process Data too.
pub open spec fn response_ready(mode: DeviceOperationMode, od_ready: bool, pd_ready: bool) -> bool {
    od_ready && (mode is Operate ==> pd_ready)
}

/// The request that a complete master message holds, decoded in the mode
/// it was received in.
pub open spec fn decoded_request(rx: Seq<u8>, mode: DeviceOperationMode) -> (RwDirection, ComChannel, u8, Seq<u8>, Seq<u8>) {
    (mc_direction(rx[0]), mc_channel(rx[0]), mc_address(rx[0]), request_pd_out(rx), request_od(rx, mode))
}

/// What the work of T5 does to the On-request and Process Data handlers
/// and what it returns, for a request with direction `rw`, channel `ch`,
/// address or flow control `addr`, On-request Data `od` and output Process
/// Data `pd_out`, received in a mode with `od_len` octets of On-request
/// Data: in OPERATE, output Process Data of the wrong length is refused;
/// otherwise the Process Data goes to its handler (in OPERATE) and the
/// On-request Data to its handler.
pub open spec fn t5_outcome(
    operate: bool,
    rw: RwDirection,
    ch: ComChannel,
    addr: u8,
    od_len: u8,
    od: Seq<u8>,
    pd_out: Seq<u8>,
    od0: OnRequestDataHandler,
    od1: OnRequestDataHandler,
    pd0: ProcessDataHandler,
    pd1: ProcessDataHandler,
    r: IoLinkResult<()>,
) -> bool {
    if operate && pd_out.len() != 4 {
        &&& r == Err::<(), IoLinkError>(IoLinkError::InvalidLength)
        &&& od1 == od0
        &&& pd1 == pd0
    } else {
        &&& (operate ==> pd1.spec_output() == pd_out && (pd1.spec_transition(), pd1.spec_state())
            == dl_pd_next(pd0.spec_state(), DlPdEvent::PDInd(3)))
        &&& (!operate ==> pd1 == pd0)
        &&& r is Ok
        &&& od1.spec_data()@ == (rw, ch, addr, od_len, od)
        &&& match od_ind_event(rw, ch, addr) {
            Some(e) => (od1.spec_transition(), od1.spec_state()) == dl_od_next(od0.spec_state(), e),
            None => od1.spec_state() == od0.spec_state() && od1.spec_transition()
                == od0.spec_transition(),
        }
    }
}

/// What the states CheckMessage and CreateMessage do in one `poll`, from
/// the state `s`, pending transition `t`, received message `rx`, operating
/// mode, mode of the message, readiness and content of the response, and
/// the response octets `tx`: the new pending transition, state and
/// response octets. CheckMessage checks the message in the operating mode;
/// CreateMessage compiles the response once it is ready.
pub open spec fn mh_active(
    s: MessageHandlerState,
    t: MhTransition,
    rx: Seq<u8>,
    operate: DeviceOperationMode,
    rx_mode: DeviceOperationMode,
    od_ready: bool,
    pd_ready: bool,
    od: Seq<u8>,
    pd: Seq<u8>,
    event_flag: bool,
    pd_status: PdStatus,
    tx: Seq<u8>,
) -> (MhTransition, MessageHandlerState, Seq<u8>) {
    match s {
        MessageHandlerState::CheckMessage => {
            let next = match check_request(rx, operate) {
                Ok(rw) => mh_next(s, MhEvent::NoError(rw)),
                Err(IoLinkError::ChecksumError) => mh_next(s, MhEvent::ChecksumError),
                Err(IoLinkError::InvalidMseqType) => mh_next(s, MhEvent::TypeError),
                Err(_) => (t, s),
            };
            (next.0, next.1, tx)
        },
        MessageHandlerState::CreateMessage(rw) => if response_ready(rx_mode, od_ready, pd_ready) {
            let next = mh_next(s, MhEvent::Ready);
            (next.0, next.1, device_response(rx_mode, rw, od, pd, event_flag, pd_status))
        } else {
            (t, s, tx)
        },
        _ => (t, s, tx),
    }
}

/// The timers that the first octet of a master message starts:
/// MaxUARTframeTime, and in OPERATE MaxCycleTime as well, both with the
/// time of one UART frame at the transmission rate.
pub open spec fn mh_start_timers(mode: DeviceOperationMode, rate: TransmissionRate) -> Seq<PlRequest> {
    let d = max_uart_frame_time_us(rate);
    if mode is Operate {
        seq![
            PlRequest::StartTimer(Timer::MaxUARTframeTime, d),
            PlRequest::StartTimer(Timer::MaxCycleTime, d),
        ]
    } else {
        seq![PlRequest::StartTimer(Timer::MaxUARTframeTime, d)]
    }
}

/// What an octet `rx_byte` arriving does to the message handler `old`,
/// giving `new` and the request `r` to the physical layer.
pub open spec fn mh_received(old: MessageHandler, new: MessageHandler, rx_byte: u8, r: Seq<PlRequest>) -> bool {
    &&& new.same_settings(&old)
    &&& new.spec_event_flag() == old.spec_event_flag()
    &&& new.spec_pd_status() == old.spec_pd_status()
    &&& new.spec_od_response() == old.spec_od_response()
    &&& new.spec_pd_response() == old.spec_pd_response()
    &&& new.spec_od_ready() == old.spec_od_ready()
    &&& new.spec_pd_ready() == old.spec_pd_ready()
    &&& new.spec_tx() == old.spec_tx()
    &&& match old.spec_state() {
            MessageHandlerState::Idle => {
                &&& new.spec_rx() == seq![rx_byte]
                &&& new.spec_expected_rx() == 0
                &&& new.spec_state() == MessageHandlerState::GetMessage
                &&& new.spec_transition() == MhTransition::Tn
                &&& new.spec_rx_frame_mode() == old.spec_rx_frame_mode()
                &&& r == mh_start_timers(old.spec_operate_state(), old.spec_transmission_rate())
            },
            MessageHandlerState::GetMessage => {
                let rx = if old.spec_rx().len() < MAX_RX_FRAME_SIZE {
                    old.spec_rx().push(rx_byte)
                } else {
                    old.spec_rx()
                };
                let expected = if rx.len() == 2 {
                    expected_request_length(rx[0], old.spec_operate_state()) as u8
                } else {
                    old.spec_expected_rx()
                };
                &&& new.spec_rx() == rx
                &&& new.spec_expected_rx() == expected
                &&& r == seq![
                    PlRequest::RestartTimer(
                        Timer::MaxUARTframeTime,
                        max_uart_frame_time_us(old.spec_transmission_rate()),
                    ),
                ]
                &&& if expected == rx.len() {
                    &&& new.spec_state() == MessageHandlerState::CheckMessage
                    &&& new.spec_transition() == MhTransition::T4
                    &&& new.spec_rx_frame_mode() == old.spec_operate_state()
                } else {
                    &&& new.spec_state() == MessageHandlerState::GetMessage
                    &&& new.spec_transition() == MhTransition::Tn
                    &&& new.spec_rx_frame_mode() == old.spec_rx_frame_mode()
                }
            },
            _ => {
                &&& r.len() == 0
                &&& new.spec_rx() == old.spec_rx()
                &&& new.spec_expected_rx() == old.spec_expected_rx()
                &&& new.spec_rx_frame_mode() == old.spec_rx_frame_mode()
                &&& (new.spec_transition(), new.spec_state()) == mh_next(
                    old.spec_state(),
                    MhEvent::PlTransfer,
                )
            },
        }
}

/// The message handler.
pub struct MessageHandler {
    state: MessageHandlerState,
    exec_transition: MhTransition,
    device_operate_state: DeviceOperationMode,
    pd_in_valid_status: PdStatus,
    transmission_rate: TransmissionRate,
    event_flag: bool,
    pd_status: PdStatus,
    rx_frame_operation_state: DeviceOperationMode,
    od_response: Vec<u8>,
    pd_response: Vec<u8>,
    od_ready: bool,
    pd_ready: bool,
    rx_buffer: Vec<u8>,
    expected_rx_bytes: u8,
    tx_buffer: Vec<u8>,
}

impl MessageHandler {
    /// The state.
    pub closed spec fn spec_state(&self) -> MessageHandlerState {
        self.state
    }

    /// The pending transition.
    pub closed spec fn spec_transition(&self) -> MhTransition {
        self.exec_transition
    }

    /// The operating mode that DL_Mode set.
    pub closed spec fn spec_operate_state(&self) -> DeviceOperationMode {
        self.device_operate_state
    }

    /// The transmission rate.
    pub closed spec fn spec_transmission_rate(&self) -> TransmissionRate {
        self.transmission_rate
    }

    /// The Event flag of the next response.
    pub closed spec fn spec_event_flag(&self) -> bool {
        self.event_flag
    }

    /// The validity that the application gave to its input Process Data.
    pub closed spec fn spec_pd_in_valid_status(&self) -> PdStatus {
        self.pd_in_valid_status
    }

    /// The Process Data status of the next response.
    pub closed spec fn spec_pd_status(&self) -> PdStatus {
        self.pd_status
    }

    /// The operating mode of the message being handled.
    pub closed spec fn spec_rx_frame_mode(&self) -> DeviceOperationMode {
        self.rx_frame_operation_state
    }

    /// The On-request Data octets of the next response.
    pub closed spec fn spec_od_response(&self) -> Seq<u8> {
        self.od_response@
    }

    /// The Process Data octets of the next response.
    pub closed spec fn spec_pd_response(&self) -> Seq<u8> {
        self.pd_response@
    }

    /// The On-request Data of the next response was set since the last
    /// response was sent.
    pub closed spec fn spec_od_ready(&self) -> bool {
        self.od_ready
    }

    /// The Process Data of the next response was set since the last
    /// response was sent.
    pub closed spec fn spec_pd_ready(&self) -> bool {
        self.pd_ready
    }

    /// The octets of the master message received so far.
    pub closed spec fn spec_rx(&self) -> Seq<u8> {
        self.rx_buffer@
    }

    /// The length of the master message being received, once its first
    /// two octets are in; 0 before.
    pub closed spec fn spec_expected_rx(&self) -> u8 {
        self.expected_rx_bytes
    }

    /// The compiled response waiting to be sent.
    pub closed spec fn spec_tx(&self) -> Seq<u8> {
        self.tx_buffer@
    }

    /// The received message, its expected length and the mode it was
    /// received in are the same in both.
    pub open spec fn same_rx(&self, other: &MessageHandler) -> bool {
        &&& self.spec_rx() == other.spec_rx()
        &&& self.spec_expected_rx() == other.spec_expected_rx()
        &&& self.spec_rx_frame_mode() == other.spec_rx_frame_mode()
    }

    /// The receive and send buffers are the same in both.
    pub open spec fn same_buffers(&self, other: &MessageHandler) -> bool {
        &&& self.spec_rx() == other.spec_rx()
        &&& self.spec_expected_rx() == other.spec_expected_rx()
        &&& self.spec_tx() == other.spec_tx()
        &&& self.spec_od_ready() == other.spec_od_ready()
        &&& self.spec_pd_ready() == other.spec_pd_ready()
    }

    /// The parts of the message handler other than its state machine,
    /// Event flag and response octets are the same in both.
    pub open spec fn same_settings(&self, other: &MessageHandler) -> bool {
        &&& self.spec_operate_state() == other.spec_operate_state()
        &&& self.spec_transmission_rate() == other.spec_transmission_rate()
        &&& self.spec_pd_in_valid_status() == other.spec_pd_in_valid_status()
    }

    /// Inactive, STARTUP at COM1, Event flag clear, Process Data invalid.
    pub fn new() -> (r: MessageHandler)
        ensures
            r.spec_state() == MessageHandlerState::Inactive,
            r.spec_transition() == MhTransition::Tn,
            r.spec_operate_state() == DeviceOperationMode::Startup,
            r.spec_transmission_rate() == TransmissionRate::Com1,
            !r.spec_event_flag(),
            r.spec_pd_status() == PdStatus::Invalid,
            r.spec_pd_in_valid_status() == PdStatus::Invalid,
            r.spec_od_response() == Seq::<u8>::empty(),
            r.spec_pd_response() == Seq::<u8>::empty(),
            !r.spec_od_ready(),
            !r.spec_pd_ready(),
            r.spec_rx() == Seq::<u8>::empty(),
            r.spec_expected_rx() == 0,
            r.spec_tx() == Seq::<u8>::empty(),
    {
        MessageHandler {
            state: MessageHandlerState::Inactive,
            exec_transition: MhTransition::Tn,
            device_operate_state: DeviceOperationMode::Startup,
            pd_in_valid_status: PdStatus::Invalid,
            transmission_rate: TransmissionRate::Com1,
            event_flag: false,
            pd_status: PdStatus::Invalid,
            rx_frame_operation_state: DeviceOperationMode::Startup,
            od_response: Vec::new(),
            pd_response: Vec::new(),
            od_ready: false,
            pd_ready: false,
            rx_buffer: Vec::new(),
            expected_rx_bytes: 0,
            tx_buffer: Vec::new(),
        }
    }

    /// Feeds one event to the state machine.
    pub fn process_event(&mut self, event: MhEvent) -> (r: IoLinkResult<()>)
        ensures
            r is Ok,
            (final(self).spec_transition(), final(self).spec_state()) == mh_next(
                old(self).spec_state(),
                event,
            ),
            final(self).spec_rx_frame_mode() == old(self).spec_rx_frame_mode(),
            final(self).same_settings(old(self)),
            final(self).spec_event_flag() == old(self).spec_event_flag(),
            final(self).spec_pd_status() == old(self).spec_pd_status(),
            final(self).spec_od_response() == old(self).spec_od_response(),
            final(self).spec_pd_response() == old(self).spec_pd_response(),
            final(self).same_buffers(old(self)),
    {
        let (t, s) = match (self.state, event) {
            (MessageHandlerState::Inactive, MhEvent::MhConfActive) => (
                MhTransition::T1,
                MessageHandlerState::Idle,
            ),
            (MessageHandlerState::Inactive, MhEvent::MhConfInactive) => (
                MhTransition::T11,
                MessageHandlerState::Inactive,
            ),
            (MessageHandlerState::Idle, MhEvent::PlTransfer) => (
                MhTransition::Tn,
                MessageHandlerState::GetMessage,
            ),
            (MessageHandlerState::Idle, MhEvent::TimerMaxCycle) => (
                MhTransition::T10,
                MessageHandlerState::Idle,
            ),
            (MessageHandlerState::GetMessage, MhEvent::PlTransfer) => (
                MhTransition::Tn,
                MessageHandlerState::GetMessage,
            ),
            (MessageHandlerState::GetMessage, MhEvent::Completed) => (
                MhTransition::T4,
                MessageHandlerState::CheckMessage,
            ),
            (MessageHandlerState::GetMessage, MhEvent::TimerMaxUARTFrame) => (
                MhTransition::T9,
                MessageHandlerState::Idle,
            ),
            (MessageHandlerState::CheckMessage, MhEvent::NoError(d)) => (
                MhTransition::T5,
                MessageHandlerState::CreateMessage(d),
            ),
            (MessageHandlerState::CheckMessage, MhEvent::ChecksumError) => (
                MhTransition::T7,
                MessageHandlerState::Idle,
            ),
            (MessageHandlerState::CheckMessage, MhEvent::TypeError) => (
                MhTransition::T8,
                MessageHandlerState::Idle,
            ),
            (MessageHandlerState::CreateMessage(_), MhEvent::Ready) => (
                MhTransition::T6,
                MessageHandlerState::Idle,
            ),
            _ => (MhTransition::Tn, self.state),
        };
        self.exec_transition = t;
        self.state = s;
        Ok(())
    }

    /// Work of T5, a valid request: in OPERATE its output Process Data, which
    /// must have the configured length, goes to the Process Data handler
    /// with the configured input length; then its On-request Data, with the
    /// number of octets of the message's mode, goes to the On-request Data
    /// handler.
    pub fn execute_t5(
        &mut self,
        request: &MasterRequest,
        od_handler: &mut OnRequestDataHandler,
        pd_handler: &mut ProcessDataHandler,
    ) -> (r: IoLinkResult<()>)
        ensures
            final(self).spec_state() == old(self).spec_state(),
            final(self).spec_transition() == old(self).spec_transition(),
            final(self).same_settings(old(self)),
            final(self).spec_event_flag() == old(self).spec_event_flag(),
            final(self).spec_od_response() == old(self).spec_od_response(),
            final(self).spec_pd_response() == old(self).spec_pd_response(),
            final(self).same_buffers(old(self)),
            final(self).spec_pd_status() == old(self).spec_pd_status(),
            t5_outcome(
                old(self).spec_operate_state() is Operate,
                request.rw_direction,
                request.com_channel,
                request.address_ctrl,
                od_octets(old(self).spec_rx_frame_mode()),
                request.od@,
                request.pd_out@,
                *old(od_handler),
                *final(od_handler),
                *old(pd_handler),
                *final(pd_handler),
                r,
            ),
            r is Ok ==> final(self).spec_rx_frame_mode() == old(self).spec_operate_state(),
            r is Err ==> final(self).spec_rx_frame_mode() == old(self).spec_rx_frame_mode(),
    {
        if let DeviceOperationMode::Operate = self.device_operate_state {
            if request.pd_out.len() != config_pd_out_length_in_bytes() as usize {
                return Err(IoLinkError::InvalidLength);
            }
            let _ = pd_handler.pd_ind(0, config_pd_in_length_in_bytes(), 0, request.pd_out.as_slice());
        }
        let od_data_len: u8 = match self.rx_frame_operation_state {
            DeviceOperationMode::Startup => 1,
            DeviceOperationMode::PreOperate => pre_operate::od_length(),
            DeviceOperationMode::Operate => operate::od_length(),
        };
        let data = OdIndData {
            rw_direction: request.rw_direction,
            com_channel: request.com_channel,
            address_ctrl: request.address_ctrl,
            req_length: od_data_len,
            data: vstd::slice::slice_to_vec(request.od.as_slice()),
        };
        let _ = od_handler.od_ind(&data);
        self.rx_frame_operation_state = self.device_operate_state;
        Ok(())
    }

    /// The states CheckMessage and CreateMessage: a received message is
    /// checked, and a response, once ready, is compiled.
    fn poll_active_states(&mut self)
        ensures
            final(self).same_settings(old(self)),
            final(self).spec_event_flag() == old(self).spec_event_flag(),
            final(self).spec_pd_status() == old(self).spec_pd_status(),
            final(self).spec_od_response() == old(self).spec_od_response(),
            final(self).spec_pd_response() == old(self).spec_pd_response(),
            final(self).spec_rx_frame_mode() == old(self).spec_rx_frame_mode(),
            final(self).spec_rx() == old(self).spec_rx(),
            final(self).spec_expected_rx() == old(self).spec_expected_rx(),
            final(self).spec_od_ready() == old(self).spec_od_ready(),
            final(self).spec_pd_ready() == old(self).spec_pd_ready(),
            (final(self).spec_transition(), final(self).spec_state(), final(self).spec_tx()) == mh_active(
                old(self).spec_state(),
                old(self).spec_transition(),
                old(self).spec_rx(),
                old(self).spec_operate_state(),
                old(self).spec_rx_frame_mode(),
                old(self).spec_od_ready(),
                old(self).spec_pd_ready(),
                old(self).spec_od_response(),
                old(self).spec_pd_response(),
                old(self).spec_event_flag(),
                old(self).spec_pd_status(),
                old(self).spec_tx(),
            ),
    {
        match self.state {
            MessageHandlerState::CheckMessage => {
                let _ = self.execute_check_message();
            },
            MessageHandlerState::CreateMessage(rw) => {
                let ready = self.od_ready && match self.rx_frame_operation_state {
                    DeviceOperationMode::Operate => self.pd_ready,
                    _ => true,
                };
                if ready {
                    self.execute_create_message(rw);
                    let _ = self.process_event(MhEvent::Ready);
                }
            },
            _ => {},
        }
    }

    /// Checks the received message in the current operating mode.
    fn parse_message(&self) -> (r: IoLinkResult<RwDirection>)
        ensures
            r == check_request(self.spec_rx(), self.spec_operate_state()),
    {
        check_master_message(self.rx_buffer.as_slice(), self.device_operate_state)
    }

    /// State CheckMessage: a valid message becomes a read or write request
    /// to answer; a checksum error or a wrong M-sequence type drops it,
    /// and the error is returned.
    fn execute_check_message(&mut self) -> (r: IoLinkResult<()>)
        requires
            old(self).spec_state() is CheckMessage,
        ensures
            final(self).same_settings(old(self)),
            final(self).same_rx(old(self)),
            final(self).same_buffers(old(self)),
            final(self).spec_event_flag() == old(self).spec_event_flag(),
            final(self).spec_pd_status() == old(self).spec_pd_status(),
            final(self).spec_od_response() == old(self).spec_od_response(),
            final(self).spec_pd_response() == old(self).spec_pd_response(),
            r is Ok <==> check_request(old(self).spec_rx(), old(self).spec_operate_state()) is Ok,
            r is Err ==> r->Err_0 == check_request(old(self).spec_rx(), old(self).spec_operate_state())->Err_0,
            (final(self).spec_transition(), final(self).spec_state(), final(self).spec_tx()) == mh_active(
                old(self).spec_state(),
                old(self).spec_transition(),
                old(self).spec_rx(),
                old(self).spec_operate_state(),
                old(self).spec_rx_frame_mode(),
                old(self).spec_od_ready(),
                old(self).spec_pd_ready(),
                old(self).spec_od_response(),
                old(self).spec_pd_response(),
                old(self).spec_event_flag(),
                old(self).spec_pd_status(),
                old(self).spec_tx(),
            ),
    {
        match self.parse_message() {
            Ok(rw) => self.process_event(MhEvent::NoError(rw)),
            Err(e) => {
                match e {
                    IoLinkError::ChecksumError => {
                        let _ = self.process_event(MhEvent::ChecksumError);
                    },
                    IoLinkError::InvalidMseqType => {
                        let _ = self.process_event(MhEvent::TypeError);
                    },
                    _ => {},
                }
                Err(e)
            },
        }
    }

    /// State CreateMessage: compiles the response to a request in the mode
    /// the message was received in.
    fn execute_create_message(&mut self, rw: RwDirection)
        ensures
            final(self).spec_tx() == device_response(
                old(self).spec_rx_frame_mode(),
                rw,
                old(self).spec_od_response(),
                old(self).spec_pd_response(),
                old(self).spec_event_flag(),
                old(self).spec_pd_status(),
            ),
            final(self).same_settings(old(self)),
            final(self).same_rx(old(self)),
            final(self).spec_state() == old(self).spec_state(),
            final(self).spec_transition() == old(self).spec_transition(),
            final(self).spec_event_flag() == old(self).spec_event_flag(),
            final(self).spec_pd_status() == old(self).spec_pd_status(),
            final(self).spec_od_response() == old(self).spec_od_response(),
            final(self).spec_pd_response() == old(self).spec_pd_response(),
            final(self).spec_od_ready() == old(self).spec_od_ready(),
            final(self).spec_pd_ready() == old(self).spec_pd_ready(),
    {
        self.tx_buffer = compile_response(
            self.rx_frame_operation_state,
            rw,
            self.od_response.as_slice(),
            self.pd_response.as_slice(),
            self.event_flag,
            self.pd_status,
        );
    }

    /// Work of T5 on the received message: its request, decoded in the
    /// mode it was received in, goes to the handlers.
    fn execute_t5_received(
        &mut self,
        od_handler: &mut OnRequestDataHandler,
        pd_handler: &mut ProcessDataHandler,
    ) -> (r: IoLinkResult<()>)
        ensures
            final(self).spec_state() == old(self).spec_state(),
            final(self).spec_transition() == old(self).spec_transition(),
            final(self).same_settings(old(self)),
            final(self).spec_event_flag() == old(self).spec_event_flag(),
            final(self).spec_od_response() == old(self).spec_od_response(),
            final(self).spec_pd_response() == old(self).spec_pd_response(),
            final(self).same_buffers(old(self)),
            final(self).spec_pd_status() == old(self).spec_pd_status(),
            r is Ok ==> final(self).spec_rx_frame_mode() == old(self).spec_operate_state(),
            r is Err ==> final(self).spec_rx_frame_mode() == old(self).spec_rx_frame_mode(),
            old(self).spec_rx().len() == 0 ==> r == Err::<(), IoLinkError>(IoLinkError::InvalidData)
                && *final(od_handler) == *old(od_handler) && *final(pd_handler) == *old(pd_handler),
            old(self).spec_rx().len() > 0 ==> ({
                let q = decoded_request(old(self).spec_rx(), old(self).spec_rx_frame_mode());
                t5_outcome(
                    old(self).spec_operate_state() is Operate,
                    q.0,
                    q.1,
                    q.2,
                    od_octets(old(self).spec_rx_frame_mode()),
                    q.4,
                    q.3,
                    *old(od_handler),
                    *final(od_handler),
                    *old(pd_handler),
                    *final(pd_handler),
                    r,
                )
            }),
    {
        if self.rx_buffer.len() == 0 {
            return Err(IoLinkError::InvalidData);
        }
        let (rw, channel, address) = decode_mc(self.rx_buffer[0]);
        let request = MasterRequest {
            rw_direction: rw,
            com_channel: channel,
            address_ctrl: address,
            pd_out: extract_pd_out(self.rx_buffer.as_slice()),
            od: extract_od(self.rx_buffer.as_slice(), self.rx_frame_operation_state),
        };
        self.execute_t5(&request, od_handler, pd_handler)
    }

    /// Does the work of the pending transition, then that of the state:
    /// T4 stops MaxUARTframeTime; T5 hands the request to the On-request
    /// and Process Data handlers, and its error ends the poll; T6 sends
    /// the response; T8 reports an illegal message type to the DL-mode
    /// handler; T9 stops both timers. Then a received message is checked
    /// and a ready response compiled.
    pub fn poll(
        &mut self,
        od_handler: &mut OnRequestDataHandler,
        pd_handler: &mut ProcessDataHandler,
    ) -> (r: (IoLinkResult<()>, MhPollOutput))
        ensures
            final(self).same_settings(old(self)),
            final(self).spec_event_flag() == old(self).spec_event_flag(),
            final(self).spec_pd_status() == old(self).spec_pd_status(),
            final(self).spec_od_response() == old(self).spec_od_response(),
            final(self).spec_pd_response() == old(self).spec_pd_response(),
            final(self).spec_rx() == old(self).spec_rx(),
            final(self).spec_expected_rx() == old(self).spec_expected_rx(),
            old(self).spec_transition() is T5 ==> r.1.requests@.len() == 0 && r.1.mh_info is None,
            !(old(self).spec_transition() is T5) ==> *final(od_handler) == *old(od_handler)
                && *final(pd_handler) == *old(pd_handler),
            old(self).spec_transition() is T5 && old(self).spec_rx().len() == 0 ==> r.0
                == Err::<(), IoLinkError>(IoLinkError::InvalidData) && *final(od_handler)
                == *old(od_handler) && *final(pd_handler) == *old(pd_handler),
            old(self).spec_transition() is T5 && old(self).spec_rx().len() > 0 ==> ({
                let q = decoded_request(old(self).spec_rx(), old(self).spec_rx_frame_mode());
                t5_outcome(
                    old(self).spec_operate_state() is Operate,
                    q.0,
                    q.1,
                    q.2,
                    od_octets(old(self).spec_rx_frame_mode()),
                    q.4,
                    q.3,
                    *old(od_handler),
                    *final(od_handler),
                    *old(pd_handler),
                    *final(pd_handler),
                    r.0,
                )
            }),
            old(self).spec_transition() is T4 ==> r.1.requests@.len() == 1 && r.1.requests@[0] matches PlRequest::StopTimer(Timer::MaxUARTframeTime),
            old(self).spec_transition() is T6 ==> r.1.requests@.len() == 1 && (r.1.requests@[0] matches PlRequest::Transfer(v) && v@ == old(self).spec_tx()),
            old(self).spec_transition() is T9 ==> r.1.requests@.len() == 2 && (r.1.requests@[0] matches PlRequest::StopTimer(Timer::MaxUARTframeTime)) && (r.1.requests@[1] matches PlRequest::StopTimer(Timer::MaxCycleTime)),
            !(old(self).spec_transition() is T4 || old(self).spec_transition() is T6 || old(self).spec_transition() is T9) ==> r.1.requests@.len() == 0,
            r.1.mh_info == if old(self).spec_transition() is T8 {
                Some(MHInfo::IllegalMessagetype)
            } else {
                None
            },
            ({
                let sent = old(self).spec_transition() is T6;
                let od_ready = !sent && old(self).spec_od_ready();
                let pd_ready = !sent && old(self).spec_pd_ready();
                let tx = if sent {
                    Seq::<u8>::empty()
                } else {
                    old(self).spec_tx()
                };
                if r.0 is Err {
                    &&& old(self).spec_transition() is T5
                    &&& final(self).spec_state() == old(self).spec_state()
                    &&& final(self).spec_transition() == MhTransition::Tn
                    &&& final(self).spec_rx_frame_mode() == old(self).spec_rx_frame_mode()
                    &&& final(self).spec_od_ready() == od_ready
                    &&& final(self).spec_pd_ready() == pd_ready
                    &&& final(self).spec_tx() == tx
                } else {
                    let rx_mode = if old(self).spec_transition() is T5 {
                        old(self).spec_operate_state()
                    } else {
                        old(self).spec_rx_frame_mode()
                    };
                    &&& final(self).spec_rx_frame_mode() == rx_mode
                    &&& final(self).spec_od_ready() == od_ready
                    &&& final(self).spec_pd_ready() == pd_ready
                    &&& (final(self).spec_transition(), final(self).spec_state(), final(self).spec_tx())
                        == mh_active(
                        old(self).spec_state(),
                        MhTransition::Tn,
                        old(self).spec_rx(),
                        old(self).spec_operate_state(),
                        rx_mode,
                        od_ready,
                        pd_ready,
                        old(self).spec_od_response(),
                        old(self).spec_pd_response(),
                        old(self).spec_event_flag(),
                        old(self).spec_pd_status(),
                        tx,
                    )
                }
            }),
    {
        let (res, out) = self.poll_transition(od_handler, pd_handler);
        if res.is_err() {
            return (res, out);
        }
        self.poll_active_states();
        (Ok(()), out)
    }

    /// The work of the pending transition, which is consumed.
    fn poll_transition(
        &mut self,
        od_handler: &mut OnRequestDataHandler,
        pd_handler: &mut ProcessDataHandler,
    ) -> (r: (IoLinkResult<()>, MhPollOutput))
        ensures
            final(self).same_settings(old(self)),
            final(self).spec_event_flag() == old(self).spec_event_flag(),
            final(self).spec_pd_status() == old(self).spec_pd_status(),
            final(self).spec_od_response() == old(self).spec_od_response(),
            final(self).spec_pd_response() == old(self).spec_pd_response(),
            final(self).spec_rx() == old(self).spec_rx(),
            final(self).spec_expected_rx() == old(self).spec_expected_rx(),
            final(self).spec_state() == old(self).spec_state(),
            final(self).spec_transition() == MhTransition::Tn,
            r.0 is Err ==> old(self).spec_transition() is T5,
            final(self).spec_rx_frame_mode() == if old(self).spec_transition() is T5 && r.0 is Ok {
                old(self).spec_operate_state()
            } else {
                old(self).spec_rx_frame_mode()
            },
            final(self).spec_od_ready() == (!(old(self).spec_transition() is T6) && old(self).spec_od_ready()),
            final(self).spec_pd_ready() == (!(old(self).spec_transition() is T6) && old(self).spec_pd_ready()),
            final(self).spec_tx() == if old(self).spec_transition() is T6 {
                Seq::<u8>::empty()
            } else {
                old(self).spec_tx()
            },
            old(self).spec_transition() is T5 ==> r.1.requests@.len() == 0 && r.1.mh_info is None,
            !(old(self).spec_transition() is T5) ==> *final(od_handler) == *old(od_handler)
                && *final(pd_handler) == *old(pd_handler),
            old(self).spec_transition() is T5 && old(self).spec_rx().len() == 0 ==> r.0
                == Err::<(), IoLinkError>(IoLinkError::InvalidData) && *final(od_handler)
                == *old(od_handler) && *final(pd_handler) == *old(pd_handler),
            old(self).spec_transition() is T5 && old(self).spec_rx().len() > 0 ==> ({
                let q = decoded_request(old(self).spec_rx(), old(self).spec_rx_frame_mode());
                t5_outcome(
                    old(self).spec_operate_state() is Operate,
                    q.0,
                    q.1,
                    q.2,
                    od_octets(old(self).spec_rx_frame_mode()),
                    q.4,
                    q.3,
                    *old(od_handler),
                    *final(od_handler),
                    *old(pd_handler),
                    *final(pd_handler),
                    r.0,
                )
            }),
            old(self).spec_transition() is T4 ==> r.1.requests@.len() == 1 && (r.1.requests@[0] matches PlRequest::StopTimer(Timer::MaxUARTframeTime)),
            old(self).spec_transition() is T6 ==> r.1.requests@.len() == 1 && (r.1.requests@[0] matches PlRequest::Transfer(v) && v@ == old(self).spec_tx()),
            old(self).spec_transition() is T9 ==> r.1.requests@.len() == 2 && (r.1.requests@[0] matches PlRequest::StopTimer(Timer::MaxUARTframeTime)) && (r.1.requests@[1] matches PlRequest::StopTimer(Timer::MaxCycleTime)),
            !(old(self).spec_transition() is T4 || old(self).spec_transition() is T6 || old(self).spec_transition() is T9) ==> r.1.requests@.len() == 0,
            r.1.mh_info == if old(self).spec_transition() is T8 {
                Some(MHInfo::IllegalMessagetype)
            } else {
                None
            },
    {
        let t = self.exec_transition;
        self.exec_transition = MhTransition::Tn;
        let mut requests: Vec<PlRequest> = Vec::new();
        let mut mh_info: Option<MHInfo> = None;
        match t {
            MhTransition::T4 => {
                requests.push(PlRequest::StopTimer(Timer::MaxUARTframeTime));
            },
            MhTransition::T5 => {
                let res = self.execute_t5_received(od_handler, pd_handler);
                if res.is_err() {
                    return (res, MhPollOutput { requests, mh_info });
                }
            },
            MhTransition::T6 => {
                let mut frame: Vec<u8> = Vec::new();
                core::mem::swap(&mut frame, &mut self.tx_buffer);
                self.od_ready = false;
                self.pd_ready = false;
                requests.push(PlRequest::Transfer(frame));
            },
            MhTransition::T8 => {
                mh_info = Some(MHInfo::IllegalMessagetype);
            },
            MhTransition::T9 => {
                requests.push(PlRequest::StopTimer(Timer::MaxUARTframeTime));
                requests.push(PlRequest::StopTimer(Timer::MaxCycleTime));
            },
            _ => {},
        }
        (Ok(()), MhPollOutput { requests, mh_info })
    }

    /// The pending work is a page write whose message is too short for the
    /// On-request Data of the mode it was received in, which the page
    /// handlers could not take.
    pub fn pending_write_too_short(&self) -> (r: bool)
        ensures
            r == ({
                let rx = self.spec_rx();
                &&& self.spec_transition() is T5
                &&& rx.len() > 0
                &&& mc_direction(rx[0]) is Write
                &&& mc_channel(rx[0]) is Page
                &&& rx.len() < 2 + pd_out_octets(self.spec_rx_frame_mode()) + od_octets(
                    self.spec_rx_frame_mode(),
                )
            }),
    {
        let pending = match self.exec_transition {
            MhTransition::T5 => true,
            _ => false,
        };
        if !pending || self.rx_buffer.len() == 0 {
            return false;
        }
        let (rw, channel, _) = decode_mc(self.rx_buffer[0]);
        let page_write = match (rw, channel) {
            (RwDirection::Write, ComChannel::Page) => true,
            _ => false,
        };
        let needed = 2 + pd_out_octets_of(self.rx_frame_operation_state) as usize
            + od_octets_of(self.rx_frame_operation_state) as usize;
        page_write && self.rx_buffer.len() < needed
    }

    /// MH_Conf: activates or deactivates the message handler.
    pub fn mh_conf_update(&mut self, mh_conf: ConfState)
        ensures
            (final(self).spec_transition(), final(self).spec_state()) == mh_next(
                old(self).spec_state(),
                if mh_conf is Active {
                    MhEvent::MhConfActive
                } else {
                    MhEvent::MhConfInactive
                },
            ),
            final(self).same_settings(old(self)),
            final(self).spec_event_flag() == old(self).spec_event_flag(),
            final(self).spec_od_response() == old(self).spec_od_response(),
            final(self).spec_pd_response() == old(self).spec_pd_response(),
    {
        let event = match mh_conf {
            ConfState::Active => MhEvent::MhConfActive,
            ConfState::Inactive => MhEvent::MhConfInactive,
        };
        let _ = self.process_event(event);
    }

    /// An octet of a master message arrived. In Idle it starts a message,
    /// MaxUARTframeTime, and in OPERATE MaxCycleTime; while a message is received it is appended (where
    /// there is room), MaxUARTframeTime restarts, the first two octets
    /// give the length of the message, and a message of that length is
    /// complete: it belongs to the current operating mode and is checked
    /// next. In any other state the octet is ignored.
    pub fn pl_transfer_ind(&mut self, rx_byte: u8) -> (r: Vec<PlRequest>)
        ensures
            mh_received(*old(self), *final(self), rx_byte, r@),
    {
        let current = self.state;
        let _ = self.process_event(MhEvent::PlTransfer);
        match current {
            MessageHandlerState::Idle => {
                self.rx_buffer = Vec::new();
                self.rx_buffer.push(rx_byte);
                self.expected_rx_bytes = 0;
                assert(self.rx_buffer@ =~= seq![rx_byte]);
                let frame_time = max_uart_frame_time(self.transmission_rate);
                let mut requests: Vec<PlRequest> = Vec::new();
                requests.push(PlRequest::StartTimer(Timer::MaxUARTframeTime, frame_time));
                if let DeviceOperationMode::Operate = self.device_operate_state {
                    requests.push(PlRequest::StartTimer(Timer::MaxCycleTime, frame_time));
                }
                assert(requests@ =~= mh_start_timers(self.device_operate_state, self.transmission_rate));
                requests
            },
            MessageHandlerState::GetMessage => {
                if self.rx_buffer.len() < MAX_RX_FRAME_SIZE {
                    self.rx_buffer.push(rx_byte);
                }
                let request = PlRequest::RestartTimer(
                    Timer::MaxUARTframeTime,
                    max_uart_frame_time(self.transmission_rate),
                );
                if self.rx_buffer.len() == 2 {
                    self.expected_rx_bytes = request_length(self.rx_buffer[0], self.device_operate_state);
                }
                if self.expected_rx_bytes as usize == self.rx_buffer.len() {
                    self.rx_frame_operation_state = self.device_operate_state;
                    let _ = self.process_event(MhEvent::Completed);
                }
                let mut requests: Vec<PlRequest> = Vec::new();
                requests.push(request);
                assert(requests@ =~= seq![request]);
                requests
            },
            _ => Vec::new(),
        }
    }

    /// A timer elapsed: MaxCycleTime and MaxUARTframeTime are events of the
    /// state machine; other timers are ignored.
    pub fn timer_elapsed(&mut self, timer: Timer) -> (r: IoLinkResult<()>)
        ensures
            r is Ok,
            final(self).same_settings(old(self)),
            final(self).spec_event_flag() == old(self).spec_event_flag(),
            final(self).spec_od_response() == old(self).spec_od_response(),
            timer is MaxCycleTime ==> (final(self).spec_transition(), final(self).spec_state())
                == mh_next(old(self).spec_state(), MhEvent::TimerMaxCycle),
            timer is MaxUARTframeTime ==> (final(self).spec_transition(), final(self).spec_state())
                == mh_next(old(self).spec_state(), MhEvent::TimerMaxUARTFrame),
            timer is TDsio ==> final(self).spec_state() == old(self).spec_state()
                && final(self).spec_transition() == old(self).spec_transition(),
    {
        match timer {
            Timer::MaxCycleTime => self.process_event(MhEvent::TimerMaxCycle),
            Timer::MaxUARTframeTime => self.process_event(MhEvent::TimerMaxUARTFrame),
            Timer::TDsio => Ok(()),
        }
    }

    /// Sets or clears the Event flag of the next responses.
    pub fn event_flag(&mut self, flag: bool)
        ensures
            final(self).spec_event_flag() == flag,
            final(self).same_settings(old(self)),
            final(self).spec_state() == old(self).spec_state(),
            final(self).spec_transition() == old(self).spec_transition(),
            final(self).spec_od_response() == old(self).spec_od_response(),
            final(self).spec_pd_response() == old(self).spec_pd_response(),
            final(self).same_rx(old(self)),
            final(self).same_buffers(old(self)),
            final(self).spec_pd_status() == old(self).spec_pd_status(),
    {
        self.event_flag = flag;
    }

    /// Puts the first `length` octets of `data` into the On-request Data of
    /// the next response.
    pub fn od_rsp(&mut self, length: u8, data: &[u8]) -> (r: IoLinkResult<()>)
        requires
            length <= data@.len(),
        ensures
            r is Ok,
            final(self).spec_od_response() == data@.subrange(0, length as int),
            final(self).same_settings(old(self)),
            final(self).spec_state() == old(self).spec_state(),
            final(self).spec_transition() == old(self).spec_transition(),
            final(self).spec_event_flag() == old(self).spec_event_flag(),
            final(self).spec_pd_response() == old(self).spec_pd_response(),
            final(self).spec_pd_status() == old(self).spec_pd_status(),
            final(self).spec_rx_frame_mode() == old(self).spec_rx_frame_mode(),
            final(self).spec_od_ready(),
            final(self).spec_pd_ready() == old(self).spec_pd_ready(),
            final(self).spec_rx() == old(self).spec_rx(),
            final(self).spec_expected_rx() == old(self).spec_expected_rx(),
            final(self).spec_tx() == old(self).spec_tx(),
    {
        let part = vstd::slice::slice_subrange(data, 0, length as usize);
        self.od_response = vstd::slice::slice_to_vec(part);
        self.od_ready = true;
        Ok(())
    }

    /// Puts the first `length` octets of `data` into the Process Data of the
    /// next response, which takes the validity the application gave.
    pub fn pd_rsp(&mut self, length: usize, data: &[u8]) -> (r: IoLinkResult<()>)
        requires
            length <= data@.len(),
        ensures
            r is Ok,
            final(self).spec_pd_response() == data@.subrange(0, length as int),
            final(self).spec_pd_status() == old(self).spec_pd_in_valid_status(),
            final(self).same_settings(old(self)),
            final(self).spec_state() == old(self).spec_state(),
            final(self).spec_transition() == old(self).spec_transition(),
            final(self).spec_event_flag() == old(self).spec_event_flag(),
            final(self).spec_od_response() == old(self).spec_od_response(),
            final(self).spec_rx_frame_mode() == old(self).spec_rx_frame_mode(),
            final(self).spec_pd_ready(),
            final(self).spec_od_ready() == old(self).spec_od_ready(),
            final(self).spec_rx() == old(self).spec_rx(),
            final(self).spec_expected_rx() == old(self).spec_expected_rx(),
            final(self).spec_tx() == old(self).spec_tx(),
    {
        let part = vstd::slice::slice_subrange(data, 0, length);
        self.pd_response = vstd::slice::slice_to_vec(part);
        self.pd_status = self.pd_in_valid_status;
        self.pd_ready = true;
        Ok(())
    }

    /// The application's validity of its input Process Data.
    pub fn pd_in_status_req(&mut self, valid: PdStatus) -> (r: IoLinkResult<()>)
        ensures
            r is Ok,
            final(self).spec_pd_in_valid_status() == valid,
            final(self).spec_operate_state() == old(self).spec_operate_state(),
            final(self).spec_transmission_rate() == old(self).spec_transmission_rate(),
            final(self).spec_state() == old(self).spec_state(),
            final(self).spec_transition() == old(self).spec_transition(),
            final(self).spec_event_flag() == old(self).spec_event_flag(),
            final(self).spec_pd_status() == old(self).spec_pd_status(),
    {
        self.pd_in_valid_status = valid;
        Ok(())
    }

    /// DL_Mode indication: STARTUP, PREOPERATE and OPERATE set the operating
    /// mode (INACTIVE counts as STARTUP); the COM modes set the transmission
    /// rate (COMLOST falls back to COM1); ESTABCOM changes nothing.
    pub fn dl_mode_ind(&mut self, mode: DlMode) -> (r: IoLinkResult<()>)
        ensures
            r is Ok,
            final(self).spec_state() == old(self).spec_state(),
            final(self).spec_transition() == old(self).spec_transition(),
            final(self).spec_event_flag() == old(self).spec_event_flag(),
            final(self).spec_pd_in_valid_status() == old(self).spec_pd_in_valid_status(),
            final(self).spec_operate_state() == match mode {
                DlMode::Startup | DlMode::Inactive => DeviceOperationMode::Startup,
                DlMode::PreOperate => DeviceOperationMode::PreOperate,
                DlMode::Operate => DeviceOperationMode::Operate,
                _ => old(self).spec_operate_state(),
            },
            final(self).spec_transmission_rate() == match mode {
                DlMode::Com1 | DlMode::Comlost => TransmissionRate::Com1,
                DlMode::Com2 => TransmissionRate::Com2,
                DlMode::Com3 => TransmissionRate::Com3,
                _ => old(self).spec_transmission_rate(),
            },
    {
        match mode {
            DlMode::Startup | DlMode::Inactive => {
                self.device_operate_state = DeviceOperationMode::Startup;
            },
            DlMode::PreOperate => {
                self.device_operate_state = DeviceOperationMode::PreOperate;
            },
            DlMode::Operate => {
                self.device_operate_state = DeviceOperationMode::Operate;
            },
            DlMode::Com1 | DlMode::Comlost => {
                self.transmission_rate = TransmissionRate::Com1;
            },
            DlMode::Com2 => {
                self.transmission_rate = TransmissionRate::Com2;
            },
            DlMode::Com3 => {
                self.transmission_rate = TransmissionRate::Com3;
            },
            DlMode::Estabcom => {},
        }
        Ok(())
    }

    /// DL_Write indication: the message handler has no use for it.
    pub fn dl_write_ind(&mut self, address: u8, value: u8) -> (r: IoLinkResult<()>)
        ensures
            r == Err::<(), IoLinkError>(IoLinkError::NoImplFound),
            *final(self) == *old(self),
    {
        Err(IoLinkError::NoImplFound)
    }

    /// DL_Read indication: the message handler has no use for it.
    pub fn dl_read_ind(&mut self, address: u8) -> (r: IoLinkResult<()>)
        ensures
            r == Err::<(), IoLinkError>(IoLinkError::NoImplFound),
            *final(self) == *old(self),
    {
        Err(IoLinkError::NoImplFound)
    }
}

} // verus!
