//! On-request Data handler of the application layer (10.3.1): turns page
//! and ISDU requests of the data link layer into parameter reads and writes
//! of the Parameter Manager, and their answers into responses.
use vstd::prelude::*;
use crate::errors::{IoLinkError, IoLinkResult};
use crate::al::parameter_manager::{pm_al_write, ParameterManager, PmModel};
use crate::protocol::{isdu_error_pair, IsduError, RwDirection};

verus! {

/// Longest data of an ISDU.
pub const MAX_ISDU_LENGTH: usize = 232;

/// An ISDU request as the data link layer hands it on.
#[derive(Debug, Clone)]
pub struct IsduMessage {
    /// Index.
    pub index: u16,
    /// Subindex.
    pub sub_index: u8,
    /// Read or write.
    pub direction: RwDirection,
    /// Data of a write.
    pub data: Vec<u8>,
}

/// Error answers of the application.
#[derive(Debug, Clone, Copy, PartialEq, Eq, Structural)]
pub enum AlRspError {
    /// An ISDU error: ErrorCode and AdditionalCode.
    Error(u8, u8),
    /// The service conflicts with the state.
    StateConflict,
    /// No data.
    NoData,
}

/// States of the On-request Data handler.
#[derive(Debug, Clone, Copy, PartialEq, Eq, Structural)]
pub enum AlOdState {
    /// Idle.
    Idle,
    /// Waiting for the answer to a page write.
    AwaitAlWriteRsp,
    /// Waiting for the answer to a page read.
    AwaitAlReadRsp,
    /// Waiting for the answer to an ISDU request.
    AwaitAlRwRsp,
}

/// Events of the On-request Data handler.
#[derive(Debug, Clone, Copy, PartialEq, Eq, Structural)]
pub enum AlOdEvent {
    /// AL_Abort.
    AlAbort,
    /// DL_WriteParam indication: address and value.
    DlWriteParamInd(u8, u8),
    /// AL_Write response.
    AlWriteRsp,
    /// DL_ReadParam indication: address.
    DlReadParamInd(u8),
    /// AL_Read response.
    AlReadRsp,
    /// DL_ISDUTransport indication of a read.
    DlIsduTransportIndDirRead,
    /// DL_ISDUTransport indication of a write.
    DlIsduTransportIndDirWrite,
    /// DL_ISDUAbort.
    DlIsduAbort,
}

/// Transitions of the On-request Data handler with work left for `poll`.
#[derive(Debug, Clone, Copy, PartialEq, Eq, Structural)]
pub enum AlOdTransition {
    /// Nothing to do.
    Tn,
    /// Page write: address and value.
    T1(u8, u8),
    /// Page write answered.
    T2,
    /// Page read: address.
    T3(u8),
    /// Page read answered.
    T4,
    /// ISDU read.
    T5,
    /// ISDU write.
    T6,
    /// ISDU read answered.
    T7,
    /// ISDU write answered.
    T8,
    /// ISDU request aborted by the application.
    T9,
    /// ISDU request aborted by the data link layer.
    T10,
    /// Abort while idle.
    T11,
}

/// The state machine of the On-request Data handler.
pub open spec fn al_od_next(s: AlOdState, e: AlOdEvent) -> Option<(AlOdTransition, AlOdState)> {
    match (s, e) {
        (AlOdState::Idle, AlOdEvent::AlAbort) => Some((AlOdTransition::T11, AlOdState::Idle)),
        (AlOdState::Idle, AlOdEvent::DlWriteParamInd(a, d)) => Some(
            (AlOdTransition::T1(a, d), AlOdState::AwaitAlWriteRsp),
        ),
        (AlOdState::Idle, AlOdEvent::DlReadParamInd(a)) => Some(
            (AlOdTransition::T3(a), AlOdState::AwaitAlReadRsp),
        ),
        (AlOdState::Idle, AlOdEvent::DlIsduTransportIndDirRead) => Some(
            (AlOdTransition::T5, AlOdState::AwaitAlRwRsp),
        ),
        (AlOdState::Idle, AlOdEvent::DlIsduTransportIndDirWrite) => Some(
            (AlOdTransition::T6, AlOdState::AwaitAlRwRsp),
        ),
        (AlOdState::AwaitAlWriteRsp, AlOdEvent::AlWriteRsp) => Some(
            (AlOdTransition::T2, AlOdState::Idle),
        ),
        (AlOdState::AwaitAlReadRsp, AlOdEvent::AlReadRsp) => Some(
            (AlOdTransition::T4, AlOdState::Idle),
        ),
        (AlOdState::AwaitAlRwRsp, AlOdEvent::DlIsduAbort) => Some(
            (AlOdTransition::T10, AlOdState::Idle),
        ),
        (AlOdState::AwaitAlRwRsp, AlOdEvent::AlReadRsp) => Some(
            (AlOdTransition::T7, AlOdState::Idle),
        ),
        (AlOdState::AwaitAlRwRsp, AlOdEvent::AlWriteRsp) => Some(
            (AlOdTransition::T8, AlOdState::Idle),
        ),
        (AlOdState::AwaitAlRwRsp, AlOdEvent::AlAbort) => Some(
            (AlOdTransition::T9, AlOdState::Idle),
        ),
        _ => None,
    }
}

/// Requests that the On-request Data handler makes of the data link layer.
#[derive(Debug, Clone)]
pub enum DlOdRequest {
    /// Nothing.
    Nothing,
    /// DL_WriteParam response.
    WriteParamRsp,
    /// DL_ReadParam response: length and value.
    ReadParamRsp(u8, u8),
    /// DL_ISDUTransport response to a read: length and data.
    IsduReadRsp(u8, Vec<u8>),
    /// DL_ISDUTransport response to a write.
    IsduWriteRsp,
    /// DL_ISDUTransport error response to a read: ErrorCode, AdditionalCode.
    IsduReadErrorRsp(u8, u8),
    /// DL_ISDUTransport error response to a write: ErrorCode, AdditionalCode.
    IsduWriteErrorRsp(u8, u8),
}

/// What the On-request Data handler holds.
pub struct AlOdModel {
    /// State.
    pub state: AlOdState,
    /// Pending transition.
    pub transition: AlOdTransition,
    /// The pending ISDU request is a read.
    pub read_cycle: bool,
    /// Length of the last read answer.
    pub rsp_length: u8,
    /// Data of the last read answer.
    pub rsp_data: Seq<u8>,
    /// The last ISDU request: index, subindex and data.
    pub isdu: (u16, u8, Seq<u8>),
    /// The error of the last negative answer to a write: ErrorCode and
    /// AdditionalCode; `None` after a positive answer.
    pub write_error: Option<(u8, u8)>,
}

/// The model after one event: an accepted event moves the state and the
/// pending transition; any other leaves the model as it is.
pub open spec fn al_od_apply(m: AlOdModel, e: AlOdEvent) -> AlOdModel {
    match al_od_next(m.state, e) {
        Some((t, s)) => AlOdModel { state: s, transition: t, ..m },
        None => m,
    }
}

/// What one `poll` does to the handler and the Parameter Manager, and its
/// result.
pub open spec fn al_od_poll_model(m: AlOdModel, pm: PmModel) -> (AlOdModel, PmModel, IoLinkResult<
    (),
>) {
    let m1 = AlOdModel { transition: AlOdTransition::Tn, ..m };
    match m.transition {
        AlOdTransition::T1(a, d) => {
            let w = pm_al_write(pm, 0u16, a, seq![d]);
            (m1, w.0, w.1)
        },
        AlOdTransition::T3(a) => if a > 31 {
            (m1, pm, Err(IoLinkError::InvalidAddress))
        } else {
            (m1, PmModel { read_cycle: Some((0u16, a)), ..pm }, Ok(()))
        },
        AlOdTransition::T5 => (
            AlOdModel { read_cycle: true, ..m1 },
            PmModel { read_cycle: Some((m.isdu.0, m.isdu.1)), ..pm },
            Ok(()),
        ),
        AlOdTransition::T6 => {
            let w = pm_al_write(pm, m.isdu.0, m.isdu.1, m.isdu.2);
            (AlOdModel { read_cycle: false, ..m1 }, w.0, w.1)
        },
        _ => (m1, pm, Ok(())),
    }
}

/// The request to the data link layer that one `poll` makes.
pub open spec fn al_od_request_ok(m: AlOdModel, req: DlOdRequest) -> bool {
    match m.transition {
        AlOdTransition::T2 => req is WriteParamRsp,
        AlOdTransition::T4 => req matches DlOdRequest::ReadParamRsp(l, v) && l == 1 && v == (
        if m.rsp_data.len() > 0 {
            m.rsp_data[0]
        } else {
            0u8
        }),
        AlOdTransition::T7 => req matches DlOdRequest::IsduReadRsp(l, d) && l == m.rsp_length && d@
            == m.rsp_data,
        AlOdTransition::T8 => match m.write_error {
            None => req is IsduWriteRsp,
            Some((e, ae)) => req == DlOdRequest::IsduWriteErrorRsp(e, ae),
        },
        AlOdTransition::T9 => if m.read_cycle {
            req == DlOdRequest::IsduReadErrorRsp(
                isdu_error_pair(IsduError::AppDev).0,
                isdu_error_pair(IsduError::AppDev).1,
            )
        } else {
            req == DlOdRequest::IsduWriteErrorRsp(
                isdu_error_pair(IsduError::AppDev).0,
                isdu_error_pair(IsduError::AppDev).1,
            )
        },
        _ => req is Nothing,
    }
}

/// The On-request Data handler of the application layer.
pub struct OnRequestDataHandler {
    state: AlOdState,
    exec_transition: AlOdTransition,
    read_cycle: bool,
    rsp_length: u8,
    rsp_data: Vec<u8>,
    isdu_index: u16,
    isdu_sub_index: u8,
    isdu_data: Vec<u8>,
    write_error: Option<(u8, u8)>,
}

impl View for OnRequestDataHandler {
    type V = AlOdModel;

    closed spec fn view(&self) -> AlOdModel {
        AlOdModel {
            state: self.state,
            transition: self.exec_transition,
            read_cycle: self.read_cycle,
            rsp_length: self.rsp_length,
            rsp_data: self.rsp_data@,
            isdu: (self.isdu_index, self.isdu_sub_index, self.isdu_data@),
            write_error: self.write_error,
        }
    }
}

/// The event that a DL_ISDUTransport indication feeds to the state machine.
pub open spec fn isdu_ind_event(direction: RwDirection) -> AlOdEvent {
    match direction {
        RwDirection::Write => AlOdEvent::DlIsduTransportIndDirWrite,
        RwDirection::Read => AlOdEvent::DlIsduTransportIndDirRead,
    }
}

/// The handler after a DL_ISDUTransport indication: a request that the
/// state machine accepts is kept with its index, subindex and data; one it
/// refuses changes nothing.
pub open spec fn al_od_isdu_ind(
    m: AlOdModel,
    index: u16,
    sub_index: u8,
    direction: RwDirection,
    data: Seq<u8>,
) -> AlOdModel {
    let e = isdu_ind_event(direction);
    if al_od_next(m.state, e) is Some {
        al_od_apply(AlOdModel { isdu: (index, sub_index, data), ..m }, e)
    } else {
        m
    }
}

impl OnRequestDataHandler {
    /// Idle, nothing pending.
    pub fn new() -> (r: OnRequestDataHandler)
        ensures
            r@.state == AlOdState::Idle,
            r@.transition == AlOdTransition::Tn,
            !r@.read_cycle,
    {
        OnRequestDataHandler {
            state: AlOdState::Idle,
            exec_transition: AlOdTransition::Tn,
            read_cycle: false,
            rsp_length: 0,
            rsp_data: Vec::new(),
            isdu_index: 0,
            isdu_sub_index: 0,
            isdu_data: Vec::new(),
            write_error: None,
        }
    }

    /// Feeds one event to the state machine; one that is not accepted
    /// changes nothing and gives `InvalidEvent`.
    fn process_event(&mut self, event: AlOdEvent) -> (r: IoLinkResult<()>)
        ensures
            final(self)@ == al_od_apply(old(self)@, event),
            r is Ok <==> al_od_next(old(self)@.state, event) is Some,
            r is Err ==> r == Err::<(), IoLinkError>(IoLinkError::InvalidEvent),
    {
        let next = match (self.state, event) {
            (AlOdState::Idle, AlOdEvent::AlAbort) => Some((AlOdTransition::T11, AlOdState::Idle)),
            (AlOdState::Idle, AlOdEvent::DlWriteParamInd(a, d)) => Some(
                (AlOdTransition::T1(a, d), AlOdState::AwaitAlWriteRsp),
            ),
            (AlOdState::Idle, AlOdEvent::DlReadParamInd(a)) => Some(
                (AlOdTransition::T3(a), AlOdState::AwaitAlReadRsp),
            ),
            (AlOdState::Idle, AlOdEvent::DlIsduTransportIndDirRead) => Some(
                (AlOdTransition::T5, AlOdState::AwaitAlRwRsp),
            ),
            (AlOdState::Idle, AlOdEvent::DlIsduTransportIndDirWrite) => Some(
                (AlOdTransition::T6, AlOdState::AwaitAlRwRsp),
            ),
            (AlOdState::AwaitAlWriteRsp, AlOdEvent::AlWriteRsp) => Some(
                (AlOdTransition::T2, AlOdState::Idle),
            ),
            (AlOdState::AwaitAlReadRsp, AlOdEvent::AlReadRsp) => Some(
                (AlOdTransition::T4, AlOdState::Idle),
            ),
            (AlOdState::AwaitAlRwRsp, AlOdEvent::DlIsduAbort) => Some(
                (AlOdTransition::T10, AlOdState::Idle),
            ),
            (AlOdState::AwaitAlRwRsp, AlOdEvent::AlReadRsp) => Some(
                (AlOdTransition::T7, AlOdState::Idle),
            ),
            (AlOdState::AwaitAlRwRsp, AlOdEvent::AlWriteRsp) => Some(
                (AlOdTransition::T8, AlOdState::Idle),
            ),
            (AlOdState::AwaitAlRwRsp, AlOdEvent::AlAbort) => Some(
                (AlOdTransition::T9, AlOdState::Idle),
            ),
            _ => None,
        };
        match next {
            Some((t, s)) => {
                self.exec_transition = t;
                self.state = s;
                Ok(())
            },
            None => Err(IoLinkError::InvalidEvent),
        }
    }

    /// Does the work of the pending transition: hands page and ISDU
    /// requests to the Parameter Manager, and answers to the data link
    /// layer. The pending transition is consumed.
    pub fn poll(&mut self, parameter_manager: &mut ParameterManager) -> (r: (
        IoLinkResult<()>,
        DlOdRequest,
    ))
        requires
            old(parameter_manager).wf(),
        ensures
            final(parameter_manager).wf(),
            ({
                let (m, pm, res) = al_od_poll_model(old(self)@, old(parameter_manager)@);
                &&& final(self)@ == m
                &&& final(parameter_manager)@ == pm
                &&& (r.0 is Ok <==> res is Ok)
                &&& (r.0 is Err ==> r.0->Err_0 == res->Err_0)
            }),
            al_od_request_ok(old(self)@, r.1),
    {
        let t = self.exec_transition;
        self.exec_transition = AlOdTransition::Tn;
        match t {
            AlOdTransition::T1(address, value) => {
                let data = [value];
                assert(data@ =~= seq![value]);
                let res = parameter_manager.al_write_ind(0, address, &data);
                (res, DlOdRequest::Nothing)
            },
            AlOdTransition::T2 => (Ok(()), DlOdRequest::WriteParamRsp),
            AlOdTransition::T3(address) => {
                if address > 31 {
                    return (Err(IoLinkError::InvalidAddress), DlOdRequest::Nothing);
                }
                let res = parameter_manager.al_read_ind(0, address);
                (res, DlOdRequest::Nothing)
            },
            AlOdTransition::T4 => {
                let v: u8 = if self.rsp_data.len() > 0 {
                    self.rsp_data[0]
                } else {
                    0
                };
                (Ok(()), DlOdRequest::ReadParamRsp(1, v))
            },
            AlOdTransition::T5 => {
                self.read_cycle = true;
                let res = parameter_manager.al_read_ind(self.isdu_index, self.isdu_sub_index);
                (res, DlOdRequest::Nothing)
            },
            AlOdTransition::T6 => {
                self.read_cycle = false;
                let res = parameter_manager.al_write_ind(
                    self.isdu_index,
                    self.isdu_sub_index,
                    self.isdu_data.as_slice(),
                );
                (res, DlOdRequest::Nothing)
            },
            AlOdTransition::T7 => {
                let d = vstd::slice::slice_to_vec(self.rsp_data.as_slice());
                (Ok(()), DlOdRequest::IsduReadRsp(self.rsp_length, d))
            },
            AlOdTransition::T8 => match self.write_error {
                None => (Ok(()), DlOdRequest::IsduWriteRsp),
                Some((e, ae)) => (Ok(()), DlOdRequest::IsduWriteErrorRsp(e, ae)),
            },
            AlOdTransition::T9 => {
                let (e, ae) = IsduError::AppDev.codes();
                if self.read_cycle {
                    (Ok(()), DlOdRequest::IsduReadErrorRsp(e, ae))
                } else {
                    (Ok(()), DlOdRequest::IsduWriteErrorRsp(e, ae))
                }
            },
            _ => (Ok(()), DlOdRequest::Nothing),
        }
    }

    /// DL_WriteParam indication.
    pub fn dl_write_param_ind(&mut self, index: u8, data: u8) -> (r: IoLinkResult<()>)
        ensures
            final(self)@ == al_od_apply(old(self)@, AlOdEvent::DlWriteParamInd(index, data)),
            r is Ok <==> al_od_next(old(self)@.state, AlOdEvent::DlWriteParamInd(index, data)) is Some,
            r is Err ==> r == Err::<(), IoLinkError>(IoLinkError::InvalidEvent),
    {
        self.process_event(AlOdEvent::DlWriteParamInd(index, data))
    }

    /// DL_ReadParam indication.
    pub fn dl_read_param_ind(&mut self, address: u8) -> (r: IoLinkResult<()>)
        ensures
            final(self)@ == al_od_apply(old(self)@, AlOdEvent::DlReadParamInd(address)),
            r is Ok <==> al_od_next(old(self)@.state, AlOdEvent::DlReadParamInd(address)) is Some,
            r is Err ==> r == Err::<(), IoLinkError>(IoLinkError::InvalidEvent),
    {
        self.process_event(AlOdEvent::DlReadParamInd(address))
    }

    /// DL_ISDUAbort indication.
    pub fn dl_isdu_abort(&mut self) -> (r: IoLinkResult<()>)
        ensures
            final(self)@ == al_od_apply(old(self)@, AlOdEvent::DlIsduAbort),
            r is Ok <==> al_od_next(old(self)@.state, AlOdEvent::DlIsduAbort) is Some,
            r is Err ==> r == Err::<(), IoLinkError>(IoLinkError::InvalidEvent),
    {
        self.process_event(AlOdEvent::DlIsduAbort)
    }

    /// DL_ISDUTransport indication: a read or a write request; an accepted
    /// request is kept for `poll`.
    pub fn dl_isdu_transport_ind(&mut self, isdu: IsduMessage) -> (r: IoLinkResult<()>)
        ensures
            ({
                let e = match isdu.direction {
                    RwDirection::Write => AlOdEvent::DlIsduTransportIndDirWrite,
                    RwDirection::Read => AlOdEvent::DlIsduTransportIndDirRead,
                };
                &&& (r is Ok <==> al_od_next(old(self)@.state, e) is Some)
                &&& (r is Err ==> r == Err::<(), IoLinkError>(IoLinkError::InvalidEvent)
                    && final(self)@ == old(self)@)
                &&& (r is Ok ==> final(self)@ == al_od_apply(
                    AlOdModel { isdu: (isdu.index, isdu.sub_index, isdu.data@), ..old(self)@ },
                    e,
                ))
            }),
            final(self)@ == al_od_isdu_ind(old(self)@, isdu.index, isdu.sub_index, isdu.direction, isdu.data@),
    {
        let e = match isdu.direction {
            RwDirection::Write => AlOdEvent::DlIsduTransportIndDirWrite,
            RwDirection::Read => AlOdEvent::DlIsduTransportIndDirRead,
        };
        let r = self.process_event(e);
        if r.is_ok() {
            self.isdu_index = isdu.index;
            self.isdu_sub_index = isdu.sub_index;
            self.isdu_data = isdu.data;
        }
        r
    }

    /// AL_Read response of the Parameter Manager: an error answer gives
    /// `InvalidData`; an answer with data is kept and fed to the state
    /// machine.
    pub fn al_read_rsp(&mut self, result: Result<(u8, &[u8]), AlRspError>) -> (r: IoLinkResult<()>)
        requires
            result matches Ok((l, d)) ==> l == d@.len() && l <= MAX_ISDU_LENGTH,
        ensures
            result is Err ==> r == Err::<(), IoLinkError>(IoLinkError::InvalidData) && final(self)@
                == old(self)@,
            result matches Ok((l, d)) ==> {
                &&& (r is Ok <==> al_od_next(old(self)@.state, AlOdEvent::AlReadRsp) is Some)
                &&& (r is Err ==> r == Err::<(), IoLinkError>(IoLinkError::InvalidEvent)
                    && final(self)@ == old(self)@)
                &&& (r is Ok ==> final(self)@ == al_od_apply(
                    AlOdModel { rsp_length: l, rsp_data: d@, ..old(self)@ },
                    AlOdEvent::AlReadRsp,
                ))
            },
    {
        match result {
            Err(_) => Err(IoLinkError::InvalidData),
            Ok((length, data)) => {
                let r = self.process_event(AlOdEvent::AlReadRsp);
                if r.is_ok() {
                    self.rsp_length = length;
                    self.rsp_data = vstd::slice::slice_to_vec(data);
                }
                r
            },
        }
    }

    /// AL_Write response of the Parameter Manager, fed to the state machine
    /// once (T2 for a page write, T8 for an ISDU write): a positive answer,
    /// or a negative one with its ErrorCode and AdditionalCode, which the
    /// ISDU write response carries. Any other error answer gives
    /// `InvalidData` and changes nothing.
    pub fn al_write_rsp(&mut self, result: Result<(), AlRspError>) -> (r: IoLinkResult<()>)
        ensures
            ({
                let err = match result {
                    Ok(_) => None,
                    Err(AlRspError::Error(e, ae)) => Some((e, ae)),
                    Err(_) => None,
                };
                if result is Ok || result matches Err(AlRspError::Error(_, _)) {
                    &&& final(self)@ == al_od_apply(AlOdModel { write_error: err, ..old(self)@ }, AlOdEvent::AlWriteRsp)
                    &&& (r is Ok <==> al_od_next(old(self)@.state, AlOdEvent::AlWriteRsp) is Some)
                    &&& (r is Err ==> r == Err::<(), IoLinkError>(IoLinkError::InvalidEvent))
                } else {
                    r == Err::<(), IoLinkError>(IoLinkError::InvalidData) && final(self)@ == old(self)@
                }
            }),
    {
        match result {
            Ok(_) => {
                self.write_error = None;
                self.process_event(AlOdEvent::AlWriteRsp)
            },
            Err(AlRspError::Error(e, ae)) => {
                self.write_error = Some((e, ae));
                self.process_event(AlOdEvent::AlWriteRsp)
            },
            Err(_) => Err(IoLinkError::InvalidData),
        }
    }
}

} // verus!
