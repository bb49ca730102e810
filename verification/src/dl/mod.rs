//! The data link layer (7.3): its message, On-request Data, event, Process
//! Data and ISDU handlers, and the services it offers the application
//! layer.

pub mod event_handler;
pub mod isdu_handler;
pub mod message_handler;
pub mod mseq;
pub mod od_handler;
pub mod pd_handler;

use vstd::prelude::*;
use crate::al::ApplicationLayer;
use crate::errors::IoLinkResult;
use crate::event::EventEntry;
use crate::protocol::{DeviceOperationMode, DlMode, MHInfo, Timer, TransmissionRate, ADDR_MASTER_COMMAND};
use crate::errors::IoLinkError;
use crate::dl::event_handler::{dl_event_next, DlEventEvent};
use crate::storage::event_memory::spec_add_events;
use crate::dl::pd_handler::{dl_pd_next, DlPdEvent};
use crate::dl::message_handler::{mh_received, PlRequest};
use crate::dl::mseq::{mc_channel, mc_direction, od_octets, pd_out_octets, request_od};
use crate::system_management::SystemManagement;
use crate::al::od_handler::{al_od_apply, AlOdEvent, MAX_ISDU_LENGTH};
use crate::dl::isdu_handler::{isdu_poll_al_od, isdu_read_failure, isdu_read_success, isdu_write_failure, isdu_write_success};
use crate::dl::od_handler::{dl_od_next, od_dispatched, od_ind_event, DlOdDispatch};
use crate::dl::message_handler::decoded_request;
use crate::protocol::{ComChannel, RwDirection};
use crate::system_management::{sm_read_effect, sm_write_effect};
use crate::dl::pd_handler::MAX_PD_LENGTH;

verus! {

/// What one `poll` of the data link layer leaves to the caller.
pub struct DlPollOutput {
    /// Output Process Data of the master for the application.
    pub pd_output: Option<Vec<u8>>,
    /// Requests of the message handler to the physical layer, in order.
    pub pl_requests: Vec<PlRequest>,
    /// Information of the message handler for the DL-mode handler.
    pub mh_info: Option<MHInfo>,
    /// The MasterCommand of the last message, for the command handler of
    /// the caller; `Nothing` where the message carried none.
    pub dispatch: DlOdDispatch,
    /// Where the On-request Data of the last message went.
    pub od_access: DlOdDispatch,
}

/// The On-request Data that the message of a cycle hands its handler: the
/// access decoded from the message that the message handler checked.
pub open spec fn cycle_od_data(mh: message_handler::MessageHandler) -> (
    RwDirection,
    ComChannel,
    u8,
    u8,
    Seq<u8>,
) {
    let q = decoded_request(mh.spec_rx(), mh.spec_rx_frame_mode());
    (q.0, q.1, q.2, od_octets(mh.spec_rx_frame_mode()), q.4)
}

/// The transition that the message of a cycle leaves the On-request Data
/// handler in state `od_state`: where the message handler hands on a checked
/// message (T5) whose output Process Data, in OPERATE, have the configured
/// length, the handler's state machine takes the kind of the access;
/// otherwise nothing is pending.
pub open spec fn cycle_od_transition(
    mh: message_handler::MessageHandler,
    od_state: od_handler::DlOdState,
) -> od_handler::DlOdTransition {
    let rx = mh.spec_rx();
    if mh.spec_transition() is T5 && rx.len() > 0 {
        let q = decoded_request(rx, mh.spec_rx_frame_mode());
        if mh.spec_operate_state() is Operate && q.3.len() != 4 {
            od_handler::DlOdTransition::Tn
        } else {
            match od_ind_event(q.0, q.1, q.2) {
                Some(e) => dl_od_next(od_state, e).0,
                None => od_handler::DlOdTransition::Tn,
            }
        }
    } else {
        od_handler::DlOdTransition::Tn
    }
}

/// What the message handler reports of a cycle: a checked message (T5)
/// that is empty is `InvalidData`; one of OPERATE whose output Process Data
/// do not have the configured length is `InvalidLength`; anything else
/// succeeds.
pub open spec fn cycle_mh_result(mh: message_handler::MessageHandler) -> IoLinkResult<()> {
    let rx = mh.spec_rx();
    if mh.spec_transition() is T5 {
        if rx.len() == 0 {
            Err(IoLinkError::InvalidData)
        } else if mh.spec_operate_state() is Operate && decoded_request(
            rx,
            mh.spec_rx_frame_mode(),
        ).3.len() != 4 {
            Err(IoLinkError::InvalidLength)
        } else {
            Ok(())
        }
    } else {
        Ok(())
    }
}

/// What the On-request Data handler in state `od_state` reports of the
/// message of a cycle: a transition T2 for an access that is not on the
/// page channel is `InvalidEvent`; anything else succeeds.
pub open spec fn cycle_od_result(
    mh: message_handler::MessageHandler,
    od_state: od_handler::DlOdState,
) -> IoLinkResult<()> {
    if cycle_od_transition(mh, od_state) is T2 && !(cycle_od_data(mh).1 is Page) {
        Err(IoLinkError::InvalidEvent)
    } else {
        Ok(())
    }
}

/// What a cycle of the data link layer reports: the message handler's
/// error, else the On-request Data handler's.
pub open spec fn dl_cycle_result(
    mh: message_handler::MessageHandler,
    od_state: od_handler::DlOdState,
) -> IoLinkResult<()> {
    match cycle_mh_result(mh) {
        Err(e) => Err(e),
        Ok(_) => cycle_od_result(mh, od_state),
    }
}

/// The data link layer.
pub struct DataLinkLayer {
    event_handler: event_handler::EventHandler,
    message_handler: message_handler::MessageHandler,
    pd_handler: pd_handler::ProcessDataHandler,
    isdu_handler: isdu_handler::IsduHandler,
    od_handler: od_handler::OnRequestDataHandler,
}

impl DataLinkLayer {
    /// The message handler.
    pub closed spec fn spec_message_handler(&self) -> message_handler::MessageHandler {
        self.message_handler
    }

    /// The ISDU handler.
    pub closed spec fn spec_isdu_handler(&self) -> isdu_handler::IsduHandler {
        self.isdu_handler
    }

    /// The event handler.
    pub closed spec fn spec_event_handler(&self) -> event_handler::EventHandler {
        self.event_handler
    }

    /// The Process Data handler.
    pub closed spec fn spec_pd_handler(&self) -> pd_handler::ProcessDataHandler {
        self.pd_handler
    }

    /// The On-request Data handler.
    pub closed spec fn spec_od_handler(&self) -> od_handler::OnRequestDataHandler {
        self.od_handler
    }

    /// The event memory of the event handler is well formed, and the
    /// On-request Data handler has no work pending between cycles.
    pub closed spec fn wf(&self) -> bool {
        &&& self.event_handler.wf()
        &&& self.od_handler.spec_transition() is Tn
    }

    /// Every handler in its first state.
    pub fn new() -> (r: DataLinkLayer)
        ensures
            r.wf(),
            r.spec_message_handler().spec_state() is Inactive,
            r.spec_isdu_handler().spec_state() is Inactive,
            r.spec_event_handler().spec_state() is Inactive,
            r.spec_pd_handler().spec_state() is Inactive,
            r.spec_od_handler().spec_state() is Inactive,
    {
        DataLinkLayer {
            event_handler: event_handler::EventHandler::new(),
            message_handler: message_handler::MessageHandler::new(),
            pd_handler: pd_handler::ProcessDataHandler::new(),
            isdu_handler: isdu_handler::IsduHandler::new(),
            od_handler: od_handler::OnRequestDataHandler::new(),
        }
    }

    /// One cycle of the handlers: the event handler, the Process Data
    /// handler, the ISDU handler, the message handler, whose requests to the
    /// physical layer are handed back, then the On-request Data handler, whose
    /// access goes to the handler, System Management or application layer
    /// that serves it. Every handler runs; the result is the first error
    /// that one of them reports, the message handler's before the
    /// On-request Data handler's.
    pub fn poll(&mut self, system_management: &mut SystemManagement, application_layer: &mut ApplicationLayer) -> (r: (
        IoLinkResult<()>,
        DlPollOutput,
    ))
        requires
            old(self).wf(),
            old(application_layer).wf(),
            (old(self).spec_isdu_handler().spec_transition() is T6 || old(self).spec_isdu_handler().spec_transition() is T7) ==> old(self).spec_isdu_handler().spec_expected_segment() < 255,
            ({
                let mh = old(self).spec_message_handler();
                let rx = mh.spec_rx();
                (mh.spec_transition() is T5 && rx.len() > 0 && mc_direction(rx[0]) is Write
                    && mc_channel(rx[0]) is Page) ==> rx.len() >= 2 + pd_out_octets(
                    mh.spec_rx_frame_mode(),
                ) + od_octets(mh.spec_rx_frame_mode())
            }),
        ensures
            r.0 is Ok <==> dl_cycle_result(old(self).spec_message_handler(), old(self).spec_od_handler().spec_state()) is Ok,
            r.0 is Err ==> r.0 == dl_cycle_result(old(self).spec_message_handler(), old(self).spec_od_handler().spec_state()),
            (old(self).spec_pd_handler().spec_transition() is T4 || old(self).spec_pd_handler().spec_transition() is T6)
                ==> (r.1.pd_output matches Some(o) && o@ == old(self).spec_pd_handler().spec_output()),
            !(old(self).spec_pd_handler().spec_transition() is T4 || old(self).spec_pd_handler().spec_transition() is T6)
                ==> r.1.pd_output is None,
            old(self).spec_message_handler().spec_transition() is T4 ==> r.1.pl_requests@.len() == 1
                && (r.1.pl_requests@[0] matches PlRequest::StopTimer(Timer::MaxUARTframeTime)),
            old(self).spec_message_handler().spec_transition() is T6 ==> r.1.pl_requests@.len() == 1
                && (r.1.pl_requests@[0] matches PlRequest::Transfer(v) && v@ == old(self).spec_message_handler().spec_tx()),
            old(self).spec_message_handler().spec_transition() is T9 ==> r.1.pl_requests@.len() == 2
                && (r.1.pl_requests@[0] matches PlRequest::StopTimer(Timer::MaxUARTframeTime)) && (
            r.1.pl_requests@[1] matches PlRequest::StopTimer(Timer::MaxCycleTime)),
            !(old(self).spec_message_handler().spec_transition() is T4 || old(self).spec_message_handler().spec_transition() is T6 || old(self).spec_message_handler().spec_transition() is T9) ==> r.1.pl_requests@.len() == 0,
            r.1.mh_info == if old(self).spec_message_handler().spec_transition() is T8 {
                Some(MHInfo::IllegalMessagetype)
            } else {
                None
            },
            final(self).wf(),
            final(application_layer).wf(),
            final(self).spec_od_handler().spec_transition() is Tn,
            od_dispatched(
                cycle_od_transition(
                    old(self).spec_message_handler(),
                    old(self).spec_od_handler().spec_state(),
                ),
                cycle_od_data(old(self).spec_message_handler()),
                r.1.od_access,
            ),
            r.1.dispatch == match r.1.od_access {
                DlOdDispatch::Command(a, v) => DlOdDispatch::Command(a, v),
                DlOdDispatch::ParamWrite(a, v) => if a == ADDR_MASTER_COMMAND {
                    DlOdDispatch::ParamWrite(a, v)
                } else {
                    DlOdDispatch::Nothing
                },
                _ => DlOdDispatch::Nothing,
            },
            final(application_layer).spec_parameter_manager() == old(application_layer).spec_parameter_manager(),
            final(application_layer).spec_event_handler() == old(application_layer).spec_event_handler(),
            final(application_layer).spec_data_storage() == old(application_layer).spec_data_storage(),
            ({
                let od_mid = isdu_poll_al_od(
                    old(self).spec_isdu_handler().spec_transition(),
                    old(self).spec_isdu_handler().spec_rx(),
                    old(application_layer).spec_od_handler(),
                );
                final(application_layer).spec_od_handler() == match r.1.od_access {
                    DlOdDispatch::ParamRead(a) => al_od_apply(od_mid, AlOdEvent::DlReadParamInd(a)),
                    DlOdDispatch::ParamWrite(a, v) => al_od_apply(od_mid, AlOdEvent::DlWriteParamInd(a, v)),
                    DlOdDispatch::Command(a, v) => al_od_apply(od_mid, AlOdEvent::DlWriteParamInd(a, v)),
                    _ => od_mid,
                }
            }),
            match r.1.od_access {
                DlOdDispatch::ParamRead(a) => sm_read_effect(*old(system_management), *final(system_management), a),
                DlOdDispatch::Command(a, v) => sm_write_effect(
                    *old(system_management),
                    *final(system_management),
                    a,
                    v,
                ),
                _ => *final(system_management) == *old(system_management),
            },
    {
        let _ = self.event_handler.poll(&mut self.message_handler);
        let pd_output = self.pd_handler.poll(&mut self.message_handler);
        let _ = self.isdu_handler.poll(&mut self.message_handler, application_layer);
        let ghost mh0 = self.message_handler;
        let (mh_res, mh_out) = self.message_handler.poll(&mut self.od_handler, &mut self.pd_handler);
        proof {
            let rx = mh0.spec_rx();
            let mode = mh0.spec_rx_frame_mode();
            if mh0.spec_transition() is T5 && rx.len() > 0 && self.od_handler != old(self).od_handler {
                assert(od_octets(mode) >= 1);
                if mc_direction(rx[0]) is Write && mc_channel(rx[0]) is Page {
                    assert(request_od(rx, mode).len() == od_octets(mode));
                }
            }
        }
        let pl_requests = mh_out.requests;
        let mh_info = mh_out.mh_info;
        let ghost od_mid = self.od_handler;
        proof {
            assert(od_mid.spec_transition() == cycle_od_transition(
                old(self).spec_message_handler(),
                old(self).spec_od_handler().spec_state(),
            ));
            assert(!(od_mid.spec_transition() is Tn) ==> od_mid.spec_data()@ == cycle_od_data(
                old(self).spec_message_handler(),
            ));
        }
        let (res, dispatch) = self.od_handler.poll();
        if res.is_err() {
            return (
                res,
                DlPollOutput {
                    pd_output,
                    pl_requests,
                    mh_info,
                    dispatch: DlOdDispatch::Nothing,
                    od_access: dispatch,
                },
            );
        }
        match &dispatch {
            DlOdDispatch::ParamRead(address) => {
                let _ = application_layer.dl_read_param_ind(*address);
                let _ = system_management.dl_read_ind(*address);
            },
            DlOdDispatch::ParamWrite(address, value) => {
                let _ = application_layer.dl_write_param_ind(*address, *value);
            },
            DlOdDispatch::Command(address, value) => {
                let _ = application_layer.dl_write_param_ind(*address, *value);
                let _ = system_management.dl_write_ind(*address, *value);
            },
            DlOdDispatch::Isdu(data) => {
                let _ = self.isdu_handler.od_ind(data);
            },
            DlOdDispatch::Event(data) => {
                let _ = self.event_handler.od_ind(data);
            },
            DlOdDispatch::Nothing => {},
        }
        let forward = match &dispatch {
            DlOdDispatch::ParamWrite(address, value) => if *address == ADDR_MASTER_COMMAND {
                DlOdDispatch::ParamWrite(*address, *value)
            } else {
                DlOdDispatch::Nothing
            },
            DlOdDispatch::Command(address, value) => DlOdDispatch::Command(*address, *value),
            _ => DlOdDispatch::Nothing,
        };
        (mh_res, DlPollOutput { pd_output, pl_requests, mh_info, dispatch: forward, od_access: dispatch })
    }

    /// A cycle now would do work that the handlers cannot do: count one
    /// response segment beyond the limit, or hand on a page write too short
    /// for its On-request Data.
    pub fn poll_unsupported(&self) -> (r: bool)
        ensures
            r == !({
                let mh = self.spec_message_handler();
                let rx = mh.spec_rx();
                &&& ((self.spec_isdu_handler().spec_transition() is T6
                    || self.spec_isdu_handler().spec_transition() is T7)
                    ==> self.spec_isdu_handler().spec_expected_segment() < 255)
                &&& ((mh.spec_transition() is T5 && rx.len() > 0 && mc_direction(rx[0]) is Write
                    && mc_channel(rx[0]) is Page) ==> rx.len() >= 2 + pd_out_octets(
                    mh.spec_rx_frame_mode(),
                ) + od_octets(mh.spec_rx_frame_mode()))
            }),
    {
        self.isdu_handler.segment_count_exhausted() || self.message_handler.pending_write_too_short()
    }

    /// An octet from the physical layer: to the message handler, whose
    /// requests to the physical layer are handed back.
    pub fn pl_transfer_ind(&mut self, rx_byte: u8) -> (r: Vec<PlRequest>)
        requires
            old(self).wf(),
        ensures
            final(self).wf(),
            mh_received(old(self).spec_message_handler(), final(self).spec_message_handler(), rx_byte, r@),
            final(self).spec_isdu_handler() == old(self).spec_isdu_handler(),
            final(self).spec_event_handler() == old(self).spec_event_handler(),
            final(self).spec_pd_handler() == old(self).spec_pd_handler(),
            final(self).spec_od_handler() == old(self).spec_od_handler(),
    {
        self.message_handler.pl_transfer_ind(rx_byte)
    }

    /// DL_ReadParam response: one octet of page data for the next response.
    pub fn dl_read_param_rsp(&mut self, length: u8, data: u8) -> (r: IoLinkResult<()>)
        requires
            length <= 1,
        ensures
            r is Ok,
            final(self).spec_message_handler().spec_od_response() == seq![data].subrange(
                0,
                length as int,
            ),
            final(self).spec_message_handler().same_settings(&old(self).spec_message_handler()),
            final(self).spec_message_handler().same_rx(&old(self).spec_message_handler()),
            final(self).spec_message_handler().spec_tx() == old(self).spec_message_handler().spec_tx(),
            final(self).spec_message_handler().spec_state() == old(self).spec_message_handler().spec_state(),
            final(self).spec_message_handler().spec_transition() == old(self).spec_message_handler().spec_transition(),
            final(self).spec_message_handler().spec_event_flag() == old(self).spec_message_handler().spec_event_flag(),
            final(self).spec_message_handler().spec_od_ready(),
            final(self).spec_message_handler().spec_pd_ready() == old(self).spec_message_handler().spec_pd_ready(),
            final(self).spec_message_handler().spec_pd_response() == old(self).spec_message_handler().spec_pd_response(),
            final(self).spec_message_handler().spec_pd_status() == old(self).spec_message_handler().spec_pd_status(),
            final(self).spec_isdu_handler() == old(self).spec_isdu_handler(),
            final(self).spec_event_handler() == old(self).spec_event_handler(),
            final(self).spec_pd_handler() == old(self).spec_pd_handler(),
            final(self).spec_od_handler() == old(self).spec_od_handler(),
    {
        self.od_handler.dl_read_param_rsp(length, data, &mut self.message_handler)
    }

    /// DL_WriteParam response: no On-request Data in the next response.
    pub fn dl_write_param_rsp(&mut self) -> (r: IoLinkResult<()>)
        ensures
            r is Ok,
            final(self).spec_message_handler().spec_od_response() == Seq::<u8>::empty(),
            final(self).spec_message_handler().same_settings(&old(self).spec_message_handler()),
            final(self).spec_message_handler().same_rx(&old(self).spec_message_handler()),
            final(self).spec_message_handler().spec_tx() == old(self).spec_message_handler().spec_tx(),
            final(self).spec_message_handler().spec_state() == old(self).spec_message_handler().spec_state(),
            final(self).spec_message_handler().spec_transition() == old(self).spec_message_handler().spec_transition(),
            final(self).spec_message_handler().spec_event_flag() == old(self).spec_message_handler().spec_event_flag(),
            final(self).spec_message_handler().spec_od_ready(),
            final(self).spec_message_handler().spec_pd_ready() == old(self).spec_message_handler().spec_pd_ready(),
            final(self).spec_message_handler().spec_pd_response() == old(self).spec_message_handler().spec_pd_response(),
            final(self).spec_message_handler().spec_pd_status() == old(self).spec_message_handler().spec_pd_status(),
            final(self).spec_isdu_handler() == old(self).spec_isdu_handler(),
            final(self).spec_event_handler() == old(self).spec_event_handler(),
            final(self).spec_pd_handler() == old(self).spec_pd_handler(),
            final(self).spec_od_handler() == old(self).spec_od_handler(),
    {
        self.od_handler.dl_write_param_rsp(&mut self.message_handler)
    }

    /// DL_ISDUTransport read response (+).
    pub fn dl_isdu_transport_read_rsp(&mut self, length: u8, data: &[u8]) -> (r: IoLinkResult<()>)
        requires
            length <= data@.len(),
            length <= MAX_ISDU_LENGTH,
        ensures
            r is Ok,
            final(self).spec_isdu_handler().spec_tx() == isdu_read_success(
                data@.subrange(0, length as int),
            ),
            final(self).spec_isdu_handler().spec_tx_ready(),
            final(self).spec_isdu_handler().spec_state() == old(self).spec_isdu_handler().spec_state(),
            final(self).spec_isdu_handler().spec_transition() == old(self).spec_isdu_handler().spec_transition(),
            final(self).spec_isdu_handler().spec_rx() == old(self).spec_isdu_handler().spec_rx(),
            final(self).spec_isdu_handler().spec_expected_segment() == old(self).spec_isdu_handler().spec_expected_segment(),
            final(self).spec_message_handler() == old(self).spec_message_handler(),
            final(self).spec_event_handler() == old(self).spec_event_handler(),
            final(self).spec_pd_handler() == old(self).spec_pd_handler(),
            final(self).spec_od_handler() == old(self).spec_od_handler(),
    {
        self.isdu_handler.dl_isdu_transport_read_rsp(length, data)
    }

    /// DL_ISDUTransport write response (+).
    pub fn dl_isdu_transport_write_rsp(&mut self) -> (r: IoLinkResult<()>)
        ensures
            r is Ok,
            final(self).spec_isdu_handler().spec_tx() == isdu_write_success(),
            final(self).spec_isdu_handler().spec_tx_ready(),
            final(self).spec_isdu_handler().spec_state() == old(self).spec_isdu_handler().spec_state(),
            final(self).spec_isdu_handler().spec_transition() == old(self).spec_isdu_handler().spec_transition(),
            final(self).spec_isdu_handler().spec_rx() == old(self).spec_isdu_handler().spec_rx(),
            final(self).spec_isdu_handler().spec_expected_segment() == old(self).spec_isdu_handler().spec_expected_segment(),
            final(self).spec_message_handler() == old(self).spec_message_handler(),
            final(self).spec_event_handler() == old(self).spec_event_handler(),
            final(self).spec_pd_handler() == old(self).spec_pd_handler(),
            final(self).spec_od_handler() == old(self).spec_od_handler(),
    {
        self.isdu_handler.dl_isdu_transport_write_rsp()
    }

    /// DL_ISDUTransport read response (-).
    pub fn dl_isdu_transport_read_error_rsp(&mut self, error: u8, additional_error: u8) -> (r:
        IoLinkResult<()>)
        ensures
            r is Ok,
            final(self).spec_isdu_handler().spec_tx() == isdu_read_failure(error, additional_error),
            final(self).spec_isdu_handler().spec_tx_ready(),
            final(self).spec_isdu_handler().spec_state() == old(self).spec_isdu_handler().spec_state(),
            final(self).spec_isdu_handler().spec_transition() == old(self).spec_isdu_handler().spec_transition(),
            final(self).spec_isdu_handler().spec_rx() == old(self).spec_isdu_handler().spec_rx(),
            final(self).spec_isdu_handler().spec_expected_segment() == old(self).spec_isdu_handler().spec_expected_segment(),
            final(self).spec_message_handler() == old(self).spec_message_handler(),
            final(self).spec_event_handler() == old(self).spec_event_handler(),
            final(self).spec_pd_handler() == old(self).spec_pd_handler(),
            final(self).spec_od_handler() == old(self).spec_od_handler(),
    {
        self.isdu_handler.dl_isdu_transport_read_error_rsp(error, additional_error)
    }

    /// DL_ISDUTransport write response (-).
    pub fn dl_isdu_transport_write_error_rsp(&mut self, error: u8, additional_error: u8) -> (r:
        IoLinkResult<()>)
        ensures
            r is Ok,
            final(self).spec_isdu_handler().spec_tx() == isdu_write_failure(error, additional_error),
            final(self).spec_isdu_handler().spec_tx_ready(),
            final(self).spec_isdu_handler().spec_state() == old(self).spec_isdu_handler().spec_state(),
            final(self).spec_isdu_handler().spec_transition() == old(self).spec_isdu_handler().spec_transition(),
            final(self).spec_isdu_handler().spec_rx() == old(self).spec_isdu_handler().spec_rx(),
            final(self).spec_isdu_handler().spec_expected_segment() == old(self).spec_isdu_handler().spec_expected_segment(),
            final(self).spec_message_handler() == old(self).spec_message_handler(),
            final(self).spec_event_handler() == old(self).spec_event_handler(),
            final(self).spec_pd_handler() == old(self).spec_pd_handler(),
            final(self).spec_od_handler() == old(self).spec_od_handler(),
    {
        self.isdu_handler.dl_isdu_transport_write_error_rsp(error, additional_error)
    }

    /// DL_Event: events for the event memory.
    pub fn dl_event_req(&mut self, event_count: u8, event_entries: &[EventEntry]) -> (r: IoLinkResult<()>)
        requires
            old(self).wf(),
        ensures
            final(self).wf(),
            final(self).spec_event_handler().spec_event_count() == event_count,
            final(self).spec_event_handler().spec_frozen() == old(self).spec_event_handler().spec_frozen(),
            old(self).spec_event_handler().spec_frozen() ==> r == Err::<(), IoLinkError>(IoLinkError::ReadOnlyError)
                && final(self).spec_event_handler().spec_events() == old(self).spec_event_handler().spec_events()
                && final(self).spec_event_handler().spec_state() == old(self).spec_event_handler().spec_state()
                && final(self).spec_event_handler().spec_transition() == old(self).spec_event_handler().spec_transition(),
            !old(self).spec_event_handler().spec_frozen() ==> {
                let (m, ok) = spec_add_events(old(self).spec_event_handler().spec_events(), event_entries@);
                &&& final(self).spec_event_handler().spec_events() == m
                &&& (ok ==> r is Ok && (final(self).spec_event_handler().spec_transition(), final(self).spec_event_handler().spec_state())
                    == dl_event_next(old(self).spec_event_handler().spec_state(), DlEventEvent::DlEvent))
                &&& (!ok ==> r == Err::<(), IoLinkError>(IoLinkError::EventMemoryFull)
                    && final(self).spec_event_handler().spec_state() == old(self).spec_event_handler().spec_state()
                    && final(self).spec_event_handler().spec_transition() == old(self).spec_event_handler().spec_transition())
            },
            final(self).spec_message_handler() == old(self).spec_message_handler(),
            final(self).spec_isdu_handler() == old(self).spec_isdu_handler(),
            final(self).spec_pd_handler() == old(self).spec_pd_handler(),
            final(self).spec_od_handler() == old(self).spec_od_handler(),
    {
        self.event_handler.dl_event_req(event_count, event_entries)
    }

    /// DL_EventTrigger: the events are to be signalled.
    pub fn dl_event_trigger_req(&mut self) -> (r: IoLinkResult<()>)
        requires
            old(self).wf(),
        ensures
            final(self).wf(),
            r is Ok,
            (final(self).spec_event_handler().spec_transition(), final(self).spec_event_handler().spec_state()) == dl_event_next(
                old(self).spec_event_handler().spec_state(),
                DlEventEvent::DlEventTrigger,
            ),
            final(self).spec_event_handler().spec_events() == old(self).spec_event_handler().spec_events(),
            final(self).spec_event_handler().spec_frozen() == old(self).spec_event_handler().spec_frozen(),
            final(self).spec_event_handler().spec_event_count() == old(self).spec_event_handler().spec_event_count(),
            final(self).spec_message_handler() == old(self).spec_message_handler(),
            final(self).spec_isdu_handler() == old(self).spec_isdu_handler(),
            final(self).spec_pd_handler() == old(self).spec_pd_handler(),
            final(self).spec_od_handler() == old(self).spec_od_handler(),
    {
        self.event_handler.dl_event_trigger_req()
    }

    /// DL_PDInputUpdate: the application's input Process Data.
    pub fn dl_pd_input_update_req(&mut self, length: u8, input_data: &[u8]) -> (r: IoLinkResult<()>)
        ensures
            final(self).spec_pd_handler().spec_output() == old(self).spec_pd_handler().spec_output(),
            input_data@.len() > MAX_PD_LENGTH ==> r == Err::<(), IoLinkError>(IoLinkError::InvalidParameter)
                && final(self).spec_pd_handler().spec_input() == Seq::<u8>::empty()
                && final(self).spec_pd_handler().spec_state() == old(self).spec_pd_handler().spec_state()
                && final(self).spec_pd_handler().spec_transition() == old(self).spec_pd_handler().spec_transition(),
            input_data@.len() <= MAX_PD_LENGTH ==> r is Ok && final(self).spec_pd_handler().spec_input() == input_data@
                && (final(self).spec_pd_handler().spec_transition(), final(self).spec_pd_handler().spec_state())
                == dl_pd_next(old(self).spec_pd_handler().spec_state(), DlPdEvent::DlPDInputUpdate),
            final(self).spec_message_handler() == old(self).spec_message_handler(),
            final(self).spec_isdu_handler() == old(self).spec_isdu_handler(),
            final(self).spec_event_handler() == old(self).spec_event_handler(),
            final(self).spec_od_handler() == old(self).spec_od_handler(),
    {
        self.pd_handler.dl_pd_input_update_req(length, input_data)
    }

    /// DL_Mode indication: to the message handler; the result is not
    /// reported.
    pub fn dl_mode_ind(&mut self, mode: DlMode) -> (r: IoLinkResult<()>)
        ensures
            r is Ok,
            final(self).spec_message_handler().spec_state() == old(self).spec_message_handler().spec_state(),
            final(self).spec_message_handler().spec_transition() == old(self).spec_message_handler().spec_transition(),
            final(self).spec_message_handler().spec_event_flag() == old(self).spec_message_handler().spec_event_flag(),
            final(self).spec_message_handler().spec_pd_in_valid_status() == old(self).spec_message_handler().spec_pd_in_valid_status(),
            final(self).spec_message_handler().spec_operate_state() == match mode {
                DlMode::Startup | DlMode::Inactive => DeviceOperationMode::Startup,
                DlMode::PreOperate => DeviceOperationMode::PreOperate,
                DlMode::Operate => DeviceOperationMode::Operate,
                _ => old(self).spec_message_handler().spec_operate_state(),
            },
            final(self).spec_message_handler().spec_transmission_rate() == match mode {
                DlMode::Com1 | DlMode::Comlost => TransmissionRate::Com1,
                DlMode::Com2 => TransmissionRate::Com2,
                DlMode::Com3 => TransmissionRate::Com3,
                _ => old(self).spec_message_handler().spec_transmission_rate(),
            },
            final(self).spec_isdu_handler() == old(self).spec_isdu_handler(),
            final(self).spec_event_handler() == old(self).spec_event_handler(),
            final(self).spec_pd_handler() == old(self).spec_pd_handler(),
            final(self).spec_od_handler() == old(self).spec_od_handler(),
    {
        let _ = self.message_handler.dl_mode_ind(mode);
        Ok(())
    }
}

} // verus!
