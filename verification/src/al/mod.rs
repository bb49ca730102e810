//! The application layer (10.3): its event handler, On-request Data
//! handler, Parameter Manager and Data Storage, and the order in which one
//! cycle of the stack runs them.
pub mod data_storage;
pub mod event_handler;
pub mod od_handler;
pub mod parameter_manager;

use vstd::prelude::*;
use crate::al::event_handler::{
    al_event_next, al_event_poll_result, AlEventAction, EventHandler, EventStateMachineEvent,
    MAX_EVENT_ENTRIES,
};
use crate::al::od_handler::{
    al_od_apply, al_od_isdu_ind, al_od_next, al_od_poll_model, AlOdEvent,
    al_od_request_ok, OnRequestDataHandler, AlOdModel, DlOdRequest, IsduMessage,
};
use crate::al::data_storage::{
    ds_next, ds_poll_post, DataStorage, DataStorageStateMachineEvent, DataStorageTransition,
    DtatStorageStateMachineState,
};
use crate::dl::pd_handler::{dl_pd_next, DlPdEvent, MAX_PD_LENGTH};
use crate::errors::{IoLinkError, IoLinkResult, SmResult};
use crate::event::EventEntry;
use crate::al::parameter_manager::{
    pm_al_write, pm_apply, pm_poll, ParameterManager, ParameterManagerEvent,
    PmModel, PmWorld,
};
use crate::parameter_storage::{
    default_values, slot_access, slot_of, spec_get_parameter, spec_set_parameter, values_wf,
    ParameterError,
};
use crate::protocol::DeviceMode;

verus! {

/// The Process Data handler of the application layer: hands the
/// application's input to the data link layer.
pub struct ProcessDataHandler {}

impl ProcessDataHandler {
    /// The handler.
    pub fn new() -> (r: ProcessDataHandler) {
        ProcessDataHandler {}
    }

    /// AL_SetInput: the application's input Process Data, as many octets as
    /// given.
    pub fn al_set_input_req(&mut self, pd_data: &[u8], dl_pd_handler: &mut crate::dl::pd_handler::ProcessDataHandler) -> (r:
        IoLinkResult<()>)
        ensures
            *final(self) == *old(self),
            final(dl_pd_handler).spec_output() == old(dl_pd_handler).spec_output(),
            pd_data@.len() > MAX_PD_LENGTH ==> r == Err::<(), IoLinkError>(IoLinkError::InvalidParameter)
                && final(dl_pd_handler).spec_input() == Seq::<u8>::empty()
                && final(dl_pd_handler).spec_state() == old(dl_pd_handler).spec_state()
                && final(dl_pd_handler).spec_transition() == old(dl_pd_handler).spec_transition(),
            pd_data@.len() <= MAX_PD_LENGTH ==> r is Ok && final(dl_pd_handler).spec_input() == pd_data@
                && (final(dl_pd_handler).spec_transition(), final(dl_pd_handler).spec_state())
                == dl_pd_next(old(dl_pd_handler).spec_state(), DlPdEvent::DlPDInputUpdate),
    {
        dl_pd_handler.dl_pd_input_update_req(pd_data.len() as u8, pd_data)
    }
}

/// The application layer.
pub struct ApplicationLayer {
    event_handler: EventHandler,
    od_handler: OnRequestDataHandler,
    parameter_manager: ParameterManager,
    data_storage: DataStorage,
    pde: ProcessDataHandler,
}

impl ApplicationLayer {
    /// The event handler.
    pub closed spec fn spec_event_handler(&self) -> EventHandler {
        self.event_handler
    }

    /// The On-request Data handler.
    pub closed spec fn spec_od_handler(&self) -> AlOdModel {
        self.od_handler@
    }

    /// The Parameter Manager.
    pub closed spec fn spec_parameter_manager(&self) -> PmModel {
        self.parameter_manager@
    }

    /// Data Storage.
    pub closed spec fn spec_data_storage(&self) -> DataStorage {
        self.data_storage
    }

    /// The parameter storage of the Parameter Manager is well formed.
    pub closed spec fn wf(&self) -> bool {
        self.parameter_manager.wf()
    }

    /// A new application layer: every handler in its first state, the
    /// parameters at their defaults.
    pub fn new() -> (r: ApplicationLayer)
        ensures
            r.wf(),
            r.spec_parameter_manager().storage == default_values(),
            r.spec_od_handler().state is Idle,
            r.spec_od_handler().transition is Tn,
    {
        ApplicationLayer {
            event_handler: EventHandler::new(),
            od_handler: OnRequestDataHandler::new(),
            parameter_manager: ParameterManager::new(),
            data_storage: DataStorage::new(),
            pde: ProcessDataHandler::new(),
        }
    }

    /// The work of the event handler, which a cycle does first: events to
    /// hand to the data link layer, or a confirmation for the application.
    pub fn poll_event(&mut self) -> (r: AlEventAction)
        requires
            old(self).wf(),
        ensures
            final(self).wf(),
            final(self).spec_od_handler() == old(self).spec_od_handler(),
            final(self).spec_parameter_manager() == old(self).spec_parameter_manager(),
            final(self).spec_data_storage() == old(self).spec_data_storage(),
            final(self).spec_event_handler().spec_state() == old(self).spec_event_handler().spec_state(),
            final(self).spec_event_handler().spec_transition() is Tn,
            final(self).spec_event_handler().spec_events() == old(self).spec_event_handler().spec_events(),
            al_event_poll_result(old(self).spec_event_handler(), r),
    {
        self.event_handler.poll()
    }
    /// The rest of a cycle: the On-request Data handler, then the
    /// Parameter Manager, then Data Storage; the first error ends the cycle.
    /// The request of the On-request Data handler to the data link layer
    /// comes back with the result.
    pub fn poll(&mut self) -> (r: (IoLinkResult<()>, DlOdRequest))
        requires
            old(self).wf(),
        ensures
            final(self).wf(),
            al_od_request_ok(old(self).spec_od_handler(), r.1),
            ({
                let (od1, pm1, res1) = al_od_poll_model(
                    old(self).spec_od_handler(),
                    old(self).spec_parameter_manager(),
                );
                if res1 is Err {
                    &&& r.0 is Err && r.0->Err_0 == res1->Err_0
                    &&& final(self).spec_od_handler() == od1
                    &&& final(self).spec_parameter_manager() == pm1
                    &&& final(self).spec_data_storage() == old(self).spec_data_storage()
                    &&& final(self).spec_event_handler() == old(self).spec_event_handler()
                } else {
                    let ds0 = old(self).spec_data_storage();
                    let (w2, res2) = pm_poll(
                        PmWorld {
                            pm: pm1,
                            od: od1,
                            ds_state: ds0.spec_state(),
                            ds_transition: ds0.spec_transition(),
                        },
                    );
                    &&& final(self).spec_od_handler() == w2.od
                    &&& final(self).spec_data_storage().spec_state() == w2.ds_state
                    &&& if res2 is Err {
                        &&& r.0 is Err && r.0->Err_0 == res2->Err_0
                        &&& final(self).spec_parameter_manager() == w2.pm
                        &&& final(self).spec_data_storage().spec_transition() == w2.ds_transition
                        &&& final(self).spec_event_handler() == old(self).spec_event_handler()
                    } else {
                        &&& final(self).spec_data_storage().spec_transition() is Tn
                        &&& ds_poll_post(
                            w2.ds_transition,
                            old(self).spec_event_handler(),
                            w2.pm,
                            final(self).spec_event_handler(),
                            final(self).spec_parameter_manager(),
                            r.0,
                        )
                    }
                }
            }),
    {
        let (res, request) = self.od_handler.poll(&mut self.parameter_manager);
        if res.is_err() {
            return (res, request);
        }
        let res = self.parameter_manager.poll(&mut self.od_handler, &mut self.data_storage);
        if res.is_err() {
            return (res, request);
        }
        let res = self.data_storage.poll(&mut self.event_handler, &mut self.parameter_manager);
        (res, request)
    }

    /// AL_Event request of the application.
    pub fn al_event_req(&mut self, event_count: u8, event_entries: &[EventEntry]) -> (r: IoLinkResult<()>)
        requires
            old(self).wf(),
        ensures
            final(self).wf(),
            final(self).spec_od_handler() == old(self).spec_od_handler(),
            final(self).spec_parameter_manager() == old(self).spec_parameter_manager(),
            final(self).spec_data_storage() == old(self).spec_data_storage(),
            final(self).spec_event_handler().spec_events() == Some((
                event_count,
                if event_entries@.len() <= MAX_EVENT_ENTRIES {
                    event_entries@
                } else {
                    Seq::<EventEntry>::empty()
                },
            )),
            match al_event_next(old(self).spec_event_handler().spec_state(), EventStateMachineEvent::AlEventRequest) {
                Some((t, s)) => r is Ok && final(self).spec_event_handler().spec_state() == s
                    && final(self).spec_event_handler().spec_transition() == t,
                None => r == Err::<(), IoLinkError>(IoLinkError::InvalidEvent)
                    && final(self).spec_event_handler().spec_state() == old(self).spec_event_handler().spec_state()
                    && final(self).spec_event_handler().spec_transition() == old(self).spec_event_handler().spec_transition(),
            },
    {
        self.event_handler.al_event_req(event_count, event_entries)
    }

    /// SM_DeviceMode indication: to the Parameter Manager and Data Storage.
    pub fn sm_device_mode_ind(&mut self, mode: DeviceMode) -> (r: SmResult<()>)
        requires
            old(self).wf(),
        ensures
            final(self).wf(),
            r is Ok,
            final(self).spec_od_handler() == old(self).spec_od_handler(),
            final(self).spec_event_handler() == old(self).spec_event_handler(),
            (mode is Idle || mode is Startup) ==> final(self).spec_parameter_manager() == pm_apply(
                old(self).spec_parameter_manager(),
                ParameterManagerEvent::DeviceModeChange,
            ),
            !(mode is Idle || mode is Startup) ==> final(self).spec_parameter_manager() == old(self).spec_parameter_manager(),
            mode is Idle ==> match ds_next(
                old(self).spec_data_storage().spec_state(),
                DataStorageStateMachineEvent::TransmissionBreak,
            ) {
                Some((t, s)) => final(self).spec_data_storage().spec_state() == s
                    && final(self).spec_data_storage().spec_transition() == t,
                None => final(self).spec_data_storage().spec_state() == old(self).spec_data_storage().spec_state()
                    && final(self).spec_data_storage().spec_transition() == old(self).spec_data_storage().spec_transition(),
            },
            !(mode is Idle) ==> final(self).spec_data_storage().spec_state() == old(self).spec_data_storage().spec_state()
                && final(self).spec_data_storage().spec_transition() == old(self).spec_data_storage().spec_transition(),
    {
        let _ = self.parameter_manager.sm_device_mode_ind(mode);
        let _ = self.data_storage.sm_device_mode_ind(mode);
        Ok(())
    }

    /// DL_ISDUAbort indication: to the On-request Data handler.
    pub fn dl_isdu_abort(&mut self) -> (r: IoLinkResult<()>)
        requires
            old(self).wf(),
        ensures
            final(self).wf(),
            final(self).spec_parameter_manager() == old(self).spec_parameter_manager(),
            final(self).spec_event_handler() == old(self).spec_event_handler(),
            final(self).spec_data_storage() == old(self).spec_data_storage(),
            final(self).spec_od_handler() == al_od_apply(
                old(self).spec_od_handler(),
                crate::al::od_handler::AlOdEvent::DlIsduAbort,
            ),
            r is Ok <==> al_od_next(
                old(self).spec_od_handler().state,
                crate::al::od_handler::AlOdEvent::DlIsduAbort,
            ) is Some,
    {
        self.od_handler.dl_isdu_abort()
    }

    /// DL_ISDUTransport indication: to the On-request Data handler.
    pub fn dl_isdu_transport_ind(&mut self, isdu: IsduMessage) -> (r: IoLinkResult<()>)
        requires
            old(self).wf(),
        ensures
            final(self).wf(),
            final(self).spec_parameter_manager() == old(self).spec_parameter_manager(),
            final(self).spec_event_handler() == old(self).spec_event_handler(),
            final(self).spec_data_storage() == old(self).spec_data_storage(),
            final(self).spec_od_handler() == al_od_isdu_ind(
                old(self).spec_od_handler(),
                isdu.index,
                isdu.sub_index,
                isdu.direction,
                isdu.data@,
            ),
            r is Ok <==> al_od_next(
                old(self).spec_od_handler().state,
                crate::al::od_handler::isdu_ind_event(isdu.direction),
            ) is Some,
            r is Err ==> r == Err::<(), IoLinkError>(IoLinkError::InvalidEvent),
    {
        self.od_handler.dl_isdu_transport_ind(isdu)
    }

    /// DL_ReadParam indication: to the On-request Data handler.
    pub fn dl_read_param_ind(&mut self, address: u8) -> (r: IoLinkResult<()>)
        requires
            old(self).wf(),
        ensures
            final(self).wf(),
            final(self).spec_parameter_manager() == old(self).spec_parameter_manager(),
            r is Ok <==> al_od_next(
                old(self).spec_od_handler().state,
                crate::al::od_handler::AlOdEvent::DlReadParamInd(address),
            ) is Some,
            final(self).spec_od_handler() == al_od_apply(
                old(self).spec_od_handler(),
                crate::al::od_handler::AlOdEvent::DlReadParamInd(address),
            ),
            final(self).spec_event_handler() == old(self).spec_event_handler(),
            final(self).spec_data_storage() == old(self).spec_data_storage(),
    {
        self.od_handler.dl_read_param_ind(address)
    }

    /// DL_WriteParam indication: to the On-request Data handler.
    pub fn dl_write_param_ind(&mut self, index: u8, data: u8) -> (r: IoLinkResult<()>)
        requires
            old(self).wf(),
        ensures
            final(self).wf(),
            final(self).spec_parameter_manager() == old(self).spec_parameter_manager(),
            r is Ok <==> al_od_next(
                old(self).spec_od_handler().state,
                crate::al::od_handler::AlOdEvent::DlWriteParamInd(index, data),
            ) is Some,
            final(self).spec_od_handler() == al_od_apply(
                old(self).spec_od_handler(),
                crate::al::od_handler::AlOdEvent::DlWriteParamInd(index, data),
            ),
            final(self).spec_event_handler() == old(self).spec_event_handler(),
            final(self).spec_data_storage() == old(self).spec_data_storage(),
    {
        self.od_handler.dl_write_param_ind(index, data)
    }

    /// AL_Read indication: to the Parameter Manager.
    pub fn al_read_ind(&mut self, index: u16, sub_index: u8) -> (r: IoLinkResult<()>)
        requires
            old(self).wf(),
        ensures
            final(self).wf(),
            r is Ok,
            final(self).spec_parameter_manager() == (PmModel {
                read_cycle: Some((index, sub_index)),
                ..old(self).spec_parameter_manager()
            }),
    {
        self.parameter_manager.al_read_ind(index, sub_index)
    }

    /// AL_Write indication: to the Parameter Manager.
    pub fn al_write_ind(&mut self, index: u16, sub_index: u8, data: &[u8]) -> (r: IoLinkResult<()>)
        requires
            old(self).wf(),
        ensures
            final(self).wf(),
            final(self).spec_parameter_manager() == pm_al_write(
                old(self).spec_parameter_manager(),
                index,
                sub_index,
                data@,
            ).0,
            r is Ok <==> pm_al_write(old(self).spec_parameter_manager(), index, sub_index, data@).1 is Ok,
            r is Err ==> r->Err_0 == pm_al_write(old(self).spec_parameter_manager(), index, sub_index, data@).1->Err_0,
            final(self).spec_od_handler() == old(self).spec_od_handler(),
            final(self).spec_event_handler() == old(self).spec_event_handler(),
            final(self).spec_data_storage() == old(self).spec_data_storage(),
    {
        self.parameter_manager.al_write_ind(index, sub_index, data)
    }
    /// AL_Abort indication: to the Parameter Manager.
    pub fn al_abort_ind(&mut self) -> (r: IoLinkResult<()>)
        requires
            old(self).wf(),
        ensures
            final(self).wf(),
            r is Ok,
            final(self).spec_parameter_manager() == (PmModel {
                read_cycle: None,
                ..old(self).spec_parameter_manager()
            }),
    {
        self.parameter_manager.al_abort_ind()
    }

    /// AL_SetInput: the application's input Process Data to the data link
    /// layer.
    pub fn al_set_input_req(&mut self, pd_data: &[u8], dl_pd_handler: &mut crate::dl::pd_handler::ProcessDataHandler) -> (r:
        IoLinkResult<()>)
        ensures
            final(self).spec_event_handler() == old(self).spec_event_handler(),
            final(self).spec_od_handler() == old(self).spec_od_handler(),
            final(self).spec_parameter_manager() == old(self).spec_parameter_manager(),
            final(self).spec_data_storage() == old(self).spec_data_storage(),
            final(dl_pd_handler).spec_output() == old(dl_pd_handler).spec_output(),
            pd_data@.len() > MAX_PD_LENGTH ==> r == Err::<(), IoLinkError>(IoLinkError::InvalidParameter)
                && final(dl_pd_handler).spec_input() == Seq::<u8>::empty()
                && final(dl_pd_handler).spec_state() == old(dl_pd_handler).spec_state()
                && final(dl_pd_handler).spec_transition() == old(dl_pd_handler).spec_transition(),
            pd_data@.len() <= MAX_PD_LENGTH ==> r is Ok && final(dl_pd_handler).spec_input() == pd_data@
                && (final(dl_pd_handler).spec_transition(), final(dl_pd_handler).spec_state())
                == dl_pd_next(old(dl_pd_handler).spec_state(), DlPdEvent::DlPDInputUpdate),
    {
        self.pde.al_set_input_req(pd_data, dl_pd_handler)
    }
}


/// The write half of a page round trip: the write lands in the storage at
/// (index 0, subindex a), the Parameter Manager's check passes, and the
/// write is answered; both handlers end with nothing left to answer.
proof fn page_write_half(
    od0: AlOdModel,
    pm0: PmModel,
    ds_state: DtatStorageStateMachineState,
    ds_transition: DataStorageTransition,
    a: u8,
    v: u8,
)
    requires
        od0.state is Idle,
        od0.transition is Tn,
        values_wf(pm0.storage),
        pm0.state is Idle,
        pm0.transition is Tn,
        !(pm0.data_valid is Invalid),
        !pm0.ds_store_request,
        pm0.read_cycle is None,
        pm0.write_cycle is WaitingForRequest,
        pm0.ds_command is None,
        slot_of(0u16, a) matches Some(i) && slot_access(i) is ReadWrite,
    ensures
        ({
            let od1 = al_od_apply(od0, AlOdEvent::DlWriteParamInd(a, v));
            let (od2, pm2, res2) = al_od_poll_model(od1, pm0);
            let (w3, res3) = pm_poll(PmWorld { pm: pm2, od: od2, ds_state, ds_transition });
            let (od4, pm4, res4) = al_od_poll_model(w3.od, w3.pm);
            &&& res2 is Ok && res3 is Ok && res4 is Ok
            &&& w3.od.transition is T2
            &&& w3.ds_state == ds_state
            &&& w3.ds_transition == ds_transition
            &&& od4.state is Idle && od4.transition is Tn
            &&& pm4.state is Idle && pm4.transition is T5
            &&& pm4.storage == pm0.storage.update(slot_of(0u16, a)->Some_0, seq![v])
            &&& pm4.read_cycle is None
            &&& pm4.write_cycle is WaitingForRequest
            &&& pm4.ds_command is None
        }),
{
    let i = slot_of(0u16, a)->Some_0;
    let od1 = al_od_apply(od0, AlOdEvent::DlWriteParamInd(a, v));
    let (od2, pm2, res2) = al_od_poll_model(od1, pm0);
    assert(spec_set_parameter(pm0.storage, 0u16, a, seq![v]) == Ok::<Seq<Seq<u8>>, ParameterError>(
        pm0.storage.update(i, seq![v]),
    ));
    assert(pm2.storage == pm0.storage.update(i, seq![v]));
    assert(pm2.write_cycle is Successful);
    assert(pm2.state is ValidityCheck && pm2.transition is T1);
}

/// The read half of a page round trip: with the value `v` at
/// (index 0, subindex a) and nothing pending but the Parameter Manager's
/// T5, the read is handed on and answered with `v`.
proof fn page_read_half(
    od4: AlOdModel,
    pm4: PmModel,
    ds_state: DtatStorageStateMachineState,
    ds_transition: DataStorageTransition,
    a: u8,
    v: u8,
)
    requires
        od4.state is Idle,
        od4.transition is Tn,
        pm4.state is Idle,
        pm4.transition is T5,
        pm4.read_cycle is None,
        pm4.write_cycle is WaitingForRequest,
        pm4.ds_command is None,
        slot_of(0u16, a) matches Some(i) && slot_access(i) is ReadWrite && pm4.storage[i] == seq![v],
    ensures
        ({
            let od5 = al_od_apply(od4, AlOdEvent::DlReadParamInd(a));
            let (od6, pm6, res6) = al_od_poll_model(od5, pm4);
            let (w7, res7) = pm_poll(PmWorld { pm: pm6, od: od6, ds_state, ds_transition });
            &&& res6 is Ok && res7 is Ok
            &&& w7.od.transition is T4
            &&& w7.od.rsp_data == seq![v]
        }),
{
    let od5 = al_od_apply(od4, AlOdEvent::DlReadParamInd(a));
    let (od6, pm6, res6) = al_od_poll_model(od5, pm4);
    assert(pm6.read_cycle == Some((0u16, a)));
    assert(spec_get_parameter(pm6.storage, 0u16, a) == Ok::<(u8, Seq<u8>), ParameterError>(
        (1u8, seq![v]),
    ));
}

/// A page write followed by a page read of the same address gives back the
/// written value: DL_WriteParam(a, v) is handed by the On-request Data
/// handler to the Parameter Manager as a write of (index 0, subindex a),
/// whose answer goes back as the DL_WriteParam response; DL_ReadParam(a)
/// is then handed on as a read of (index 0, subindex a), and the answer to
/// it is the DL_ReadParam response of length 1 and value v. The polls are
/// those of one cycle each: the On-request Data handler's, then the
/// Parameter Manager's. The Parameter Manager starts idle with nothing
/// pending, no Data Storage store requested and the written parameters
/// not known to be invalid; address a is a parameter that can be read and
/// written.
pub proof fn page_write_then_read(
    od0: AlOdModel,
    pm0: PmModel,
    ds_state: DtatStorageStateMachineState,
    ds_transition: DataStorageTransition,
    a: u8,
    v: u8,
)
    requires
        od0.state is Idle,
        od0.transition is Tn,
        values_wf(pm0.storage),
        pm0.state is Idle,
        pm0.transition is Tn,
        !(pm0.data_valid is Invalid),
        !pm0.ds_store_request,
        pm0.read_cycle is None,
        pm0.write_cycle is WaitingForRequest,
        pm0.ds_command is None,
        slot_of(0u16, a) matches Some(i) && slot_access(i) is ReadWrite,
    ensures
        ({
            // the write
            let od1 = al_od_apply(od0, AlOdEvent::DlWriteParamInd(a, v));
            let (od2, pm2, res2) = al_od_poll_model(od1, pm0);
            let (w3, res3) = pm_poll(PmWorld { pm: pm2, od: od2, ds_state, ds_transition });
            let (od4, pm4, res4) = al_od_poll_model(w3.od, w3.pm);
            // the read
            let od5 = al_od_apply(od4, AlOdEvent::DlReadParamInd(a));
            let (od6, pm6, res6) = al_od_poll_model(od5, pm4);
            let (w7, res7) = pm_poll(
                PmWorld { pm: pm6, od: od6, ds_state: w3.ds_state, ds_transition: w3.ds_transition },
            );
            &&& res2 is Ok && res3 is Ok && res4 is Ok && res6 is Ok && res7 is Ok
            &&& forall|req: DlOdRequest| al_od_request_ok(w3.od, req) ==> req is WriteParamRsp
            &&& forall|req: DlOdRequest| #[trigger] al_od_request_ok(w7.od, req) ==> req
                == DlOdRequest::ReadParamRsp(1, v)
        }),
{
    page_write_half(od0, pm0, ds_state, ds_transition, a, v);
    let od1 = al_od_apply(od0, AlOdEvent::DlWriteParamInd(a, v));
    let (od2, pm2, res2) = al_od_poll_model(od1, pm0);
    let (w3, res3) = pm_poll(PmWorld { pm: pm2, od: od2, ds_state, ds_transition });
    let (od4, pm4, res4) = al_od_poll_model(w3.od, w3.pm);
    let i = slot_of(0u16, a)->Some_0;
    assert(pm4.storage[i] == seq![v]);
    page_read_half(od4, pm4, w3.ds_state, w3.ds_transition, a, v);
}

} // verus!
