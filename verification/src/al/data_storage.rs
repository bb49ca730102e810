//! Data Storage of the application layer (10.4): follows the master's Data
//! Storage commands, keeps State_Property up to date and asks the master
//! for an upload after the parameters changed.
use vstd::prelude::*;
use crate::al::event_handler::{al_event_next, EventHandler, EventStateMachineEvent};
use crate::errors::{IoLinkError, IoLinkResult, SmResult};
use crate::event::{
    entries_bytes, entry_bytes, qualifier_byte, EventEntry, EventInstance, EventMode, EventQualifier, EventSource, EventType,
};
use crate::al::parameter_manager::{
    with_ds_state, with_upload_flag, DsState, LockState, ParameterManager, PmModel,
};
use crate::protocol::{DeviceMode, EVENT_CODE_DS_UPLOAD_REQ};
use crate::system_command::DsCommand;

verus! {

/// States of Data Storage.
#[derive(Debug, Clone, Copy, PartialEq, Eq, Structural)]
pub enum DtatStorageStateMachineState {
    /// Checking the Data Storage state.
    DSStateCheck,
    /// Idle.
    DSIdle,
    /// A transfer is in progress.
    DSActivity,
}

/// Transitions of Data Storage that have work left for `poll`.
#[derive(Debug, Clone, Copy, PartialEq, Eq, Structural)]
pub enum DataStorageTransition {
    /// Nothing to do.
    Tn,
    /// The state check found Data Storage unlocked.
    T6,
    /// Parameters changed: ask the master for an upload.
    T7,
    /// A transfer starts in the given direction.
    T8(DsCommand),
    /// A transfer ended.
    T9,
    /// A transfer was broken off.
    T10,
    /// A transfer end without a transfer.
    T11,
}

/// Events of Data Storage.
#[derive(Debug, Clone, Copy, PartialEq, Eq, Structural)]
pub enum DataStorageStateMachineEvent {
    /// The state check finds Data Storage unlocked.
    Unlocked,
    /// DS_ParUpload indication.
    DsParUploadInd,
    /// UploadStart or DownloadStart.
    TransmissionStart(DsCommand),
    /// UploadEnd or DownloadEnd.
    TransmissionEnd,
    /// Break.
    TransmissionBreak,
}

/// The state machine of Data Storage.
pub open spec fn ds_next(s: DtatStorageStateMachineState, e: DataStorageStateMachineEvent) -> Option<
    (DataStorageTransition, DtatStorageStateMachineState),
> {
    match (s, e) {
        (DtatStorageStateMachineState::DSStateCheck, DataStorageStateMachineEvent::Unlocked) => Some(
            (DataStorageTransition::T6, DtatStorageStateMachineState::DSIdle),
        ),
        (DtatStorageStateMachineState::DSIdle, DataStorageStateMachineEvent::DsParUploadInd) => Some(
            (DataStorageTransition::T7, DtatStorageStateMachineState::DSIdle),
        ),
        (DtatStorageStateMachineState::DSIdle, DataStorageStateMachineEvent::TransmissionStart(c)) => Some(
            (DataStorageTransition::T8(c), DtatStorageStateMachineState::DSActivity),
        ),
        (DtatStorageStateMachineState::DSIdle, DataStorageStateMachineEvent::TransmissionEnd) => Some(
            (DataStorageTransition::T11, DtatStorageStateMachineState::DSIdle),
        ),
        (DtatStorageStateMachineState::DSActivity, DataStorageStateMachineEvent::TransmissionEnd) => Some(
            (DataStorageTransition::T9, DtatStorageStateMachineState::DSIdle),
        ),
        (DtatStorageStateMachineState::DSActivity, DataStorageStateMachineEvent::TransmissionBreak) => Some(
            (DataStorageTransition::T10, DtatStorageStateMachineState::DSIdle),
        ),
        _ => None,
    }
}

/// The event of a Data Storage command.
pub open spec fn ds_command_event(c: DsCommand) -> DataStorageStateMachineEvent {
    match c {
        DsCommand::UploadStart | DsCommand::DownloadStart => DataStorageStateMachineEvent::TransmissionStart(c),
        DsCommand::UploadEnd | DsCommand::DownloadEnd => DataStorageStateMachineEvent::TransmissionEnd,
        DsCommand::Break => DataStorageStateMachineEvent::TransmissionBreak,
    }
}

/// The event that asks the master for a Data Storage upload: a single-shot
/// notification of the device.
pub open spec fn ds_upload_event() -> EventEntry {
    EventEntry {
        event_qualifier: EventQualifier {
            eq_mode: EventMode::SingleShot,
            eq_type: EventType::Notification,
            eq_source: EventSource::Device,
            eq_instance: EventInstance::System,
        },
        event_code: EVENT_CODE_DS_UPLOAD_REQ,
    }
}

/// The qualifier of the upload request event: single shot, notification,
/// from the device, instance System.
fn ds_upload_event_qualifier() -> (r: EventQualifier)
    ensures
        r == ds_upload_event().event_qualifier,
{
    EventQualifier {
        eq_mode: EventMode::SingleShot,
        eq_type: EventType::Notification,
        eq_source: EventSource::Device,
        eq_instance: EventInstance::System,
    }
}

/// The Parameter Manager after State_Property took a new state of Data
/// Storage.
pub open spec fn pm_with_ds_state(m: PmModel, s: DsState) -> PmModel {
    PmModel { storage: m.storage.update(17, seq![with_ds_state(m.storage[17][0], s)]), ..m }
}

/// The Parameter Manager after DS_UPLOAD_FLAG was set or cleared.
pub open spec fn pm_with_upload_flag(m: PmModel, f: bool) -> PmModel {
    PmModel { storage: m.storage.update(17, seq![with_upload_flag(m.storage[17][0], f)]), ..m }
}

/// What one `poll` of Data Storage with pending transition `t` does to the
/// event handler and the Parameter Manager, and gives back.
pub open spec fn ds_poll_post(
    t: DataStorageTransition,
    eh0: EventHandler,
    pm0: PmModel,
    eh1: EventHandler,
    pm1: PmModel,
    r: IoLinkResult<()>,
) -> bool {
        match t {
            DataStorageTransition::T7 => {
                &&& pm1 == pm_with_upload_flag(
                    pm0,
                    true,
                )
                &&& eh1.spec_events() == Some((1u8, seq![ds_upload_event()]))
                &&& match al_event_next(
                    eh0.spec_state(),
                    EventStateMachineEvent::AlEventRequest,
                ) {
                    Some((t, s)) => r is Ok && eh1.spec_state() == s
                        && eh1.spec_transition() == t,
                    None => r == Err::<(), IoLinkError>(IoLinkError::InvalidEvent)
                        && eh1.spec_state() == eh0.spec_state()
                        && eh1.spec_transition() == eh0.spec_transition(),
                }
            },
            DataStorageTransition::T8(c) => {
                let locked = PmModel { lock: LockState::Locked, ..pm0 };
                &&& eh1 == eh0
                &&& (c is UploadStart ==> r is Ok && pm1
                    == pm_with_ds_state(locked, DsState::Upload))
                &&& (c is DownloadStart ==> r is Ok && pm1
                    == pm_with_ds_state(locked, DsState::Download))
                &&& (!(c is UploadStart || c is DownloadStart) ==> r == Err::<(), IoLinkError>(
                    IoLinkError::InvalidEvent,
                ) && pm1 == locked)
            },
            DataStorageTransition::T9 => {
                &&& r is Ok
                &&& eh1 == eh0
                &&& pm1 == pm_with_ds_state(
                    PmModel {
                        lock: LockState::Unlocked,
                        ..pm_with_upload_flag(pm0, false)
                    },
                    DsState::Inactive,
                )
            },
            DataStorageTransition::T6 => {
                &&& r is Ok
                &&& eh1 == eh0
                &&& pm1 == pm_with_ds_state(pm0, DsState::Inactive)
            },
            DataStorageTransition::T10 => {
                &&& r is Ok
                &&& eh1 == eh0
                &&& pm1 == pm_with_ds_state(
                    PmModel { lock: LockState::Unlocked, ..pm0 },
                    DsState::Inactive,
                )
            },
            _ => r is Ok && eh1 == eh0 && pm1 == pm0,
        }
}

/// Data Storage.
pub struct DataStorage {
    state: DtatStorageStateMachineState,
    exec_transition: DataStorageTransition,
}

impl DataStorage {
    /// The state.
    pub closed spec fn spec_state(&self) -> DtatStorageStateMachineState {
        self.state
    }

    /// The pending transition.
    pub closed spec fn spec_transition(&self) -> DataStorageTransition {
        self.exec_transition
    }

    /// Data Storage after its state check: this device has no access lock
    /// on Data Storage, so the check finds it unlocked and goes to DSIdle
    /// (T6), whose work of setting State_Property to inactive is pending.
    pub fn new() -> (r: DataStorage)
        ensures
            r.spec_state() == DtatStorageStateMachineState::DSIdle,
            r.spec_transition() == DataStorageTransition::T6,
    {
        let mut ds = DataStorage {
            state: DtatStorageStateMachineState::DSStateCheck,
            exec_transition: DataStorageTransition::Tn,
        };
        let _ = ds.process_event(DataStorageStateMachineEvent::Unlocked);
        ds
    }

    /// Feeds one event to the state machine; one that is not accepted
    /// changes nothing and gives `InvalidEvent`.
    pub fn process_event(&mut self, event: DataStorageStateMachineEvent) -> (r: IoLinkResult<()>)
        ensures
            match ds_next(old(self).spec_state(), event) {
                Some((t, s)) => r is Ok && final(self).spec_state() == s
                    && final(self).spec_transition() == t,
                None => r == Err::<(), IoLinkError>(IoLinkError::InvalidEvent)
                    && final(self).spec_state() == old(self).spec_state()
                    && final(self).spec_transition() == old(self).spec_transition(),
            },
    {
        let next = match (self.state, event) {
            (DtatStorageStateMachineState::DSStateCheck, DataStorageStateMachineEvent::Unlocked) => Some(
                (DataStorageTransition::T6, DtatStorageStateMachineState::DSIdle),
            ),
            (DtatStorageStateMachineState::DSIdle, DataStorageStateMachineEvent::DsParUploadInd) => Some(
                (DataStorageTransition::T7, DtatStorageStateMachineState::DSIdle),
            ),
            (DtatStorageStateMachineState::DSIdle, DataStorageStateMachineEvent::TransmissionStart(c)) => Some(
                (DataStorageTransition::T8(c), DtatStorageStateMachineState::DSActivity),
            ),
            (DtatStorageStateMachineState::DSIdle, DataStorageStateMachineEvent::TransmissionEnd) => Some(
                (DataStorageTransition::T11, DtatStorageStateMachineState::DSIdle),
            ),
            (DtatStorageStateMachineState::DSActivity, DataStorageStateMachineEvent::TransmissionEnd) => Some(
                (DataStorageTransition::T9, DtatStorageStateMachineState::DSIdle),
            ),
            (DtatStorageStateMachineState::DSActivity, DataStorageStateMachineEvent::TransmissionBreak) => Some(
                (DataStorageTransition::T10, DtatStorageStateMachineState::DSIdle),
            ),
            _ => None,
        };
        match next {
            Some((t, s)) => {
                self.exec_transition = t;
                self.state = s;
                Ok(())
            },
            None => Err(IoLinkError::InvalidEvent),
        }
    }

    /// Does the work of the pending transition on the Parameter Manager and
    /// the event handler; the pending transition is consumed.
    pub fn poll(
        &mut self,
        event_handler: &mut EventHandler,
        parameter_manager: &mut ParameterManager,
    ) -> (r: IoLinkResult<()>)
        requires
            old(parameter_manager).wf(),
        ensures
            final(parameter_manager).wf(),
            final(self).spec_state() == old(self).spec_state(),
            final(self).spec_transition() == DataStorageTransition::Tn,
            ds_poll_post(
                old(self).spec_transition(),
                *old(event_handler),
                old(parameter_manager)@,
                *final(event_handler),
                final(parameter_manager)@,
                r,
            ),
    {
        let t = self.exec_transition;
        self.exec_transition = DataStorageTransition::Tn;
        match t {
            DataStorageTransition::Tn => Ok(()),
            DataStorageTransition::T6 => parameter_manager.set_state_property(DsState::Inactive),
            DataStorageTransition::T7 => self.execute_t7(event_handler, parameter_manager),
            DataStorageTransition::T8(command) => self.execute_t8(parameter_manager, command),
            DataStorageTransition::T9 => self.execute_t9(parameter_manager),
            DataStorageTransition::T10 => self.execute_t10(parameter_manager),
            DataStorageTransition::T11 => self.execute_t11(),
        }
    }

    /// Work of T7, the parameters changed: DS_UPLOAD_FLAG is set and the
    /// master is asked for an upload by an event.
    pub fn execute_t7(&mut self, event_handler: &mut EventHandler, parameter_manager: &mut ParameterManager) -> (r:
        IoLinkResult<()>)
        requires
            old(parameter_manager).wf(),
        ensures
            final(parameter_manager).wf(),
            *final(self) == *old(self),
            ds_poll_post(
                DataStorageTransition::T7,
                *old(event_handler),
                old(parameter_manager)@,
                *final(event_handler),
                final(parameter_manager)@,
                r,
            ),
    {
        let _ = parameter_manager.set_upload_flag(true);
        let entry = EventEntry {
            event_qualifier: ds_upload_event_qualifier(),
            event_code: EVENT_CODE_DS_UPLOAD_REQ,
        };
        let entries = [entry];
        assert(entries@ =~= seq![ds_upload_event()]);
        event_handler.al_event_req(1, &entries)
    }

    /// Work of T8, a transfer starts: local access is locked and
    /// State_Property takes the direction; a command other than a start
    /// gives `InvalidEvent`.
    pub fn execute_t8(&mut self, parameter_manager: &mut ParameterManager, ds_command: DsCommand) -> (r:
        IoLinkResult<()>)
        requires
            old(parameter_manager).wf(),
        ensures
            final(parameter_manager).wf(),
            *final(self) == *old(self),
            ({
                let locked = PmModel { lock: LockState::Locked, ..old(parameter_manager)@ };
                &&& (ds_command is UploadStart ==> r is Ok && final(parameter_manager)@
                    == pm_with_ds_state(locked, DsState::Upload))
                &&& (ds_command is DownloadStart ==> r is Ok && final(parameter_manager)@
                    == pm_with_ds_state(locked, DsState::Download))
                &&& (!(ds_command is UploadStart || ds_command is DownloadStart) ==> r == Err::<
                    (),
                    IoLinkError,
                >(IoLinkError::InvalidEvent) && final(parameter_manager)@ == locked)
            }),
    {
        let _ = parameter_manager.lock_local_parameter_access();
        match ds_command {
            DsCommand::UploadStart => parameter_manager.set_state_property(DsState::Upload),
            DsCommand::DownloadStart => parameter_manager.set_state_property(DsState::Download),
            _ => Err(IoLinkError::InvalidEvent),
        }
    }

    /// Work of T9, a transfer ended: DS_UPLOAD_FLAG is cleared, local access
    /// unlocked and Data Storage inactive.
    pub fn execute_t9(&mut self, parameter_manager: &mut ParameterManager) -> (r: IoLinkResult<()>)
        requires
            old(parameter_manager).wf(),
        ensures
            final(parameter_manager).wf(),
            *final(self) == *old(self),
            r is Ok,
            final(parameter_manager)@ == pm_with_ds_state(
                PmModel {
                    lock: LockState::Unlocked,
                    ..pm_with_upload_flag(old(parameter_manager)@, false)
                },
                DsState::Inactive,
            ),
    {
        let _ = parameter_manager.set_upload_flag(false);
        let _ = parameter_manager.unlock_local_parameter_access();
        parameter_manager.set_state_property(DsState::Inactive)
    }

    /// Work of T10, a transfer broken off: local access unlocked and Data
    /// Storage inactive.
    pub fn execute_t10(&mut self, parameter_manager: &mut ParameterManager) -> (r: IoLinkResult<()>)
        requires
            old(parameter_manager).wf(),
        ensures
            final(parameter_manager).wf(),
            *final(self) == *old(self),
            r is Ok,
            final(parameter_manager)@ == pm_with_ds_state(
                PmModel { lock: LockState::Unlocked, ..old(parameter_manager)@ },
                DsState::Inactive,
            ),
    {
        let _ = parameter_manager.unlock_local_parameter_access();
        parameter_manager.set_state_property(DsState::Inactive)
    }

    /// Work of T11, a transfer end without a transfer: nothing to do.
    pub fn execute_t11(&mut self) -> (r: IoLinkResult<()>)
        ensures
            r is Ok,
            *final(self) == *old(self),
    {
        Ok(())
    }

    /// A Data Storage command from the master.
    pub fn ds_command(&mut self, command: DsCommand) -> (r: IoLinkResult<()>)
        ensures
            match ds_next(old(self).spec_state(), ds_command_event(command)) {
                Some((t, s)) => r is Ok && final(self).spec_state() == s
                    && final(self).spec_transition() == t,
                None => r == Err::<(), IoLinkError>(IoLinkError::InvalidEvent)
                    && final(self).spec_state() == old(self).spec_state()
                    && final(self).spec_transition() == old(self).spec_transition(),
            },
    {
        match command {
            DsCommand::UploadStart | DsCommand::DownloadStart => self.process_event(
                DataStorageStateMachineEvent::TransmissionStart(command),
            ),
            DsCommand::UploadEnd | DsCommand::DownloadEnd => self.process_event(
                DataStorageStateMachineEvent::TransmissionEnd,
            ),
            DsCommand::Break => self.process_event(DataStorageStateMachineEvent::TransmissionBreak),
        }
    }

    /// DS_ParUpload indication: the parameters changed.
    pub fn ds_par_upload_ind(&mut self) -> (r: IoLinkResult<()>)
        ensures
            match ds_next(old(self).spec_state(), DataStorageStateMachineEvent::DsParUploadInd) {
                Some((t, s)) => r is Ok && final(self).spec_state() == s
                    && final(self).spec_transition() == t,
                None => r == Err::<(), IoLinkError>(IoLinkError::InvalidEvent)
                    && final(self).spec_state() == old(self).spec_state()
                    && final(self).spec_transition() == old(self).spec_transition(),
            },
    {
        self.process_event(DataStorageStateMachineEvent::DsParUploadInd)
    }

    /// SM_DeviceMode indication: Idle breaks off a transfer; the result of
    /// that event is not reported.
    pub fn sm_device_mode_ind(&mut self, device_mode: DeviceMode) -> (r: SmResult<()>)
        ensures
            r is Ok,
            device_mode is Idle ==> match ds_next(
                old(self).spec_state(),
                DataStorageStateMachineEvent::TransmissionBreak,
            ) {
                Some((t, s)) => final(self).spec_state() == s && final(self).spec_transition() == t,
                None => final(self).spec_state() == old(self).spec_state()
                    && final(self).spec_transition() == old(self).spec_transition(),
            },
            !(device_mode is Idle) ==> final(self).spec_state() == old(self).spec_state()
                && final(self).spec_transition() == old(self).spec_transition(),
    {
        if let DeviceMode::Idle = device_mode {
            let _ = self.process_event(DataStorageStateMachineEvent::TransmissionBreak);
        }
        Ok(())
    }
}


/// Whenever Data Storage asks the master for an upload (T7), the event it
/// hands to the event handler is one event whose octets are 0x55 (a single
/// shot notification of the device, instance System) and the EventCode
/// DS_UPLOAD_REQ, 0xFF91.
pub proof fn upload_request_event_octets(
    eh0: EventHandler,
    pm0: PmModel,
    eh1: EventHandler,
    pm1: PmModel,
    r: IoLinkResult<()>,
)
    requires
        ds_poll_post(DataStorageTransition::T7, eh0, pm0, eh1, pm1, r),
    ensures
        eh1.spec_events() matches Some((count, es)) && count == 1 && es.len() == 1
            && entries_bytes(es) == seq![0x55u8, 0xFFu8, 0x91u8],
{
    let es = seq![ds_upload_event()];
    assert(es.drop_last() =~= Seq::<EventEntry>::empty());
    assert(entries_bytes(es.drop_last()) == Seq::<u8>::empty());
    assert(es.last() == ds_upload_event());
    assert(entries_bytes(es) == entries_bytes(es.drop_last()) + entry_bytes(es.last()));
    assert(entries_bytes(es) =~= entry_bytes(ds_upload_event()));
    assert(qualifier_byte(ds_upload_event().event_qualifier) == 0x55);
    assert(entries_bytes(es) =~= seq![0x55u8, 0xFFu8, 0x91u8]);
}

} // verus!
