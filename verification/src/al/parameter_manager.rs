//! Parameter Manager of the application layer (10.3.2): writes and reads of
//! parameters, SystemCommands, Data Storage commands and the validity
//! check of written parameter sets.
use vstd::prelude::*;
use crate::errors::{IoLinkError, IoLinkResult, SmResult};
use crate::parameter_index::{spec_from_index, DeviceParametersIndex};
use crate::parameter_storage::{
    default_values, is_readable, set_then_get, slot_access, slot_of, spec_get_parameter,
    spec_set_parameter, values_wf, ParameterStorage,
};
use crate::protocol::DeviceMode;
use crate::system_command::{
    spec_ds_command_from_u8, spec_system_command_from_u8, DsCommand, SystemCommand,
};
use crate::al::od_handler::{al_od_apply, al_od_next, AlOdEvent, OnRequestDataHandler, AlOdModel, AlRspError};
use crate::al::data_storage::{
    ds_command_event, ds_next, DataStorage, DataStorageStateMachineEvent, DtatStorageStateMachineState,
    DataStorageTransition,
};
use crate::protocol::{isdu_error_pair, IsduError};

verus! {

/// State of Data Storage in the State_Property parameter.
#[derive(Debug, Clone, Copy, PartialEq, Eq, Structural)]
pub enum DsState {
    /// Inactive.
    Inactive,
    /// Download in progress.
    Download,
    /// Upload in progress.
    Upload,
    /// Data Storage locked.
    Locked,
}

/// Code of a Data Storage state.
pub open spec fn ds_state_code(s: DsState) -> u8 {
    match s {
        DsState::Inactive => 0,
        DsState::Download => 1,
        DsState::Upload => 2,
        DsState::Locked => 3,
    }
}

/// The State_Property octet with the DS_UPLOAD_FLAG (bit 7) set or cleared.
pub open spec fn with_upload_flag(b: u8, flag: bool) -> u8 {
    if flag {
        b | 0x80u8
    } else {
        b & 0x7fu8
    }
}

/// The State_Property octet with the state of Data Storage (bits 1-2) set.
pub open spec fn with_ds_state(b: u8, s: DsState) -> u8 {
    (b & 0xf9u8) | (ds_state_code(s) << 1u8)
}

/// Result of the validity check of written parameters.
#[derive(Debug, Clone, Copy, PartialEq, Eq, Structural)]
pub enum ValidityCheckResult {
    /// Nothing checked yet.
    YetToBeValidated,
    /// The parameters are valid.
    Valid,
    /// The parameters are not valid.
    Invalid,
}

/// Local parameter access.
#[derive(Debug, Clone, Copy, PartialEq, Eq, Structural)]
pub enum LockState {
    /// Locked.
    Locked,
    /// Unlocked.
    Unlocked,
}

/// Outcome of the last parameter write, still to be answered.
#[derive(Debug, Clone, Copy, PartialEq, Eq, Structural)]
pub enum WriteCycleStatus {
    /// The write succeeded.
    Successful,
    /// The write failed.
    Failed,
    /// No write to answer.
    WaitingForRequest,
}

/// States of the Parameter Manager.
#[derive(Debug, Clone, Copy, PartialEq, Eq, Structural)]
pub enum ParameterManagerState {
    /// Idle.
    Idle,
    /// Checking written parameters.
    ValidityCheck,
    /// Download of a parameter set.
    Download,
    /// Upload of a parameter set.
    Upload,
}

/// Events of the Parameter Manager.
#[derive(Debug, Clone, Copy, PartialEq, Eq, Structural)]
pub enum ParameterManagerEvent {
    /// A single parameter was written.
    SingleParameter,
    /// ParamDownloadStore.
    DownloadStore,
    /// A local parameter change.
    LocalParameter,
    /// The data is valid and is to be stored.
    DataValidAndStoreRequest,
    /// The data is valid and is not to be stored.
    DataValidAndNotStoreRequest,
    /// The data is invalid.
    DataInvalid,
    /// ParamDownloadStart.
    DownloadStart,
    /// ParamBreak or ParamUploadEnd.
    ParamBreakOrUploadEnd,
    /// The device mode changed to Idle or Startup.
    DeviceModeChange,
    /// ParamUploadStart.
    UploadStart,
    /// ParamUploadEnd, ParamBreak or ParamDownloadEnd outside a block.
    UploadEndOrParamBreakOrDownloadEnd,
    /// ParamDownloadEnd.
    DownloadEnd,
    /// A reset SystemCommand.
    SysCmdReset,
}

/// Transitions of the Parameter Manager that have work left for `poll`.
#[derive(Debug, Clone, Copy, PartialEq, Eq, Structural)]
pub enum PmTransition {
    /// No pending work.
    Tn,
    /// Single parameter written.
    T1,
    /// Download store requested.
    T2,
    /// Local parameter changed.
    T3,
    /// Valid data to store.
    T4,
    /// Valid data not to store.
    T5,
    /// Invalid data.
    T6,
    /// Download started.
    T7,
    /// Download broken off or upload ended.
    T8,
    /// Device mode changed during download.
    T9,
    /// Upload started.
    T10,
    /// Upload ended.
    T11,
    /// Device mode changed during upload.
    T12,
    /// Download ended.
    T13,
    /// Download stored.
    T14,
    /// Upload restarted.
    T15,
    /// Download restarted.
    T16,
    /// Download store during upload.
    T17,
    /// Upload started during download.
    T18,
    /// Download started during upload.
    T19,
    /// Block command outside a block.
    T20,
    /// Reset during download.
    T21,
    /// Reset during upload.
    T22,
}

/// The state machine of the Parameter Manager.
pub open spec fn pm_next(state: ParameterManagerState, event: ParameterManagerEvent) -> Option<
    (PmTransition, ParameterManagerState),
> {
    match (state, event) {
        (ParameterManagerState::Idle, ParameterManagerEvent::SingleParameter) => Some(
            (PmTransition::T1, ParameterManagerState::ValidityCheck),
        ),
        (ParameterManagerState::Idle, ParameterManagerEvent::DownloadStore) => Some(
            (PmTransition::T2, ParameterManagerState::ValidityCheck),
        ),
        (ParameterManagerState::Idle, ParameterManagerEvent::LocalParameter) => Some(
            (PmTransition::T3, ParameterManagerState::ValidityCheck),
        ),
        (
            ParameterManagerState::ValidityCheck,
            ParameterManagerEvent::DataValidAndStoreRequest,
        ) => Some((PmTransition::T4, ParameterManagerState::Idle)),
        (
            ParameterManagerState::ValidityCheck,
            ParameterManagerEvent::DataValidAndNotStoreRequest,
        ) => Some((PmTransition::T5, ParameterManagerState::Idle)),
        (ParameterManagerState::ValidityCheck, ParameterManagerEvent::DataInvalid) => Some(
            (PmTransition::T6, ParameterManagerState::Idle),
        ),
        (ParameterManagerState::Idle, ParameterManagerEvent::DownloadStart) => Some(
            (PmTransition::T7, ParameterManagerState::Download),
        ),
        (ParameterManagerState::Download, ParameterManagerEvent::ParamBreakOrUploadEnd) => Some(
            (PmTransition::T8, ParameterManagerState::Idle),
        ),
        (ParameterManagerState::Download, ParameterManagerEvent::DeviceModeChange) => Some(
            (PmTransition::T9, ParameterManagerState::Idle),
        ),
        (ParameterManagerState::Idle, ParameterManagerEvent::UploadStart) => Some(
            (PmTransition::T10, ParameterManagerState::Upload),
        ),
        (
            ParameterManagerState::Upload,
            ParameterManagerEvent::UploadEndOrParamBreakOrDownloadEnd,
        ) => Some((PmTransition::T11, ParameterManagerState::Idle)),
        (ParameterManagerState::Upload, ParameterManagerEvent::DeviceModeChange) => Some(
            (PmTransition::T12, ParameterManagerState::Idle),
        ),
        (ParameterManagerState::Download, ParameterManagerEvent::DownloadEnd) => Some(
            (PmTransition::T13, ParameterManagerState::ValidityCheck),
        ),
        (ParameterManagerState::Download, ParameterManagerEvent::DownloadStore) => Some(
            (PmTransition::T14, ParameterManagerState::ValidityCheck),
        ),
        (ParameterManagerState::Upload, ParameterManagerEvent::UploadStart) => Some(
            (PmTransition::T15, ParameterManagerState::Upload),
        ),
        (ParameterManagerState::Download, ParameterManagerEvent::DownloadStart) => Some(
            (PmTransition::T16, ParameterManagerState::Download),
        ),
        (ParameterManagerState::Upload, ParameterManagerEvent::DownloadStore) => Some(
            (PmTransition::T17, ParameterManagerState::ValidityCheck),
        ),
        (ParameterManagerState::Download, ParameterManagerEvent::UploadStart) => Some(
            (PmTransition::T18, ParameterManagerState::Upload),
        ),
        (ParameterManagerState::Upload, ParameterManagerEvent::DownloadStart) => Some(
            (PmTransition::T19, ParameterManagerState::Download),
        ),
        (
            ParameterManagerState::Idle,
            ParameterManagerEvent::UploadEndOrParamBreakOrDownloadEnd,
        ) => Some((PmTransition::T20, ParameterManagerState::Idle)),
        (ParameterManagerState::Download, ParameterManagerEvent::SysCmdReset) => Some(
            (PmTransition::T21, ParameterManagerState::Idle),
        ),
        (ParameterManagerState::Upload, ParameterManagerEvent::SysCmdReset) => Some(
            (PmTransition::T22, ParameterManagerState::Idle),
        ),
        _ => None,
    }
}

/// What the Parameter Manager holds.
pub struct PmModel {
    /// State.
    pub state: ParameterManagerState,
    /// Pending transition.
    pub transition: PmTransition,
    /// A local store was requested.
    pub store_request: bool,
    /// Result of the validity check.
    pub data_valid: ValidityCheckResult,
    /// Local parameter access.
    pub lock: LockState,
    /// A Data Storage store was requested.
    pub ds_store_request: bool,
    /// Values of the parameter storage.
    pub storage: Seq<Seq<u8>>,
    /// Read request still to be answered.
    pub read_cycle: Option<(u16, u8)>,
    /// Write still to be answered.
    pub write_cycle: WriteCycleStatus,
    /// Data Storage command still to be forwarded.
    pub ds_command: Option<DsCommand>,
}

/// The model after one event: an accepted event moves the state and the
/// pending transition; any other leaves the model as it is.
pub open spec fn pm_apply(m: PmModel, e: ParameterManagerEvent) -> PmModel {
    match pm_next(m.state, e) {
        Some((t, s)) => PmModel { state: s, transition: t, ..m },
        None => m,
    }
}

/// The event of a SystemCommand in a state: ParamUploadEnd and ParamBreak
/// end a download as [ParamBreak or UploadEnd] and are
/// [UploadEnd or ParamBreak or DownloadEnd] elsewhere; ParamDownloadEnd ends
/// a download as [DownloadEnd] and is [UploadEnd or ParamBreak or
/// DownloadEnd] elsewhere; the resets are [SysCmdReset].
pub open spec fn command_event(state: ParameterManagerState, c: SystemCommand) -> ParameterManagerEvent {
    match c {
        SystemCommand::ParamUploadStart => ParameterManagerEvent::UploadStart,
        SystemCommand::ParamUploadEnd | SystemCommand::ParamBreak => if state is Download {
            ParameterManagerEvent::ParamBreakOrUploadEnd
        } else {
            ParameterManagerEvent::UploadEndOrParamBreakOrDownloadEnd
        },
        SystemCommand::ParamDownloadStart => ParameterManagerEvent::DownloadStart,
        SystemCommand::ParamDownloadEnd => if state is Download {
            ParameterManagerEvent::DownloadEnd
        } else {
            ParameterManagerEvent::UploadEndOrParamBreakOrDownloadEnd
        },
        SystemCommand::ParamDownloadStore => ParameterManagerEvent::DownloadStore,
        _ => ParameterManagerEvent::SysCmdReset,
    }
}

/// The model after the value of a write is put into the storage, where
/// the written parameters are not known to be invalid.
pub open spec fn pm_store_write(m: PmModel, index: u16, subindex: u8, data: Seq<u8>) -> PmModel {
    if m.data_valid is Invalid {
        m
    } else {
        match spec_set_parameter(m.storage, index, subindex, data) {
            Ok(st) => PmModel {
                storage: st,
                data_valid: ValidityCheckResult::Valid,
                write_cycle: WriteCycleStatus::Successful,
                ..m
            },
            Err(_) => PmModel {
                data_valid: ValidityCheckResult::Invalid,
                write_cycle: WriteCycleStatus::Failed,
                ..m
            },
        }
    }
}

/// The model and result after a write indication.
pub open spec fn pm_al_write(m: PmModel, index: u16, subindex: u8, data: Seq<u8>) -> (
    PmModel,
    IoLinkResult<()>,
) {
    let m1 = pm_store_write(m, index, subindex, data);
    match spec_from_index(index) {
        Some(DeviceParametersIndex::SystemCommand) => if data.len() == 0 {
            (m1, Err(IoLinkError::InvalidData))
        } else {
            match spec_system_command_from_u8(data[0]) {
                None => (m1, Err(IoLinkError::InvalidData)),
                Some(SystemCommand::VendorSpecific(_)) => (m1, Err(IoLinkError::FuncNotAvailable)),
                Some(c) => match pm_next(m1.state, command_event(m1.state, c)) {
                    None => (m1, Err(IoLinkError::InvalidEvent)),
                    Some((t, _)) => {
                        let m2 = pm_apply(m1, command_event(m1.state, c));
                        if t is T20 {
                            (PmModel { write_cycle: WriteCycleStatus::WaitingForRequest, ..m2 }, Ok(()))
                        } else {
                            (m2, Ok(()))
                        }
                    },
                },
            }
        },
        Some(DeviceParametersIndex::DataStorageIndex) => if subindex == 1 && data.len() == 0 {
            (m1, Err(IoLinkError::InvalidData))
        } else if subindex == 1 {
            match spec_ds_command_from_u8(data[0]) {
                None => (m1, Err(IoLinkError::InvalidData)),
                Some(c) => (PmModel { ds_command: Some(c), ..m1 }, Ok(())),
            }
        } else {
            (m1, Ok(()))
        },
        _ => match pm_next(m1.state, ParameterManagerEvent::SingleParameter) {
            None => (m1, Err(IoLinkError::InvalidEvent)),
            Some(_) => (pm_apply(m1, ParameterManagerEvent::SingleParameter), Ok(())),
        },
    }
}

/// The Parameter Manager together with the On-request Data handler and
/// Data Storage that its `poll` works on.
pub struct PmWorld {
    /// The Parameter Manager.
    pub pm: PmModel,
    /// The On-request Data handler.
    pub od: AlOdModel,
    /// State of Data Storage.
    pub ds_state: DtatStorageStateMachineState,
    /// Pending transition of Data Storage.
    pub ds_transition: DataStorageTransition,
}

/// The model after a transition whose work always succeeds.
pub open spec fn pm_simple_transition(m: PmModel, t: PmTransition) -> PmModel {
    let unlocked = PmModel { lock: LockState::Unlocked, ..m };
    let reset = ValidityCheckResult::YetToBeValidated;
    match t {
        PmTransition::T2 => PmModel { ds_store_request: true, ..m },
        PmTransition::T3 => PmModel { store_request: true, ..m },
        PmTransition::T5 | PmTransition::T19 => PmModel { data_valid: reset, ..m },
        PmTransition::T7 | PmTransition::T10 | PmTransition::T15 => PmModel {
            lock: LockState::Locked,
            ..m
        },
        PmTransition::T8 | PmTransition::T9 | PmTransition::T12 | PmTransition::T21 => PmModel {
            data_valid: reset,
            storage: default_values(),
            ..unlocked
        },
        PmTransition::T11 | PmTransition::T22 => PmModel { data_valid: reset, ..unlocked },
        PmTransition::T13 => unlocked,
        PmTransition::T14 | PmTransition::T17 => PmModel { store_request: true, ..unlocked },
        PmTransition::T16 | PmTransition::T18 => PmModel {
            data_valid: reset,
            storage: default_values(),
            ..m
        },
        _ => m,
    }
}

/// The world after the validity check of a Parameter Manager in
/// ValidityCheck is decided.
pub open spec fn pm_validity_step(m: PmModel) -> PmModel {
    if m.state is ValidityCheck {
        if m.data_valid is Valid && m.ds_store_request {
            pm_apply(m, ParameterManagerEvent::DataValidAndStoreRequest)
        } else if m.data_valid is Valid {
            pm_apply(m, ParameterManagerEvent::DataValidAndNotStoreRequest)
        } else if m.data_valid is Invalid {
            pm_apply(m, ParameterManagerEvent::DataInvalid)
        } else {
            m
        }
    } else {
        m
    }
}

/// The work of `poll` after the pending transition: the validity check,
/// then the answer to a pending read, to a pending write, and the
/// forwarding of a Data Storage command; the first answer that is refused
/// ends the work.
pub open spec fn pm_active_state(w: PmWorld) -> PmWorld {
    let w1 = PmWorld { pm: pm_validity_step(w.pm), ..w };
    match w1.pm.read_cycle {
        Some((i, s)) => match spec_get_parameter(w1.pm.storage, i, s) {
            Err(_) => w1,
            Ok((n, d)) => if al_od_next(w1.od.state, AlOdEvent::AlReadRsp) is None {
                w1
            } else {
                let w2 = PmWorld {
                    pm: PmModel { read_cycle: None, ..w1.pm },
                    od: al_od_apply(
                        AlOdModel { rsp_length: n, rsp_data: d, ..w1.od },
                        AlOdEvent::AlReadRsp,
                    ),
                    ..w1
                };
                pm_write_and_ds_step(w2)
            },
        },
        None => pm_write_and_ds_step(w1),
    }
}

/// The answer to a pending write, then the forwarding of a pending Data
/// Storage command.
pub open spec fn pm_write_and_ds_step(w: PmWorld) -> PmWorld {
    match w.pm.write_cycle {
        WriteCycleStatus::Successful => PmWorld {
            pm: PmModel { write_cycle: WriteCycleStatus::WaitingForRequest, ..w.pm },
            od: al_od_apply(AlOdModel { write_error: None, ..w.od }, AlOdEvent::AlWriteRsp),
            ..w
        },
        WriteCycleStatus::Failed => PmWorld {
            pm: PmModel { write_cycle: WriteCycleStatus::WaitingForRequest, ..w.pm },
            od: al_od_apply(
                AlOdModel { write_error: Some(isdu_error_pair(IsduError::ServNotAvail)), ..w.od },
                AlOdEvent::AlWriteRsp,
            ),
            ..w
        },
        WriteCycleStatus::WaitingForRequest => match w.pm.ds_command {
            Some(c) => match ds_next(w.ds_state, ds_command_event(c)) {
                Some((t, s)) => PmWorld {
                    pm: PmModel { ds_command: None, ..w.pm },
                    ds_state: s,
                    ds_transition: t,
                    ..w
                },
                None => w,
            },
            None => w,
        },
    }
}

/// The model after the work of T4: DS_ParUpload was accepted, the flags
/// that asked for the store are reset and the check result is reset.
pub open spec fn pm_after_t4(m: PmModel) -> PmModel {
    PmModel {
        store_request: false,
        ds_store_request: false,
        data_valid: ValidityCheckResult::YetToBeValidated,
        ..m
    }
}

/// The model after the work of T6: the parameter set is discarded, the
/// store flags and the check result are reset.
pub open spec fn pm_after_t6(m: PmModel) -> PmModel {
    PmModel {
        store_request: false,
        ds_store_request: false,
        data_valid: ValidityCheckResult::YetToBeValidated,
        storage: default_values(),
        ..m
    }
}

/// What one `poll` of the Parameter Manager gives: the world after it and
/// its result. Every write is answered once, by the answer of the write
/// cycle; T4 asks Data Storage for an upload (a refusal ends the work with
/// `InvalidEvent`); T6 discards the parameter set; T20 answers the block
/// command with "function not available" (a refusal of that answer ends
/// the work with `InvalidEvent`).
pub open spec fn pm_poll(w: PmWorld) -> (PmWorld, IoLinkResult<()>) {
    let t = w.pm.transition;
    let m = PmModel { transition: PmTransition::Tn, ..w.pm };
    match t {
        PmTransition::T4 => {
            match ds_next(w.ds_state, DataStorageStateMachineEvent::DsParUploadInd) {
                None => (PmWorld { pm: m, ..w }, Err(IoLinkError::InvalidEvent)),
                Some((dt, ds)) => (
                    pm_active_state(
                        PmWorld { pm: pm_after_t4(m), od: w.od, ds_state: ds, ds_transition: dt },
                    ),
                    Ok(()),
                ),
            }
        },
        PmTransition::T6 => (pm_active_state(PmWorld { pm: pm_after_t6(m), ..w }), Ok(())),
        PmTransition::T20 => {
            let od1 = al_od_apply(
                AlOdModel { write_error: Some(isdu_error_pair(IsduError::FuncNotAvail)), ..w.od },
                AlOdEvent::AlWriteRsp,
            );
            let m20 = PmModel { data_valid: ValidityCheckResult::YetToBeValidated, ..m };
            if al_od_next(w.od.state, AlOdEvent::AlWriteRsp) is None {
                (PmWorld { pm: m, od: od1, ..w }, Err(IoLinkError::InvalidEvent))
            } else {
                (pm_active_state(PmWorld { pm: m20, od: od1, ..w }), Ok(()))
            }
        },
        _ => (pm_active_state(PmWorld { pm: pm_simple_transition(m, t), ..w }), Ok(())),
    }
}

/// The Parameter Manager.
pub struct ParameterManager {
    state: ParameterManagerState,
    exec_transition: PmTransition,
    store_request: bool,
    data_valid: ValidityCheckResult,
    local_parameter_access: LockState,
    ds_store_request: bool,
    param_storage: ParameterStorage,
    read_cycle: Option<(u16, u8)>,
    write_cycle_status: WriteCycleStatus,
    ds_command: Option<DsCommand>,
}

impl View for ParameterManager {
    type V = PmModel;

    closed spec fn view(&self) -> PmModel {
        PmModel {
            state: self.state,
            transition: self.exec_transition,
            store_request: self.store_request,
            data_valid: self.data_valid,
            lock: self.local_parameter_access,
            ds_store_request: self.ds_store_request,
            storage: self.param_storage@,
            read_cycle: self.read_cycle,
            write_cycle: self.write_cycle_status,
            ds_command: self.ds_command,
        }
    }
}

impl ParameterManager {
    /// The parameter storage is well formed.
    pub closed spec fn wf(&self) -> bool {
        self.param_storage.wf()
    }

    /// Idle, nothing pending, unlocked, default parameters.
    pub fn new() -> (r: ParameterManager)
        ensures
            r.wf(),
            r@ == (PmModel {
                state: ParameterManagerState::Idle,
                transition: PmTransition::Tn,
                store_request: false,
                data_valid: ValidityCheckResult::YetToBeValidated,
                lock: LockState::Unlocked,
                ds_store_request: false,
                storage: default_values(),
                read_cycle: None,
                write_cycle: WriteCycleStatus::WaitingForRequest,
                ds_command: None,
            }),
    {
        ParameterManager {
            state: ParameterManagerState::Idle,
            exec_transition: PmTransition::Tn,
            store_request: false,
            data_valid: ValidityCheckResult::YetToBeValidated,
            local_parameter_access: LockState::Unlocked,
            ds_store_request: false,
            param_storage: ParameterStorage::new(),
            read_cycle: None,
            write_cycle_status: WriteCycleStatus::WaitingForRequest,
            ds_command: None,
        }
    }

    /// Feeds one event to the state machine; an event that is not accepted
    /// leaves everything as it is and gives `InvalidEvent`.
    pub fn process_event(&mut self, event: ParameterManagerEvent) -> (r: IoLinkResult<()>)
        requires
            old(self).wf(),
        ensures
            final(self).wf(),
            final(self)@ == pm_apply(old(self)@, event),
            r is Ok <==> pm_next(old(self)@.state, event) is Some,
            r is Err ==> r == Err::<(), IoLinkError>(IoLinkError::InvalidEvent),
    {
        let next = match (self.state, event) {
            (ParameterManagerState::Idle, ParameterManagerEvent::SingleParameter) => Some(
                (PmTransition::T1, ParameterManagerState::ValidityCheck),
            ),
            (ParameterManagerState::Idle, ParameterManagerEvent::DownloadStore) => Some(
                (PmTransition::T2, ParameterManagerState::ValidityCheck),
            ),
            (ParameterManagerState::Idle, ParameterManagerEvent::LocalParameter) => Some(
                (PmTransition::T3, ParameterManagerState::ValidityCheck),
            ),
            (
                ParameterManagerState::ValidityCheck,
                ParameterManagerEvent::DataValidAndStoreRequest,
            ) => Some((PmTransition::T4, ParameterManagerState::Idle)),
            (
                ParameterManagerState::ValidityCheck,
                ParameterManagerEvent::DataValidAndNotStoreRequest,
            ) => Some((PmTransition::T5, ParameterManagerState::Idle)),
            (ParameterManagerState::ValidityCheck, ParameterManagerEvent::DataInvalid) => Some(
                (PmTransition::T6, ParameterManagerState::Idle),
            ),
            (ParameterManagerState::Idle, ParameterManagerEvent::DownloadStart) => Some(
                (PmTransition::T7, ParameterManagerState::Download),
            ),
            (
                ParameterManagerState::Download,
                ParameterManagerEvent::ParamBreakOrUploadEnd,
            ) => Some((PmTransition::T8, ParameterManagerState::Idle)),
            (ParameterManagerState::Download, ParameterManagerEvent::DeviceModeChange) => Some(
                (PmTransition::T9, ParameterManagerState::Idle),
            ),
            (ParameterManagerState::Idle, ParameterManagerEvent::UploadStart) => Some(
                (PmTransition::T10, ParameterManagerState::Upload),
            ),
            (
                ParameterManagerState::Upload,
                ParameterManagerEvent::UploadEndOrParamBreakOrDownloadEnd,
            ) => Some((PmTransition::T11, ParameterManagerState::Idle)),
            (ParameterManagerState::Upload, ParameterManagerEvent::DeviceModeChange) => Some(
                (PmTransition::T12, ParameterManagerState::Idle),
            ),
            (ParameterManagerState::Download, ParameterManagerEvent::DownloadEnd) => Some(
                (PmTransition::T13, ParameterManagerState::ValidityCheck),
            ),
            (ParameterManagerState::Download, ParameterManagerEvent::DownloadStore) => Some(
                (PmTransition::T14, ParameterManagerState::ValidityCheck),
            ),
            (ParameterManagerState::Upload, ParameterManagerEvent::UploadStart) => Some(
                (PmTransition::T15, ParameterManagerState::Upload),
            ),
            (ParameterManagerState::Download, ParameterManagerEvent::DownloadStart) => Some(
                (PmTransition::T16, ParameterManagerState::Download),
            ),
            (ParameterManagerState::Upload, ParameterManagerEvent::DownloadStore) => Some(
                (PmTransition::T17, ParameterManagerState::ValidityCheck),
            ),
            (ParameterManagerState::Download, ParameterManagerEvent::UploadStart) => Some(
                (PmTransition::T18, ParameterManagerState::Upload),
            ),
            (ParameterManagerState::Upload, ParameterManagerEvent::DownloadStart) => Some(
                (PmTransition::T19, ParameterManagerState::Download),
            ),
            (
                ParameterManagerState::Idle,
                ParameterManagerEvent::UploadEndOrParamBreakOrDownloadEnd,
            ) => Some((PmTransition::T20, ParameterManagerState::Idle)),
            (ParameterManagerState::Download, ParameterManagerEvent::SysCmdReset) => Some(
                (PmTransition::T21, ParameterManagerState::Idle),
            ),
            (ParameterManagerState::Upload, ParameterManagerEvent::SysCmdReset) => Some(
                (PmTransition::T22, ParameterManagerState::Idle),
            ),
            _ => None,
        };
        match next {
            Some((t, s)) => {
                self.exec_transition = t;
                self.state = s;
                Ok(())
            },
            None => Err(IoLinkError::InvalidEvent),
        }
    }

    /// Does the work of the pending transition, then decides a pending
    /// validity check and answers pending reads and writes through the
    /// On-request Data handler, and forwards a pending Data Storage command.
    pub fn poll(&mut self, od_handler: &mut OnRequestDataHandler, data_storage: &mut DataStorage) -> (r:
        IoLinkResult<()>)
        requires
            old(self).wf(),
        ensures
            final(self).wf(),
            ({
                let w = PmWorld {
                    pm: old(self)@,
                    od: old(od_handler)@,
                    ds_state: old(data_storage).spec_state(),
                    ds_transition: old(data_storage).spec_transition(),
                };
                let (w2, res) = pm_poll(w);
                &&& final(self)@ == w2.pm
                &&& final(od_handler)@ == w2.od
                &&& final(data_storage).spec_state() == w2.ds_state
                &&& final(data_storage).spec_transition() == w2.ds_transition
                &&& (r is Ok <==> res is Ok)
                &&& (r is Err ==> r->Err_0 == res->Err_0)
            }),
    {
        let t = self.exec_transition;
        self.exec_transition = PmTransition::Tn;
        match t {
            PmTransition::T4 => {
                let res = self.execute_t4(data_storage);
                if res.is_err() {
                    return res;
                }
            },
            PmTransition::T6 => {
                let _ = self.execute_t6();
            },
            PmTransition::T20 => {
                let res = self.execute_t20(od_handler);
                if res.is_err() {
                    return res;
                }
            },
            _ => {
                self.execute_simple(t);
            },
        }
        self.poll_active_state(od_handler, data_storage);
        Ok(())
    }

    /// The work of a transition that always succeeds.
    fn execute_simple(&mut self, t: PmTransition)
        requires
            old(self).wf(),
        ensures
            final(self).wf(),
            final(self)@ == pm_simple_transition(old(self)@, t),
    {
        match t {
            PmTransition::T1 => {
                let _ = self.execute_t1();
            },
            PmTransition::T2 => {
                let _ = self.execute_t2();
            },
            PmTransition::T3 => {
                let _ = self.execute_t3();
            },
            PmTransition::T5 => {
                let _ = self.execute_t5();
            },
            PmTransition::T7 => {
                let _ = self.execute_t7();
            },
            PmTransition::T8 => {
                let _ = self.execute_t8();
            },
            PmTransition::T9 => {
                let _ = self.execute_t9();
            },
            PmTransition::T10 => {
                let _ = self.execute_t10();
            },
            PmTransition::T11 => {
                let _ = self.execute_t11();
            },
            PmTransition::T12 => {
                let _ = self.execute_t12();
            },
            PmTransition::T13 => {
                let _ = self.execute_t13();
            },
            PmTransition::T14 => {
                let _ = self.execute_t14();
            },
            PmTransition::T15 => {
                let _ = self.execute_t15();
            },
            PmTransition::T16 => {
                let _ = self.execute_t16();
            },
            PmTransition::T17 => {
                let _ = self.execute_t17();
            },
            PmTransition::T18 => {
                let _ = self.execute_t18();
            },
            PmTransition::T19 => {
                let _ = self.execute_t19();
            },
            PmTransition::T21 => {
                let _ = self.execute_t21();
            },
            PmTransition::T22 => {
                let _ = self.execute_t22();
            },
            _ => {},
        }
    }

    /// Work of T1, single parameter written: nothing to do.
    pub fn execute_t1(&mut self) -> (r: IoLinkResult<()>)
        requires
            old(self).wf(),
        ensures
            final(self).wf(),
            r is Ok,
            final(self)@ == pm_simple_transition(old(self)@, PmTransition::T1),
    {
        Ok(())
    }
    /// Work of T2, download store requested: a Data Storage store is requested.
    pub fn execute_t2(&mut self) -> (r: IoLinkResult<()>)
        requires
            old(self).wf(),
        ensures
            final(self).wf(),
            r is Ok,
            final(self)@ == pm_simple_transition(old(self)@, PmTransition::T2),
    {
        self.ds_store_request = true;
        Ok(())
    }
    /// Work of T3, local parameter changed: a local store is requested.
    pub fn execute_t3(&mut self) -> (r: IoLinkResult<()>)
        requires
            old(self).wf(),
        ensures
            final(self).wf(),
            r is Ok,
            final(self)@ == pm_simple_transition(old(self)@, PmTransition::T3),
    {
        self.store_request = true;
        Ok(())
    }
    /// Work of T5, valid data, no store: the check result is reset.
    pub fn execute_t5(&mut self) -> (r: IoLinkResult<()>)
        requires
            old(self).wf(),
        ensures
            final(self).wf(),
            r is Ok,
            final(self)@ == pm_simple_transition(old(self)@, PmTransition::T5),
    {
        self.data_valid = ValidityCheckResult::YetToBeValidated;
        Ok(())
    }
    /// Work of T7, download started: local access is locked.
    pub fn execute_t7(&mut self) -> (r: IoLinkResult<()>)
        requires
            old(self).wf(),
        ensures
            final(self).wf(),
            r is Ok,
            final(self)@ == pm_simple_transition(old(self)@, PmTransition::T7),
    {
        self.local_parameter_access = LockState::Locked;
        Ok(())
    }
    /// Work of T8, download broken off: local access is unlocked, the check result reset and the parameters back at their defaults.
    pub fn execute_t8(&mut self) -> (r: IoLinkResult<()>)
        requires
            old(self).wf(),
        ensures
            final(self).wf(),
            r is Ok,
            final(self)@ == pm_simple_transition(old(self)@, PmTransition::T8),
    {
        self.local_parameter_access = LockState::Unlocked;
        self.data_valid = ValidityCheckResult::YetToBeValidated;
        self.param_storage.clear();
        Ok(())
    }
    /// Work of T9, device mode changed during download: as T8.
    pub fn execute_t9(&mut self) -> (r: IoLinkResult<()>)
        requires
            old(self).wf(),
        ensures
            final(self).wf(),
            r is Ok,
            final(self)@ == pm_simple_transition(old(self)@, PmTransition::T9),
    {
        self.local_parameter_access = LockState::Unlocked;
        self.data_valid = ValidityCheckResult::YetToBeValidated;
        self.param_storage.clear();
        Ok(())
    }
    /// Work of T10, upload started: local access is locked.
    pub fn execute_t10(&mut self) -> (r: IoLinkResult<()>)
        requires
            old(self).wf(),
        ensures
            final(self).wf(),
            r is Ok,
            final(self)@ == pm_simple_transition(old(self)@, PmTransition::T10),
    {
        self.local_parameter_access = LockState::Locked;
        Ok(())
    }
    /// Work of T11, upload ended: local access is unlocked and the check result reset.
    pub fn execute_t11(&mut self) -> (r: IoLinkResult<()>)
        requires
            old(self).wf(),
        ensures
            final(self).wf(),
            r is Ok,
            final(self)@ == pm_simple_transition(old(self)@, PmTransition::T11),
    {
        self.local_parameter_access = LockState::Unlocked;
        self.data_valid = ValidityCheckResult::YetToBeValidated;
        Ok(())
    }
    /// Work of T12, device mode changed during upload: local access is unlocked, the check result reset and the parameters back at their defaults.
    pub fn execute_t12(&mut self) -> (r: IoLinkResult<()>)
        requires
            old(self).wf(),
        ensures
            final(self).wf(),
            r is Ok,
            final(self)@ == pm_simple_transition(old(self)@, PmTransition::T12),
    {
        self.local_parameter_access = LockState::Unlocked;
        self.data_valid = ValidityCheckResult::YetToBeValidated;
        self.param_storage.clear();
        Ok(())
    }
    /// Work of T13, download ended: local access is unlocked.
    pub fn execute_t13(&mut self) -> (r: IoLinkResult<()>)
        requires
            old(self).wf(),
        ensures
            final(self).wf(),
            r is Ok,
            final(self)@ == pm_simple_transition(old(self)@, PmTransition::T13),
    {
        self.local_parameter_access = LockState::Unlocked;
        Ok(())
    }
    /// Work of T14, download stored: local access is unlocked and a local store requested.
    pub fn execute_t14(&mut self) -> (r: IoLinkResult<()>)
        requires
            old(self).wf(),
        ensures
            final(self).wf(),
            r is Ok,
            final(self)@ == pm_simple_transition(old(self)@, PmTransition::T14),
    {
        self.local_parameter_access = LockState::Unlocked;
        self.store_request = true;
        Ok(())
    }
    /// Work of T15, upload restarted: local access is locked.
    pub fn execute_t15(&mut self) -> (r: IoLinkResult<()>)
        requires
            old(self).wf(),
        ensures
            final(self).wf(),
            r is Ok,
            final(self)@ == pm_simple_transition(old(self)@, PmTransition::T15),
    {
        self.local_parameter_access = LockState::Locked;
        Ok(())
    }
    /// Work of T16, download restarted: the check result is reset and the parameters back at their defaults.
    pub fn execute_t16(&mut self) -> (r: IoLinkResult<()>)
        requires
            old(self).wf(),
        ensures
            final(self).wf(),
            r is Ok,
            final(self)@ == pm_simple_transition(old(self)@, PmTransition::T16),
    {
        self.data_valid = ValidityCheckResult::YetToBeValidated;
        self.param_storage.clear();
        Ok(())
    }
    /// Work of T17, download store during upload: local access is unlocked and a local store requested.
    pub fn execute_t17(&mut self) -> (r: IoLinkResult<()>)
        requires
            old(self).wf(),
        ensures
            final(self).wf(),
            r is Ok,
            final(self)@ == pm_simple_transition(old(self)@, PmTransition::T17),
    {
        self.local_parameter_access = LockState::Unlocked;
        self.store_request = true;
        Ok(())
    }
    /// Work of T18, upload started during download: the check result is reset and the parameters back at their defaults.
    pub fn execute_t18(&mut self) -> (r: IoLinkResult<()>)
        requires
            old(self).wf(),
        ensures
            final(self).wf(),
            r is Ok,
            final(self)@ == pm_simple_transition(old(self)@, PmTransition::T18),
    {
        self.data_valid = ValidityCheckResult::YetToBeValidated;
        self.param_storage.clear();
        Ok(())
    }
    /// Work of T19, download started during upload: the check result is reset.
    pub fn execute_t19(&mut self) -> (r: IoLinkResult<()>)
        requires
            old(self).wf(),
        ensures
            final(self).wf(),
            r is Ok,
            final(self)@ == pm_simple_transition(old(self)@, PmTransition::T19),
    {
        self.data_valid = ValidityCheckResult::YetToBeValidated;
        Ok(())
    }
    /// Work of T21, reset during download: as T8.
    pub fn execute_t21(&mut self) -> (r: IoLinkResult<()>)
        requires
            old(self).wf(),
        ensures
            final(self).wf(),
            r is Ok,
            final(self)@ == pm_simple_transition(old(self)@, PmTransition::T21),
    {
        self.local_parameter_access = LockState::Unlocked;
        self.data_valid = ValidityCheckResult::YetToBeValidated;
        self.param_storage.clear();
        Ok(())
    }
    /// Work of T22, reset during upload: as T11.
    pub fn execute_t22(&mut self) -> (r: IoLinkResult<()>)
        requires
            old(self).wf(),
        ensures
            final(self).wf(),
            r is Ok,
            final(self)@ == pm_simple_transition(old(self)@, PmTransition::T22),
    {
        self.local_parameter_access = LockState::Unlocked;
        self.data_valid = ValidityCheckResult::YetToBeValidated;
        Ok(())
    }

    /// Work of T4, valid data to store: Data Storage is told the parameters
    /// changed (its refusal ends the work with `InvalidEvent`); the store
    /// flags and the check result are reset. The write itself is answered
    /// once, by the write cycle.
    pub fn execute_t4(&mut self, data_storage: &mut DataStorage) -> (r: IoLinkResult<()>)
        requires
            old(self).wf(),
        ensures
            final(self).wf(),
            match ds_next(old(data_storage).spec_state(), DataStorageStateMachineEvent::DsParUploadInd) {
                None => r == Err::<(), IoLinkError>(IoLinkError::InvalidEvent)
                    && final(self)@ == old(self)@
                    && final(data_storage).spec_state() == old(data_storage).spec_state()
                    && final(data_storage).spec_transition() == old(data_storage).spec_transition(),
                Some((dt, ds)) => r is Ok && final(self)@ == pm_after_t4(old(self)@)
                    && final(data_storage).spec_state() == ds
                    && final(data_storage).spec_transition() == dt,
            },
    {
        let res = data_storage.ds_par_upload_ind();
        if res.is_err() {
            return res;
        }
        self.store_request = false;
        self.ds_store_request = false;
        self.data_valid = ValidityCheckResult::YetToBeValidated;
        Ok(())
    }

    /// Work of T6, invalid data: the parameter set is discarded and the
    /// store flags and the check result are reset. The write itself is
    /// answered once, negatively, by the write cycle.
    pub fn execute_t6(&mut self) -> (r: IoLinkResult<()>)
        requires
            old(self).wf(),
        ensures
            final(self).wf(),
            r is Ok,
            final(self)@ == pm_after_t6(old(self)@),
    {
        self.store_request = false;
        self.ds_store_request = false;
        self.data_valid = ValidityCheckResult::YetToBeValidated;
        self.param_storage.clear();
        Ok(())
    }

    /// Work of T20, a block command outside a block: the write is answered
    /// with "function not available" (a refused answer ends the work with
    /// `InvalidEvent`), and the check result is reset.
    pub fn execute_t20(&mut self, od_handler: &mut OnRequestDataHandler) -> (r: IoLinkResult<()>)
        requires
            old(self).wf(),
        ensures
            final(self).wf(),
            final(od_handler)@ == al_od_apply(
                AlOdModel { write_error: Some(isdu_error_pair(IsduError::FuncNotAvail)), ..old(od_handler)@ },
                AlOdEvent::AlWriteRsp,
            ),
            al_od_next(old(od_handler)@.state, AlOdEvent::AlWriteRsp) is None ==> r == Err::<
                (),
                IoLinkError,
            >(IoLinkError::InvalidEvent) && final(self)@ == old(self)@,
            al_od_next(old(od_handler)@.state, AlOdEvent::AlWriteRsp) is Some ==> r is Ok
                && final(self)@ == (PmModel { data_valid: ValidityCheckResult::YetToBeValidated, ..old(self)@ }),
    {
        let (e, ae) = IsduError::FuncNotAvail.codes();
        let res = od_handler.al_write_rsp(Err(AlRspError::Error(e, ae)));
        if res.is_err() {
            return res;
        }
        self.data_valid = ValidityCheckResult::YetToBeValidated;
        Ok(())
    }

    /// Decides a pending validity check, answers a pending read and write,
    /// and forwards a pending Data Storage command.
    fn poll_active_state(&mut self, od_handler: &mut OnRequestDataHandler, data_storage: &mut DataStorage)
        requires
            old(self).wf(),
        ensures
            final(self).wf(),
            ({
                let w = PmWorld {
                    pm: old(self)@,
                    od: old(od_handler)@,
                    ds_state: old(data_storage).spec_state(),
                    ds_transition: old(data_storage).spec_transition(),
                };
                let w2 = pm_active_state(w);
                &&& final(self)@ == w2.pm
                &&& final(od_handler)@ == w2.od
                &&& final(data_storage).spec_state() == w2.ds_state
                &&& final(data_storage).spec_transition() == w2.ds_transition
            }),
    {
        if let ParameterManagerState::ValidityCheck = self.state {
            if self.data_valid == ValidityCheckResult::Valid && self.ds_store_request {
                let _ = self.process_event(ParameterManagerEvent::DataValidAndStoreRequest);
            } else if self.data_valid == ValidityCheckResult::Valid {
                let _ = self.process_event(ParameterManagerEvent::DataValidAndNotStoreRequest);
            } else if self.data_valid == ValidityCheckResult::Invalid {
                let _ = self.process_event(ParameterManagerEvent::DataInvalid);
            }
        }
        if let Some((index, sub_index)) = self.read_cycle {
            proof {
                self.param_storage.lemma_values_wf();
            }
            match self.param_storage.get_parameter(index, sub_index) {
                Ok((length, data)) => {
                    let res = od_handler.al_read_rsp(Ok((length, data)));
                    if res.is_err() {
                        return;
                    }
                },
                Err(_) => {
                    let _ = od_handler.al_read_rsp(Err(AlRspError::Error(0x81, 0xFF)));
                    return;
                },
            }
            self.read_cycle = None;
        }
        self.write_and_ds_step(od_handler, data_storage);
    }

    /// Answers a pending write, or else forwards a pending Data Storage
    /// command.
    fn write_and_ds_step(&mut self, od_handler: &mut OnRequestDataHandler, data_storage: &mut DataStorage)
        requires
            old(self).wf(),
        ensures
            final(self).wf(),
            ({
                let w = PmWorld {
                    pm: old(self)@,
                    od: old(od_handler)@,
                    ds_state: old(data_storage).spec_state(),
                    ds_transition: old(data_storage).spec_transition(),
                };
                let w2 = pm_write_and_ds_step(w);
                &&& final(self)@ == w2.pm
                &&& final(od_handler)@ == w2.od
                &&& final(data_storage).spec_state() == w2.ds_state
                &&& final(data_storage).spec_transition() == w2.ds_transition
            }),
    {
        match self.write_cycle_status {
            WriteCycleStatus::Successful => {
                self.write_cycle_status = WriteCycleStatus::WaitingForRequest;
                let _ = od_handler.al_write_rsp(Ok(()));
                return;
            },
            WriteCycleStatus::Failed => {
                self.write_cycle_status = WriteCycleStatus::WaitingForRequest;
                let (e, ae) = IsduError::ServNotAvail.codes();
                let _ = od_handler.al_write_rsp(Err(AlRspError::Error(e, ae)));
                return;
            },
            WriteCycleStatus::WaitingForRequest => {},
        }
        if let Some(command) = self.ds_command {
            let res = data_storage.ds_command(command);
            if res.is_err() {
                return;
            }
            self.ds_command = None;
        }
    }

    /// AL_Read indication: the read is answered by the next `poll`.
    pub fn al_read_ind(&mut self, index: u16, sub_index: u8) -> (r: IoLinkResult<()>)
        requires
            old(self).wf(),
        ensures
            final(self).wf(),
            r is Ok,
            final(self)@ == (PmModel { read_cycle: Some((index, sub_index)), ..old(self)@ }),
    {
        self.read_cycle = Some((index, sub_index));
        Ok(())
    }

    /// AL_Abort indication: a pending read is dropped.
    pub fn al_abort_ind(&mut self) -> (r: IoLinkResult<()>)
        requires
            old(self).wf(),
        ensures
            final(self).wf(),
            r is Ok,
            final(self)@ == (PmModel { read_cycle: None, ..old(self)@ }),
    {
        self.read_cycle = None;
        Ok(())
    }

    /// AL_Write indication: unless the written parameters are known to be
    /// invalid, the value is put into the storage and the outcome kept for
    /// the answer; then a SystemCommand or Data Storage command is handled,
    /// and any other write starts a validity check.
    pub fn al_write_ind(&mut self, index: u16, sub_index: u8, data: &[u8]) -> (r: IoLinkResult<()>)
        requires
            old(self).wf(),
        ensures
            final(self).wf(),
            final(self)@ == pm_al_write(old(self)@, index, sub_index, data@).0,
            r is Ok <==> pm_al_write(old(self)@, index, sub_index, data@).1 is Ok,
            r is Err ==> r->Err_0 == pm_al_write(old(self)@, index, sub_index, data@).1->Err_0,
    {
        if self.data_valid != ValidityCheckResult::Invalid {
            match self.param_storage.set_parameter(index, sub_index, data) {
                Ok(_) => {
                    self.data_valid = ValidityCheckResult::Valid;
                    self.write_cycle_status = WriteCycleStatus::Successful;
                },
                Err(_) => {
                    self.data_valid = ValidityCheckResult::Invalid;
                    self.write_cycle_status = WriteCycleStatus::Failed;
                },
            }
        }
        assert(self@ == pm_store_write(old(self)@, index, sub_index, data@));
        match DeviceParametersIndex::from_index(index) {
            Some(DeviceParametersIndex::SystemCommand) => {
                if data.len() == 0 {
                    return Err(IoLinkError::InvalidData);
                }
                let command = match SystemCommand::from_u8(data[0]) {
                    Some(c) => c,
                    None => {
                        return Err(IoLinkError::InvalidData);
                    },
                };
                if let SystemCommand::VendorSpecific(_) = command {
                    return Err(IoLinkError::FuncNotAvailable);
                }
                let res = self.handle_system_command(command);
                if let PmTransition::T20 = self.exec_transition {
                    if res.is_ok() {
                        self.write_cycle_status = WriteCycleStatus::WaitingForRequest;
                    }
                }
                res
            },
            Some(DeviceParametersIndex::DataStorageIndex) => {
                if sub_index == 1 && data.len() == 0 {
                    return Err(IoLinkError::InvalidData);
                }
                if sub_index == 1 {
                    match DsCommand::try_from_u8(data[0]) {
                        Ok(c) => {
                            self.ds_command = Some(c);
                        },
                        Err(e) => {
                            return Err(e);
                        },
                    }
                }
                Ok(())
            },
            _ => self.process_event(ParameterManagerEvent::SingleParameter),
        }
    }

    /// Feeds a SystemCommand's event in the current state to the state
    /// machine.
    fn handle_system_command(&mut self, command: SystemCommand) -> (r: IoLinkResult<()>)
        requires
            old(self).wf(),
        ensures
            final(self).wf(),
            final(self)@ == pm_apply(old(self)@, command_event(old(self)@.state, command)),
            r is Ok <==> pm_next(old(self)@.state, command_event(old(self)@.state, command)) is Some,
            r is Err ==> r == Err::<(), IoLinkError>(IoLinkError::InvalidEvent),
    {
        let in_download = match self.state {
            ParameterManagerState::Download => true,
            _ => false,
        };
        match command {
            SystemCommand::ParamUploadStart => self.process_event(ParameterManagerEvent::UploadStart),
            SystemCommand::ParamUploadEnd | SystemCommand::ParamBreak => if in_download {
                self.process_event(ParameterManagerEvent::ParamBreakOrUploadEnd)
            } else {
                self.process_event(ParameterManagerEvent::UploadEndOrParamBreakOrDownloadEnd)
            },
            SystemCommand::ParamDownloadStart => self.process_event(
                ParameterManagerEvent::DownloadStart,
            ),
            SystemCommand::ParamDownloadEnd => if in_download {
                self.process_event(ParameterManagerEvent::DownloadEnd)
            } else {
                self.process_event(ParameterManagerEvent::UploadEndOrParamBreakOrDownloadEnd)
            },
            SystemCommand::ParamDownloadStore => self.process_event(
                ParameterManagerEvent::DownloadStore,
            ),
            _ => self.process_event(ParameterManagerEvent::SysCmdReset),
        }
    }

    /// SM_DeviceMode indication: Idle and Startup count as a change of
    /// device mode; the result of that event is not reported.
    pub fn sm_device_mode_ind(&mut self, device_mode: DeviceMode) -> (r: SmResult<()>)
        requires
            old(self).wf(),
        ensures
            final(self).wf(),
            r is Ok,
            (device_mode is Idle || device_mode is Startup) ==> final(self)@ == pm_apply(
                old(self)@,
                ParameterManagerEvent::DeviceModeChange,
            ),
            !(device_mode is Idle || device_mode is Startup) ==> final(self)@ == old(self)@,
    {
        match device_mode {
            DeviceMode::Idle | DeviceMode::Startup => {
                let _ = self.process_event(ParameterManagerEvent::DeviceModeChange);
            },
            _ => {},
        }
        Ok(())
    }

    /// Sets or clears DS_UPLOAD_FLAG in State_Property.
    pub fn set_upload_flag(&mut self, upload_flag: bool) -> (r: IoLinkResult<()>)
        requires
            old(self).wf(),
        ensures
            final(self).wf(),
            r is Ok,
            final(self)@ == (PmModel {
                storage: old(self)@.storage.update(
                    17,
                    seq![with_upload_flag(old(self)@.storage[17][0], upload_flag)],
                ),
                ..old(self)@
            }),
    {
        let b = self.state_property();
        let nb: u8 = if upload_flag {
            b | 0x80
        } else {
            b & 0x7f
        };
        self.store_state_property(nb);
        Ok(())
    }

    /// Sets the state of Data Storage in State_Property.
    pub fn set_state_property(&mut self, state_of_ds: DsState) -> (r: IoLinkResult<()>)
        requires
            old(self).wf(),
        ensures
            final(self).wf(),
            r is Ok,
            final(self)@ == (PmModel {
                storage: old(self)@.storage.update(
                    17,
                    seq![with_ds_state(old(self)@.storage[17][0], state_of_ds)],
                ),
                ..old(self)@
            }),
    {
        let b = self.state_property();
        let code: u8 = match state_of_ds {
            DsState::Inactive => 0,
            DsState::Download => 1,
            DsState::Upload => 2,
            DsState::Locked => 3,
        };
        let nb: u8 = (b & 0xf9) | (code << 1);
        self.store_state_property(nb);
        Ok(())
    }

    /// The State_Property octet.
    fn state_property(&self) -> (r: u8)
        requires
            self.wf(),
        ensures
            r == self@.storage[17][0],
    {
        proof {
            self.param_storage.lemma_values_wf();
            assert(self.param_storage@[17].len() == 1);
        }
        match self.param_storage.get_parameter(0x0003, 0x02) {
            Ok((_, s)) => s[0],
            Err(_) => 0,
        }
    }

    /// Stores the State_Property octet.
    fn store_state_property(&mut self, b: u8)
        requires
            old(self).wf(),
        ensures
            final(self).wf(),
            final(self)@ == (PmModel {
                storage: old(self)@.storage.update(17, seq![b]),
                ..old(self)@
            }),
    {
        let data = [b];
        assert(data@ =~= seq![b]);
        let _ = self.param_storage.set_parameter(0x0003, 0x02, &data);
        assert(self@ =~= PmModel { storage: old(self)@.storage.update(17, seq![b]), ..old(self)@ });
    }

    /// Locks local parameter access.
    pub fn lock_local_parameter_access(&mut self) -> (r: IoLinkResult<()>)
        requires
            old(self).wf(),
        ensures
            final(self).wf(),
            r is Ok,
            final(self)@ == (PmModel { lock: LockState::Locked, ..old(self)@ }),
    {
        self.local_parameter_access = LockState::Locked;
        Ok(())
    }

    /// Unlocks local parameter access.
    pub fn unlock_local_parameter_access(&mut self) -> (r: IoLinkResult<()>)
        requires
            old(self).wf(),
        ensures
            final(self).wf(),
            r is Ok,
            final(self)@ == (PmModel { lock: LockState::Unlocked, ..old(self)@ }),
    {
        self.local_parameter_access = LockState::Unlocked;
        Ok(())
    }
}

/// A single parameter that the Parameter Manager wrote, while the written
/// parameters were not known to be invalid, reads back as written.
pub proof fn write_then_read_back(m: PmModel, index: u16, subindex: u8, data: Seq<u8>)
    requires
        values_wf(m.storage),
        !(m.data_valid is Invalid),
        spec_set_parameter(m.storage, index, subindex, data) is Ok,
        slot_of(index, subindex) matches Some(i) && is_readable(slot_access(i)),
    ensures
        spec_get_parameter(pm_al_write(m, index, subindex, data).0.storage, index, subindex)
            == Ok::<(u8, Seq<u8>), crate::parameter_storage::ParameterError>((data.len() as u8, data)),
{
    set_then_get(m.storage, index, subindex, data);
    let m1 = pm_store_write(m, index, subindex, data);
    assert(m1.storage == spec_set_parameter(m.storage, index, subindex, data)->Ok_0);
    let w = pm_al_write(m, index, subindex, data).0;
    assert(w.storage == m1.storage);
}


/// A ParamBreak written during a block download breaks the download off:
/// the write is accepted, the Parameter Manager is idle again, and once its
/// work is done local parameter access is unlocked and the parameters
/// written during the download are discarded for the default values. The
/// same holds of ParamUploadEnd.
pub proof fn break_discards_download(
    m: PmModel,
    od: AlOdModel,
    ds_state: DtatStorageStateMachineState,
    ds_transition: DataStorageTransition,
    command: u8,
)
    requires
        m.state is Download,
        command == 0x06 || command == 0x02,
    ensures
        ({
            let (m1, r) = pm_al_write(m, 0x0002, 0, seq![command]);
            let (w, r2) = pm_poll(PmWorld { pm: m1, od, ds_state, ds_transition });
            &&& r is Ok
            &&& m1.state is Idle
            &&& r2 is Ok
            &&& w.pm.state is Idle
            &&& w.pm.lock is Unlocked
            &&& w.pm.storage == default_values()
        }),
{
    let m1 = pm_store_write(m, 0x0002, 0, seq![command]);
    assert(m1.state is Download);
    assert(spec_from_index(0x0002) == Some(DeviceParametersIndex::SystemCommand));
}


/// ParamDownloadStart written while idle starts a block download: local
/// parameter access is locked once the Parameter Manager has done its
/// work; ParamUploadStart likewise starts a block upload.
pub proof fn block_start_locks(
    m: PmModel,
    od: AlOdModel,
    ds_state: DtatStorageStateMachineState,
    ds_transition: DataStorageTransition,
    command: u8,
)
    requires
        m.state is Idle,
        command == 0x03 || command == 0x01,
    ensures
        ({
            let (m1, r) = pm_al_write(m, 0x0002, 0, seq![command]);
            let (w, r2) = pm_poll(PmWorld { pm: m1, od, ds_state, ds_transition });
            &&& r is Ok
            &&& command == 0x03 ==> m1.state is Download && w.pm.state is Download
            &&& command == 0x01 ==> m1.state is Upload && w.pm.state is Upload
            &&& r2 is Ok
            &&& w.pm.lock is Locked
        }),
{
    assert(spec_from_index(0x0002) == Some(DeviceParametersIndex::SystemCommand));
}

/// The end of a block download (ParamDownloadEnd, or ParamDownloadStore
/// that also asks for the parameters to be stored) has the downloaded
/// parameters checked: the write is accepted, the check starts, and once
/// the Parameter Manager has done its work local access is unlocked and
/// the downloaded parameters are kept, not discarded.
pub proof fn download_end_checks(
    m: PmModel,
    od: AlOdModel,
    ds_state: DtatStorageStateMachineState,
    ds_transition: DataStorageTransition,
    command: u8,
)
    requires
        m.state is Download,
        command == 0x04 || command == 0x05,
    ensures
        ({
            let (m1, r) = pm_al_write(m, 0x0002, 0, seq![command]);
            let (w, r2) = pm_poll(PmWorld { pm: m1, od, ds_state, ds_transition });
            &&& r is Ok
            &&& m1.state is ValidityCheck
            &&& r2 is Ok
            &&& w.pm.lock is Unlocked
            &&& w.pm.storage == m1.storage
            &&& command == 0x05 ==> w.pm.store_request
        }),
{
    assert(spec_from_index(0x0002) == Some(DeviceParametersIndex::SystemCommand));
}

/// The end of a block upload (ParamUploadEnd, ParamBreak, or
/// ParamDownloadEnd) returns to idle: the write is accepted, and once the
/// Parameter Manager has done its work local access is unlocked and the
/// parameters are kept.
pub proof fn upload_end_unlocks(
    m: PmModel,
    od: AlOdModel,
    ds_state: DtatStorageStateMachineState,
    ds_transition: DataStorageTransition,
    command: u8,
)
    requires
        m.state is Upload,
        command == 0x02 || command == 0x06 || command == 0x04,
    ensures
        ({
            let (m1, r) = pm_al_write(m, 0x0002, 0, seq![command]);
            let (w, r2) = pm_poll(PmWorld { pm: m1, od, ds_state, ds_transition });
            &&& r is Ok
            &&& m1.state is Idle
            &&& r2 is Ok
            &&& w.pm.state is Idle
            &&& w.pm.lock is Unlocked
            &&& w.pm.storage == m1.storage
        }),
{
    assert(spec_from_index(0x0002) == Some(DeviceParametersIndex::SystemCommand));
}

} // verus!
