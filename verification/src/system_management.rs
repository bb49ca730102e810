//! System Management of the device (10.3): the state machine that follows
//! the data link layer's modes and the master's identification commands,
//! and tells the physical layer and the application which mode is reached.
use vstd::prelude::*;
use crate::errors::{IoLinkError, IoLinkResult, SmError, SmResult};
use crate::page1::{DeviceCom, DeviceIdent, RevisionId, default_device_com, revision_id_from_byte};
use crate::protocol::{
    DeviceMode, DlMode, IoLinkMode, SioMode, TransmissionRate, ADDR_DEVICE_ID1, ADDR_DEVICE_ID2,
    ADDR_DEVICE_ID3, ADDR_MASTER_COMMAND, ADDR_MIN_CYCLE_TIME, ADDR_REVISION_ID,
    MCMD_DEVICE_IDENT, MCMD_MASTER_IDENT,
};

verus! {

/// States of System Management.
#[derive(Debug, Clone, Copy, PartialEq, Eq, Structural)]
pub enum SystemManagementState {
    /// Waiting for a mode request.
    Idle,
    /// SIO mode.
    Sio,
    /// Establishing communication.
    ComEstablish,
    /// STARTUP, waiting for the master's identification.
    ComStartup,
    /// Master identification received.
    IdentStartup,
    /// Device identification requested, checking it.
    IdentCheck,
    /// Compatibility established.
    CompStartup,
    /// PREOPERATE.
    Preoperate,
    /// OPERATE.
    Operate,
}

/// Transitions of System Management that have work left for `poll`.
#[derive(Debug, Clone, Copy, PartialEq, Eq, Structural)]
pub enum SmTransition {
    /// No pending work.
    Tn,
    /// Idle to SIO.
    T1,
    /// SIO to establishing communication.
    T2,
    /// Any communicating state back to Idle.
    T3,
    /// Communication established at a transmission rate.
    T4(DeviceMode),
    /// Master identification received.
    T5,
    /// Device identification requested.
    T6,
    /// Minimum cycle time read.
    T7,
    /// Compatible startup to PREOPERATE.
    T8,
    /// PREOPERATE to OPERATE.
    T9,
    /// Identification startup directly to PREOPERATE.
    T10,
    /// STARTUP directly to OPERATE.
    T11,
    /// PREOPERATE back to STARTUP.
    T12,
    /// OPERATE back to STARTUP.
    T13,
    /// Transmission rate changed during identification check.
    T14,
}

/// Events of System Management.
#[derive(Debug, Clone, Copy, PartialEq, Eq, Structural)]
pub enum SmEvent {
    /// The application asked for SIO mode.
    SmDeviceModeSio,
    /// DL_Mode ESTABCOM.
    DlModeEstabcom,
    /// DL_Mode COM1, COM2 or COM3.
    DlModeComx(DeviceMode),
    /// DL_Mode INACTIVE.
    DlModeInactive,
    /// DL_Mode STARTUP.
    DlModeStartup,
    /// DL_Mode OPERATE.
    DlModeOperate,
    /// MasterCommand MasterIdent written.
    DlWriteMCmdMasterident,
    /// MasterCommand DeviceIdent written.
    DlWriteMCmdDeviceident,
    /// DL_Mode PREOPERATE.
    DlModePreoperate,
    /// MinCycleTime read.
    DlReadMincycletime,
    /// The transmission rate changed.
    TransmissionRateChanged,
}

/// Identification parameters that the master wrote during identification.
#[derive(Debug, Clone, Copy)]
pub struct ReConfig {
    /// RevisionID written by the master.
    pub revision_id: Option<RevisionId>,
    /// DeviceID octet 1 written by the master.
    pub device_id1: Option<u8>,
    /// DeviceID octet 2 written by the master.
    pub device_id2: Option<u8>,
    /// DeviceID octet 3 written by the master.
    pub device_id3: Option<u8>,
}

/// The identification parameters that nothing has written yet.
pub open spec fn reconfig_empty() -> ReConfig {
    ReConfig { revision_id: None, device_id1: None, device_id2: None, device_id3: None }
}

/// Work that one `poll` of System Management asks of the other layers.
#[derive(Debug, Clone, Copy)]
pub struct SmActions {
    /// Mode to set on the physical layer (PL_SetMode).
    pub pl_mode: Option<IoLinkMode>,
    /// Mode to report to the application (SM_DeviceMode).
    pub device_mode_ind: Option<DeviceMode>,
    /// Communication and identification parameters to report to the
    /// application after the master changed them.
    pub reconfiguration: Option<(DeviceCom, DeviceIdent)>,
}

/// The state machine of System Management: the next transition and state
/// for an event in a state, or `None` where the event is not accepted.
pub open spec fn sm_next(state: SystemManagementState, event: SmEvent) -> Option<
    (SmTransition, SystemManagementState),
> {
    match (state, event) {
        (SystemManagementState::Idle, SmEvent::SmDeviceModeSio) => Some(
            (SmTransition::T1, SystemManagementState::Sio),
        ),
        (SystemManagementState::Sio, SmEvent::DlModeEstabcom) => Some(
            (SmTransition::T2, SystemManagementState::ComEstablish),
        ),
        (SystemManagementState::ComEstablish, SmEvent::DlModeComx(m)) => Some(
            (SmTransition::T4(m), SystemManagementState::ComStartup),
        ),
        (SystemManagementState::ComStartup, SmEvent::DlWriteMCmdMasterident) => Some(
            (SmTransition::T5, SystemManagementState::IdentStartup),
        ),
        (SystemManagementState::ComStartup, SmEvent::DlModeOperate) => Some(
            (SmTransition::T11, SystemManagementState::Operate),
        ),
        (SystemManagementState::IdentStartup, SmEvent::DlWriteMCmdDeviceident) => Some(
            (SmTransition::T6, SystemManagementState::IdentCheck),
        ),
        (SystemManagementState::IdentStartup, SmEvent::DlModePreoperate) => Some(
            (SmTransition::T10, SystemManagementState::Preoperate),
        ),
        (SystemManagementState::IdentCheck, SmEvent::DlReadMincycletime) => Some(
            (SmTransition::T7, SystemManagementState::CompStartup),
        ),
        (SystemManagementState::IdentCheck, SmEvent::TransmissionRateChanged) => Some(
            (SmTransition::T14, SystemManagementState::ComEstablish),
        ),
        (SystemManagementState::CompStartup, SmEvent::DlModePreoperate) => Some(
            (SmTransition::T8, SystemManagementState::Preoperate),
        ),
        (SystemManagementState::Preoperate, SmEvent::DlModeOperate) => Some(
            (SmTransition::T9, SystemManagementState::Operate),
        ),
        (SystemManagementState::Preoperate, SmEvent::DlModeStartup) => Some(
            (SmTransition::T12, SystemManagementState::ComStartup),
        ),
        (SystemManagementState::Operate, SmEvent::DlModeStartup) => Some(
            (SmTransition::T13, SystemManagementState::ComStartup),
        ),
        (s, SmEvent::DlModeInactive) => if s is Idle || s is Sio {
            None
        } else {
            Some((SmTransition::T3, SystemManagementState::Idle))
        },
        _ => None,
    }
}

/// The physical layer mode of a transmission rate.
pub open spec fn com_mode(rate: TransmissionRate) -> IoLinkMode {
    match rate {
        TransmissionRate::Com1 => IoLinkMode::Com1,
        TransmissionRate::Com2 => IoLinkMode::Com2,
        TransmissionRate::Com3 => IoLinkMode::Com3,
    }
}

/// The physical layer mode of an SIO mode.
pub open spec fn sio_mode(mode: SioMode) -> IoLinkMode {
    match mode {
        SioMode::Inactive => IoLinkMode::Inactive,
        SioMode::Di => IoLinkMode::Di,
        SioMode::Do => IoLinkMode::Do,
    }
}

/// The physical layer mode that a transition sets.
pub open spec fn transition_pl_mode(t: SmTransition, com: DeviceCom) -> Option<IoLinkMode> {
    match t {
        SmTransition::T1 => Some(sio_mode(com.suppported_sio_mode)),
        SmTransition::T2 | SmTransition::T14 => Some(com_mode(com.transmission_rate)),
        SmTransition::T3 => Some(IoLinkMode::Inactive),
        _ => None,
    }
}

/// The device mode that a transition reports to the application.
pub open spec fn transition_device_mode(t: SmTransition) -> Option<DeviceMode> {
    match t {
        SmTransition::Tn | SmTransition::T7 => None,
        SmTransition::T1 => Some(DeviceMode::Sio),
        SmTransition::T2 | SmTransition::T14 => Some(DeviceMode::Estabcom),
        SmTransition::T3 => Some(DeviceMode::Idle),
        SmTransition::T4(m) => Some(m),
        SmTransition::T5 => Some(DeviceMode::Identstartup),
        SmTransition::T6 => Some(DeviceMode::Identchange),
        SmTransition::T8 | SmTransition::T10 => Some(DeviceMode::Preoperate),
        SmTransition::T9 | SmTransition::T11 => Some(DeviceMode::Operate),
        SmTransition::T12 | SmTransition::T13 => Some(DeviceMode::Startup),
    }
}

/// All identification parameters have been written.
pub open spec fn reconfig_complete(r: ReConfig) -> bool {
    r.revision_id is Some && r.device_id1 is Some && r.device_id2 is Some && r.device_id3 is Some
}

/// The parameters reported after the master wrote the identification: a
/// communication set with the written RevisionID, and an identification
/// whose DeviceID holds the written octets, octet 1 most significant.
pub open spec fn reconfig_report(r: ReConfig) -> (DeviceCom, DeviceIdent) {
    let com = DeviceCom { revision_id: r.revision_id->Some_0, ..default_device_com() };
    (com, ident_with_device_id(r.device_id3->Some_0, r.device_id2->Some_0, r.device_id1->Some_0))
}

/// An identification with zero VendorID and FunctionID and the given
/// DeviceID octets.
pub open spec fn ident_with_device_id(d0: u8, d1: u8, d2: u8) -> DeviceIdent {
    DeviceIdent { vendor_id: [0u8, 0u8], device_id: [d0, d1, d2], function_id: [0u8, 0u8] }
}

/// System Management of the device.
pub struct SystemManagement {
    state: SystemManagementState,
    exec_transition: SmTransition,
    device_com: DeviceCom,
    device_ident: DeviceIdent,
    device_mode: DeviceMode,
    reconfig: ReConfig,
}

impl SystemManagement {
    /// The current state.
    pub closed spec fn spec_state(&self) -> SystemManagementState {
        self.state
    }

    /// The transition whose work `poll` does next.
    pub closed spec fn spec_transition(&self) -> SmTransition {
        self.exec_transition
    }

    /// The communication parameters set by the application.
    pub closed spec fn spec_device_com(&self) -> DeviceCom {
        self.device_com
    }

    /// The identification set by the application.
    pub closed spec fn spec_device_ident(&self) -> DeviceIdent {
        self.device_ident
    }

    /// The device mode last requested by the application.
    pub closed spec fn spec_device_mode(&self) -> DeviceMode {
        self.device_mode
    }

    /// The identification parameters written by the master so far.
    pub closed spec fn spec_reconfig(&self) -> ReConfig {
        self.reconfig
    }

    /// Idle, with no pending work, default parameters and nothing written.
    pub fn new() -> (r: SystemManagement)
        ensures
            r.spec_state() == SystemManagementState::Idle,
            r.spec_transition() == SmTransition::Tn,
            r.spec_device_com() == default_device_com(),
            r.spec_device_ident().vendor_id@ == seq![0u8, 0u8],
            r.spec_device_ident().device_id@ == seq![0u8, 0u8, 0u8],
            r.spec_device_ident().function_id@ == seq![0u8, 0u8],
            r.spec_device_mode() == DeviceMode::Idle,
            r.spec_reconfig() == reconfig_empty(),
    {
        SystemManagement {
            state: SystemManagementState::Idle,
            exec_transition: SmTransition::Tn,
            device_com: DeviceCom::new(),
            device_ident: DeviceIdent::new(),
            device_mode: DeviceMode::default_mode(),
            reconfig: ReConfig {
                revision_id: None,
                device_id1: None,
                device_id2: None,
                device_id3: None,
            },
        }
    }

    /// Feeds one event to the state machine (Table 95). An accepted event
    /// sets the target state of its row and leaves that row's transition
    /// pending; any other leaves the state and pending transition as they
    /// were and gives `InvalidEvent`. Nothing else changes.
    pub fn process_event(&mut self, event: SmEvent) -> (r: IoLinkResult<()>)
        ensures
            match sm_next(old(self).spec_state(), event) {
                Some((t, s)) => r is Ok && final(self).spec_state() == s
                    && final(self).spec_transition() == t,
                None => r == Err::<(), IoLinkError>(IoLinkError::InvalidEvent)
                    && final(self).spec_state() == old(self).spec_state()
                    && final(self).spec_transition() == old(self).spec_transition(),
            },
            final(self).spec_device_com() == old(self).spec_device_com(),
            final(self).spec_device_ident() == old(self).spec_device_ident(),
            final(self).spec_device_mode() == old(self).spec_device_mode(),
            final(self).spec_reconfig() == old(self).spec_reconfig(),
    {
        let next = match (self.state, event) {
            (SystemManagementState::Idle, SmEvent::SmDeviceModeSio) => Some(
                (SmTransition::T1, SystemManagementState::Sio),
            ),
            (SystemManagementState::Sio, SmEvent::DlModeEstabcom) => Some(
                (SmTransition::T2, SystemManagementState::ComEstablish),
            ),
            (SystemManagementState::ComEstablish, SmEvent::DlModeComx(m)) => Some(
                (SmTransition::T4(m), SystemManagementState::ComStartup),
            ),
            (SystemManagementState::ComStartup, SmEvent::DlWriteMCmdMasterident) => Some(
                (SmTransition::T5, SystemManagementState::IdentStartup),
            ),
            (SystemManagementState::ComStartup, SmEvent::DlModeOperate) => Some(
                (SmTransition::T11, SystemManagementState::Operate),
            ),
            (SystemManagementState::IdentStartup, SmEvent::DlWriteMCmdDeviceident) => Some(
                (SmTransition::T6, SystemManagementState::IdentCheck),
            ),
            (SystemManagementState::IdentStartup, SmEvent::DlModePreoperate) => Some(
                (SmTransition::T10, SystemManagementState::Preoperate),
            ),
            (SystemManagementState::IdentCheck, SmEvent::DlReadMincycletime) => Some(
                (SmTransition::T7, SystemManagementState::CompStartup),
            ),
            (SystemManagementState::IdentCheck, SmEvent::TransmissionRateChanged) => Some(
                (SmTransition::T14, SystemManagementState::ComEstablish),
            ),
            (SystemManagementState::CompStartup, SmEvent::DlModePreoperate) => Some(
                (SmTransition::T8, SystemManagementState::Preoperate),
            ),
            (SystemManagementState::Preoperate, SmEvent::DlModeOperate) => Some(
                (SmTransition::T9, SystemManagementState::Operate),
            ),
            (SystemManagementState::Preoperate, SmEvent::DlModeStartup) => Some(
                (SmTransition::T12, SystemManagementState::ComStartup),
            ),
            (SystemManagementState::Operate, SmEvent::DlModeStartup) => Some(
                (SmTransition::T13, SystemManagementState::ComStartup),
            ),
            (SystemManagementState::Idle, SmEvent::DlModeInactive) => None,
            (SystemManagementState::Sio, SmEvent::DlModeInactive) => None,
            (_, SmEvent::DlModeInactive) => Some((SmTransition::T3, SystemManagementState::Idle)),
            _ => None,
        };
        match next {
            Some((t, s)) => {
                self.state = s;
                self.exec_transition = t;
                Ok(())
            },
            None => Err(IoLinkError::InvalidEvent),
        }
    }

    /// Does the work of the pending transition and reports what the master
    /// wrote during identification. The pending transition is consumed; the
    /// state stays as it is.
    pub fn poll(&mut self) -> (r: SmActions)
        ensures
            final(self).spec_transition() == SmTransition::Tn,
            final(self).spec_state() == old(self).spec_state(),
            final(self).spec_device_com() == old(self).spec_device_com(),
            final(self).spec_device_ident() == old(self).spec_device_ident(),
            final(self).spec_device_mode() == old(self).spec_device_mode(),
            r.pl_mode == transition_pl_mode(old(self).spec_transition(), old(self).spec_device_com()),
            r.device_mode_ind == transition_device_mode(old(self).spec_transition()),
            (old(self).spec_state() is IdentCheck && reconfig_complete(old(self).spec_reconfig()))
                ==> (r.reconfiguration == Some(reconfig_report(old(self).spec_reconfig()))
                && final(self).spec_reconfig() == reconfig_empty()),
            !(old(self).spec_state() is IdentCheck && reconfig_complete(old(self).spec_reconfig()))
                ==> (r.reconfiguration is None && final(self).spec_reconfig() == old(self).spec_reconfig()),
    {
        let mut reconfiguration: Option<(DeviceCom, DeviceIdent)> = None;
        let complete = self.reconfig.revision_id.is_some() && self.reconfig.device_id1.is_some()
            && self.reconfig.device_id2.is_some() && self.reconfig.device_id3.is_some();
        let checking = match self.state {
            SystemManagementState::IdentCheck => true,
            _ => false,
        };
        if checking && complete {
            reconfiguration = Some(self.reconfig_report());
            self.reconfig = ReConfig {
                revision_id: None,
                device_id1: None,
                device_id2: None,
                device_id3: None,
            };
        }
        let t = self.exec_transition;
        self.exec_transition = SmTransition::Tn;
        let pl_mode = match t {
            SmTransition::T1 => Some(
                match self.device_com.suppported_sio_mode {
                    SioMode::Inactive => IoLinkMode::Inactive,
                    SioMode::Di => IoLinkMode::Di,
                    SioMode::Do => IoLinkMode::Do,
                },
            ),
            SmTransition::T2 | SmTransition::T14 => Some(
                match self.device_com.transmission_rate {
                    TransmissionRate::Com1 => IoLinkMode::Com1,
                    TransmissionRate::Com2 => IoLinkMode::Com2,
                    TransmissionRate::Com3 => IoLinkMode::Com3,
                },
            ),
            SmTransition::T3 => Some(IoLinkMode::Inactive),
            _ => None,
        };
        let device_mode_ind = match t {
            SmTransition::Tn | SmTransition::T7 => None,
            SmTransition::T1 => Some(DeviceMode::Sio),
            SmTransition::T2 | SmTransition::T14 => Some(DeviceMode::Estabcom),
            SmTransition::T3 => Some(DeviceMode::Idle),
            SmTransition::T4(m) => Some(m),
            SmTransition::T5 => Some(DeviceMode::Identstartup),
            SmTransition::T6 => Some(DeviceMode::Identchange),
            SmTransition::T8 | SmTransition::T10 => Some(DeviceMode::Preoperate),
            SmTransition::T9 | SmTransition::T11 => Some(DeviceMode::Operate),
            SmTransition::T12 | SmTransition::T13 => Some(DeviceMode::Startup),
        };
        SmActions { pl_mode, device_mode_ind, reconfiguration }
    }

    /// System Management checks the identification while not all of the
    /// parameters it reports have been written.
    pub fn identification_incomplete(&self) -> (r: bool)
        ensures
            r == (self.spec_state() is IdentCheck && !reconfig_complete(self.spec_reconfig())),
    {
        let complete = self.reconfig.revision_id.is_some() && self.reconfig.device_id1.is_some()
            && self.reconfig.device_id2.is_some() && self.reconfig.device_id3.is_some();
        match self.state {
            SystemManagementState::IdentCheck => !complete,
            _ => false,
        }
    }

    /// The parameters to report from a complete identification.
    fn reconfig_report(&self) -> (r: (DeviceCom, DeviceIdent))
        requires
            reconfig_complete(self.reconfig),
        ensures
            r == reconfig_report(self.reconfig),
    {
        let mut com = DeviceCom::new();
        com.revision_id = match self.reconfig.revision_id {
            Some(v) => v,
            None => RevisionId::new(),
        };
        let d1 = match self.reconfig.device_id1 {
            Some(v) => v,
            None => 0,
        };
        let d2 = match self.reconfig.device_id2 {
            Some(v) => v,
            None => 0,
        };
        let d3 = match self.reconfig.device_id3 {
            Some(v) => v,
            None => 0,
        };
        let ident = DeviceIdent { vendor_id: [0, 0], device_id: [d3, d2, d1], function_id: [0, 0] };
        (com, ident)
    }

    /// DL_Mode indication: each mode is an event of the state machine
    /// (COM1 to COM3 report the rate at which communication was
    /// established); `Comlost` is not accepted.
    pub fn dl_mode_ind(&mut self, mode: DlMode) -> (r: IoLinkResult<()>)
        ensures
            final(self).spec_device_com() == old(self).spec_device_com(),
            final(self).spec_device_ident() == old(self).spec_device_ident(),
            final(self).spec_device_mode() == old(self).spec_device_mode(),
            final(self).spec_reconfig() == old(self).spec_reconfig(),
            match dl_mode_event(mode) {
                None => r == Err::<(), IoLinkError>(IoLinkError::InvalidEvent) && final(self).spec_state() == old(self).spec_state() && final(self).spec_transition() == old(self).spec_transition(),
                Some(e) => {
                    &&& (final(self).spec_state(), final(self).spec_transition()) == sm_apply(
                        old(self).spec_state(),
                        old(self).spec_transition(),
                        e,
                    )
                    &&& (r is Ok <==> sm_next(old(self).spec_state(), e) is Some)
                },
            },
            r is Err ==> r == Err::<(), IoLinkError>(IoLinkError::InvalidEvent),
    {
        match mode {
            DlMode::Inactive => self.process_event(SmEvent::DlModeInactive),
            DlMode::Com1 => self.process_event(SmEvent::DlModeComx(DeviceMode::Com1)),
            DlMode::Com2 => self.process_event(SmEvent::DlModeComx(DeviceMode::Com2)),
            DlMode::Com3 => self.process_event(SmEvent::DlModeComx(DeviceMode::Com3)),
            DlMode::Estabcom => self.process_event(SmEvent::DlModeEstabcom),
            DlMode::Startup => self.process_event(SmEvent::DlModeStartup),
            DlMode::PreOperate => self.process_event(SmEvent::DlModePreoperate),
            DlMode::Operate => self.process_event(SmEvent::DlModeOperate),
            DlMode::Comlost => Err(IoLinkError::InvalidEvent),
        }
    }

    /// DL_Write indication for a Direct Parameter page 1 address: the
    /// MasterIdent and DeviceIdent master commands drive the state machine;
    /// RevisionID and DeviceID writes are kept for the identification
    /// report; any other write is not accepted.
    pub fn dl_write_ind(&mut self, address: u8, value: u8) -> (r: IoLinkResult<()>)
        ensures
            sm_write_effect(*old(self), *final(self), address, value),
            r is Ok <==> match dl_write_kind(address, value) {
                WriteKind::Command(e) => sm_next(old(self).spec_state(), e) is Some,
                WriteKind::Keep(_) => true,
                WriteKind::Rejected => false,
            },
            r is Err ==> r == Err::<(), IoLinkError>(IoLinkError::InvalidEvent),
    {
        if address == ADDR_MASTER_COMMAND && value == MCMD_MASTER_IDENT {
            self.process_event(SmEvent::DlWriteMCmdMasterident)
        } else if address == ADDR_MASTER_COMMAND && value == MCMD_DEVICE_IDENT {
            self.process_event(SmEvent::DlWriteMCmdDeviceident)
        } else if address == ADDR_REVISION_ID {
            self.reconfig.revision_id = Some(RevisionId::from_bits(value));
            Ok(())
        } else if address == ADDR_DEVICE_ID1 {
            self.reconfig.device_id1 = Some(value);
            Ok(())
        } else if address == ADDR_DEVICE_ID2 {
            self.reconfig.device_id2 = Some(value);
            Ok(())
        } else if address == ADDR_DEVICE_ID3 {
            self.reconfig.device_id3 = Some(value);
            Ok(())
        } else {
            Err(IoLinkError::InvalidEvent)
        }
    }

    /// DL_Read indication: a read of MinCycleTime drives the state machine;
    /// a read of any other address is not accepted.
    pub fn dl_read_ind(&mut self, address: u8) -> (r: IoLinkResult<()>)
        ensures
            sm_read_effect(*old(self), *final(self), address),
            r is Ok <==> (address == ADDR_MIN_CYCLE_TIME && sm_next(
                old(self).spec_state(),
                SmEvent::DlReadMincycletime,
            ) is Some),
            r is Err ==> r == Err::<(), IoLinkError>(IoLinkError::InvalidEvent),
    {
        if address == ADDR_MIN_CYCLE_TIME {
            return self.process_event(SmEvent::DlReadMincycletime);
        }
        Err(IoLinkError::InvalidEvent)
    }

    /// SM_SetDeviceCom: keeps the communication parameters.
    pub fn sm_set_device_com_req(&mut self, device_com: &DeviceCom) -> (r: SmResult<()>)
        ensures
            r is Ok,
            final(self).spec_device_com() == *device_com,
            final(self).spec_state() == old(self).spec_state(),
            final(self).spec_transition() == old(self).spec_transition(),
            final(self).spec_device_ident() == old(self).spec_device_ident(),
            final(self).spec_device_mode() == old(self).spec_device_mode(),
            final(self).spec_reconfig() == old(self).spec_reconfig(),
    {
        self.device_com = *device_com;
        Ok(())
    }

    /// SM_GetDeviceCom: the communication parameters that were set.
    pub fn sm_get_device_com_req(&self) -> (r: SmResult<DeviceCom>)
        ensures
            r == Ok::<DeviceCom, crate::errors::SmError>(self.spec_device_com()),
    {
        Ok(self.device_com)
    }

    /// SM_SetDeviceIdent: keeps the identification.
    pub fn sm_set_device_ident_req(&mut self, device_ident: &DeviceIdent) -> (r: SmResult<()>)
        ensures
            r is Ok,
            final(self).spec_device_ident() == *device_ident,
            final(self).spec_state() == old(self).spec_state(),
            final(self).spec_transition() == old(self).spec_transition(),
            final(self).spec_device_com() == old(self).spec_device_com(),
            final(self).spec_device_mode() == old(self).spec_device_mode(),
            final(self).spec_reconfig() == old(self).spec_reconfig(),
    {
        self.device_ident = *device_ident;
        Ok(())
    }

    /// SM_GetDeviceIdent: the identification that was set.
    pub fn sm_get_device_ident_req(&self) -> (r: SmResult<DeviceIdent>)
        ensures
            r matches Ok(d) && d == self.spec_device_ident(),
    {
        Ok(self.device_ident)
    }

    /// SM_SetDeviceMode: IDLE and SIO are the permitted modes. SIO is taken
    /// in SM_Idle (T1); IDLE is always taken and ends any communication
    /// (T3). Any other request, or SIO outside SM_Idle, is a state conflict
    /// and changes nothing.
    pub fn sm_set_device_mode_req(&mut self, mode: DeviceMode) -> (r: SmResult<()>)
        ensures
            final(self).spec_device_com() == old(self).spec_device_com(),
            final(self).spec_device_ident() == old(self).spec_device_ident(),
            final(self).spec_reconfig() == old(self).spec_reconfig(),
            set_device_mode_accepted(old(self).spec_state(), mode) ==> {
                &&& r is Ok
                &&& final(self).spec_device_mode() == mode
                &&& (final(self).spec_state(), final(self).spec_transition()) == sm_apply(
                    old(self).spec_state(),
                    old(self).spec_transition(),
                    if mode is Sio {
                        SmEvent::SmDeviceModeSio
                    } else {
                        SmEvent::DlModeInactive
                    },
                )
            },
            !set_device_mode_accepted(old(self).spec_state(), mode) ==> {
                &&& r == Err::<(), SmError>(SmError::StateConflict)
                &&& final(self).spec_device_mode() == old(self).spec_device_mode()
                &&& final(self).spec_state() == old(self).spec_state()
                &&& final(self).spec_transition() == old(self).spec_transition()
            },
    {
        match mode {
            DeviceMode::Sio => {
                match self.state {
                    SystemManagementState::Idle => {},
                    _ => {
                        return Err(SmError::StateConflict);
                    },
                }
                self.device_mode = mode;
                let _ = self.process_event(SmEvent::SmDeviceModeSio);
                Ok(())
            },
            DeviceMode::Idle => {
                self.device_mode = mode;
                let _ = self.process_event(SmEvent::DlModeInactive);
                Ok(())
            },
            _ => Err(SmError::StateConflict),
        }
    }
}

/// One step of the state machine on its state and pending transition: an
/// accepted event moves both, any other leaves both as they are.
pub open spec fn sm_apply(state: SystemManagementState, t: SmTransition, event: SmEvent) -> (
    SystemManagementState,
    SmTransition,
) {
    match sm_next(state, event) {
        Some((t2, s2)) => (s2, t2),
        None => (state, t),
    }
}

/// SM_SetDeviceMode accepts IDLE in every state and SIO in SM_Idle.
pub open spec fn set_device_mode_accepted(state: SystemManagementState, mode: DeviceMode) -> bool {
    mode is Idle || (mode is Sio && state is Idle)
}

/// The event of a DL_Mode indication; the COM modes give the event that
/// establishes communication at their rate.
pub open spec fn dl_mode_event(mode: DlMode) -> Option<SmEvent> {
    match mode {
        DlMode::Inactive => Some(SmEvent::DlModeInactive),
        DlMode::Com1 => Some(SmEvent::DlModeComx(DeviceMode::Com1)),
        DlMode::Com2 => Some(SmEvent::DlModeComx(DeviceMode::Com2)),
        DlMode::Com3 => Some(SmEvent::DlModeComx(DeviceMode::Com3)),
        DlMode::Estabcom => Some(SmEvent::DlModeEstabcom),
        DlMode::Startup => Some(SmEvent::DlModeStartup),
        DlMode::PreOperate => Some(SmEvent::DlModePreoperate),
        DlMode::Operate => Some(SmEvent::DlModeOperate),
        DlMode::Comlost => None,
    }
}

/// A value written to one identification parameter.
#[derive(Debug, Clone, Copy)]
pub enum ReConfigWrite {
    /// RevisionID.
    Revision(RevisionId),
    /// DeviceID octet 1.
    DeviceId1(u8),
    /// DeviceID octet 2.
    DeviceId2(u8),
    /// DeviceID octet 3.
    DeviceId3(u8),
}

/// What a DL_Write does to System Management.
pub enum WriteKind {
    /// A master command that drives the state machine.
    Command(SmEvent),
    /// A value kept for the identification report.
    Keep(ReConfigWrite),
    /// A write that is not accepted.
    Rejected,
}

/// What a DL_Write of a value to an address does.
pub open spec fn dl_write_kind(address: u8, value: u8) -> WriteKind {
    if address == ADDR_MASTER_COMMAND && value == MCMD_MASTER_IDENT {
        WriteKind::Command(SmEvent::DlWriteMCmdMasterident)
    } else if address == ADDR_MASTER_COMMAND && value == MCMD_DEVICE_IDENT {
        WriteKind::Command(SmEvent::DlWriteMCmdDeviceident)
    } else if address == ADDR_REVISION_ID {
        WriteKind::Keep(ReConfigWrite::Revision(revision_id_from_byte(value)))
    } else if address == ADDR_DEVICE_ID1 {
        WriteKind::Keep(ReConfigWrite::DeviceId1(value))
    } else if address == ADDR_DEVICE_ID2 {
        WriteKind::Keep(ReConfigWrite::DeviceId2(value))
    } else if address == ADDR_DEVICE_ID3 {
        WriteKind::Keep(ReConfigWrite::DeviceId3(value))
    } else {
        WriteKind::Rejected
    }
}

/// The identification parameters after one of them was written.
pub open spec fn reconfig_with(r: ReConfig, w: ReConfigWrite) -> ReConfig {
    match w {
        ReConfigWrite::Revision(v) => ReConfig { revision_id: Some(v), ..r },
        ReConfigWrite::DeviceId1(v) => ReConfig { device_id1: Some(v), ..r },
        ReConfigWrite::DeviceId2(v) => ReConfig { device_id2: Some(v), ..r },
        ReConfigWrite::DeviceId3(v) => ReConfig { device_id3: Some(v), ..r },
    }
}

/// What a DL_Read of `address` does to System Management, from `old` to
/// `new`: a read of MinCycleTime is an event of the state machine, a read
/// of any other address changes nothing; the parameters stay.
pub open spec fn sm_read_effect(old: SystemManagement, new: SystemManagement, address: u8) -> bool {
    &&& new.spec_device_com() == old.spec_device_com()
    &&& new.spec_device_ident() == old.spec_device_ident()
    &&& new.spec_device_mode() == old.spec_device_mode()
    &&& new.spec_reconfig() == old.spec_reconfig()
    &&& (new.spec_state(), new.spec_transition()) == if address == ADDR_MIN_CYCLE_TIME {
        sm_apply(old.spec_state(), old.spec_transition(), SmEvent::DlReadMincycletime)
    } else {
        (old.spec_state(), old.spec_transition())
    }
}

/// What a DL_Write of `value` to `address` does to System Management, from
/// `old` to `new`: a MasterIdent or DeviceIdent command is an event of the
/// state machine, an identification parameter is kept for the report, any
/// other write changes nothing.
pub open spec fn sm_write_effect(old: SystemManagement, new: SystemManagement, address: u8, value: u8) -> bool {
    &&& new.spec_device_com() == old.spec_device_com()
    &&& new.spec_device_ident() == old.spec_device_ident()
    &&& new.spec_device_mode() == old.spec_device_mode()
    &&& match dl_write_kind(address, value) {
        WriteKind::Command(e) => {
            &&& (new.spec_state(), new.spec_transition()) == sm_apply(old.spec_state(), old.spec_transition(), e)
            &&& new.spec_reconfig() == old.spec_reconfig()
        },
        WriteKind::Keep(rc) => {
            &&& (new.spec_state(), new.spec_transition()) == (old.spec_state(), old.spec_transition())
            &&& new.spec_reconfig() == reconfig_with(old.spec_reconfig(), rc)
        },
        WriteKind::Rejected => {
            &&& (new.spec_state(), new.spec_transition()) == (old.spec_state(), old.spec_transition())
            &&& new.spec_reconfig() == old.spec_reconfig()
        },
    }
}

/// DL_Mode INACTIVE brings every communicating state back to Idle.
pub proof fn inactive_returns_to_idle(s: SystemManagementState)
    requires
        !(s is Idle || s is Sio),
    ensures
        sm_next(s, SmEvent::DlModeInactive) == Some((SmTransition::T3, SystemManagementState::Idle)),
{
}

/// An event that System Management does not accept changes neither its
/// state nor its pending transition.
pub proof fn refused_event_changes_nothing(s: SystemManagementState, t: SmTransition, e: SmEvent)
    requires
        sm_next(s, e) is None,
    ensures
        sm_apply(s, t, e) == (s, t),
{
}


/// The mode that a DL_Mode indication names is the state that System
/// Management enters where it accepts it: STARTUP (from PREOPERATE or
/// OPERATE) returns to the startup state that waits for the master's
/// identification, PREOPERATE and OPERATE enter those states, INACTIVE
/// returns to Idle, ESTABCOM establishes communication and a COM mode
/// enters the startup state.
pub proof fn dl_mode_enters_its_state(s: SystemManagementState, m: DlMode)
    requires
        dl_mode_event(m) matches Some(e) && sm_next(s, e) is Some,
    ensures
        ({
            let s2 = sm_next(s, dl_mode_event(m)->Some_0)->Some_0.1;
            &&& m is Startup ==> s2 is ComStartup && sm_next(s2, SmEvent::DlWriteMCmdMasterident)
                is Some
            &&& m is PreOperate ==> s2 is Preoperate
            &&& m is Operate ==> s2 is Operate
            &&& m is Inactive ==> s2 is Idle
            &&& m is Estabcom ==> s2 is ComEstablish
            &&& (m is Com1 || m is Com2 || m is Com3) ==> s2 is ComStartup
        }),
{
}

/// What a transition reports to the application is where it goes: a
/// report of STARTUP ends in the startup state, PREOPERATE and OPERATE in
/// those states, IDLE in Idle, SIO in SIO, ESTABCOM in establishing
/// communication, IDENTSTARTUP and IDENTCHANGE in the identification
/// states. (A COM event carries one of the COM modes, as DL_Mode gives it.)
pub proof fn reported_mode_is_entered(s: SystemManagementState, e: SmEvent)
    requires
        sm_next(s, e) is Some,
        e matches SmEvent::DlModeComx(m) ==> (m is Com1 || m is Com2 || m is Com3),
    ensures
        ({
            let (t, s2) = sm_next(s, e)->Some_0;
            &&& transition_device_mode(t) == Some(DeviceMode::Startup) ==> s2 is ComStartup
            &&& transition_device_mode(t) == Some(DeviceMode::Preoperate) ==> s2 is Preoperate
            &&& transition_device_mode(t) == Some(DeviceMode::Operate) ==> s2 is Operate
            &&& transition_device_mode(t) == Some(DeviceMode::Idle) ==> s2 is Idle
            &&& transition_device_mode(t) == Some(DeviceMode::Sio) ==> s2 is Sio
            &&& transition_device_mode(t) == Some(DeviceMode::Estabcom) ==> s2 is ComEstablish
            &&& transition_device_mode(t) == Some(DeviceMode::Identstartup) ==> s2 is IdentStartup
            &&& transition_device_mode(t) == Some(DeviceMode::Identchange) ==> s2 is IdentCheck
        }),
{
}


/// The startup of communication: from the state where the master's
/// identification is taken, MasterIdent, DeviceIdent, the read of
/// MinCycleTime, PREOPERATE and OPERATE lead through the identification
/// states to OPERATE, reporting IDENTSTARTUP, IDENTCHANGE, PREOPERATE and
/// OPERATE on the way; the master can also go to OPERATE or PREOPERATE
/// without the identification check.
pub proof fn startup_sequence_reaches_operate(s: SystemManagementState)
    requires
        sm_next(s, SmEvent::DlWriteMCmdMasterident) is Some,
    ensures
        ({
            let (t1, s1) = sm_next(s, SmEvent::DlWriteMCmdMasterident)->Some_0;
            let (t2, s2) = sm_next(s1, SmEvent::DlWriteMCmdDeviceident)->Some_0;
            let (t3, s3) = sm_next(s2, SmEvent::DlReadMincycletime)->Some_0;
            let (t4, s4) = sm_next(s3, SmEvent::DlModePreoperate)->Some_0;
            let (t5, s5) = sm_next(s4, SmEvent::DlModeOperate)->Some_0;
            &&& sm_next(s1, SmEvent::DlWriteMCmdDeviceident) is Some
            &&& sm_next(s2, SmEvent::DlReadMincycletime) is Some
            &&& sm_next(s3, SmEvent::DlModePreoperate) is Some
            &&& sm_next(s4, SmEvent::DlModeOperate) is Some
            &&& transition_device_mode(t1) == Some(DeviceMode::Identstartup)
            &&& transition_device_mode(t2) == Some(DeviceMode::Identchange)
            &&& transition_device_mode(t4) == Some(DeviceMode::Preoperate)
            &&& transition_device_mode(t5) == Some(DeviceMode::Operate)
            &&& s5 is Operate
            &&& sm_next(s, SmEvent::DlModeOperate) matches Some((_, so)) && so is Operate
            &&& sm_next(s1, SmEvent::DlModePreoperate) matches Some((_, sp)) && sp is Preoperate
            &&& dl_write_kind(ADDR_MASTER_COMMAND, MCMD_MASTER_IDENT) == WriteKind::Command(
                SmEvent::DlWriteMCmdMasterident,
            )
            &&& dl_write_kind(ADDR_MASTER_COMMAND, MCMD_DEVICE_IDENT) == WriteKind::Command(
                SmEvent::DlWriteMCmdDeviceident,
            )
        }),
{
}

} // verus!
