use vstd::prelude::*;

verus! {

/// Operating modes that System Management reports to the device application
/// (SM_DeviceMode).
#[derive(Debug, Clone, Copy, PartialEq, Eq, Structural)]
pub enum DeviceMode {
    Idle,
    Sio,
    Estabcom,
    Com1,
    Com2,
    Com3,
    Startup,
    Identstartup,
    Identchange,
    Preoperate,
    Operate,
}

impl DeviceMode {
    /// The mode a device starts in.
    pub fn default_mode() -> (r: DeviceMode)
        ensures
            r == DeviceMode::Idle,
    {
        DeviceMode::Idle
    }
}

/// Modes that the data link layer reports through DL_Mode.
#[derive(Debug, Clone, Copy, PartialEq, Eq, Structural)]
pub enum DlMode {
    Inactive,
    Com1,
    Com2,
    Com3,
    Comlost,
    Estabcom,
    Startup,
    PreOperate,
    Operate,
}

/// Transmission rates of the communication modes.
#[derive(Debug, Clone, Copy, PartialEq, Eq, Structural)]
pub enum TransmissionRate {
    Com1,
    Com2,
    Com3,
}

/// Modes of the physical layer (PL_SetMode).
#[derive(Debug, Clone, Copy, PartialEq, Eq, Structural)]
pub enum IoLinkMode {
    Inactive,
    Di,
    Do,
    Com1,
    Com2,
    Com3,
}

/// SIO modes that a device may support.
#[derive(Debug, Clone, Copy, PartialEq, Eq, Structural)]
pub enum SioMode {
    Inactive,
    Di,
    Do,
}

/// Direction of an On-request Data access.
#[derive(Debug, Clone, Copy, PartialEq, Eq, Structural)]
pub enum RwDirection {
    Read,
    Write,
}

/// Communication channel addressed by an M-sequence.
#[derive(Debug, Clone, Copy, PartialEq, Eq, Structural)]
pub enum ComChannel {
    Process,
    Page,
    Diagnosis,
    Isdu,
}

/// Validity qualifier of input Process Data.
#[derive(Debug, Clone, Copy, PartialEq, Eq, Structural)]
pub enum PdStatus {
    Valid,
    Invalid,
}

/// Operation mode of the device as seen by the message handler.
#[derive(Debug, Clone, Copy, PartialEq, Eq, Structural)]
pub enum DeviceOperationMode {
    Startup,
    PreOperate,
    Operate,
}

/// Timers of the data link layer.
#[derive(Debug, Clone, Copy, PartialEq, Eq, Structural)]
pub enum Timer {
    MaxCycleTime,
    MaxUARTframeTime,
    TDsio,
}

/// Activation of a handler by the DL-mode handler.
#[derive(Debug, Clone, Copy, PartialEq, Eq, Structural)]
pub enum ConfState {
    Active,
    Inactive,
}

/// Information from the message handler to the DL-mode handler.
#[derive(Debug, Clone, Copy, PartialEq, Eq, Structural)]
pub enum MHInfo {
    IllegalMessagetype,
    ChecksumMismatch,
}

// Direct Parameter page 1 addresses.
/// Master command to switch to operating states.
pub const ADDR_MASTER_COMMAND: u8 = 0x00;
/// Actual cycle duration used by the master.
pub const ADDR_MASTER_CYCLE_TIME: u8 = 0x01;
/// Minimum cycle duration supported by the device.
pub const ADDR_MIN_CYCLE_TIME: u8 = 0x02;
/// M-sequences and physical configuration options.
pub const ADDR_M_SEQUENCE_CAPABILITY: u8 = 0x03;
/// Protocol revision identifier.
pub const ADDR_REVISION_ID: u8 = 0x04;
/// Input data type and length.
pub const ADDR_PROCESS_DATA_IN: u8 = 0x05;
/// Output data type and length.
pub const ADDR_PROCESS_DATA_OUT: u8 = 0x06;
/// Vendor identification, most significant octet.
pub const ADDR_VENDOR_ID1: u8 = 0x07;
/// Vendor identification, least significant octet.
pub const ADDR_VENDOR_ID2: u8 = 0x08;
/// Device identification, octet 2.
pub const ADDR_DEVICE_ID1: u8 = 0x09;
/// Device identification, octet 1.
pub const ADDR_DEVICE_ID2: u8 = 0x0A;
/// Device identification, octet 0.
pub const ADDR_DEVICE_ID3: u8 = 0x0B;
/// Function identification, most significant octet.
pub const ADDR_FUNCTION_ID1: u8 = 0x0C;
/// Function identification, least significant octet.
pub const ADDR_FUNCTION_ID2: u8 = 0x0D;
/// System command interface.
pub const ADDR_SYSTEM_COMMAND: u8 = 0x0F;

// Master commands.
/// Fallback.
pub const MCMD_FALLBACK: u8 = 0x5A;
/// MasterIdent.
pub const MCMD_MASTER_IDENT: u8 = 0x95;
/// DeviceIdent.
pub const MCMD_DEVICE_IDENT: u8 = 0x96;
/// DeviceStartup.
pub const MCMD_DEVICE_STARTUP: u8 = 0x97;
/// ProcessDataOutputOperate.
pub const MCMD_PROCESS_DATA_OUTPUT_OPERATE: u8 = 0x98;
/// DeviceOperate.
pub const MCMD_DEVICE_OPERATE: u8 = 0x99;
/// DevicePreoperate.
pub const MCMD_DEVICE_PREOPERATE: u8 = 0x9A;

// ISDU flow control values.
/// Start of an ISDU I-Service.
pub const FLOW_CTRL_START: u8 = 0x10;
/// No request for ISDU transmission.
pub const FLOW_CTRL_IDLE_1: u8 = 0x11;
/// Reserved; no request for ISDU transmission.
pub const FLOW_CTRL_IDLE_2: u8 = 0x12;
/// Abort the entire service.
pub const FLOW_CTRL_ABORT: u8 = 0x1F;

/// ISDU error types, each an ErrorCode and an AdditionalCode.
#[derive(Debug, Clone, Copy, PartialEq, Eq, Structural)]
pub enum IsduError {
    /// Device application error, no details.
    AppDev,
    /// Index not available.
    IdxNotAvail,
    /// Subindex not available.
    SubidxNotAvail,
    /// Service temporarily not available.
    ServNotAvail,
    /// Function not available.
    FuncNotAvail,
    /// Function temporarily unavailable.
    FuncUnavailTemp,
    /// Unspecific error.
    Unspecific,
}

/// The (ErrorCode, AdditionalCode) pair of an ISDU error type.
pub open spec fn isdu_error_pair(e: IsduError) -> (u8, u8) {
    match e {
        IsduError::AppDev => (0x80u8, 0x00u8),
        IsduError::IdxNotAvail => (0x80u8, 0x11u8),
        IsduError::SubidxNotAvail => (0x80u8, 0x12u8),
        IsduError::ServNotAvail => (0x80u8, 0x20u8),
        IsduError::FuncNotAvail => (0x80u8, 0x35u8),
        IsduError::FuncUnavailTemp => (0x80u8, 0x36u8),
        IsduError::Unspecific => (0x81u8, 0x00u8),
    }
}

impl IsduError {
    /// The (ErrorCode, AdditionalCode) pair of this error type.
    pub fn codes(&self) -> (r: (u8, u8))
        ensures
            r == isdu_error_pair(*self),
    {
        match self {
            IsduError::AppDev => (0x80, 0x00),
            IsduError::IdxNotAvail => (0x80, 0x11),
            IsduError::SubidxNotAvail => (0x80, 0x12),
            IsduError::ServNotAvail => (0x80, 0x20),
            IsduError::FuncNotAvail => (0x80, 0x35),
            IsduError::FuncUnavailTemp => (0x80, 0x36),
            IsduError::Unspecific => (0x81, 0x00),
        }
    }
}

// Device event codes.
/// No malfunction.
pub const EVENT_CODE_NO_MALFUNCTION: u16 = 0x0000;
/// General malfunction, unknown error.
pub const EVENT_CODE_GENERAL_MALFUNCTION: u16 = 0x1000;
/// Data Storage upload request.
pub const EVENT_CODE_DS_UPLOAD_REQ: u16 = 0xFF91;

} // verus!
