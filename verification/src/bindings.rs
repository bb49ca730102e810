//! Values that the C interface of the device stack hands out: the state of
//! a device slot, operation results, and System Management results.
use vstd::prelude::*;
use crate::page1::{DeviceCom, DeviceIdent};
use crate::errors::SmResult;

verus! {

/// Handle of a device in the C interface.
pub type IOLinkeDeviceHandle = i16;

/// State of a device slot after a poll.
#[derive(Debug, Clone, Copy, PartialEq, Eq, Structural)]
pub enum DeviceActionState {
    /// The device is working.
    Busy,
    /// The device has done its work.
    Done,
    /// There is no device at the handle.
    NoDevice,
}

/// Result of an operation of the C interface.
#[derive(Debug, Clone, Copy, PartialEq, Eq, Structural)]
pub enum OperationResult {
    /// Success.
    Success,
    /// Failure.
    Error,
    /// The parameters are not consistent.
    ParameterConflict,
}

/// Kind of a System Management result.
#[derive(Debug, Clone, Copy, PartialEq, Eq, Structural)]
pub enum SmResultType {
    /// Success without data.
    Success,
    /// Failure with an error code.
    Failure,
    /// Communication parameters.
    DeviceCom,
    /// Identification.
    DeviceIdent,
}

/// The value of a System Management result.
#[derive(Debug, Clone, Copy)]
pub enum SmResultValue {
    /// Communication parameters.
    DeviceCom(DeviceCom),
    /// Identification.
    DeviceIdent(DeviceIdent),
    /// Error code.
    ErrCode(i8),
}

/// A System Management result: its kind and its value.
#[derive(Debug, Clone, Copy)]
pub struct SmResultWrapper {
    /// Kind of the result.
    pub result_type: SmResultType,
    /// Value of the result.
    pub result: SmResultValue,
}

/// Conversion of System Management values into results of the C interface.
pub trait SmResultExt {
    /// The result that carries the value.
    fn to_operation_result(&self) -> SmResultWrapper;
}

impl SmResultExt for DeviceCom {
    /// Communication parameters, as a result of that kind.
    fn to_operation_result(&self) -> (r: SmResultWrapper)
        ensures
            r.result_type == SmResultType::DeviceCom,
            r.result == SmResultValue::DeviceCom(*self),
    {
        SmResultWrapper { result_type: SmResultType::DeviceCom, result: SmResultValue::DeviceCom(*self) }
    }
}

impl SmResultExt for DeviceIdent {
    /// An identification, as a result of that kind.
    fn to_operation_result(&self) -> (r: SmResultWrapper)
        ensures
            r.result_type == SmResultType::DeviceIdent,
            r.result == SmResultValue::DeviceIdent(*self),
    {
        SmResultWrapper {
            result_type: SmResultType::DeviceIdent,
            result: SmResultValue::DeviceIdent(*self),
        }
    }
}

/// The application layer of a device of the C interface: the handle that
/// its callbacks name.
pub struct BindingApplicationLayer {
    device_id: IOLinkeDeviceHandle,
}

impl BindingApplicationLayer {
    /// The handle of the device.
    pub closed spec fn spec_device_id(&self) -> IOLinkeDeviceHandle {
        self.device_id
    }

    /// An application layer for the device at `device_id`.
    pub fn new(device_id: IOLinkeDeviceHandle) -> (r: BindingApplicationLayer)
        ensures
            r.spec_device_id() == device_id,
    {
        BindingApplicationLayer { device_id }
    }

    /// The handle of the device.
    pub fn device_id(&self) -> (r: IOLinkeDeviceHandle)
        ensures
            r == self.spec_device_id(),
    {
        self.device_id
    }

    /// The result of a System Management service without data, as the C
    /// interface reports it: success with code 0, or failure with code -1.
    fn unit_result(result: SmResult<()>) -> (r: SmResultWrapper)
        ensures
            result is Ok ==> r.result_type == SmResultType::Success && r.result
                == SmResultValue::ErrCode(0i8),
            result is Err ==> r.result_type == SmResultType::Failure && r.result
                == SmResultValue::ErrCode(-1i8),
    {
        match result {
            Ok(_) => SmResultWrapper { result_type: SmResultType::Success, result: SmResultValue::ErrCode(0) },
            Err(_) => SmResultWrapper { result_type: SmResultType::Failure, result: SmResultValue::ErrCode(-1) },
        }
    }

    /// The confirmation of SM_SetDeviceCom for the C interface.
    pub fn sm_set_device_com_cnf(&self, result: SmResult<()>) -> (r: SmResultWrapper)
        ensures
            result is Ok ==> r.result_type == SmResultType::Success && r.result
                == SmResultValue::ErrCode(0i8),
            result is Err ==> r.result_type == SmResultType::Failure && r.result
                == SmResultValue::ErrCode(-1i8),
    {
        Self::unit_result(result)
    }

    /// The confirmation of SM_GetDeviceCom for the C interface: the
    /// parameters, or failure with code -1.
    pub fn sm_get_device_com_cnf(&self, result: SmResult<DeviceCom>) -> (r: SmResultWrapper)
        ensures
            result matches Ok(c) ==> r.result_type == SmResultType::DeviceCom && r.result
                == SmResultValue::DeviceCom(c),
            result is Err ==> r.result_type == SmResultType::Failure && r.result
                == SmResultValue::ErrCode(-1i8),
    {
        match result {
            Ok(c) => c.to_operation_result(),
            Err(_) => SmResultWrapper { result_type: SmResultType::Failure, result: SmResultValue::ErrCode(-1) },
        }
    }

    /// The confirmation of SM_SetDeviceIdent for the C interface.
    pub fn sm_set_device_ident_cnf(&self, result: SmResult<()>) -> (r: SmResultWrapper)
        ensures
            result is Ok ==> r.result_type == SmResultType::Success && r.result
                == SmResultValue::ErrCode(0i8),
            result is Err ==> r.result_type == SmResultType::Failure && r.result
                == SmResultValue::ErrCode(-1i8),
    {
        Self::unit_result(result)
    }

    /// The confirmation of SM_GetDeviceIdent for the C interface: the
    /// identification, reported as a result of that kind, or failure with
    /// code -1.
    pub fn sm_get_device_ident_cnf(&self, result: SmResult<DeviceIdent>) -> (r: SmResultWrapper)
        ensures
            result matches Ok(i) ==> r.result_type == SmResultType::DeviceIdent && r.result
                == SmResultValue::DeviceIdent(i),
            result is Err ==> r.result_type == SmResultType::Failure && r.result
                == SmResultValue::ErrCode(-1i8),
    {
        match result {
            Ok(i) => i.to_operation_result(),
            Err(_) => SmResultWrapper { result_type: SmResultType::Failure, result: SmResultValue::ErrCode(-1) },
        }
    }

    /// The confirmation of SM_SetDeviceMode for the C interface.
    pub fn sm_set_device_mode_cnf(&self, result: SmResult<()>) -> (r: SmResultWrapper)
        ensures
            result is Ok ==> r.result_type == SmResultType::Success && r.result
                == SmResultValue::ErrCode(0i8),
            result is Err ==> r.result_type == SmResultType::Failure && r.result
                == SmResultValue::ErrCode(-1i8),
    {
        Self::unit_result(result)
    }
}

} // verus!
