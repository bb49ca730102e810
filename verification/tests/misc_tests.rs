use iolinke::bindings::{BindingApplicationLayer, SmResultExt, SmResultType, SmResultValue, DeviceActionState, OperationResult};
use iolinke::page1::{DeviceCom, DeviceIdent};
use iolinke::protocol::{DeviceMode, IsduError, Timer};
use iolinke::testing::{MockApplicationLayer, MockTimerState, TestDeviceMode, ThreadMessage};

#[test]
fn binding_results() {
    let app = BindingApplicationLayer::new(3);
    assert_eq!(app.device_id(), 3);
    let com = DeviceCom::new();
    let r = com.to_operation_result();
    assert_eq!(r.result_type, SmResultType::DeviceCom);
    assert!(matches!(r.result, SmResultValue::DeviceCom(c) if c == com));
    let ident = DeviceIdent::new();
    let r = ident.to_operation_result();
    assert_eq!(r.result_type, SmResultType::DeviceIdent);
    assert!(matches!(r.result, SmResultValue::DeviceIdent(_)));
    assert_ne!(DeviceActionState::Busy, DeviceActionState::Done);
    assert_ne!(OperationResult::Success, OperationResult::Error);
}

#[test]
fn mock_timers() {
    let mut t = MockTimerState::new(Timer::MaxCycleTime, 100);
    assert!(!t.is_expired(99));
    assert!(t.is_expired(100));
    t.stop();
    assert!(!t.is_expired(1000));
    t.restart(50);
    assert!(t.is_expired(50));
    let _ = MockApplicationLayer::new();
    assert_ne!(TestDeviceMode::Startup, TestDeviceMode::Operate);
    assert!(matches!(ThreadMessage::RxData(vec![1]), ThreadMessage::RxData(_)));
}

#[test]
fn isdu_error_codes() {
    assert_eq!(IsduError::AppDev.codes(), (0x80, 0x00));
    assert_eq!(IsduError::FuncNotAvail.codes(), (0x80, 0x35));
    assert_eq!(DeviceMode::default_mode(), DeviceMode::Idle);
}
