use iolinke::errors::{IoLinkError, SmError};
use iolinke::page1::{DeviceCom, DeviceIdent, RevisionId};
use iolinke::protocol::{DeviceMode, DlMode, IoLinkMode, SioMode, TransmissionRate};
use iolinke::system_management::{SmEvent, SystemManagement};

fn poll_mode(sm: &mut SystemManagement) -> (Option<IoLinkMode>, Option<DeviceMode>) {
    let a = sm.poll();
    (a.pl_mode, a.device_mode_ind)
}

#[test]
fn startup_sequence_reaches_operate() {
    let mut sm = SystemManagement::new();
    let mut com = DeviceCom::new();
    com.suppported_sio_mode = SioMode::Di;
    com.transmission_rate = TransmissionRate::Com2;
    assert_eq!(sm.sm_set_device_com_req(&com), Ok(()));
    assert_eq!(sm.sm_set_device_mode_req(DeviceMode::Sio), Ok(()));
    assert_eq!(poll_mode(&mut sm), (Some(IoLinkMode::Di), Some(DeviceMode::Sio)));
    assert_eq!(sm.dl_mode_ind(DlMode::Estabcom), Ok(()));
    assert_eq!(poll_mode(&mut sm), (Some(IoLinkMode::Com2), Some(DeviceMode::Estabcom)));
    // COM2: communication established (T4)
    assert_eq!(sm.dl_mode_ind(DlMode::Com2), Ok(()));
    assert_eq!(poll_mode(&mut sm), (None, Some(DeviceMode::Com2)));
    assert_eq!(sm.dl_write_ind(0x00, 0x95), Ok(()));
    assert_eq!(poll_mode(&mut sm), (None, Some(DeviceMode::Identstartup)));
    assert_eq!(sm.dl_write_ind(0x00, 0x96), Ok(()));
    assert_eq!(poll_mode(&mut sm), (None, Some(DeviceMode::Identchange)));
    assert_eq!(sm.dl_read_ind(0x02), Ok(()));
    assert_eq!(poll_mode(&mut sm), (None, None));
    assert_eq!(sm.dl_mode_ind(DlMode::PreOperate), Ok(()));
    assert_eq!(poll_mode(&mut sm), (None, Some(DeviceMode::Preoperate)));
    assert_eq!(sm.dl_mode_ind(DlMode::Operate), Ok(()));
    assert_eq!(poll_mode(&mut sm), (None, Some(DeviceMode::Operate)));
    assert_eq!(sm.dl_mode_ind(DlMode::Inactive), Ok(()));
    assert_eq!(poll_mode(&mut sm), (Some(IoLinkMode::Inactive), Some(DeviceMode::Idle)));
}

#[test]
fn refused_events_change_nothing() {
    let mut sm = SystemManagement::new();
    assert_eq!(sm.dl_mode_ind(DlMode::Operate), Err(IoLinkError::InvalidEvent));
    assert_eq!(sm.dl_mode_ind(DlMode::Comlost), Err(IoLinkError::InvalidEvent));
    assert_eq!(sm.dl_read_ind(0x03), Err(IoLinkError::InvalidEvent));
    assert_eq!(sm.dl_write_ind(0x05, 0x00), Err(IoLinkError::InvalidEvent));
    assert_eq!(poll_mode(&mut sm), (None, None));
    // the next accepted event works from Idle
    sm.sm_set_device_mode_req(DeviceMode::Sio).unwrap();
    assert_eq!(poll_mode(&mut sm), (Some(IoLinkMode::Inactive), Some(DeviceMode::Sio)));
}

#[test]
fn identification_written_by_the_master_is_reported() {
    let mut sm = SystemManagement::new();
    sm.sm_set_device_mode_req(DeviceMode::Sio).unwrap();
    sm.dl_mode_ind(DlMode::Estabcom).unwrap();
    let _ = sm.dl_mode_ind(DlMode::Com1);
    sm.dl_write_ind(0x00, 0x95).unwrap();
    sm.dl_write_ind(0x00, 0x96).unwrap();
    sm.dl_write_ind(0x04, 0x11).unwrap();
    sm.dl_write_ind(0x09, 0xAA).unwrap();
    sm.dl_write_ind(0x0A, 0xBB).unwrap();
    // DeviceID octet 0 is still missing: the check does not report yet
    assert!(sm.identification_incomplete());
    assert!(sm.poll().reconfiguration.is_none());
    assert!(sm.poll().reconfiguration.is_none());
    sm.dl_write_ind(0x0B, 0xCC).unwrap();
    assert!(!sm.identification_incomplete());
    let a = sm.poll();
    let (com, ident) = a.reconfiguration.expect("identification report");
    assert_eq!(com.revision_id, RevisionId { minor_rev: 1, major_rev: 1 });
    assert_eq!(ident.device_id, [0xCC, 0xBB, 0xAA]);
    // the report empties what was written
    assert!(sm.identification_incomplete());
}

#[test]
fn device_parameters_set_and_get() {
    let mut sm = SystemManagement::new();
    let mut ident = DeviceIdent::new();
    ident.vendor_id = [0x12, 0x34];
    sm.sm_set_device_ident_req(&ident).unwrap();
    assert_eq!(sm.sm_get_device_ident_req().unwrap().vendor_id, [0x12, 0x34]);
    let mut com = DeviceCom::new();
    com.transmission_rate = TransmissionRate::Com3;
    sm.sm_set_device_com_req(&com).unwrap();
    assert_eq!(sm.sm_get_device_com_req(), Ok(com));
}

#[test]
fn operate_directly_from_startup() {
    let mut sm = SystemManagement::new();
    sm.sm_set_device_mode_req(DeviceMode::Sio).unwrap();
    sm.dl_mode_ind(DlMode::Estabcom).unwrap();
    assert_eq!(sm.dl_mode_ind(DlMode::Com3), Ok(()));
    let _ = sm.poll();
    // T11: ComStartup to Operate
    assert_eq!(sm.dl_mode_ind(DlMode::Operate), Ok(()));
    assert_eq!(poll_mode(&mut sm), (None, Some(DeviceMode::Operate)));
    assert_eq!(sm.dl_mode_ind(DlMode::Startup), Ok(()));
    assert_eq!(poll_mode(&mut sm), (None, Some(DeviceMode::Startup)));
}

#[test]
fn preoperate_from_identification() {
    let mut sm = SystemManagement::new();
    sm.sm_set_device_mode_req(DeviceMode::Sio).unwrap();
    sm.dl_mode_ind(DlMode::Estabcom).unwrap();
    sm.dl_mode_ind(DlMode::Com1).unwrap();
    sm.dl_write_ind(0x00, 0x95).unwrap();
    let _ = sm.poll();
    // T10: IdentStartup to Preoperate on PREOPERATE; OPERATE is refused there
    assert_eq!(sm.dl_mode_ind(DlMode::Operate), Err(IoLinkError::InvalidEvent));
    assert_eq!(sm.dl_mode_ind(DlMode::PreOperate), Ok(()));
    assert_eq!(poll_mode(&mut sm), (None, Some(DeviceMode::Preoperate)));
}

#[test]
fn set_device_mode_permits_idle_and_sio() {
    let mut sm = SystemManagement::new();
    assert_eq!(sm.sm_set_device_mode_req(DeviceMode::Operate), Err(SmError::StateConflict));
    assert_eq!(poll_mode(&mut sm), (None, None));
    assert_eq!(sm.sm_set_device_mode_req(DeviceMode::Sio), Ok(()));
    assert_eq!(sm.sm_set_device_mode_req(DeviceMode::Sio), Err(SmError::StateConflict));
    assert_eq!(poll_mode(&mut sm), (Some(IoLinkMode::Inactive), Some(DeviceMode::Sio)));
    assert_eq!(sm.sm_set_device_mode_req(DeviceMode::Idle), Ok(()));
    assert_eq!(sm.sm_set_device_mode_req(DeviceMode::Sio), Err(SmError::StateConflict));
}

#[test]
fn process_event_follows_the_transition_table() {
    let mut sm = SystemManagement::new();
    // OPERATE is no event of Idle: refused, nothing changes
    assert_eq!(sm.process_event(SmEvent::DlModeOperate), Err(IoLinkError::InvalidEvent));
    assert_eq!(poll_mode(&mut sm), (None, None));
    // T1: Idle to SIO
    assert_eq!(sm.process_event(SmEvent::SmDeviceModeSio), Ok(()));
    let (pl, ind) = poll_mode(&mut sm);
    assert_eq!(ind, Some(DeviceMode::Sio));
    assert!(pl.is_some());
    // T2: SIO to ComEstablish
    assert_eq!(sm.process_event(SmEvent::DlModeEstabcom), Ok(()));
    assert_eq!(sm.process_event(SmEvent::SmDeviceModeSio), Err(IoLinkError::InvalidEvent));
}
