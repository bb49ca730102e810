use iolinke::al::od_handler::{AlRspError, DlOdRequest, IsduMessage, OnRequestDataHandler};
use iolinke::al::parameter_manager::{DsState, ParameterManager, ParameterManagerEvent};
use iolinke::al::data_storage::DataStorage;
use iolinke::al::event_handler::{AlEventAction, EventHandler, EventStateMachineEvent};
use iolinke::al::ApplicationLayer;
use iolinke::errors::IoLinkError;
use iolinke::protocol::{DeviceMode, RwDirection};
use iolinke::system_command::DsCommand;

fn isdu(index: u16, sub_index: u8, direction: RwDirection, data: &[u8]) -> IsduMessage {
    IsduMessage { index, sub_index, direction, data: data.to_vec() }
}

#[test]
fn isdu_read_is_answered_with_the_parameter() {
    let mut al = ApplicationLayer::new();
    assert_eq!(al.dl_isdu_transport_ind(isdu(0x0000, 0x09, RwDirection::Read, &[])), Ok(()));
    let (res, req) = al.poll();
    assert_eq!(res, Ok(()));
    assert!(matches!(req, DlOdRequest::Nothing));
    let (res, req) = al.poll();
    assert_eq!(res, Ok(()));
    match req {
        DlOdRequest::IsduReadRsp(len, data) => {
            assert_eq!(len, 1);
            assert_eq!(data, vec![0x01]);
        }
        other => panic!("unexpected request {:?}", other),
    }
}

#[test]
fn isdu_read_of_the_product_name() {
    let mut al = ApplicationLayer::new();
    al.dl_isdu_transport_ind(isdu(0x0012, 0x00, RwDirection::Read, &[])).unwrap();
    let _ = al.poll();
    match al.poll().1 {
        DlOdRequest::IsduReadRsp(len, data) => {
            assert_eq!(len, 13);
            assert_eq!(data, b"IOLinke Stack".to_vec());
        }
        other => panic!("unexpected request {:?}", other),
    }
}

#[test]
fn isdu_write_is_stored_and_read_back() {
    let mut al = ApplicationLayer::new();
    al.dl_isdu_transport_ind(isdu(0x0000, 0x09, RwDirection::Write, &[0x42])).unwrap();
    let (res, req) = al.poll();
    assert_eq!(res, Ok(()));
    assert!(matches!(req, DlOdRequest::Nothing));
    let (res, req) = al.poll();
    assert_eq!(res, Ok(()));
    assert!(matches!(req, DlOdRequest::IsduWriteRsp));
    al.dl_isdu_transport_ind(isdu(0x0000, 0x09, RwDirection::Read, &[])).unwrap();
    let _ = al.poll();
    match al.poll().1 {
        DlOdRequest::IsduReadRsp(len, data) => {
            assert_eq!(len, 1);
            assert_eq!(data, vec![0x42]);
        }
        other => panic!("unexpected request {:?}", other),
    }
}

#[test]
fn page_read_and_write_requests() {
    let mut al = ApplicationLayer::new();
    assert_eq!(al.dl_read_param_ind(0x02), Ok(()));
    let (res, req) = al.poll();
    assert_eq!(res, Ok(()));
    assert!(matches!(req, DlOdRequest::Nothing));
    let (_, req) = al.poll();
    match req {
        DlOdRequest::ReadParamRsp(len, value) => {
            assert_eq!((len, value), (1, 0x81));
        }
        other => panic!("unexpected request {:?}", other),
    }
    // a page address beyond 31 is refused
    let mut al = ApplicationLayer::new();
    al.dl_read_param_ind(40).unwrap();
    assert_eq!(al.poll().0, Err(IoLinkError::InvalidAddress));
}

#[test]
fn od_handler_answers() {
    let mut od = OnRequestDataHandler::new();
    assert_eq!(od.al_write_rsp(Ok(())), Err(IoLinkError::InvalidEvent));
    assert_eq!(od.al_write_rsp(Err(AlRspError::NoData)), Err(IoLinkError::InvalidData));
    assert_eq!(od.al_read_rsp(Err(AlRspError::StateConflict)), Err(IoLinkError::InvalidData));
    assert_eq!(od.al_read_rsp(Ok((1, &[5]))), Err(IoLinkError::InvalidEvent));
    assert_eq!(od.dl_isdu_abort(), Err(IoLinkError::InvalidEvent));
    assert_eq!(od.dl_write_param_ind(3, 4), Ok(()));
    assert_eq!(od.dl_read_param_ind(3), Err(IoLinkError::InvalidEvent));
}

#[test]
fn parameter_manager_download_block() {
    let mut pm = ParameterManager::new();
    assert_eq!(pm.al_write_ind(0x0002, 0x00, &[0x03]), Ok(()));
    assert_eq!(pm.al_write_ind(0x0002, 0x00, &[0x03]), Ok(()));
    assert_eq!(pm.al_write_ind(0x0002, 0x00, &[0x04]), Ok(()));
    assert_eq!(pm.process_event(ParameterManagerEvent::DownloadEnd), Err(IoLinkError::InvalidEvent));
    assert_eq!(pm.al_write_ind(0x0002, 0x00, &[0x42]), Err(IoLinkError::InvalidData));
    assert_eq!(pm.al_write_ind(0x0003, 0x01, &[0x09]), Err(IoLinkError::InvalidData));
    assert_eq!(pm.al_write_ind(0x0003, 0x01, &[0x01]), Ok(()));
    assert_eq!(pm.al_write_ind(0x0002, 0x00, &[]), Err(IoLinkError::InvalidData));
    assert_eq!(pm.al_write_ind(0x0003, 0x01, &[]), Err(IoLinkError::InvalidData));
    assert_eq!(pm.al_write_ind(0x0002, 0x00, &[0xA0]), Err(IoLinkError::FuncNotAvailable));
    assert_eq!(pm.al_write_ind(0x0002, 0x00, &[0x01]), Err(IoLinkError::InvalidEvent));
}

#[test]
fn block_command_outside_a_block_is_answered_function_not_available() {
    let mut al = ApplicationLayer::new();
    al.dl_isdu_transport_ind(isdu(0x0002, 0x00, RwDirection::Write, &[0x04])).unwrap();
    let mut answers = Vec::new();
    for _ in 0..4 {
        let (res, req) = al.poll();
        assert_eq!(res, Ok(()));
        if !matches!(req, DlOdRequest::Nothing) {
            answers.push(req);
        }
    }
    assert_eq!(answers.len(), 1);
    assert!(matches!(answers[0], DlOdRequest::IsduWriteErrorRsp(0x80, 0x35)));
}

#[test]
fn download_store_is_answered_once() {
    let mut al = ApplicationLayer::new();
    al.dl_isdu_transport_ind(isdu(0x0002, 0x00, RwDirection::Write, &[0x05])).unwrap();
    let mut answers = Vec::new();
    for _ in 0..6 {
        let (_, req) = al.poll();
        if !matches!(req, DlOdRequest::Nothing) {
            answers.push(req);
        }
    }
    assert_eq!(answers.len(), 1);
    assert!(matches!(answers[0], DlOdRequest::IsduWriteRsp));
}

#[test]
fn data_storage_follows_commands() {
    let mut ds = DataStorage::new();
    let mut eh = EventHandler::new();
    let mut pm = ParameterManager::new();
    // the state check ends in DSIdle; its work sets State_Property inactive
    assert_eq!(ds.poll(&mut eh, &mut pm), Ok(()));
    // a transfer starts and ends, then a break without a transfer is refused
    assert_eq!(ds.ds_command(DsCommand::UploadStart), Ok(()));
    assert_eq!(ds.ds_command(DsCommand::UploadEnd), Ok(()));
    assert_eq!(ds.ds_command(DsCommand::Break), Err(IoLinkError::InvalidEvent));
    assert_eq!(ds.ds_par_upload_ind(), Ok(()));
    assert_eq!(ds.execute_t8(&mut pm, DsCommand::UploadStart), Ok(()));
    assert_eq!(ds.execute_t8(&mut pm, DsCommand::Break), Err(IoLinkError::InvalidEvent));
    assert_eq!(ds.execute_t9(&mut pm), Ok(()));
    assert_eq!(ds.execute_t11(), Ok(()));
    assert_eq!(pm.set_state_property(DsState::Locked), Ok(()));
    assert_eq!(pm.set_upload_flag(true), Ok(()));
}

#[test]
fn event_handler_of_the_application_layer() {
    let mut eh = EventHandler::new();
    assert!(matches!(eh.poll(), AlEventAction::Nothing));
    assert_eq!(eh.al_event_req(1, &[]), Err(IoLinkError::InvalidEvent));
    assert_eq!(eh.process_event(EventStateMachineEvent::Activate), Ok(()));
    assert_eq!(eh.al_event_req(2, &[]), Ok(()));
    match eh.poll() {
        AlEventAction::DlEvent(count, entries) => {
            assert_eq!(count, 2);
            assert!(entries.is_empty());
        }
        other => panic!("unexpected action {:?}", other),
    }
    assert_eq!(eh.event_trigger_conf(), Ok(()));
    assert!(matches!(eh.poll(), AlEventAction::EventCnf));
}

#[test]
fn device_mode_changes_reach_the_application_layer() {
    let mut al = ApplicationLayer::new();
    assert_eq!(al.sm_device_mode_ind(DeviceMode::Startup), Ok(()));
    assert_eq!(al.al_abort_ind(), Ok(()));
    assert!(matches!(al.poll_event(), AlEventAction::Nothing));
}

#[test]
fn page_write_then_read_gives_the_value_back() {
    let mut al = ApplicationLayer::new();
    assert_eq!(al.dl_write_param_ind(0x09, 0x42), Ok(()));
    let mut answers = Vec::new();
    for _ in 0..3 {
        let (res, req) = al.poll();
        assert_eq!(res, Ok(()));
        if !matches!(req, DlOdRequest::Nothing) {
            answers.push(req);
        }
    }
    assert_eq!(answers.len(), 1);
    assert!(matches!(answers[0], DlOdRequest::WriteParamRsp));
    assert_eq!(al.dl_read_param_ind(0x09), Ok(()));
    let mut answers = Vec::new();
    for _ in 0..3 {
        let (res, req) = al.poll();
        assert_eq!(res, Ok(()));
        if !matches!(req, DlOdRequest::Nothing) {
            answers.push(req);
        }
    }
    assert_eq!(answers.len(), 1);
    assert!(matches!(answers[0], DlOdRequest::ReadParamRsp(1, 0x42)));
}
