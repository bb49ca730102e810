use iolinke::dl::event_handler::EventHandler;
use iolinke::dl::isdu_handler::{
    decode_isdu_request, encode_read_failure, encode_read_success, encode_write_failure,
    encode_write_success, IsduHandler,
};
use iolinke::dl::message_handler::{max_uart_frame_time, MasterRequest, MessageHandler, PlRequest};
use iolinke::dl::mseq::{checksum, compile_response, check_master_message, decode_mc, request_length};
use iolinke::protocol::{DeviceOperationMode, MHInfo, TransmissionRate};
use iolinke::dl::od_handler::{DlOdDispatch, OdIndData, OnRequestDataHandler};
use iolinke::dl::pd_handler::ProcessDataHandler;
use iolinke::dl::DataLinkLayer;
use iolinke::al::ApplicationLayer;
use iolinke::al::od_handler::DlOdRequest;
use iolinke::errors::IoLinkError;
use iolinke::event::{EhConfState, EventEntry, EventInstance, EventMode, EventQualifier, EventSource, EventType};
use iolinke::protocol::{ComChannel, ConfState, DlMode, PdStatus, RwDirection, Timer};

fn od(rw: RwDirection, ch: ComChannel, addr: u8, len: u8, data: &[u8]) -> OdIndData {
    OdIndData { rw_direction: rw, com_channel: ch, address_ctrl: addr, req_length: len, data: data.to_vec() }
}

#[test]
fn isdu_response_octets() {
    assert_eq!(encode_write_success(), vec![0x52, 0x52]);
    assert_eq!(encode_read_success(&[0x01]), vec![0xD3, 0x01, 0xD2]);
    assert_eq!(encode_read_failure(0x80, 0x11), vec![0xC4, 0x80, 0x11, 0x55]);
    assert_eq!(encode_write_failure(0x80, 0x00), vec![0x44, 0x80, 0x00, 0xC4]);
    let fifteen = encode_read_success(b"IOLinke Stack");
    assert_eq!(fifteen.len(), 15);
    assert_eq!(fifteen[0], 0xDF);
    assert_eq!(&fifteen[1..14], b"IOLinke Stack");
    assert_eq!(fifteen.iter().fold(0u8, |a, b| a ^ b), 0);
    let long = encode_read_success(b"IOLinke Stack Device");
    assert_eq!(long.len(), 23);
    assert_eq!(long[0], 0xD1);
    assert_eq!(long[1], 23);
    assert_eq!(&long[2..22], b"IOLinke Stack Device");
    assert_eq!(long.iter().fold(0u8, |a, b| a ^ b), 0);
}

#[test]
fn isdu_request_and_segmented_response() {
    let mut isdu = IsduHandler::new();
    let mut mh = MessageHandler::new();
    let mut al = ApplicationLayer::new();
    assert_eq!(isdu.ih_conf(ConfState::Active), Ok(()));
    assert_eq!(isdu.poll(&mut mh, &mut al), Ok(()));
    // the master writes a request in two segments
    assert_eq!(isdu.od_ind(&od(RwDirection::Write, ComChannel::Isdu, 0x10, 2, &[0xA4, 0x00])), Ok(()));
    let _ = isdu.poll(&mut mh, &mut al);
    assert_eq!(isdu.od_ind(&od(RwDirection::Write, ComChannel::Isdu, 0x01, 2, &[0x09, 0xAD])), Ok(()));
    let _ = isdu.poll(&mut mh, &mut al);
    // and starts reading: the request is complete
    assert_eq!(isdu.od_ind(&od(RwDirection::Read, ComChannel::Isdu, 0x10, 2, &[])), Ok(()));
    assert_eq!(isdu.poll(&mut mh, &mut al), Ok(()));
    // the application layer took the read of index 0, subindex 9, and answers
    let mut answered = None;
    for _ in 0..6 {
        let (_, req) = al.poll();
        if let DlOdRequest::IsduReadRsp(len, data) = req {
            answered = Some((len, data));
            break;
        }
    }
    assert_eq!(answered, Some((1, vec![iolinke::dev_config::vendor_specifics::DEVICE_ID_1])));
    // the application has not answered: busy
    assert_eq!(isdu.od_ind(&od(RwDirection::Read, ComChannel::Isdu, 0x10, 2, &[])), Ok(()));
    let _ = isdu.poll(&mut mh, &mut al);
    // the answer arrives: the response is sent in segments of two octets
    assert_eq!(isdu.dl_isdu_transport_read_rsp(1, &[0x01]), Ok(()));
    assert_eq!(isdu.od_ind(&od(RwDirection::Read, ComChannel::Isdu, 0x10, 2, &[])), Ok(()));
    let _ = isdu.poll(&mut mh, &mut al);
    assert_eq!(isdu.od_ind(&od(RwDirection::Read, ComChannel::Isdu, 0x01, 2, &[])), Ok(()));
    let _ = isdu.poll(&mut mh, &mut al);
    assert_eq!(isdu.od_ind(&od(RwDirection::Read, ComChannel::Isdu, 0x11, 2, &[])), Ok(()));
    let _ = isdu.poll(&mut mh, &mut al);
}

#[test]
fn isdu_request_decoding_outcomes() {
    // read of an 8-bit index
    let m = decode_isdu_request(&[0x93, 0x10, 0x83]).unwrap();
    assert_eq!((m.direction, m.index, m.sub_index, m.data.len()), (RwDirection::Read, 0x10, 0, 0));
    // read with subindex, followed by a filling octet
    let m = decode_isdu_request(&[0xA4, 0x00, 0x09, 0xAD, 0x00]).unwrap();
    assert_eq!((m.direction, m.index, m.sub_index), (RwDirection::Read, 0, 9));
    // read of a 16-bit index, low octet first
    let m = decode_isdu_request(&[0xB5, 0x34, 0x12, 0x02, 0x91]).unwrap();
    assert_eq!((m.index, m.sub_index), (0x1234, 2));
    // write with subindex and one data octet
    let m = decode_isdu_request(&[0x25, 0x00, 0x09, 0x42, 0x6E]).unwrap();
    assert_eq!((m.direction, m.index, m.sub_index, m.data), (RwDirection::Write, 0, 9, vec![0x42]));
    // write with an extended length octet: 20 data octets
    let mut w = vec![0x21u8, 25, 0x18, 0x00];
    w.extend_from_slice(&[7u8; 20]);
    let c = w.iter().fold(0u8, |a, b| a ^ b);
    w.push(c);
    let m = decode_isdu_request(&w).unwrap();
    assert_eq!((m.index, m.sub_index, m.data), (0x18, 0, vec![7u8; 20]));
    // refused: wrong check octet, unknown I-Service, read with data, too short
    assert!(decode_isdu_request(&[0xA4, 0x00, 0x09, 0xAE]).is_none());
    assert!(decode_isdu_request(&[0x74, 0x00, 0x09, 0x7D]).is_none());
    assert!(decode_isdu_request(&[0x95, 0x10, 0x01, 0x84, 0x00]).is_none());
    assert!(decode_isdu_request(&[0xA4, 0x00, 0x09]).is_none());
    assert!(decode_isdu_request(&[0x90]).is_none());

    let mut isdu = IsduHandler::new();
    assert_eq!(isdu.od_ind(&od(RwDirection::Read, ComChannel::Page, 0x10, 2, &[])), Err(IoLinkError::InvalidEvent));
    assert_eq!(isdu.od_ind(&od(RwDirection::Read, ComChannel::Isdu, 0x15, 2, &[])), Err(IoLinkError::InvalidEvent));
}

#[test]
fn isdu_malformed_request_aborts() {
    let mut isdu = IsduHandler::new();
    let mut mh = MessageHandler::new();
    let mut al = ApplicationLayer::new();
    assert_eq!(isdu.ih_conf(ConfState::Active), Ok(()));
    assert_eq!(isdu.poll(&mut mh, &mut al), Ok(()));
    // a request with a wrong check octet
    assert_eq!(isdu.od_ind(&od(RwDirection::Write, ComChannel::Isdu, 0x10, 2, &[0xA4, 0x00])), Ok(()));
    assert_eq!(isdu.poll(&mut mh, &mut al), Ok(()));
    assert_eq!(isdu.od_ind(&od(RwDirection::Write, ComChannel::Isdu, 0x01, 2, &[0x09, 0x00])), Ok(()));
    assert_eq!(isdu.poll(&mut mh, &mut al), Ok(()));
    assert_eq!(isdu.od_ind(&od(RwDirection::Read, ComChannel::Isdu, 0x10, 2, &[])), Ok(()));
    // busy, and the request is dropped: the handler is idle again
    assert_eq!(isdu.poll(&mut mh, &mut al), Ok(()));
    assert_eq!(isdu.poll(&mut mh, &mut al), Ok(()));
    // an idle handler answers a read with "no service", and refuses the
    // end of a request it is not receiving
    assert_eq!(isdu.od_ind(&od(RwDirection::Read, ComChannel::Isdu, 0x01, 2, &[])), Ok(()));
    assert_eq!(isdu.poll(&mut mh, &mut al), Ok(()));
    assert_eq!(isdu.od_ind(&od(RwDirection::Read, ComChannel::Isdu, 0x10, 2, &[])), Err(IoLinkError::InvalidEvent));
    // a new request starts
    assert_eq!(isdu.od_ind(&od(RwDirection::Write, ComChannel::Isdu, 0x10, 2, &[0x93, 0x10])), Ok(()));
}

#[test]
fn event_flag_and_event_memory_reads() {
    let mut eh = EventHandler::new();
    let mut mh = MessageHandler::new();
    assert_eq!(eh.eh_conf(EhConfState::Active), Ok(()));
    let _ = eh.poll(&mut mh);
    let e = EventEntry {
        event_qualifier: EventQualifier {
            eq_mode: EventMode::SingleShot,
            eq_type: EventType::Notification,
            eq_source: EventSource::Device,
            eq_instance: EventInstance::System,
        },
        event_code: 0xFF91,
    };
    assert_eq!(eh.dl_event_req(1, &[e]), Ok(()));
    let _ = eh.poll(&mut mh);
    assert_eq!(eh.dl_event_trigger_req(), Ok(()));
    assert_eq!(eh.poll(&mut mh), Ok(()));
    // frozen: new events are refused
    assert_eq!(eh.dl_event_req(1, &[e]), Err(IoLinkError::ReadOnlyError));
    assert_eq!(eh.od_ind(&od(RwDirection::Read, ComChannel::Diagnosis, 0, 3, &[])), Ok(()));
    assert_eq!(eh.poll(&mut mh), Ok(()));
    assert_eq!(eh.od_ind(&od(RwDirection::Write, ComChannel::Diagnosis, 0, 1, &[0])), Ok(()));
    assert_eq!(eh.poll(&mut mh), Ok(()));
    // released and emptied: events are taken again
    assert_eq!(eh.dl_event_req(1, &[e]), Ok(()));
    assert_eq!(eh.od_ind(&od(RwDirection::Write, ComChannel::Diagnosis, 1, 1, &[0])), Err(IoLinkError::InvalidEvent));
}

#[test]
fn od_accesses_are_sorted() {
    let mut h = OnRequestDataHandler::new();
    assert_eq!(h.oh_conf(ConfState::Active), Ok(()));
    let _ = h.poll();
    assert_eq!(h.od_ind(&od(RwDirection::Read, ComChannel::Page, 2, 1, &[])), Ok(()));
    assert!(matches!(h.poll().1, DlOdDispatch::ParamRead(2)));
    assert_eq!(h.od_ind(&od(RwDirection::Write, ComChannel::Page, 0, 1, &[0x95])), Ok(()));
    assert!(matches!(h.poll().1, DlOdDispatch::Command(0, 0x95)));
    assert_eq!(h.od_ind(&od(RwDirection::Write, ComChannel::Page, 5, 1, &[7])), Ok(()));
    assert!(matches!(h.poll().1, DlOdDispatch::ParamWrite(5, 7)));
    assert_eq!(h.od_ind(&od(RwDirection::Read, ComChannel::Isdu, 0x10, 2, &[])), Ok(()));
    assert!(matches!(h.poll().1, DlOdDispatch::Isdu(_)));
    assert_eq!(h.od_ind(&od(RwDirection::Read, ComChannel::Page, 40, 1, &[])), Err(IoLinkError::InvalidEvent));
    assert_eq!(h.od_ind(&od(RwDirection::Read, ComChannel::Process, 0, 1, &[])), Err(IoLinkError::InvalidEvent));
    assert!(matches!(h.poll().1, DlOdDispatch::Nothing));
}

#[test]
fn process_data_cycle() {
    let mut pd = ProcessDataHandler::new();
    let mut mh = MessageHandler::new();
    assert_eq!(mh.pd_in_status_req(PdStatus::Valid), Ok(()));
    assert_eq!(pd.pd_conf(ConfState::Active), Ok(()));
    assert!(pd.poll(&mut mh).is_none());
    assert_eq!(pd.dl_pd_input_update_req(3, &[1, 2, 3]), Ok(()));
    assert!(pd.poll(&mut mh).is_none());
    assert_eq!(pd.pd_ind(0, 3, 0, &[9, 8, 7, 6]), Ok(()));
    assert_eq!(pd.poll(&mut mh), Some(vec![9, 8, 7, 6]));
    assert_eq!(pd.poll(&mut mh), Some(vec![9, 8, 7, 6]));
    assert!(pd.poll(&mut mh).is_none());
    assert_eq!(pd.pd_ind(0, 33, 0, &[]), Err(IoLinkError::InvalidParameter));
    assert_eq!(pd.dl_pd_input_update_req(33, &[0; 33]), Err(IoLinkError::InvalidParameter));
}

#[test]
fn message_handler_settings() {
    let mut mh = MessageHandler::new();
    assert_eq!(mh.dl_mode_ind(DlMode::Operate), Ok(()));
    assert_eq!(mh.dl_mode_ind(DlMode::Com3), Ok(()));
    assert_eq!(mh.timer_elapsed(Timer::TDsio), Ok(()));
    assert_eq!(mh.dl_write_ind(0, 0), Err(IoLinkError::NoImplFound));
    assert_eq!(mh.dl_read_ind(0), Err(IoLinkError::NoImplFound));
    assert_eq!(mh.od_rsp(1, &[5, 6]), Ok(()));
    assert_eq!(mh.pd_rsp(2, &[5, 6, 7]), Ok(()));
    mh.event_flag(true);
    mh.mh_conf_update(ConfState::Active);
    assert!(matches!(
        mh.pl_transfer_ind(0xA2).as_slice(),
        [PlRequest::StartTimer(Timer::MaxUARTframeTime, 53), PlRequest::StartTimer(Timer::MaxCycleTime, 53)]
    ));
    let mut od_h = OnRequestDataHandler::new();
    let mut pd_h = ProcessDataHandler::new();
    let short = MasterRequest {
        rw_direction: RwDirection::Read,
        com_channel: ComChannel::Page,
        address_ctrl: 2,
        pd_out: vec![1, 2],
        od: vec![],
    };
    assert_eq!(mh.execute_t5(&short, &mut od_h, &mut pd_h), Err(IoLinkError::InvalidLength));
    let ok = MasterRequest { pd_out: vec![1, 2, 3, 4], ..short };
    assert_eq!(mh.execute_t5(&ok, &mut od_h, &mut pd_h), Ok(()));
}

#[test]
fn data_link_layer_services() {
    let mut dl = DataLinkLayer::new();
    assert_eq!(dl.dl_write_param_rsp(), Ok(()));
    assert_eq!(dl.dl_read_param_rsp(1, 0x81), Ok(()));
    assert_eq!(dl.dl_isdu_transport_write_rsp(), Ok(()));
    assert_eq!(dl.dl_isdu_transport_read_error_rsp(0x80, 0x11), Ok(()));
    assert_eq!(dl.dl_pd_input_update_req(3, &[1, 2, 3]), Ok(()));
    assert_eq!(dl.dl_mode_ind(DlMode::PreOperate), Ok(()));
    assert_eq!(dl.dl_event_trigger_req(), Ok(()));
    let mut sm = iolinke::system_management::SystemManagement::new();
    let mut al = ApplicationLayer::new();
    let (res, out) = dl.poll(&mut sm, &mut al);
    assert_eq!(res, Ok(()));
    assert!(out.pd_output.is_none());
    assert!(matches!(out.dispatch, DlOdDispatch::Nothing));
}

/// The six-bit checksum of a message whose checksum bits are zero,
/// computed octet by octet as the master does.
fn six_bit_checksum(frame: &[u8]) -> u8 {
    let x = frame.iter().fold(0x52u8, |a, b| a ^ b);
    let b = |i: u32| (x >> i) & 1;
    ((b(7) ^ b(5) ^ b(3) ^ b(1)) << 5)
        | ((b(6) ^ b(4) ^ b(2) ^ b(0)) << 4)
        | ((b(7) ^ b(6)) << 3)
        | ((b(5) ^ b(4)) << 2)
        | ((b(3) ^ b(2)) << 1)
        | (b(1) ^ b(0))
}

fn master_frame(mut f: Vec<u8>) -> Vec<u8> {
    let c = six_bit_checksum(&f);
    f[1] |= c;
    f
}

#[test]
fn mseq_checksum_and_codec() {
    assert_eq!(checksum(&[0xA2, 0x00]), six_bit_checksum(&[0xA2, 0x00]));
    assert_eq!(checksum(&[0x20, 0x40, 0x12, 0x34]), six_bit_checksum(&[0x20, 0x40, 0x12, 0x34]));
    // 0xA2 ^ 0x52 = 0xF0: every pair of bits is equal, the checksum is 0
    assert_eq!(checksum(&[0xA2, 0x00]), 0x00);
    // 0x52 alone: 0101 0010
    assert_eq!(checksum(&[]), 0b101101);
    assert_eq!(decode_mc(0xA2), (RwDirection::Read, ComChannel::Page, 2));
    assert_eq!(decode_mc(0x70), (RwDirection::Write, ComChannel::Isdu, 0x10));
    assert_eq!(decode_mc(0xC1), (RwDirection::Read, ComChannel::Diagnosis, 1));
    assert_eq!(request_length(0xA2, DeviceOperationMode::Startup), 2);
    assert_eq!(request_length(0x20, DeviceOperationMode::Startup), 3);
    assert_eq!(request_length(0x20, DeviceOperationMode::PreOperate), 4);
    assert_eq!(request_length(0xF0, DeviceOperationMode::Operate), 6);
    assert_eq!(request_length(0x70, DeviceOperationMode::Operate), 38);
    let good = master_frame(vec![0xA2, 0x00]);
    assert_eq!(check_master_message(&good, DeviceOperationMode::Startup), Ok(RwDirection::Read));
    assert_eq!(check_master_message(&good, DeviceOperationMode::PreOperate), Err(IoLinkError::InvalidMseqType));
    let bad = vec![good[0], good[1] ^ 0x01];
    assert_eq!(check_master_message(&bad, DeviceOperationMode::Startup), Err(IoLinkError::ChecksumError));
    assert_eq!(check_master_message(&[0xA2], DeviceOperationMode::Startup), Err(IoLinkError::InvalidParameter));
    // a read response of PREOPERATE: two octets of On-request Data
    let r = compile_response(DeviceOperationMode::PreOperate, RwDirection::Read, &[9], &[], true, PdStatus::Valid);
    assert_eq!(r.len(), 3);
    assert_eq!(&r[..2], &[9, 0]);
    assert_eq!(r[2] & 0xC0, 0x80);
    assert_eq!(r[2] & 0x3F, six_bit_checksum(&[9, 0, 0x80]));
    // a write response of OPERATE: input Process Data only
    let r = compile_response(DeviceOperationMode::Operate, RwDirection::Write, &[1, 2], &[7, 8, 9, 10], false, PdStatus::Invalid);
    assert_eq!(&r[..3], &[7, 8, 9]);
    assert_eq!(r[3] & 0x3F, six_bit_checksum(&[7, 8, 9, 0x40]));
    assert_eq!(max_uart_frame_time(TransmissionRate::Com1), 2500);
    assert_eq!(max_uart_frame_time(TransmissionRate::Com2), 313);
    assert_eq!(max_uart_frame_time(TransmissionRate::Com3), 53);
}

#[test]
fn message_handler_answers_a_startup_read() {
    let mut mh = MessageHandler::new();
    let mut od_h = OnRequestDataHandler::new();
    let mut pd_h = ProcessDataHandler::new();
    assert!(mh.pl_transfer_ind(0xA2).is_empty());
    mh.mh_conf_update(ConfState::Active);
    let _ = mh.poll(&mut od_h, &mut pd_h);
    let frame = master_frame(vec![0xA2, 0x00]);
    // outside OPERATE only MaxUARTframeTime is started
    assert!(matches!(
        mh.pl_transfer_ind(frame[0]).as_slice(),
        [PlRequest::StartTimer(Timer::MaxUARTframeTime, 2500)]
    ));
    assert!(matches!(
        mh.pl_transfer_ind(frame[1]).as_slice(),
        [PlRequest::RestartTimer(Timer::MaxUARTframeTime, 2500)]
    ));
    // the message is complete: the frame timer stops and the message is checked
    let (res, out) = mh.poll(&mut od_h, &mut pd_h);
    assert_eq!(res, Ok(()));
    assert!(matches!(out.requests.as_slice(), [PlRequest::StopTimer(Timer::MaxUARTframeTime)]));
    // the read goes to the On-request Data handler; no response yet
    let (res, out) = mh.poll(&mut od_h, &mut pd_h);
    assert_eq!(res, Ok(()));
    assert!(out.requests.is_empty());
    // octets arriving now are not part of a message
    assert!(mh.pl_transfer_ind(0xA2).is_empty());
    // the value arrives: the response is compiled, then sent
    assert_eq!(mh.od_rsp(1, &[0x23]), Ok(()));
    let (_, out) = mh.poll(&mut od_h, &mut pd_h);
    assert!(out.requests.is_empty());
    let (_, out) = mh.poll(&mut od_h, &mut pd_h);
    match out.requests.as_slice() {
        [PlRequest::Transfer(tx)] => {
            assert_eq!(tx.len(), 2);
            assert_eq!(tx[0], 0x23);
            assert_eq!(tx[1] & 0xC0, 0x40);
            assert_eq!(tx[1] & 0x3F, six_bit_checksum(&[0x23, 0x40]));
        },
        other => panic!("unexpected requests {:?}", other),
    }
    // the next message starts a new cycle
    assert!(matches!(mh.pl_transfer_ind(frame[0]).as_slice(), [PlRequest::StartTimer(_, _)]));
}

#[test]
fn message_handler_drops_bad_messages() {
    let mut mh = MessageHandler::new();
    let mut od_h = OnRequestDataHandler::new();
    let mut pd_h = ProcessDataHandler::new();
    mh.mh_conf_update(ConfState::Active);
    let _ = mh.poll(&mut od_h, &mut pd_h);
    // a checksum error: the message is dropped silently
    let frame = master_frame(vec![0xA2, 0x00]);
    let _ = mh.pl_transfer_ind(frame[0]);
    let _ = mh.pl_transfer_ind(frame[1] ^ 0x3F);
    let (_, out) = mh.poll(&mut od_h, &mut pd_h);
    assert!(out.mh_info.is_none());
    let (_, out) = mh.poll(&mut od_h, &mut pd_h);
    assert!(out.mh_info.is_none());
    assert!(out.requests.is_empty());
    // a message of the wrong M-sequence type is reported to the DL-mode handler
    let frame = master_frame(vec![0xA2, 0x40]);
    let _ = mh.pl_transfer_ind(frame[0]);
    let _ = mh.pl_transfer_ind(frame[1]);
    let _ = mh.poll(&mut od_h, &mut pd_h);
    let (_, out) = mh.poll(&mut od_h, &mut pd_h);
    assert_eq!(out.mh_info, Some(MHInfo::IllegalMessagetype));
    // a frame timeout stops both timers
    let _ = mh.pl_transfer_ind(frame[0]);
    assert_eq!(mh.timer_elapsed(Timer::MaxUARTframeTime), Ok(()));
    let (_, out) = mh.poll(&mut od_h, &mut pd_h);
    assert!(matches!(
        out.requests.as_slice(),
        [PlRequest::StopTimer(Timer::MaxUARTframeTime), PlRequest::StopTimer(Timer::MaxCycleTime)]
    ));
}

#[test]
fn message_handler_write_of_preoperate() {
    let mut mh = MessageHandler::new();
    let mut od_h = OnRequestDataHandler::new();
    let mut pd_h = ProcessDataHandler::new();
    assert_eq!(mh.dl_mode_ind(DlMode::PreOperate), Ok(()));
    mh.mh_conf_update(ConfState::Active);
    let _ = mh.poll(&mut od_h, &mut pd_h);
    // a write of two octets to address 0x0F on the page channel, TYPE_1
    let frame = master_frame(vec![0x2F, 0x40, 0x81, 0x00]);
    for b in &frame {
        assert_eq!(mh.pl_transfer_ind(*b).len(), 1);
    }
    let _ = mh.poll(&mut od_h, &mut pd_h);
    let _ = mh.poll(&mut od_h, &mut pd_h);
    // a write is answered once its (empty) On-request Data is set
    assert_eq!(mh.od_rsp(0, &[]), Ok(()));
    let _ = mh.poll(&mut od_h, &mut pd_h);
    let (_, out) = mh.poll(&mut od_h, &mut pd_h);
    match out.requests.as_slice() {
        [PlRequest::Transfer(tx)] => {
            assert_eq!(tx.len(), 1);
            assert_eq!(tx[0] & 0x3F, six_bit_checksum(&[tx[0] & 0xC0]));
        },
        other => panic!("unexpected requests {:?}", other),
    }
}

#[test]
fn pending_work_checks() {
    // a fresh data link layer has nothing it cannot do
    let dl = DataLinkLayer::new();
    assert!(!dl.poll_unsupported());
    let isdu = IsduHandler::new();
    assert!(!isdu.segment_count_exhausted());
    // a page write of PREOPERATE whose message ends before its data, once
    // the mode has changed to OPERATE, cannot be handed on
    let mut mh = MessageHandler::new();
    let mut od_h = OnRequestDataHandler::new();
    let mut pd_h = ProcessDataHandler::new();
    assert_eq!(mh.dl_mode_ind(DlMode::PreOperate), Ok(()));
    mh.mh_conf_update(ConfState::Active);
    let _ = mh.poll(&mut od_h, &mut pd_h);
    let frame = master_frame(vec![0x2F, 0x40, 0x81, 0x00]);
    for b in &frame {
        let _ = mh.pl_transfer_ind(*b);
    }
    let _ = mh.poll(&mut od_h, &mut pd_h);
    assert!(!mh.pending_write_too_short());
    // a write whose length was fixed in STARTUP (three octets) but which
    // completes after the mode changed to PREOPERATE lacks an octet of
    // On-request Data
    let mut mh = MessageHandler::new();
    mh.mh_conf_update(ConfState::Active);
    let _ = mh.poll(&mut od_h, &mut pd_h);
    let frame = master_frame(vec![0x2F, 0x40, 0x81]);
    let _ = mh.pl_transfer_ind(frame[0]);
    let _ = mh.pl_transfer_ind(frame[1]);
    assert_eq!(mh.dl_mode_ind(DlMode::PreOperate), Ok(()));
    let _ = mh.pl_transfer_ind(frame[2]);
    let _ = mh.poll(&mut od_h, &mut pd_h);
    assert!(mh.pending_write_too_short());
}
