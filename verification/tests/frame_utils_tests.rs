use iolinke::dl::isdu_handler::decode_isdu_request;
use iolinke::dl::mseq::{check_master_message, compile_response, extract_od, extract_pd_out, request_length};
use iolinke::frame_utils::{
    create_isdu_read_request, create_isdu_write_request, create_op_isdu_idle_request,
    create_op_read_isdu_segment, create_op_read_request, create_op_read_start_isdu_request,
    create_op_write_isdu_request, create_op_write_request, create_preop_isdu_idle_request,
    create_preop_read_isdu_segment, create_preop_read_request, create_preop_read_start_isdu_request,
    create_preop_write_isdu_complete_request, create_preop_write_isdu_request,
    create_preop_write_request, create_startup_read_request, create_startup_write_request,
    validate_checksum, validate_device_frame_checksum,
};
use iolinke::protocol::{DeviceOperationMode, PdStatus, RwDirection};

/// The six-bit checksum of a message whose checksum bits are zero,
/// computed bit by bit.
fn six_bit_checksum(frame: &[u8]) -> u8 {
    let x = frame.iter().fold(0x52u8, |a, b| a ^ b);
    let b = |i: u32| (x >> i) & 1;
    ((b(7) ^ b(5) ^ b(3) ^ b(1)) << 5)
        | ((b(6) ^ b(4) ^ b(2) ^ b(0)) << 4)
        | ((b(7) ^ b(6)) << 3)
        | ((b(5) ^ b(4)) << 2)
        | ((b(3) ^ b(2)) << 1)
        | (b(1) ^ b(0))
}

/// The message `mc`, type `t`, `data`, with its checksum.
fn expected_message(mc: u8, t: u8, data: &[u8]) -> Vec<u8> {
    let mut m = vec![mc, t << 6];
    m.extend_from_slice(data);
    let c = six_bit_checksum(&m);
    m[1] |= c;
    m
}

#[test]
fn startup_read_request_octets() {
    let r = create_startup_read_request(0x02);
    assert_eq!(r, expected_message(0xA2, 0, &[]));
    assert_eq!(check_master_message(&r, DeviceOperationMode::Startup), Ok(RwDirection::Read));
    assert_eq!(request_length(r[0], DeviceOperationMode::Startup) as usize, r.len());
}

#[test]
fn startup_write_request_octets() {
    let r = create_startup_write_request(0x00, 0x95);
    assert_eq!(r, expected_message(0x20, 0, &[0x95]));
    assert_eq!(check_master_message(&r, DeviceOperationMode::Startup), Ok(RwDirection::Write));
    assert_eq!(extract_od(&r, DeviceOperationMode::Startup), vec![0x95]);
}

#[test]
fn preop_page_requests_pass_the_device_check() {
    let r = create_preop_read_request(0x03);
    assert_eq!(r, expected_message(0xA3, 1, &[]));
    assert_eq!(check_master_message(&r, DeviceOperationMode::PreOperate), Ok(RwDirection::Read));
    let w = create_preop_write_request(0x00, &[0x9A]);
    assert_eq!(w, expected_message(0x20, 1, &[0x9A, 0x00]));
    assert_eq!(check_master_message(&w, DeviceOperationMode::PreOperate), Ok(RwDirection::Write));
    assert_eq!(request_length(w[0], DeviceOperationMode::PreOperate) as usize, w.len());
    assert_eq!(extract_od(&w, DeviceOperationMode::PreOperate), vec![0x9A, 0x00]);
    // a longer payload is cut to the On-request Data of the mode
    let cut = create_preop_write_request(0x01, &[1, 2, 3]);
    assert_eq!(extract_od(&cut, DeviceOperationMode::PreOperate), vec![1, 2]);
    // a message of PREOPERATE is refused in STARTUP
    assert!(check_master_message(&r, DeviceOperationMode::Startup).is_err());
}

#[test]
fn op_page_requests_carry_process_data() {
    let r = create_op_read_request(0x02);
    assert_eq!(r, expected_message(0xA2, 2, &[0, 0, 0, 0]));
    assert_eq!(check_master_message(&r, DeviceOperationMode::Operate), Ok(RwDirection::Read));
    assert_eq!(extract_pd_out(&r), vec![0, 0, 0, 0]);
    let w = create_op_write_request(0x00, &[0x98]);
    assert_eq!(w.len(), 2 + 4 + 32);
    assert_eq!(check_master_message(&w, DeviceOperationMode::Operate), Ok(RwDirection::Write));
    assert_eq!(request_length(w[0], DeviceOperationMode::Operate) as usize, w.len());
    assert_eq!(extract_pd_out(&w), vec![99, 99, 99, 99]);
    let mut od = vec![0u8; 32];
    od[0] = 0x98;
    assert_eq!(extract_od(&w, DeviceOperationMode::Operate), od);
}

#[test]
fn isdu_channel_requests_pass_the_device_check() {
    let preop = [
        (create_preop_write_isdu_request(0x10, &[0x93, 0x10]), 0x70u8, RwDirection::Write),
        (create_preop_read_isdu_segment(0x01), 0xE1, RwDirection::Read),
        (create_preop_read_start_isdu_request(), 0xF0, RwDirection::Read),
        (create_preop_isdu_idle_request(), 0xF1, RwDirection::Read),
        (create_preop_write_isdu_complete_request(), 0xF0, RwDirection::Read),
    ];
    for (frame, mc, rw) in preop.iter() {
        assert_eq!(frame[0], *mc);
        assert_eq!(check_master_message(frame, DeviceOperationMode::PreOperate), Ok(*rw));
    }
    assert_eq!(preop[0].0, expected_message(0x70, 1, &[0x93, 0x10]));
    let op = [
        (create_op_write_isdu_request(0x10, &[0u8; 32]), 0x70u8, RwDirection::Write),
        (create_op_read_isdu_segment(0x02), 0xE2, RwDirection::Read),
        (create_op_read_start_isdu_request(), 0xF0, RwDirection::Read),
        (create_op_isdu_idle_request(), 0xF1, RwDirection::Read),
    ];
    for (frame, mc, rw) in op.iter() {
        assert_eq!(frame[0], *mc);
        assert_eq!(check_master_message(frame, DeviceOperationMode::Operate), Ok(*rw));
        assert_eq!(extract_pd_out(frame), vec![99, 99, 99, 99]);
        assert_eq!(request_length(frame[0], DeviceOperationMode::Operate) as usize, frame.len());
    }
}

#[test]
fn isdu_read_requests_decode_to_their_index() {
    let r = create_isdu_read_request(0x10, None);
    assert_eq!(r, vec![0x93, 0x10, 0x83]);
    let m = decode_isdu_request(&[0x93, 0x10, 0x83, 0x00]).unwrap();
    assert_eq!((m.direction, m.index, m.sub_index, m.data.len()), (RwDirection::Read, 0x10, 0, 0));

    let r = create_isdu_read_request(0x00, Some(0x09));
    assert_eq!(r, vec![0xA4, 0x00, 0x09, 0xAD]);
    let m = decode_isdu_request(&r).unwrap();
    assert_eq!((m.index, m.sub_index), (0x00, 0x09));

    let r = create_isdu_read_request(0x1234, Some(0x05));
    assert_eq!(r, vec![0xB5, 0x34, 0x12, 0x05, 0xB5 ^ 0x34 ^ 0x12 ^ 0x05]);
    let m = decode_isdu_request(&r).unwrap();
    assert_eq!((m.direction, m.index, m.sub_index), (RwDirection::Read, 0x1234, 0x05));
}

#[test]
fn isdu_write_request_layout() {
    let r = create_isdu_write_request(0x00, Some(0x09), &[0x42]);
    assert_eq!(r, vec![0x21, 0x00, 0x09, 0x42, 0x21 ^ 0x09 ^ 0x42]);
    let long: Vec<u8> = (0u8..30).collect();
    let r = create_isdu_write_request(0x03, Some(0x05), &long);
    assert_eq!(&r[..4], &[0x21, 30, 0x03, 0x05]);
    assert_eq!(r.len(), 4 + 30 + 1);
    assert_eq!(r.iter().fold(0u8, |a, b| a ^ b), 0);
    let r = create_isdu_write_request(0x20, None, &[7, 8]);
    assert_eq!(r, vec![0x13, 0x20, 7, 8, 0x13 ^ 0x20 ^ 7 ^ 8]);
    let r = create_isdu_write_request(0x0102, Some(1), &[]);
    assert_eq!(r, vec![0x35, 0x02, 0x01, 0x01, 0x35 ^ 0x02 ^ 0x01 ^ 0x01]);
}

#[test]
fn device_responses_validate() {
    let mut rsp = compile_response(
        DeviceOperationMode::Operate,
        RwDirection::Read,
        &[1, 2],
        &[3, 4, 5],
        true,
        PdStatus::Invalid,
    );
    let status = rsp[rsp.len() - 1];
    assert!(validate_device_frame_checksum(&mut rsp));
    assert_eq!(rsp[rsp.len() - 1], status & 0xC0);
    let mut broken = compile_response(
        DeviceOperationMode::PreOperate,
        RwDirection::Read,
        &[1, 2],
        &[],
        false,
        PdStatus::Valid,
    );
    broken[0] ^= 0x01;
    assert!(!validate_device_frame_checksum(&mut broken));
}

#[test]
fn validate_checksum_reads_the_second_octet() {
    assert!(validate_checksum(&[0x00, 0xC5], 0x05));
    assert!(!validate_checksum(&[0x00, 0xC5], 0x06));
    assert!(!validate_checksum(&[0x05], 0x05));
}
