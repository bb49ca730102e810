use iolinke::frame_utils::{
    create_op_read_start_isdu_request, create_op_write_isdu_request, create_preop_isdu_idle_request,
    create_preop_read_isdu_segment, create_preop_read_start_isdu_request,
    create_preop_write_isdu_request,
};
use iolinke::dl::isdu_handler::{encode_read_success, encode_write_success};
use iolinke::isdu_sequences::{
    isdu_read_begin, isdu_read_step, isdu_request_frames, IsduReadAction, IsduReadPhase,
    IsduReadState,
};

#[test]
fn request_is_cut_into_padded_frames() {
    let request = [1u8, 2, 3, 4, 5];
    let frames = isdu_request_frames(&request, 2, false);
    assert_eq!(frames.len(), 3);
    assert_eq!(frames[0], create_preop_write_isdu_request(0x10, &[1, 2]));
    assert_eq!(frames[1], create_preop_write_isdu_request(1, &[3, 4]));
    assert_eq!(frames[2], create_preop_write_isdu_request(2, &[5, 0]));
}

#[test]
fn request_frames_count_modulo_sixteen() {
    let request: Vec<u8> = (0..40u8).collect();
    let frames = isdu_request_frames(&request, 2, false);
    assert_eq!(frames.len(), 20);
    assert_eq!(frames[15], create_preop_write_isdu_request(15, &[30, 31]));
    assert_eq!(frames[16], create_preop_write_isdu_request(0, &[32, 33]));
    assert_eq!(frames[17], create_preop_write_isdu_request(1, &[34, 35]));
}

#[test]
fn request_frames_of_operate_and_empty_requests() {
    let request = [0x53u8, 0x00, 0x53];
    let frames = isdu_request_frames(&request, 32, true);
    assert_eq!(frames.len(), 1);
    let mut chunk = request.to_vec();
    chunk.resize(32, 0);
    assert_eq!(frames[0], create_op_write_isdu_request(0x10, &chunk));
    assert!(isdu_request_frames(&[], 8, false).is_empty());
}

#[test]
fn read_waits_out_busy_and_collects_segments() {
    let (st, frame) = isdu_read_begin(2, false);
    assert_eq!(frame, create_preop_read_start_isdu_request());
    // busy: the START read is repeated
    let (st, action) = isdu_read_step(st, &[0x01, 0x00]);
    assert!(matches!(st.phase, IsduReadPhase::AwaitingStart { busy: 1 }));
    match action {
        IsduReadAction::Send(f) => assert_eq!(f, create_preop_read_start_isdu_request()),
        other => panic!("unexpected action {:?}", other),
    }
    // a read response (+) of three octets: I-Service, one data octet, checksum
    let (st, action) = isdu_read_step(st, &[0xD3, 0x42]);
    assert!(matches!(st.phase, IsduReadPhase::Receiving { segment: 1, .. }));
    match action {
        IsduReadAction::Send(f) => assert_eq!(f, create_preop_read_isdu_segment(1)),
        other => panic!("unexpected action {:?}", other),
    }
    let (st, action) = isdu_read_step(st, &[0x91, 0x00]);
    assert!(matches!(st.phase, IsduReadPhase::Done));
    match action {
        IsduReadAction::Finish { iservice, data, idle } => {
            assert_eq!(iservice, 0xD3);
            assert_eq!(data, vec![0x42]);
            assert_eq!(idle, create_preop_isdu_idle_request());
        }
        other => panic!("unexpected action {:?}", other),
    }
    // nothing continues a finished transfer
    let (_, action) = isdu_read_step(st, &[0xD3, 0x42]);
    assert!(matches!(action, IsduReadAction::Failed));
}

#[test]
fn read_with_extended_length() {
    let (st, frame) = isdu_read_begin(8, true);
    assert_eq!(frame, create_op_read_start_isdu_request());
    let (st, action) = isdu_read_step(st, &[0xD1, 0x05, 0x0A, 0x0B, 0x77, 0, 0, 0, 9, 9, 9]);
    assert!(matches!(st.phase, IsduReadPhase::Done));
    match action {
        IsduReadAction::Finish { iservice, data, .. } => {
            assert_eq!(iservice, 0xD1);
            assert_eq!(data, vec![0x0A, 0x0B]);
        }
        other => panic!("unexpected action {:?}", other),
    }
}

#[test]
fn write_response_has_no_data() {
    let (st, _) = isdu_read_begin(2, false);
    let (_, action) = isdu_read_step(st, &[0x52, 0x52]);
    match action {
        IsduReadAction::Finish { iservice, data, .. } => {
            assert_eq!(iservice, 0x52);
            assert!(data.is_empty());
        }
        other => panic!("unexpected action {:?}", other),
    }
}

#[test]
fn read_abort_and_failures() {
    let (st, _) = isdu_read_begin(2, false);
    let (st, action) = isdu_read_step(st, &[0x00, 0x00]);
    assert!(matches!(action, IsduReadAction::Aborted));
    assert!(matches!(st.phase, IsduReadPhase::Done));
    // an answer shorter than the On-request Data
    let (st, _) = isdu_read_begin(2, false);
    let (_, action) = isdu_read_step(st, &[0xD3]);
    assert!(matches!(action, IsduReadAction::Failed));
    // a length that leaves no room for the checksum
    let (st, _) = isdu_read_begin(2, false);
    let (_, action) = isdu_read_step(st, &[0xD0, 0x00]);
    assert!(matches!(action, IsduReadAction::Failed));
    // after five busy answers the next answer ends the transfer
    let (mut st, _) = isdu_read_begin(2, false);
    for _ in 0..5 {
        let (next, action) = isdu_read_step(st, &[0x01, 0x00]);
        assert!(matches!(action, IsduReadAction::Send(_)));
        st = next;
    }
    let (_, action) = isdu_read_step(st, &[0xD3, 0x42]);
    assert!(matches!(action, IsduReadAction::Failed));
    // a state built by hand that is done
    let st = IsduReadState { od_len: 2, operate: false, phase: IsduReadPhase::Done };
    assert!(matches!(isdu_read_step(st, &[0xD3, 0x42]).1, IsduReadAction::Failed));
}

/// Answers the reads of a transfer with the segments of `tx`, as the
/// device sends them, and returns what the master finishes with.
fn read_back(tx: &[u8], od_len: usize) -> (u8, Vec<u8>) {
    let (mut st, _) = isdu_read_begin(od_len as u8, false);
    let mut k = 0;
    loop {
        let mut segment: Vec<u8> = tx.iter().skip(k * od_len).take(od_len).cloned().collect();
        segment.resize(od_len, 0);
        let (next, action) = isdu_read_step(st, &segment);
        st = next;
        k += 1;
        match action {
            IsduReadAction::Send(_) => {}
            IsduReadAction::Finish { iservice, data, .. } => return (iservice, data),
            other => panic!("unexpected action {:?}", other),
        }
    }
}

#[test]
fn master_reads_back_what_the_device_encodes() {
    let short = [0x11u8, 0x22, 0x33];
    let long: Vec<u8> = (1..=20u8).collect();
    for od_len in [1usize, 2, 8, 32] {
        let (i, d) = read_back(&encode_read_success(&short), od_len);
        assert_eq!((i >> 4, d), (0xD, short.to_vec()));
        let (i, d) = read_back(&encode_read_success(&long), od_len);
        assert_eq!((i, d), (0xD1, long.clone()));
        let (i, d) = read_back(&encode_write_success(), od_len);
        assert_eq!((i, d), (0x52, vec![]));
    }
}
