use iolinke::al::od_handler::DlOdRequest;
use iolinke::al::ApplicationLayer;
use iolinke::dev_config::process_data::{m_sequence_capability_parameter, pd_in_parameter, pd_out_parameter};
use iolinke::dev_config::timings::min_cycle_time_parameter;
use iolinke::dev_config::vendor_specifics::{device_id_1, revision_id_parameter, vendor_id_1, vendor_id_2};
use iolinke::dl::event_handler::EventHandler;
use iolinke::dl::isdu_handler::IsduHandler;
use iolinke::dl::message_handler::{MessageHandler, PlRequest};
use iolinke::dl::od_handler::{DlOdDispatch, OnRequestDataHandler};
use iolinke::frame_utils::{
    create_isdu_read_request, create_op_read_request, create_op_write_request,
    create_preop_read_request, create_preop_write_request, create_startup_read_request,
    create_startup_write_request, validate_device_frame_checksum,
};
use iolinke::dl::pd_handler::ProcessDataHandler;
use iolinke::isdu_sequences::{isdu_read_begin, isdu_read_step, isdu_request_frames, IsduReadAction};
use iolinke::event::EhConfState;
use iolinke::page1::{CycleTime, MsequenceCapability, ProcessDataIn, ProcessDataOut, RevisionId};
use iolinke::protocol::{
    ConfState, DlMode, ADDR_MASTER_COMMAND, MCMD_DEVICE_OPERATE, MCMD_DEVICE_PREOPERATE,
    MCMD_MASTER_IDENT, MCMD_PROCESS_DATA_OUTPUT_OPERATE,
};
use iolinke::system_management::SystemManagement;

#[derive(Clone, Copy, PartialEq)]
enum Mode {
    Startup,
    PreOperate,
    Operate,
}

impl Mode {
    fn od_len(self) -> usize {
        match self {
            Mode::Startup => 1,
            Mode::PreOperate => 2,
            Mode::Operate => 32,
        }
    }
}

/// The handlers of the device wired together as one cycle of the stack
/// runs them: the application layer's answers go to the data link layer,
/// then the data link handlers run, and the On-request Data of a message
/// goes where it belongs.
struct Stack {
    mode: Mode,
    mh: MessageHandler,
    od: OnRequestDataHandler,
    isdu: IsduHandler,
    pd: ProcessDataHandler,
    eh: EventHandler,
    al: ApplicationLayer,
    sm: SystemManagement,
}

impl Stack {
    fn new(mode: Mode) -> Stack {
        let mut s = Stack {
            mode,
            mh: MessageHandler::new(),
            od: OnRequestDataHandler::new(),
            isdu: IsduHandler::new(),
            pd: ProcessDataHandler::new(),
            eh: EventHandler::new(),
            al: ApplicationLayer::new(),
            sm: SystemManagement::new(),
        };
        s.mh.mh_conf_update(ConfState::Active);
        let _ = s.od.oh_conf(ConfState::Active);
        let _ = s.isdu.ih_conf(ConfState::Active);
        let _ = s.eh.eh_conf(EhConfState::Active);
        let _ = s.pd.pd_conf(ConfState::Active);
        let dl_mode = match mode {
            Mode::Startup => DlMode::Startup,
            Mode::PreOperate => DlMode::PreOperate,
            Mode::Operate => DlMode::Operate,
        };
        let _ = s.mh.dl_mode_ind(DlMode::Com3);
        let _ = s.mh.dl_mode_ind(dl_mode);
        s.cycle();
        s
    }

    /// One cycle; the frames sent.
    fn cycle(&mut self) -> Vec<Vec<u8>> {
        let (_, req) = self.al.poll();
        match req {
            DlOdRequest::Nothing => {},
            DlOdRequest::WriteParamRsp => {
                let _ = self.od.dl_write_param_rsp(&mut self.mh);
            },
            DlOdRequest::ReadParamRsp(l, v) => {
                let _ = self.od.dl_read_param_rsp(l, v, &mut self.mh);
            },
            DlOdRequest::IsduReadRsp(l, d) => {
                let _ = self.isdu.dl_isdu_transport_read_rsp(l, &d);
            },
            DlOdRequest::IsduWriteRsp => {
                let _ = self.isdu.dl_isdu_transport_write_rsp();
            },
            DlOdRequest::IsduReadErrorRsp(e, a) => {
                let _ = self.isdu.dl_isdu_transport_read_error_rsp(e, a);
            },
            DlOdRequest::IsduWriteErrorRsp(e, a) => {
                let _ = self.isdu.dl_isdu_transport_write_error_rsp(e, a);
            },
        }
        let _ = self.eh.poll(&mut self.mh);
        let _ = self.pd.poll(&mut self.mh);
        let _ = self.isdu.poll(&mut self.mh, &mut self.al);
        let (_, out) = self.mh.poll(&mut self.od, &mut self.pd);
        let (res, dispatch) = self.od.poll();
        if res.is_ok() {
            match dispatch {
                DlOdDispatch::ParamRead(a) => {
                    let _ = self.al.dl_read_param_ind(a);
                    let _ = self.sm.dl_read_ind(a);
                },
                DlOdDispatch::ParamWrite(a, v) => {
                    let _ = self.al.dl_write_param_ind(a, v);
                },
                DlOdDispatch::Command(a, v) => {
                    let _ = self.al.dl_write_param_ind(a, v);
                    let _ = self.sm.dl_write_ind(a, v);
                },
                DlOdDispatch::Isdu(d) => {
                    let _ = self.isdu.od_ind(&d);
                },
                DlOdDispatch::Event(d) => {
                    let _ = self.eh.od_ind(&d);
                },
                DlOdDispatch::Nothing => {},
            }
        }
        let mut sent = Vec::new();
        for r in out.requests {
            if let PlRequest::Transfer(f) = r {
                sent.push(f);
            }
        }
        sent
    }

    /// Sends a master message and runs cycles until the device answers; the
    /// answer's checksum is checked and its octets before the check/status
    /// octet returned.
    fn send(&mut self, frame: Vec<u8>) -> Vec<u8> {
        for b in &frame {
            assert!(!self.mh.pl_transfer_ind(*b).is_empty());
        }
        for _ in 0..40 {
            let sent = self.cycle();
            if let Some(mut rsp) = sent.into_iter().next() {
                assert!(validate_device_frame_checksum(&mut rsp), "response checksum");
                let last = rsp.len() - 1;
                return rsp[..last].to_vec();
            }
        }
        panic!("no response");
    }

    fn set_mode(&mut self, mode: Mode) {
        let dl_mode = match mode {
            Mode::Startup => DlMode::Startup,
            Mode::PreOperate => DlMode::PreOperate,
            Mode::Operate => DlMode::Operate,
        };
        let _ = self.mh.dl_mode_ind(dl_mode);
        self.mode = mode;
    }

    fn read_page(&mut self, address: u8) -> u8 {
        let frame = match self.mode {
            Mode::Startup => create_startup_read_request(address),
            Mode::PreOperate => create_preop_read_request(address),
            Mode::Operate => create_op_read_request(address),
        };
        self.send(frame)[0]
    }

    /// Writes a MasterCommand; true where the device answers with the
    /// check/status octet and, in OPERATE, its input Process Data.
    fn write_master_command(&mut self, command: u8) -> bool {
        let frame = match self.mode {
            Mode::Startup => create_startup_write_request(ADDR_MASTER_COMMAND, command),
            Mode::PreOperate => create_preop_write_request(ADDR_MASTER_COMMAND, &[command]),
            Mode::Operate => create_op_write_request(ADDR_MASTER_COMMAND, &[command]),
        };
        let pd_in_len = if self.mode == Mode::Operate { 3 } else { 0 };
        let rsp = self.send(frame);
        assert!(rsp.len() == pd_in_len, "Unexpected response length");
        true
    }

    /// Commands the device from its mode to `target`; the mode change that
    /// follows the command is made here, where the device's mode handler
    /// would make it.
    fn change_operation_mode(&mut self, target: Mode) {
        let command = match target {
            Mode::PreOperate => MCMD_DEVICE_PREOPERATE,
            Mode::Operate => MCMD_DEVICE_OPERATE,
            Mode::Startup => panic!("Invalid target mode"),
        };
        let _ = self.write_master_command(command);
        self.set_mode(target);
    }

    /// An ISDU transfer: the request in segments of the mode's On-request
    /// Data, then the response read segment by segment once it is ready.
    /// Writes an ISDU request and reads the response: its I-Service octet
    /// and its data.
    fn isdu(&mut self, request: &[u8]) -> (u8, Vec<u8>) {
        let n = self.mode.od_len() as u8;
        let operate = self.mode == Mode::Operate;
        for frame in isdu_request_frames(request, n, operate) {
            let rsp = self.send(frame);
            let pd_in_len = if operate { 3 } else { 0 };
            assert_eq!(rsp.len(), pd_in_len);
        }
        let (mut st, mut frame) = isdu_read_begin(n, operate);
        loop {
            let rsp = self.send(frame);
            let (next, action) = isdu_read_step(st, &rsp);
            st = next;
            match action {
                IsduReadAction::Send(f) => frame = f,
                IsduReadAction::Finish { iservice, data, idle } => {
                    let _ = self.send(idle);
                    return (iservice, data);
                }
                IsduReadAction::Aborted => panic!("ISDU aborted by the device"),
                IsduReadAction::Failed => panic!("ISDU transfer failed"),
            }
        }
    }
}

fn isdu_read_request(index: u8, sub: Option<u8>) -> Vec<u8> {
    create_isdu_read_request(index as u16, sub)
}

fn isdu_write_request(index: u8, sub: u8, data: &[u8]) -> Vec<u8> {
    let mut r = if 4 + data.len() <= 15 {
        vec![0x20 | (4 + data.len() as u8), index, sub]
    } else {
        vec![0x21, 5 + data.len() as u8, index, sub]
    };
    r.extend_from_slice(data);
    let c = r.iter().fold(0u8, |a, b| a ^ b);
    r.push(c);
    r
}

/// The data of a read response (+).
fn read_data(rsp: &(u8, Vec<u8>)) -> Vec<u8> {
    assert_eq!(rsp.0 >> 4, 0xD, "read response (+)");
    rsp.1.clone()
}

#[test]
fn test_min_cycle_time() {
    let mut s = Stack::new(Mode::Startup);
    let min_cycle_time = CycleTime::from_bits(s.read_page(0x02));
    let expected = min_cycle_time_parameter();
    assert_eq!(expected.time_base, min_cycle_time.time_base, "Min cycle time time_base not matching");
    assert_eq!(expected.multiplier, min_cycle_time.multiplier, "Min cycle time multiplier not matching");
}

#[test]
fn startup_reads_correct_min_cycle_time() {
    let mut s = Stack::new(Mode::Startup);
    let min_cycle_time = CycleTime::from_bits(s.read_page(0x02));
    assert_eq!(min_cycle_time.time_base, 0b10, "MinCycleTime time_base mismatch");
    assert_eq!(min_cycle_time.multiplier, 0b000001, "MinCycleTime multiplier mismatch");
}

#[test]
fn test_m_sequence_capability() {
    let mut s = Stack::new(Mode::Startup);
    let cap = MsequenceCapability::from_bits(s.read_page(0x03));
    let expected = m_sequence_capability_parameter();
    assert_eq!(expected.preoperate_m_sequence, cap.preoperate_m_sequence, "M-sequenceCapability Pre operate msequnce is not matching");
    assert_eq!(expected.operate_m_sequence, cap.operate_m_sequence, "M-sequenceCapability Operate msequnce is not matching");
    assert_eq!(expected.isdu, cap.isdu, "M-sequenceCapability ISDU is not matching");
}

#[test]
fn test_revision_id() {
    let mut s = Stack::new(Mode::Startup);
    let rev = RevisionId::from_bits(s.read_page(0x04));
    let expected = revision_id_parameter();
    assert_eq!(expected.major_rev, rev.major_rev, "RevisionID major rev is not matching");
    assert_eq!(expected.minor_rev, rev.minor_rev, "RevisionID minor rev is not matching");
}

#[test]
fn test_process_data_in() {
    let mut s = Stack::new(Mode::Startup);
    let pd_in = ProcessDataIn::from_bits(s.read_page(0x05));
    let expected = pd_in_parameter();
    assert_eq!(expected.byte, pd_in.byte, "ProcessDataIn byte is not matching");
    assert_eq!(expected.sio, pd_in.sio, "ProcessDataIn sio is not matching");
    assert_eq!(expected.length, pd_in.length, "ProcessDataIn length is not matching");
}

#[test]
fn test_process_data_out() {
    let mut s = Stack::new(Mode::Startup);
    let pd_out = ProcessDataOut::from_bits(s.read_page(0x06));
    let expected = pd_out_parameter();
    assert_eq!(expected.byte, pd_out.byte, "ProcessDataOut byte is not matching");
    assert_eq!(expected.length, pd_out.length, "ProcessDataOut length is not matching");
}

#[test]
fn test_vendor_id_1() {
    let mut s = Stack::new(Mode::Startup);
    assert_eq!(vendor_id_1(), s.read_page(0x07), "VendorID1 is not matching");
}

#[test]
fn test_vendor_id_2() {
    let mut s = Stack::new(Mode::Startup);
    assert_eq!(vendor_id_2(), s.read_page(0x08), "VendorID2 is not matching");
}

#[test]
fn preoperate_isdu_single_byte_read_returns_correct_data() {
    let mut s = enter_preoperate();
    let data = read_data(&s.isdu(&isdu_read_request(0x00, Some(0x09))));
    assert_eq!(data.len(), 1, "Expected exactly 1 data byte");
    assert_eq!(data[0], device_id_1(), "DeviceID1 value mismatch in Preoperate");
}

#[test]
fn preoperate_isdu_multi_byte_read_returns_correct_data() {
    let mut s = enter_preoperate();
    let data = read_data(&s.isdu(&isdu_read_request(0x10, None)));
    assert_eq!(data.as_slice(), b"IOLinke", "VendorName mismatch in Preoperate");
}

#[test]
fn preoperate_isdu_write_succeeds() {
    let mut s = enter_preoperate();
    let rsp = s.isdu(&isdu_write_request(0x00, 0x09, &[0x42]));
    assert_eq!(rsp.0, 0x52, "ISDU write failed in Preoperate");
}

#[test]
fn operate_isdu_single_byte_read_returns_correct_data() {
    let mut s = enter_operate();
    let data = read_data(&s.isdu(&isdu_read_request(0x00, Some(0x09))));
    assert_eq!(data.len(), 1, "Expected exactly 1 data byte");
    assert_eq!(data[0], device_id_1(), "DeviceID1 value mismatch in Operate");
}

#[test]
fn operate_isdu_multi_byte_read_returns_correct_data() {
    let mut s = enter_operate();
    let data = read_data(&s.isdu(&isdu_read_request(0x12, None)));
    assert_eq!(data.as_slice(), b"IOLinke Stack", "ProductName mismatch in Operate");
}

#[test]
fn operate_isdu_write_succeeds() {
    let mut s = enter_operate();
    let rsp = s.isdu(&isdu_write_request(0x00, 0x09, &[0x42]));
    assert_eq!(rsp.0, 0x52, "ISDU write failed in Operate");
}

fn read_vendor_name(s: &mut Stack) -> Vec<u8> {
    read_data(&s.isdu(&isdu_read_request(0x10, Some(0x00))))
}

fn loop_test(s: &mut Stack) {
    let index_list_data = [
        0x00, 0x01, 0x02, 0x03, 0x04, 0x05, 0x06, 0x07, 0x08, 0x09, 0x0A, 0x0B, 0x0C, 0x0D, 0x0E,
        0x0F, 0x10, 0x11, 0x12, 0x13, 0x14, 0x15, 0x16, 0x17, 0x18, 0x19, 0x1A, 0x1B, 0x1C, 0x1D,
    ];
    let rsp = s.isdu(&isdu_write_request(0x03, 0x05, &index_list_data));
    assert_eq!(rsp.0, 0x52, "Test isdu sequence failed");
    let result = read_data(&s.isdu(&isdu_read_request(0x03, Some(0x05))));
    assert!(index_list_data.len() == result.len(), "ISDU data length not matching");
    assert!(index_list_data == result.as_slice(), "ISDU data not matching");
}

#[test]
fn test_read_isdu_read_vendor_name() {
    let mut s = enter_preoperate();
    let cap = MsequenceCapability::from_bits(s.read_page(0x03));
    assert!(cap.isdu);
    let vendor_name = read_vendor_name(&mut s);
    assert!(vendor_name.len() == "IOLinke".len(), "ISDU data length not matching");
    assert!(vendor_name.as_slice() == b"IOLinke", "ISDU data not matching");
}

#[test]
fn test_write_data_storage_index_and_read_back() {
    let mut s = enter_preoperate();
    let vendor_name = read_vendor_name(&mut s);
    assert!(vendor_name.as_slice() == b"IOLinke", "ISDU data not matching");
    loop_test(&mut s);
    s.change_operation_mode(Mode::Operate);
    let vendor_name = read_vendor_name(&mut s);
    assert!(vendor_name.as_slice() == b"IOLinke", "ISDU data not matching");
    loop_test(&mut s);
}

/// The reads of STARTUP, each checked against the configuration, then the
/// MasterIdent command.
fn startup_sequence(s: &mut Stack) -> Result<(), String> {
    let min_cycle_time = CycleTime::from_bits(s.read_page(0x02));
    let expected = min_cycle_time_parameter();
    assert!(expected.time_base == min_cycle_time.time_base, "Min cycle time time_base not matching");
    assert!(expected.multiplier == min_cycle_time.multiplier, "Min cycle time multiplier not matching");
    let cap = MsequenceCapability::from_bits(s.read_page(0x03));
    let expected = m_sequence_capability_parameter();
    assert!(expected.preoperate_m_sequence == cap.preoperate_m_sequence, "M-sequenceCapability Pre operate msequnce is not matching");
    assert!(expected.operate_m_sequence == cap.operate_m_sequence, "M-sequenceCapability Operate msequnce is not matching");
    assert!(expected.isdu == cap.isdu, "M-sequenceCapability ISDU is not matching");
    let rev = RevisionId::from_bits(s.read_page(0x04));
    let expected = revision_id_parameter();
    assert!(expected.major_rev == rev.major_rev, "RevisionID major rev is not matching");
    assert!(expected.minor_rev == rev.minor_rev, "RevisionID minor rev is not matching");
    let pd_in = ProcessDataIn::from_bits(s.read_page(0x05));
    let expected = pd_in_parameter();
    assert!(expected.byte == pd_in.byte, "ProcessDataIn byte is not matching");
    assert!(expected.sio == pd_in.sio, "ProcessDataIn sio is not matching");
    assert!(expected.length == pd_in.length, "ProcessDataIn length is not matching");
    let pd_out = ProcessDataOut::from_bits(s.read_page(0x06));
    let expected = pd_out_parameter();
    assert!(expected.byte == pd_out.byte, "ProcessDataOut byte is not matching");
    assert!(expected.length == pd_out.length, "ProcessDataOut length is not matching");
    assert!(vendor_id_1() == s.read_page(0x07), "VendorID1 is not matching");
    assert!(vendor_id_2() == s.read_page(0x08), "VendorID2 is not matching");
    let is_master_ident_written = s.write_master_command(MCMD_MASTER_IDENT);
    assert!(is_master_ident_written, "Failed to write master ident");
    Ok(())
}

/// The M-sequence capability read in PREOPERATE.
fn preop_sequence(s: &mut Stack) -> Result<MsequenceCapability, String> {
    Ok(MsequenceCapability::from_bits(s.read_page(0x03)))
}

#[test]
fn startup_to_preoperate_transition_succeeds() {
    let mut s = Stack::new(Mode::Startup);
    let result = startup_sequence(&mut s).and_then(|_| {
        s.change_operation_mode(Mode::PreOperate);
        preop_sequence(&mut s).map(|_| ())
    });
    assert!(result.is_ok(), "Startup → PreOperate transition failed: {result:?}");
}

#[test]
fn test_write_master_ident() {
    let mut s = Stack::new(Mode::Startup);
    let result = startup_sequence(&mut s);
    assert!(result.is_ok(), "Test startup sequence failed");
    s.change_operation_mode(Mode::PreOperate);
    let is_master_ident_written = s.write_master_command(MCMD_MASTER_IDENT);
    assert!(is_master_ident_written, "Failed to write master ident");
}

#[test]
fn test_write_master_pre_operate() {
    let mut s = Stack::new(Mode::Startup);
    let result = startup_sequence(&mut s);
    assert!(result.is_ok(), "Test startup sequence failed");
    let is_master_pre_op_written = s.write_master_command(MCMD_DEVICE_PREOPERATE);
    assert!(is_master_pre_op_written, "Failed to write master pre op");
}

#[test]
fn mock_test_device_operations() {
    let mut s = Stack::new(Mode::Startup);
    let result = startup_sequence(&mut s);
    assert!(result.is_ok(), "Test startup sequence failed");
    s.change_operation_mode(Mode::PreOperate);
    let result = preop_sequence(&mut s);
    assert!(result.is_ok(), "Test preop sequence failed");
    let _m_sequence_capability = result.unwrap();
    s.change_operation_mode(Mode::Operate);
    let is_master_pre_op_written = s.write_master_command(MCMD_PROCESS_DATA_OUTPUT_OPERATE);
    assert!(is_master_pre_op_written, "Failed to write master process data output operate");
    let m_sequence_capability = MsequenceCapability::from_bits(s.read_page(0x03));
    assert!(m_sequence_capability.isdu, "Test m sequence capability failed");
}

/// A device brought through STARTUP into PREOPERATE.
fn enter_preoperate() -> Stack {
    let mut s = Stack::new(Mode::Startup);
    startup_sequence(&mut s).expect("failed to enter Startup");
    s.change_operation_mode(Mode::PreOperate);
    preop_sequence(&mut s).expect("failed to enter Preoperate");
    s
}

/// A device brought through STARTUP and PREOPERATE into OPERATE.
fn enter_operate() -> Stack {
    let mut s = enter_preoperate();
    s.change_operation_mode(Mode::Operate);
    s
}
