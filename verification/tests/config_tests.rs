use iolinke::dev_config::on_req_data::{max_possible_od_length, operate, pre_operate};
use iolinke::dev_config::process_data::{
    config_pd_in_length, config_pd_in_length_in_bytes, config_pd_out_length,
    config_pd_out_length_in_bytes, length_in_bytes, m_sequence_capability_parameter,
    pd_in_parameter, pd_length_code_of, pd_out_parameter, ProcessDataLength,
};
use iolinke::dev_config::timings::{min_cycle_time_parameter, multiplier, time_base};
use iolinke::dev_config::vendor_specifics::{
    device_id_1, device_id_2, device_id_3, function_id_1, function_id_2, product_name,
    product_name_bytes, revision_id, revision_id_byte, revision_id_parameter, vendor_id_1,
    vendor_id_2, vendor_name, vendor_name_bytes,
};
use iolinke::page1::CycleTime;

#[test]
fn od_lengths_of_the_modes() {
    assert_eq!(pre_operate::od_length(), 2);
    assert_eq!(operate::od_length(), 32);
    assert_eq!(max_possible_od_length(), 32);
}

#[test]
fn pd_lengths_of_the_configuration() {
    assert_eq!(config_pd_in_length(), ProcessDataLength::Octet(3));
    assert_eq!(config_pd_out_length(), ProcessDataLength::Octet(4));
    assert_eq!(config_pd_in_length_in_bytes(), 3);
    assert_eq!(config_pd_out_length_in_bytes(), 4);
    assert_eq!(length_in_bytes(ProcessDataLength::Bit(9)), 2);
    assert_eq!(length_in_bytes(ProcessDataLength::Bit(0)), 0);
    assert_eq!(length_in_bytes(ProcessDataLength::Octet(32)), 32);
}

#[test]
fn pd_length_codes() {
    assert_eq!(pd_length_code_of(ProcessDataLength::Octet(3)), (true, 2));
    assert_eq!(pd_length_code_of(ProcessDataLength::Octet(32)), (true, 31));
    assert_eq!(pd_length_code_of(ProcessDataLength::Octet(2)), (false, 16));
    assert_eq!(pd_length_code_of(ProcessDataLength::Bit(5)), (false, 5));
    assert_eq!(pd_in_parameter().into_bits(), 0x82);
    assert_eq!(pd_out_parameter().into_bits(), 0x83);
    assert_eq!(m_sequence_capability_parameter().into_bits(), 0x1F);
}

#[test]
fn min_cycle_time_encoding() {
    assert_eq!(min_cycle_time_parameter(), CycleTime { multiplier: 1, time_base: 2 });
    assert_eq!(min_cycle_time_parameter().into_bits(), 0x81);
    assert_eq!((time_base(4), multiplier(4)), (0, 4));
    assert_eq!((time_base(63), multiplier(63)), (0, 63));
    assert_eq!((time_base(64), multiplier(64)), (1, 0));
    assert_eq!((time_base(66), multiplier(66)), (1, 1));
    assert_eq!((time_base(316), multiplier(316)), (1, 63));
    assert_eq!((time_base(320), multiplier(320)), (2, 0));
    assert_eq!((time_base(1328), multiplier(1328)), (2, 63));
}

#[test]
fn vendor_identification() {
    assert_eq!(revision_id_byte(0x09, 0x04), 0x94);
    assert_eq!(revision_id(), 0x94);
    let r = revision_id_parameter();
    assert_eq!((r.major_rev, r.minor_rev), (9, 4));
    assert_eq!((vendor_id_1(), vendor_id_2()), (0x01, 0x02));
    assert_eq!((device_id_1(), device_id_2(), device_id_3()), (0x01, 0x02, 0x03));
    assert_eq!((function_id_1(), function_id_2()), (0x01, 0x01));
    assert_eq!(vendor_name(), "IOLinke");
    assert_eq!(product_name(), "IOLinke Stack");
    assert_eq!(vendor_name_bytes(), b"IOLinke".to_vec());
    assert_eq!(product_name_bytes(), b"IOLinke Stack".to_vec());
}
