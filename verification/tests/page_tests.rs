use iolinke::page1::{
    CycleTime, DeviceCom, DeviceIdent, MsequenceCapability, ProcessDataIn, ProcessDataOut,
    RevisionId,
};
use iolinke::protocol::{SioMode, TransmissionRate};

#[test]
fn cycle_time_octets() {
    let c = CycleTime { multiplier: 1, time_base: 2 };
    assert_eq!(c.into_bits(), 0x81);
    assert_eq!(CycleTime::from_bits(0x81), c);
    assert_eq!(CycleTime::from_bits(0xFF), CycleTime { multiplier: 63, time_base: 3 });
    for b in 0..=255u8 {
        assert_eq!(CycleTime::from_bits(b).into_bits(), b);
    }
}

#[test]
fn msequence_capability_octets() {
    let m = MsequenceCapability { isdu: true, operate_m_sequence: 7, preoperate_m_sequence: 1 };
    assert_eq!(m.into_bits(), 0x1F);
    assert_eq!(MsequenceCapability::from_bits(0x1F), m);
    assert_eq!(MsequenceCapability::from_bits(0xC0).into_bits(), 0x00);
}

#[test]
fn revision_and_process_data_octets() {
    let r = RevisionId { minor_rev: 4, major_rev: 9 };
    assert_eq!(r.into_bits(), 0x94);
    assert_eq!(RevisionId::from_bits(0x11), RevisionId { minor_rev: 1, major_rev: 1 });
    let p = ProcessDataIn { byte: true, sio: true, length: 2 };
    assert_eq!(p.into_bits(), 0xC2);
    assert_eq!(ProcessDataIn::from_bits(0xC2), p);
    assert_eq!(ProcessDataIn::from_bits(0x20).into_bits(), 0x00);
    let o = ProcessDataOut { byte: true, length: 3 };
    assert_eq!(o.into_bits(), 0x83);
    assert_eq!(ProcessDataOut::from_bits(0xE3), o);
}

#[test]
fn default_parameter_sets() {
    let c = DeviceCom::new();
    assert_eq!(c.suppported_sio_mode, SioMode::Inactive);
    assert_eq!(c.transmission_rate, TransmissionRate::Com1);
    assert_eq!(c.min_cycle_time, CycleTime::new());
    let i = DeviceIdent::new();
    assert_eq!(i.vendor_id, [0, 0]);
    assert_eq!(i.device_id, [0, 0, 0]);
    assert_eq!(i.function_id, [0, 0]);
}
