use iolinke::errors::IoLinkError;
use iolinke::event::{EventEntry, EventInstance, EventMode, EventQualifier, EventSource, EventType};
use iolinke::storage::event_memory::EventMemory;

fn entry(code: u16) -> EventEntry {
    EventEntry {
        event_qualifier: EventQualifier {
            eq_mode: EventMode::Appears,
            eq_type: EventType::Error,
            eq_source: EventSource::Device,
            eq_instance: EventInstance::Application,
        },
        event_code: code,
    }
}

#[test]
fn event_entry_octets() {
    assert_eq!(entry(0x1234).to_bytes(), [0xF4, 0x12, 0x34]);
    let q = EventQualifier {
        eq_mode: EventMode::SingleShot,
        eq_type: EventType::Notification,
        eq_source: EventSource::Master,
        eq_instance: EventInstance::Unknown,
    };
    assert_eq!(q.into_bits(), 0x58);
}

#[test]
fn events_are_kept_and_read_back() {
    let mut mem = EventMemory::new();
    assert_eq!(mem.get_event_detail(0, 3), Err(IoLinkError::InvalidEvent));
    assert_eq!(mem.add_event_details(&[entry(0x1000), entry(0xFF91)]), Ok(()));
    assert_eq!(mem.get_event_detail(0, 6).unwrap(), &[0xF4, 0x10, 0x00, 0xF4, 0xFF, 0x91]);
    assert_eq!(mem.get_event_detail(3, 3).unwrap(), &[0xF4, 0xFF, 0x91]);
    assert_eq!(mem.get_event_detail(3, 6), Err(IoLinkError::InvalidData));
    assert_eq!(mem.get_event_detail(18, 2), Err(IoLinkError::InvalidAddress));
}

#[test]
fn full_memory_refuses_more_events() {
    let mut mem = EventMemory::new();
    let many: Vec<EventEntry> = (0..7).map(|i| entry(i)).collect();
    assert_eq!(mem.add_event_details(&many), Err(IoLinkError::EventMemoryFull));
    // six events (18 octets) fitted
    assert_eq!(mem.get_event_detail(15, 3).unwrap(), &[0xF4, 0x00, 0x05]);
    assert_eq!(mem.get_event_detail(18, 1), Err(IoLinkError::InvalidData));
}

#[test]
fn frozen_memory_keeps_its_events() {
    let mut mem = EventMemory::new();
    mem.add_event_details(&[entry(1)]).unwrap();
    mem.set_read_only(true);
    assert_eq!(mem.add_event_details(&[entry(2)]), Err(IoLinkError::ReadOnlyError));
    assert_eq!(mem.clear_all_event(), Err(IoLinkError::ReadOnlyError));
    assert_eq!(mem.get_event_detail(0, 3).unwrap(), &[0xF4, 0x00, 0x01]);
    mem.set_read_only(false);
    assert_eq!(mem.clear_all_event(), Ok(()));
    assert_eq!(mem.get_event_detail(0, 3), Err(IoLinkError::InvalidEvent));
}
