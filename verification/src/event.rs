//! Events of the device (A.6): the EventQualifier octet, event entries and
//! their three-octet form in the event memory.
use vstd::prelude::*;

verus! {

/// MODE of an event (EventQualifier bits 6-7).
#[derive(Debug, Clone, Copy, PartialEq, Eq, Structural)]
pub enum EventMode {
    /// Single-shot event.
    SingleShot,
    /// Event disappears.
    Disappears,
    /// Event appears.
    Appears,
}

/// TYPE of an event (EventQualifier bits 4-5).
#[derive(Debug, Clone, Copy, PartialEq, Eq, Structural)]
pub enum EventType {
    /// Notification.
    Notification,
    /// Warning.
    Warning,
    /// Error.
    Error,
}

/// SOURCE of an event (EventQualifier bit 3).
#[derive(Debug, Clone, Copy, PartialEq, Eq, Structural)]
pub enum EventSource {
    /// The device (remote).
    Device,
    /// The master (local).
    Master,
}

/// INSTANCE of an event (EventQualifier bits 0-2).
#[derive(Debug, Clone, Copy, PartialEq, Eq, Structural)]
pub enum EventInstance {
    /// Unknown instance.
    Unknown,
    /// Physical layer.
    PhysicalLayer,
    /// Data link layer.
    DataLinkLayer,
    /// Application layer.
    ApplicationLayer,
    /// Application.
    Application,
    /// The system as a whole.
    System,
}

/// The EventQualifier of an event.
#[derive(Debug, Clone, Copy, PartialEq, Eq, Structural)]
pub struct EventQualifier {
    /// MODE.
    pub eq_mode: EventMode,
    /// TYPE.
    pub eq_type: EventType,
    /// SOURCE.
    pub eq_source: EventSource,
    /// INSTANCE.
    pub eq_instance: EventInstance,
}

/// Code of a MODE.
pub open spec fn mode_code(m: EventMode) -> u8 {
    match m {
        EventMode::SingleShot => 1,
        EventMode::Disappears => 2,
        EventMode::Appears => 3,
    }
}

/// Code of a TYPE.
pub open spec fn type_code(t: EventType) -> u8 {
    match t {
        EventType::Notification => 1,
        EventType::Warning => 2,
        EventType::Error => 3,
    }
}

/// Code of a SOURCE.
pub open spec fn source_code(s: EventSource) -> u8 {
    match s {
        EventSource::Device => 0,
        EventSource::Master => 1,
    }
}

/// Code of an INSTANCE.
pub open spec fn instance_code(i: EventInstance) -> u8 {
    match i {
        EventInstance::Unknown => 0,
        EventInstance::PhysicalLayer => 1,
        EventInstance::DataLinkLayer => 2,
        EventInstance::ApplicationLayer => 3,
        EventInstance::Application => 4,
        EventInstance::System => 5,
    }
}

/// The EventQualifier octet: MODE in bits 6-7, TYPE in bits 4-5, SOURCE in
/// bit 3, INSTANCE in bits 0-2.
pub open spec fn qualifier_byte(q: EventQualifier) -> int {
    mode_code(q.eq_mode) * 64 + type_code(q.eq_type) * 16 + source_code(q.eq_source) * 8
        + instance_code(q.eq_instance)
}

impl EventQualifier {
    /// Encodes the qualifier as one octet.
    pub fn into_bits(&self) -> (r: u8)
        ensures
            r == qualifier_byte(*self),
    {
        let m: u8 = match self.eq_mode {
            EventMode::SingleShot => 1,
            EventMode::Disappears => 2,
            EventMode::Appears => 3,
        };
        let t: u8 = match self.eq_type {
            EventType::Notification => 1,
            EventType::Warning => 2,
            EventType::Error => 3,
        };
        let s: u8 = match self.eq_source {
            EventSource::Device => 0,
            EventSource::Master => 1,
        };
        let i: u8 = match self.eq_instance {
            EventInstance::Unknown => 0,
            EventInstance::PhysicalLayer => 1,
            EventInstance::DataLinkLayer => 2,
            EventInstance::ApplicationLayer => 3,
            EventInstance::Application => 4,
            EventInstance::System => 5,
        };
        m * 64 + t * 16 + s * 8 + i
    }
}

/// One event: its qualifier and its 16-bit EventCode.
#[derive(Debug, Clone, Copy, PartialEq, Eq, Structural)]
pub struct EventEntry {
    /// EventQualifier.
    pub event_qualifier: EventQualifier,
    /// EventCode.
    pub event_code: u16,
}

/// The three octets of an event in the event memory: the qualifier, then
/// the EventCode, most significant octet first.
pub open spec fn entry_bytes(e: EventEntry) -> Seq<u8> {
    seq![
        qualifier_byte(e.event_qualifier) as u8,
        (e.event_code / 256) as u8,
        (e.event_code % 256) as u8,
    ]
}

/// The octets of several events, one after another.
pub open spec fn entries_bytes(es: Seq<EventEntry>) -> Seq<u8>
    decreases es.len(),
{
    if es.len() == 0 {
        Seq::empty()
    } else {
        entries_bytes(es.drop_last()) + entry_bytes(es.last())
    }
}

/// Every event occupies three octets.
pub proof fn entries_bytes_len(es: Seq<EventEntry>)
    ensures
        entries_bytes(es).len() == 3 * es.len(),
    decreases es.len(),
{
    if es.len() > 0 {
        entries_bytes_len(es.drop_last());
    }
}

impl EventEntry {
    /// The three octets of the event.
    pub fn to_bytes(&self) -> (r: [u8; 3])
        ensures
            r@ == entry_bytes(*self),
    {
        let q = self.event_qualifier.into_bits();
        let hi: u8 = (self.event_code / 256) as u8;
        let lo: u8 = (self.event_code % 256) as u8;
        let r = [q, hi, lo];
        assert(r@ =~= entry_bytes(*self));
        r
    }
}

/// Activation of the event handler of the data link layer.
#[derive(Debug, Clone, Copy, PartialEq, Eq, Structural)]
pub enum EhConfState {
    /// Active.
    Active,
    /// Inactive.
    Inactive,
}

/// Every EventQualifier fits one octet.
pub proof fn qualifier_fits_octet(q: EventQualifier)
    ensures
        0 <= qualifier_byte(q) <= 255,
{
}

} // verus!
