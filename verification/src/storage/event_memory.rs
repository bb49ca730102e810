//! Event memory of the device (7.3.8.1, Table 58): up to 19 octets of
//! event details, which the master reads while the memory is frozen.
use vstd::prelude::*;
use crate::bounded::{
    event_memory_as_slice, event_memory_bytes, event_memory_clear, event_memory_new,
    event_memory_push,
};
use crate::errors::{IoLinkError, IoLinkResult};
use crate::event::{entries_bytes, entries_bytes_len, entry_bytes, EventEntry};

verus! {

/// Capacity of the event memory in octets.
pub const MAX_EVENT_MEMORY_SIZE: usize = 19;

/// The octets held after adding events one after another: each event that
/// still fits is appended, and the first one that does not fit ends the
/// adding; `true` where every event fitted.
pub open spec fn spec_add_events(mem: Seq<u8>, entries: Seq<EventEntry>) -> (Seq<u8>, bool) {
    let room = (MAX_EVENT_MEMORY_SIZE - mem.len()) / 3;
    if mem.len() + 3 * entries.len() <= MAX_EVENT_MEMORY_SIZE {
        (mem + entries_bytes(entries), true)
    } else {
        (mem + entries_bytes(entries.take(room)), false)
    }
}

/// The event memory.
pub struct EventMemory {
    events: heapless::Vec<u8, 19>,
    read_only: bool,
}

impl EventMemory {
    /// The octets held.
    pub closed spec fn spec_events(&self) -> Seq<u8> {
        event_memory_bytes(self.events)
    }

    /// The memory is frozen while the master reads it.
    pub closed spec fn spec_read_only(&self) -> bool {
        self.read_only
    }

    /// The memory holds no more than its capacity.
    pub open spec fn wf(&self) -> bool {
        self.spec_events().len() <= MAX_EVENT_MEMORY_SIZE
    }

    /// An empty, writable memory.
    pub fn new() -> (r: EventMemory)
        ensures
            r.spec_events() == Seq::<u8>::empty(),
            !r.spec_read_only(),
            r.wf(),
    {
        EventMemory { events: event_memory_new(), read_only: false }
    }

    /// Appends the octets of events: refused while frozen; else each event
    /// that fits is appended and the first that does not ends with
    /// `EventMemoryFull`.
    pub fn add_event_details(&mut self, entries: &[EventEntry]) -> (r: IoLinkResult<()>)
        requires
            old(self).wf(),
        ensures
            final(self).wf(),
            final(self).spec_read_only() == old(self).spec_read_only(),
            old(self).spec_read_only() ==> r == Err::<(), IoLinkError>(IoLinkError::ReadOnlyError)
                && final(self).spec_events() == old(self).spec_events(),
            !old(self).spec_read_only() ==> {
                let (m, ok) = spec_add_events(old(self).spec_events(), entries@);
                &&& final(self).spec_events() == m
                &&& (ok ==> r is Ok)
                &&& (!ok ==> r == Err::<(), IoLinkError>(IoLinkError::EventMemoryFull))
            },
    {
        if self.read_only {
            return Err(IoLinkError::ReadOnlyError);
        }
        let ghost mem0 = self.spec_events();
        let mut i: usize = 0;
        while i < entries.len()
            invariant
                !self.read_only,
                !old(self).read_only,
                mem0 == old(self).spec_events(),
                i <= entries@.len(),
                self.spec_events().len() == mem0.len() + 3 * i,
                mem0.len() <= MAX_EVENT_MEMORY_SIZE,
                mem0.len() + 3 * i <= MAX_EVENT_MEMORY_SIZE,
                self.spec_events() == mem0 + entries_bytes(entries@.take(i as int)),
            decreases entries@.len() - i,
        {
            proof {
                entries_bytes_len(entries@.take(i as int));
            }
            let bytes = entries[i].to_bytes();
            if event_memory_as_slice(&self.events).len() + 3 > MAX_EVENT_MEMORY_SIZE {
                proof {
                    assert(!(mem0.len() + 3 * entries@.len() <= MAX_EVENT_MEMORY_SIZE));
                    assert((MAX_EVENT_MEMORY_SIZE - mem0.len()) / 3 == i as int) by (
                    nonlinear_arith)
                        requires
                            mem0.len() + 3 * i <= 19,
                            mem0.len() + 3 * i + 3 > 19,
                    ;
                    assert(spec_add_events(mem0, entries@).0 == self.spec_events());
                }
                return Err(IoLinkError::EventMemoryFull);
            }
            let _ = event_memory_push(&mut self.events, bytes[0]);
            let _ = event_memory_push(&mut self.events, bytes[1]);
            let _ = event_memory_push(&mut self.events, bytes[2]);
            proof {
                let t = entries@.take(i as int + 1);
                assert(t.drop_last() =~= entries@.take(i as int));
                assert(t.last() == entries@[i as int]);
                assert(bytes@ == entry_bytes(entries@[i as int]));
                assert(self.spec_events() =~= mem0 + entries_bytes(t));
                entries_bytes_len(t);
            }
            i = i + 1;
        }
        proof {
            assert(entries@.take(entries@.len() as int) =~= entries@);
        }
        Ok(())
    }

    /// Removes every event, unless frozen.
    pub fn clear_all_event(&mut self) -> (r: IoLinkResult<()>)
        ensures
            final(self).spec_read_only() == old(self).spec_read_only(),
            old(self).spec_read_only() ==> r == Err::<(), IoLinkError>(IoLinkError::ReadOnlyError)
                && final(self).spec_events() == old(self).spec_events(),
            !old(self).spec_read_only() ==> r is Ok && final(self).spec_events() == Seq::<
                u8,
            >::empty(),
    {
        if self.read_only {
            return Err(IoLinkError::ReadOnlyError);
        }
        event_memory_clear(&mut self.events);
        Ok(())
    }

    /// The octets at `address..address + length`: `InvalidAddress` beyond
    /// the capacity, `InvalidEvent` when the memory is empty, `InvalidData`
    /// beyond what it holds.
    pub fn get_event_detail(&self, address: usize, length: usize) -> (r: IoLinkResult<&[u8]>)
        requires
            self.wf(),
            address + length <= usize::MAX,
        ensures
            address + length > MAX_EVENT_MEMORY_SIZE ==> r == Err::<&[u8], IoLinkError>(
                IoLinkError::InvalidAddress,
            ),
            address + length <= MAX_EVENT_MEMORY_SIZE && self.spec_events().len() == 0 ==> r
                == Err::<&[u8], IoLinkError>(IoLinkError::InvalidEvent),
            address + length <= MAX_EVENT_MEMORY_SIZE && self.spec_events().len() > 0 && address
                + length > self.spec_events().len() ==> r == Err::<&[u8], IoLinkError>(
                IoLinkError::InvalidData,
            ),
            self.spec_events().len() > 0 && address + length <= self.spec_events().len() ==> (
            r matches Ok(s) && s@ == self.spec_events().subrange(address as int, address + length)),
    {
        if address + length > MAX_EVENT_MEMORY_SIZE {
            return Err(IoLinkError::InvalidAddress);
        }
        let s = event_memory_as_slice(&self.events);
        if s.len() == 0 {
            return Err(IoLinkError::InvalidEvent);
        }
        if address + length > s.len() {
            return Err(IoLinkError::InvalidData);
        }
        Ok(vstd::slice::slice_subrange(s, address, address + length))
    }

    /// Freezes or releases the memory.
    pub fn set_read_only(&mut self, read_only: bool)
        ensures
            final(self).spec_read_only() == read_only,
            final(self).spec_events() == old(self).spec_events(),
    {
        self.read_only = read_only;
    }
}

/// Events added to an empty memory, as many as fit, are held as their
/// octets one after another.
pub proof fn add_to_empty_holds_entries(entries: Seq<EventEntry>)
    requires
        3 * entries.len() <= MAX_EVENT_MEMORY_SIZE,
    ensures
        spec_add_events(Seq::empty(), entries) == (entries_bytes(entries), true),
        entries_bytes(entries).len() == 3 * entries.len(),
{
    entries_bytes_len(entries);
    assert(Seq::<u8>::empty() + entries_bytes(entries) =~= entries_bytes(entries));
}

/// A frozen or full memory keeps what it holds: adding to a memory with no
/// room for one more event adds nothing.
pub proof fn full_memory_adds_nothing(mem: Seq<u8>, entries: Seq<EventEntry>)
    requires
        mem.len() + 3 > MAX_EVENT_MEMORY_SIZE,
        mem.len() <= MAX_EVENT_MEMORY_SIZE,
        entries.len() > 0,
    ensures
        spec_add_events(mem, entries) == (mem, false),
{
    assert((MAX_EVENT_MEMORY_SIZE - mem.len()) / 3 == 0);
    assert(entries.take(0) =~= Seq::<EventEntry>::empty());
    assert(mem + entries_bytes(Seq::<EventEntry>::empty()) =~= mem);
}

} // verus!
