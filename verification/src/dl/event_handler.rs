//! Event handler of the data link layer (7.3.8): keeps the events of the
//! device in the event memory, signals them with the Event flag and lets
//! the master read them while the memory is frozen.
use vstd::prelude::*;
use crate::dl::od_handler::OdIndData;
use crate::errors::{IoLinkError, IoLinkResult};
use crate::event::{EhConfState, EventEntry};
use crate::storage::event_memory::{spec_add_events, EventMemory, MAX_EVENT_MEMORY_SIZE};
use crate::dl::message_handler::MessageHandler;
use crate::protocol::{ComChannel, RwDirection};

verus! {

/// States of the event handler.
#[derive(Debug, Clone, Copy, PartialEq, Eq, Structural)]
pub enum DlEventState {
    /// Inactive.
    Inactive,
    /// Idle.
    Idle,
    /// The event memory is frozen while the master reads it.
    FreezeEventMemory,
}

/// Transitions of the event handler with work left for `poll`.
#[derive(Debug, Clone, Copy, PartialEq, Eq, Structural)]
pub enum DlEventTransition {
    /// Nothing to do.
    Tn,
    /// Activated.
    T1,
    /// Events added.
    T2,
    /// Events signalled: freeze the memory.
    T3,
    /// The master reads event memory: address and length.
    T4(u8, u8),
    /// The master confirmed the events.
    T5,
    /// The master reads event memory outside a freeze: address and length.
    T6(u8, u8),
    /// Deactivated.
    T7,
    /// Deactivated while frozen.
    T8,
}

/// Events of the event handler.
#[derive(Debug, Clone, Copy, PartialEq, Eq, Structural)]
pub enum DlEventEvent {
    /// EH_Conf active.
    EhConfActive,
    /// DL_Event: events added.
    DlEvent,
    /// DL_EventTrigger.
    DlEventTrigger,
    /// The master reads event memory: address and length.
    EventRead(u8, u8),
    /// The master confirmed the events.
    EventConf,
    /// EH_Conf inactive.
    EhConfInactive,
}

/// The state machine of the event handler; an event that is not accepted
/// keeps the state and clears the pending transition.
pub open spec fn dl_event_next(s: DlEventState, e: DlEventEvent) -> (DlEventTransition, DlEventState) {
    match (s, e) {
        (DlEventState::Inactive, DlEventEvent::EhConfActive) => (
            DlEventTransition::T1,
            DlEventState::Idle,
        ),
        (DlEventState::Idle, DlEventEvent::DlEvent) => (DlEventTransition::T2, DlEventState::Idle),
        (DlEventState::Idle, DlEventEvent::DlEventTrigger) => (
            DlEventTransition::T3,
            DlEventState::FreezeEventMemory,
        ),
        (DlEventState::FreezeEventMemory, DlEventEvent::EventRead(a, l)) => (
            DlEventTransition::T4(a, l),
            DlEventState::FreezeEventMemory,
        ),
        (DlEventState::FreezeEventMemory, DlEventEvent::EventConf) => (
            DlEventTransition::T5,
            DlEventState::Idle,
        ),
        (DlEventState::Idle, DlEventEvent::EventRead(a, l)) => (
            DlEventTransition::T6(a, l),
            DlEventState::Idle,
        ),
        (DlEventState::Idle, DlEventEvent::EhConfInactive) => (
            DlEventTransition::T7,
            DlEventState::Inactive,
        ),
        (DlEventState::FreezeEventMemory, DlEventEvent::EhConfInactive) => (
            DlEventTransition::T8,
            DlEventState::Inactive,
        ),
        _ => (DlEventTransition::Tn, s),
    }
}

/// The event handler of the data link layer.
pub struct EventHandler {
    state: DlEventState,
    exec_transition: DlEventTransition,
    event_memory: EventMemory,
    active_event_count: u8,
}

impl EventHandler {
    /// The state.
    pub closed spec fn spec_state(&self) -> DlEventState {
        self.state
    }

    /// The pending transition.
    pub closed spec fn spec_transition(&self) -> DlEventTransition {
        self.exec_transition
    }

    /// The octets in the event memory.
    pub closed spec fn spec_events(&self) -> Seq<u8> {
        self.event_memory.spec_events()
    }

    /// The event memory is frozen.
    pub closed spec fn spec_frozen(&self) -> bool {
        self.event_memory.spec_read_only()
    }

    /// The event count of the last DL_Event.
    pub closed spec fn spec_event_count(&self) -> u8 {
        self.active_event_count
    }

    /// The event memory holds no more than its capacity.
    pub closed spec fn wf(&self) -> bool {
        self.event_memory.wf()
    }

    /// Inactive, with an empty, writable event memory.
    pub fn new() -> (r: EventHandler)
        ensures
            r.wf(),
            r.spec_state() == DlEventState::Inactive,
            r.spec_transition() == DlEventTransition::Tn,
            r.spec_events() == Seq::<u8>::empty(),
            !r.spec_frozen(),
            r.spec_event_count() == 0,
    {
        EventHandler {
            state: DlEventState::Inactive,
            exec_transition: DlEventTransition::Tn,
            event_memory: EventMemory::new(),
            active_event_count: 0,
        }
    }

    /// Feeds one event to the state machine.
    fn process_event(&mut self, event: DlEventEvent) -> (r: IoLinkResult<()>)
        requires
            old(self).wf(),
        ensures
            final(self).wf(),
            r is Ok,
            (final(self).spec_transition(), final(self).spec_state()) == dl_event_next(
                old(self).spec_state(),
                event,
            ),
            final(self).spec_events() == old(self).spec_events(),
            final(self).spec_frozen() == old(self).spec_frozen(),
            final(self).spec_event_count() == old(self).spec_event_count(),
    {
        let (t, s) = match (self.state, event) {
            (DlEventState::Inactive, DlEventEvent::EhConfActive) => (
                DlEventTransition::T1,
                DlEventState::Idle,
            ),
            (DlEventState::Idle, DlEventEvent::DlEvent) => (
                DlEventTransition::T2,
                DlEventState::Idle,
            ),
            (DlEventState::Idle, DlEventEvent::DlEventTrigger) => (
                DlEventTransition::T3,
                DlEventState::FreezeEventMemory,
            ),
            (DlEventState::FreezeEventMemory, DlEventEvent::EventRead(a, l)) => (
                DlEventTransition::T4(a, l),
                DlEventState::FreezeEventMemory,
            ),
            (DlEventState::FreezeEventMemory, DlEventEvent::EventConf) => (
                DlEventTransition::T5,
                DlEventState::Idle,
            ),
            (DlEventState::Idle, DlEventEvent::EventRead(a, l)) => (
                DlEventTransition::T6(a, l),
                DlEventState::Idle,
            ),
            (DlEventState::Idle, DlEventEvent::EhConfInactive) => (
                DlEventTransition::T7,
                DlEventState::Inactive,
            ),
            (DlEventState::FreezeEventMemory, DlEventEvent::EhConfInactive) => (
                DlEventTransition::T8,
                DlEventState::Inactive,
            ),
            _ => (DlEventTransition::Tn, self.state),
        };
        self.state = s;
        self.exec_transition = t;
        Ok(())
    }

    /// Answers a read of event memory with its octets at `address`, of
    /// `length` octets; a read beyond what the memory holds is not
    /// answered.
    fn answer_read(&self, address: u8, length: u8, message_handler: &mut MessageHandler) -> (r:
        IoLinkResult<()>)
        requires
            self.wf(),
        ensures
            final(message_handler).same_settings(old(message_handler)),
            final(message_handler).same_rx(old(message_handler)),
            final(message_handler).spec_tx() == old(message_handler).spec_tx(),
            final(message_handler).spec_state() == old(message_handler).spec_state(),
            final(message_handler).spec_transition() == old(message_handler).spec_transition(),
            final(message_handler).spec_event_flag() == old(message_handler).spec_event_flag(),
            final(message_handler).spec_pd_response() == old(message_handler).spec_pd_response(),
            ({
                let ev = self.spec_events();
                if ev.len() > 0 && address + length <= ev.len() {
                    r is Ok && final(message_handler).spec_od_response() == ev.subrange(
                        address as int,
                        address + length,
                    )
                } else {
                    r == Err::<(), IoLinkError>(IoLinkError::InvalidAddress)
                        && final(message_handler).spec_od_response() == old(message_handler).spec_od_response()
                }
            }),
    {
        match self.event_memory.get_event_detail(address as usize, length as usize) {
            Ok(data) => {
                let _ = message_handler.od_rsp(length, data);
                assert(data@.subrange(0, length as int) =~= data@);
                Ok(())
            },
            Err(_) => Err(IoLinkError::InvalidAddress),
        }
    }

    /// Does the work of the pending transition on the event memory and the
    /// message handler; the pending transition is consumed.
    pub fn poll(&mut self, message_handler: &mut MessageHandler) -> (r: IoLinkResult<()>)
        requires
            old(self).wf(),
        ensures
            final(self).wf(),
            r is Ok,
            final(self).spec_transition() == DlEventTransition::Tn,
            final(self).spec_state() == old(self).spec_state(),
            final(self).spec_event_count() == old(self).spec_event_count(),
            final(message_handler).same_settings(old(message_handler)),
            final(message_handler).same_rx(old(message_handler)),
            final(message_handler).spec_tx() == old(message_handler).spec_tx(),
            final(message_handler).spec_state() == old(message_handler).spec_state(),
            final(message_handler).spec_transition() == old(message_handler).spec_transition(),
            final(message_handler).spec_pd_response() == old(message_handler).spec_pd_response(),
            match old(self).spec_transition() {
                DlEventTransition::T3 => {
                    &&& final(self).spec_frozen()
                    &&& final(self).spec_events() == old(self).spec_events()
                    &&& final(message_handler).spec_event_flag()
                    &&& final(message_handler).spec_od_response() == old(message_handler).spec_od_response()
                },
                DlEventTransition::T4(a, l) | DlEventTransition::T6(a, l) => {
                    let ev = old(self).spec_events();
                    &&& final(self).spec_frozen() == old(self).spec_frozen()
                    &&& final(self).spec_events() == ev
                    &&& final(message_handler).spec_event_flag() == old(message_handler).spec_event_flag()
                    &&& (ev.len() > 0 && a + l <= ev.len() ==> final(message_handler).spec_od_response() == ev.subrange(a as int, a + l))
                    &&& (!(ev.len() > 0 && a + l <= ev.len()) ==> final(message_handler).spec_od_response() == old(message_handler).spec_od_response())
                },
                DlEventTransition::T5 => {
                    &&& !final(self).spec_frozen()
                    &&& final(self).spec_events() == Seq::<u8>::empty()
                    &&& !final(message_handler).spec_event_flag()
                    &&& final(message_handler).spec_od_response() == old(message_handler).spec_od_response()
                },
                DlEventTransition::T8 => {
                    &&& !final(self).spec_frozen()
                    &&& final(self).spec_events() == Seq::<u8>::empty()
                    &&& final(message_handler).spec_event_flag() == old(message_handler).spec_event_flag()
                    &&& final(message_handler).spec_od_response() == old(message_handler).spec_od_response()
                },
                _ => {
                    &&& final(self).spec_frozen() == old(self).spec_frozen()
                    &&& final(self).spec_events() == old(self).spec_events()
                    &&& final(message_handler).spec_event_flag() == old(message_handler).spec_event_flag()
                    &&& final(message_handler).spec_od_response() == old(message_handler).spec_od_response()
                },
            },
    {
        let t = self.exec_transition;
        self.exec_transition = DlEventTransition::Tn;
        match t {
            DlEventTransition::T3 => {
                self.event_memory.set_read_only(true);
                message_handler.event_flag(true);
            },
            DlEventTransition::T4(address, length) | DlEventTransition::T6(address, length) => {
                let _ = self.answer_read(address, length, message_handler);
            },
            DlEventTransition::T5 => {
                message_handler.event_flag(false);
                self.event_memory.set_read_only(false);
                let _ = self.event_memory.clear_all_event();
            },
            DlEventTransition::T8 => {
                self.event_memory.set_read_only(false);
                let _ = self.event_memory.clear_all_event();
            },
            _ => {},
        }
        Ok(())
    }

    /// EH_Conf: activates or deactivates the handler.
    pub fn eh_conf(&mut self, state: EhConfState) -> (r: IoLinkResult<()>)
        requires
            old(self).wf(),
        ensures
            final(self).wf(),
            r is Ok,
            (final(self).spec_transition(), final(self).spec_state()) == dl_event_next(
                old(self).spec_state(),
                if state is Active {
                    DlEventEvent::EhConfActive
                } else {
                    DlEventEvent::EhConfInactive
                },
            ),
            final(self).spec_events() == old(self).spec_events(),
            final(self).spec_frozen() == old(self).spec_frozen(),
            final(self).spec_event_count() == old(self).spec_event_count(),
    {
        match state {
            EhConfState::Active => self.process_event(DlEventEvent::EhConfActive),
            EhConfState::Inactive => self.process_event(DlEventEvent::EhConfInactive),
        }
    }

    /// DL_Event: keeps the count and adds the events to the event memory;
    /// where the memory refuses them the error is returned, else the state
    /// machine takes a DL_Event.
    pub fn dl_event_req(&mut self, event_count: u8, event_entries: &[EventEntry]) -> (r: IoLinkResult<()>)
        requires
            old(self).wf(),
        ensures
            final(self).wf(),
            final(self).spec_event_count() == event_count,
            final(self).spec_frozen() == old(self).spec_frozen(),
            old(self).spec_frozen() ==> r == Err::<(), IoLinkError>(IoLinkError::ReadOnlyError)
                && final(self).spec_events() == old(self).spec_events()
                && final(self).spec_state() == old(self).spec_state()
                && final(self).spec_transition() == old(self).spec_transition(),
            !old(self).spec_frozen() ==> {
                let (m, ok) = spec_add_events(old(self).spec_events(), event_entries@);
                &&& final(self).spec_events() == m
                &&& (ok ==> r is Ok && (final(self).spec_transition(), final(self).spec_state())
                    == dl_event_next(old(self).spec_state(), DlEventEvent::DlEvent))
                &&& (!ok ==> r == Err::<(), IoLinkError>(IoLinkError::EventMemoryFull)
                    && final(self).spec_state() == old(self).spec_state()
                    && final(self).spec_transition() == old(self).spec_transition())
            },
    {
        self.active_event_count = event_count;
        let res = self.event_memory.add_event_details(event_entries);
        if res.is_err() {
            return res;
        }
        let _ = self.process_event(DlEventEvent::DlEvent);
        Ok(())
    }

    /// DL_EventTrigger: the events are to be signalled.
    pub fn dl_event_trigger_req(&mut self) -> (r: IoLinkResult<()>)
        requires
            old(self).wf(),
        ensures
            final(self).wf(),
            r is Ok,
            (final(self).spec_transition(), final(self).spec_state()) == dl_event_next(
                old(self).spec_state(),
                DlEventEvent::DlEventTrigger,
            ),
            final(self).spec_events() == old(self).spec_events(),
            final(self).spec_frozen() == old(self).spec_frozen(),
            final(self).spec_event_count() == old(self).spec_event_count(),
    {
        let _ = self.process_event(DlEventEvent::DlEventTrigger);
        Ok(())
    }

    /// OD indication on the diagnosis channel: a read is a read of event
    /// memory, a write of address 0 confirms the events; anything else is
    /// not accepted.
    pub fn od_ind(&mut self, od_ind_data: &OdIndData) -> (r: IoLinkResult<()>)
        requires
            old(self).wf(),
        ensures
            final(self).wf(),
            final(self).spec_events() == old(self).spec_events(),
            final(self).spec_frozen() == old(self).spec_frozen(),
            final(self).spec_event_count() == old(self).spec_event_count(),
            ({
                let d = od_ind_data;
                if d.rw_direction is Read && d.com_channel is Diagnosis {
                    r is Ok && (final(self).spec_transition(), final(self).spec_state())
                        == dl_event_next(
                        old(self).spec_state(),
                        DlEventEvent::EventRead(d.address_ctrl, d.req_length),
                    )
                } else if d.rw_direction is Write && d.com_channel is Diagnosis && d.address_ctrl
                    == 0 {
                    r is Ok && (final(self).spec_transition(), final(self).spec_state())
                        == dl_event_next(old(self).spec_state(), DlEventEvent::EventConf)
                } else {
                    r == Err::<(), IoLinkError>(IoLinkError::InvalidEvent) && final(self).spec_state() == old(self).spec_state() && final(self).spec_transition()
                        == old(self).spec_transition()
                }
            }),
    {
        let is_diag = match od_ind_data.com_channel {
            ComChannel::Diagnosis => true,
            _ => false,
        };
        let is_read = match od_ind_data.rw_direction {
            RwDirection::Read => true,
            RwDirection::Write => false,
        };
        if !is_diag || (!is_read && od_ind_data.address_ctrl != 0) {
            return Err(IoLinkError::InvalidEvent);
        }
        let event = if is_read {
            DlEventEvent::EventRead(od_ind_data.address_ctrl, od_ind_data.req_length)
        } else {
            DlEventEvent::EventConf
        };
        let _ = self.process_event(event);
        Ok(())
    }
}


/// Event signalling can repeat: where a DL_EventTrigger freezes the event
/// memory for the master (T3), the master's confirmation (T5) brings the
/// handler back to the state it was in before, where new events are taken
/// (T2) and a new trigger freezes the memory again (T3).
pub proof fn confirmation_reopens_signalling(s: DlEventState)
    requires
        dl_event_next(s, DlEventEvent::DlEventTrigger).0 is T3,
    ensures
        ({
            let frozen = dl_event_next(s, DlEventEvent::DlEventTrigger).1;
            let (t, s2) = dl_event_next(frozen, DlEventEvent::EventConf);
            &&& t is T5
            &&& s2 == s
            &&& dl_event_next(s2, DlEventEvent::DlEvent).0 is T2
            &&& dl_event_next(s2, DlEventEvent::DlEventTrigger).0 is T3
        }),
{
}

/// A confirmation of the master that is taken (T5) always leaves the
/// handler where a new DL_EventTrigger signals again (T3).
pub proof fn confirmed_handler_signals_again(s: DlEventState)
    requires
        dl_event_next(s, DlEventEvent::EventConf).0 is T5,
    ensures
        dl_event_next(dl_event_next(s, DlEventEvent::EventConf).1, DlEventEvent::DlEventTrigger).0 is T3,
{
}


/// The master's reads of the event memory never move the handler: a read
/// leaves it in the state it was in, frozen or not.
pub proof fn event_reads_keep_state(s: DlEventState, address: u8, length: u8)
    ensures
        dl_event_next(s, DlEventEvent::EventRead(address, length)).1 == s,
{
}

/// Deactivating an active handler, frozen or not, makes it inactive, and
/// activating it again makes it ready to signal events.
pub proof fn deactivation_and_reactivation(s: DlEventState)
    requires
        s is Idle || s is FreezeEventMemory,
    ensures
        ({
            let s1 = dl_event_next(s, DlEventEvent::EhConfInactive).1;
            let s2 = dl_event_next(s1, DlEventEvent::EhConfActive).1;
            &&& s1 is Inactive
            &&& dl_event_next(s2, DlEventEvent::DlEventTrigger).0 is T3
        }),
{
}

} // verus!
