//! Event handler of the application layer (10.3.3): takes events from the
//! device application and hands them to the data link layer.
use vstd::prelude::*;
use crate::errors::{IoLinkError, IoLinkResult};
use crate::event::EventEntry;
use crate::bounded::{event_entries_as_slice, event_entries_extend, event_entries_items, event_entries_new};

verus! {

/// Most events that one request carries.
pub const MAX_EVENT_ENTRIES: usize = 6;

/// States of the application layer's event handler.
#[derive(Debug, Clone, Copy, PartialEq, Eq, Structural)]
pub enum EventStateMachineState {
    /// Inactive.
    EventInactive,
    /// Idle.
    EventIdle,
    /// Waiting for the data link layer to confirm the events.
    AwaitEventResponse,
}

/// Events of the application layer's event handler.
#[derive(Debug, Clone, Copy, PartialEq, Eq, Structural)]
pub enum EventStateMachineEvent {
    /// Activation.
    Activate,
    /// Deactivation.
    Deactivate,
    /// AL_Event request.
    AlEventRequest,
    /// DL_EventTrigger confirmation.
    DlEventTriggerConf,
}

/// Transitions of the application layer's event handler.
#[derive(Debug, Clone, Copy, PartialEq, Eq, Structural)]
pub enum AlEventTransition {
    /// Nothing to do.
    Tn,
    /// Activated.
    T1,
    /// Deactivated.
    T2,
    /// Events requested.
    T3,
    /// Events confirmed.
    T4,
}

/// The state machine of the application layer's event handler.
pub open spec fn al_event_next(s: EventStateMachineState, e: EventStateMachineEvent) -> Option<
    (AlEventTransition, EventStateMachineState),
> {
    match (s, e) {
        (EventStateMachineState::EventInactive, EventStateMachineEvent::Activate) => Some(
            (AlEventTransition::T1, EventStateMachineState::EventIdle),
        ),
        (EventStateMachineState::EventIdle, EventStateMachineEvent::Deactivate) => Some(
            (AlEventTransition::T2, EventStateMachineState::EventInactive),
        ),
        (EventStateMachineState::EventIdle, EventStateMachineEvent::AlEventRequest) => Some(
            (AlEventTransition::T3, EventStateMachineState::AwaitEventResponse),
        ),
        (
            EventStateMachineState::AwaitEventResponse,
            EventStateMachineEvent::DlEventTriggerConf,
        ) => Some((AlEventTransition::T4, EventStateMachineState::EventIdle)),
        _ => None,
    }
}

/// Work that one `poll` asks of the other layers.
#[derive(Debug, Clone)]
pub enum AlEventAction {
    /// Nothing.
    Nothing,
    /// DL_Event with the count and events, then DL_EventTrigger.
    DlEvent(u8, Vec<EventEntry>),
    /// AL_Event confirmation to the application.
    EventCnf,
}

/// What one `poll` of the event handler `eh` asks for: the events of a
/// pending request for the data link layer, the confirmation once the
/// master read them, nothing otherwise.
pub open spec fn al_event_poll_result(eh: EventHandler, r: AlEventAction) -> bool {
    &&& eh.spec_transition() is T3 && eh.spec_events() is Some ==> (r matches AlEventAction::DlEvent(
        c,
        es,
    ) && eh.spec_events() == Some((c, es@)))
    &&& eh.spec_transition() is T3 && eh.spec_events() is None ==> r is Nothing
    &&& eh.spec_transition() is T4 ==> r is EventCnf
    &&& !(eh.spec_transition() is T3 || eh.spec_transition() is T4) ==> r is Nothing
}

/// The application layer's event handler.
pub struct EventHandler {
    state: EventStateMachineState,
    exec_transition: AlEventTransition,
    events: Option<(u8, heapless::Vec<EventEntry, 6>)>,
}

impl EventHandler {
    /// The state.
    pub closed spec fn spec_state(&self) -> EventStateMachineState {
        self.state
    }

    /// The pending transition.
    pub closed spec fn spec_transition(&self) -> AlEventTransition {
        self.exec_transition
    }

    /// The events of the last request: their count and the events.
    pub closed spec fn spec_events(&self) -> Option<(u8, Seq<EventEntry>)> {
        match self.events {
            Some((c, v)) => Some((c, event_entries_items(v))),
            None => None,
        }
    }

    /// Inactive, with no events.
    pub fn new() -> (r: EventHandler)
        ensures
            r.spec_state() == EventStateMachineState::EventInactive,
            r.spec_transition() == AlEventTransition::Tn,
            r.spec_events() is None,
    {
        EventHandler {
            state: EventStateMachineState::EventInactive,
            exec_transition: AlEventTransition::Tn,
            events: None,
        }
    }

    /// Feeds one event to the state machine; one that is not accepted
    /// changes nothing and gives `InvalidEvent`.
    pub fn process_event(&mut self, event: EventStateMachineEvent) -> (r: IoLinkResult<()>)
        ensures
            final(self).spec_events() == old(self).spec_events(),
            match al_event_next(old(self).spec_state(), event) {
                Some((t, s)) => r is Ok && final(self).spec_state() == s
                    && final(self).spec_transition() == t,
                None => r == Err::<(), IoLinkError>(IoLinkError::InvalidEvent)
                    && final(self).spec_state() == old(self).spec_state()
                    && final(self).spec_transition() == old(self).spec_transition(),
            },
    {
        let next = match (self.state, event) {
            (EventStateMachineState::EventInactive, EventStateMachineEvent::Activate) => Some(
                (AlEventTransition::T1, EventStateMachineState::EventIdle),
            ),
            (EventStateMachineState::EventIdle, EventStateMachineEvent::Deactivate) => Some(
                (AlEventTransition::T2, EventStateMachineState::EventInactive),
            ),
            (EventStateMachineState::EventIdle, EventStateMachineEvent::AlEventRequest) => Some(
                (AlEventTransition::T3, EventStateMachineState::AwaitEventResponse),
            ),
            (
                EventStateMachineState::AwaitEventResponse,
                EventStateMachineEvent::DlEventTriggerConf,
            ) => Some((AlEventTransition::T4, EventStateMachineState::EventIdle)),
            _ => None,
        };
        match next {
            Some((t, s)) => {
                self.exec_transition = t;
                self.state = s;
                Ok(())
            },
            None => Err(IoLinkError::InvalidEvent),
        }
    }

    /// Does the work of the pending transition: hands the requested events
    /// to the data link layer, or confirms them to the application. The
    /// pending transition is consumed.
    pub fn poll(&mut self) -> (r: AlEventAction)
        ensures
            final(self).spec_state() == old(self).spec_state(),
            final(self).spec_transition() is Tn,
            final(self).spec_events() == old(self).spec_events(),
            al_event_poll_result(*old(self), r),
    {
        let t = self.exec_transition;
        self.exec_transition = AlEventTransition::Tn;
        match t {
            AlEventTransition::T3 => match &self.events {
                Some((c, es)) => AlEventAction::DlEvent(
                    *c,
                    vstd::slice::slice_to_vec(event_entries_as_slice(es)),
                ),
                None => AlEventAction::Nothing,
            },
            AlEventTransition::T4 => AlEventAction::EventCnf,
            _ => AlEventAction::Nothing,
        }
    }

    /// AL_Event request: keeps the count and the events (none where more
    /// than six are given) and feeds the request to the state machine.
    pub fn al_event_req(&mut self, event_count: u8, event_entries: &[EventEntry]) -> (r: IoLinkResult<()>)
        ensures
            final(self).spec_events() == Some((
                event_count,
                if event_entries@.len() <= MAX_EVENT_ENTRIES {
                    event_entries@
                } else {
                    Seq::<EventEntry>::empty()
                },
            )),
            match al_event_next(old(self).spec_state(), EventStateMachineEvent::AlEventRequest) {
                Some((t, s)) => r is Ok && final(self).spec_state() == s
                    && final(self).spec_transition() == t,
                None => r == Err::<(), IoLinkError>(IoLinkError::InvalidEvent)
                    && final(self).spec_state() == old(self).spec_state()
                    && final(self).spec_transition() == old(self).spec_transition(),
            },
    {
        let mut entries = event_entries_new();
        let _ = event_entries_extend(&mut entries, event_entries);
        self.events = Some((event_count, entries));
        self.process_event(EventStateMachineEvent::AlEventRequest)
    }

    /// DL_EventTrigger confirmation from the data link layer.
    pub fn event_trigger_conf(&mut self) -> (r: IoLinkResult<()>)
        ensures
            final(self).spec_events() == old(self).spec_events(),
            match al_event_next(old(self).spec_state(), EventStateMachineEvent::DlEventTriggerConf) {
                Some((t, s)) => r is Ok && final(self).spec_state() == s
                    && final(self).spec_transition() == t,
                None => r == Err::<(), IoLinkError>(IoLinkError::InvalidEvent)
                    && final(self).spec_state() == old(self).spec_state()
                    && final(self).spec_transition() == old(self).spec_transition(),
            },
    {
        self.process_event(EventStateMachineEvent::DlEventTriggerConf)
    }
}

} // verus!
