//! Process Data handler of the data link layer (7.3.5): exchanges the
//! input and output Process Data of each OPERATE cycle.
use vstd::prelude::*;
use crate::errors::{IoLinkError, IoLinkResult};
use crate::dl::message_handler::MessageHandler;
use crate::protocol::ConfState;
use crate::bounded::{pd_input_as_slice, pd_input_bytes, pd_input_extend, pd_input_new};

verus! {

/// Longest Process Data in octets.
pub const MAX_PD_LENGTH: usize = 32;

/// States of the Process Data handler.
#[derive(Debug, Clone, Copy, PartialEq, Eq, Structural)]
pub enum DlPdState {
    /// Inactive.
    Inactive,
    /// Process Data active.
    PDActive,
    /// Handling the Process Data of a cycle.
    HandlePD,
}

/// Transitions of the Process Data handler with work left for `poll`.
#[derive(Debug, Clone, Copy, PartialEq, Eq, Structural)]
pub enum DlPdTransition {
    /// Nothing to do.
    Tn,
    /// Process Data while inactive.
    T1,
    /// Activated.
    T2,
    /// Input updated.
    T3,
    /// Process Data of a cycle, with the input length asked for.
    T4(u8),
    /// Incomplete Process Data.
    T5,
    /// Process Data complete.
    T6,
    /// Cycle complete.
    T7,
    /// Deactivated.
    T8,
}

/// Events of the Process Data handler.
#[derive(Debug, Clone, Copy, PartialEq, Eq, Structural)]
pub enum DlPdEvent {
    /// Process Data of a cycle, with the input length asked for.
    PDInd(u8),
    /// PD_Conf active.
    PDConfActive,
    /// DL_PDInputUpdate.
    DlPDInputUpdate,
    /// PD_Conf inactive.
    PDConfInactive,
    /// Incomplete Process Data.
    PDIncomplete,
    /// Process Data complete.
    PDComplete,
    /// Cycle complete.
    CycleComplete,
}

/// The state machine of the Process Data handler; an event that is not
/// accepted keeps the state and clears the pending transition.
pub open spec fn dl_pd_next(s: DlPdState, e: DlPdEvent) -> (DlPdTransition, DlPdState) {
    match (s, e) {
        (DlPdState::Inactive, DlPdEvent::PDInd(_)) => (DlPdTransition::T1, DlPdState::Inactive),
        (DlPdState::Inactive, DlPdEvent::PDConfActive) => (DlPdTransition::T2, DlPdState::PDActive),
        (DlPdState::PDActive, DlPdEvent::DlPDInputUpdate) => (
            DlPdTransition::T3,
            DlPdState::PDActive,
        ),
        (DlPdState::PDActive, DlPdEvent::PDInd(l)) => (DlPdTransition::T4(l), DlPdState::HandlePD),
        (DlPdState::PDActive, DlPdEvent::PDConfInactive) => (
            DlPdTransition::T8,
            DlPdState::Inactive,
        ),
        (DlPdState::HandlePD, DlPdEvent::PDIncomplete) => (DlPdTransition::T5, DlPdState::PDActive),
        (DlPdState::HandlePD, DlPdEvent::PDComplete) => (DlPdTransition::T6, DlPdState::PDActive),
        (DlPdState::HandlePD, DlPdEvent::CycleComplete) => (DlPdTransition::T7, DlPdState::PDActive),
        _ => (DlPdTransition::Tn, s),
    }
}

/// The Process Data handler of the data link layer.
pub struct ProcessDataHandler {
    state: DlPdState,
    exec_transition: DlPdTransition,
    input: heapless::Vec<u8, 32>,
    output: Vec<u8>,
}

impl ProcessDataHandler {
    /// The state.
    pub closed spec fn spec_state(&self) -> DlPdState {
        self.state
    }

    /// The pending transition.
    pub closed spec fn spec_transition(&self) -> DlPdTransition {
        self.exec_transition
    }

    /// The input Process Data of the application.
    pub closed spec fn spec_input(&self) -> Seq<u8> {
        pd_input_bytes(self.input)
    }

    /// The output Process Data of the master.
    pub closed spec fn spec_output(&self) -> Seq<u8> {
        self.output@
    }

    /// Inactive, with no Process Data.
    pub fn new() -> (r: ProcessDataHandler)
        ensures
            r.spec_state() == DlPdState::Inactive,
            r.spec_transition() == DlPdTransition::Tn,
            r.spec_input() == Seq::<u8>::empty(),
            r.spec_output() == Seq::<u8>::empty(),
    {
        ProcessDataHandler {
            state: DlPdState::Inactive,
            exec_transition: DlPdTransition::Tn,
            input: pd_input_new(),
            output: Vec::new(),
        }
    }

    /// Feeds one event to the state machine.
    fn process_event(&mut self, event: DlPdEvent) -> (r: IoLinkResult<()>)
        ensures
            r is Ok,
            (final(self).spec_transition(), final(self).spec_state()) == dl_pd_next(
                old(self).spec_state(),
                event,
            ),
            final(self).spec_input() == old(self).spec_input(),
            final(self).spec_output() == old(self).spec_output(),
    {
        let (t, s) = match (self.state, event) {
            (DlPdState::Inactive, DlPdEvent::PDInd(_)) => (DlPdTransition::T1, DlPdState::Inactive),
            (DlPdState::Inactive, DlPdEvent::PDConfActive) => (
                DlPdTransition::T2,
                DlPdState::PDActive,
            ),
            (DlPdState::PDActive, DlPdEvent::DlPDInputUpdate) => (
                DlPdTransition::T3,
                DlPdState::PDActive,
            ),
            (DlPdState::PDActive, DlPdEvent::PDInd(l)) => (
                DlPdTransition::T4(l),
                DlPdState::HandlePD,
            ),
            (DlPdState::PDActive, DlPdEvent::PDConfInactive) => (
                DlPdTransition::T8,
                DlPdState::Inactive,
            ),
            (DlPdState::HandlePD, DlPdEvent::PDIncomplete) => (
                DlPdTransition::T5,
                DlPdState::PDActive,
            ),
            (DlPdState::HandlePD, DlPdEvent::PDComplete) => (
                DlPdTransition::T6,
                DlPdState::PDActive,
            ),
            (DlPdState::HandlePD, DlPdEvent::CycleComplete) => (
                DlPdTransition::T7,
                DlPdState::PDActive,
            ),
            _ => (DlPdTransition::Tn, self.state),
        };
        self.exec_transition = t;
        self.state = s;
        Ok(())
    }

    /// Does the work of the pending transition. In a cycle the input
    /// Process Data goes into the next response and the cycle completes;
    /// the output Process Data comes back for the application, also when
    /// the cycle completed. The pending transition is consumed, unless the
    /// completion of the cycle sets the next one.
    pub fn poll(&mut self, message_handler: &mut MessageHandler) -> (r: Option<Vec<u8>>)
        ensures
            final(self).spec_input() == old(self).spec_input(),
            final(self).spec_output() == old(self).spec_output(),
            final(message_handler).same_settings(old(message_handler)),
            final(message_handler).same_rx(old(message_handler)),
            final(message_handler).spec_tx() == old(message_handler).spec_tx(),
            final(message_handler).spec_state() == old(message_handler).spec_state(),
            final(message_handler).spec_transition() == old(message_handler).spec_transition(),
            final(message_handler).spec_event_flag() == old(message_handler).spec_event_flag(),
            final(message_handler).spec_od_response() == old(message_handler).spec_od_response(),
            match old(self).spec_transition() {
                DlPdTransition::T4(_) => {
                    &&& (final(self).spec_transition(), final(self).spec_state()) == dl_pd_next(
                        old(self).spec_state(),
                        DlPdEvent::PDComplete,
                    )
                    &&& final(message_handler).spec_pd_response() == old(self).spec_input()
                    &&& final(message_handler).spec_pd_status() == old(message_handler).spec_pd_in_valid_status()
                    &&& (r matches Some(o) && o@ == old(self).spec_output())
                },
                DlPdTransition::T6 => {
                    &&& final(self).spec_transition() == DlPdTransition::Tn
                    &&& final(self).spec_state() == old(self).spec_state()
                    &&& final(message_handler).spec_pd_response() == old(message_handler).spec_pd_response()
                    &&& final(message_handler).spec_pd_status() == old(message_handler).spec_pd_status()
                    &&& (r matches Some(o) && o@ == old(self).spec_output())
                },
                _ => {
                    &&& final(self).spec_transition() == DlPdTransition::Tn
                    &&& final(self).spec_state() == old(self).spec_state()
                    &&& final(message_handler).spec_pd_response() == old(message_handler).spec_pd_response()
                    &&& final(message_handler).spec_pd_status() == old(message_handler).spec_pd_status()
                    &&& r is None
                },
            },
    {
        let t = self.exec_transition;
        self.exec_transition = DlPdTransition::Tn;
        match t {
            DlPdTransition::T4(_) => {
                let input = pd_input_as_slice(&self.input);
                let _ = message_handler.pd_rsp(input.len(), input);
                assert(input@.subrange(0, input@.len() as int) =~= input@);
                let out = vstd::slice::slice_to_vec(self.output.as_slice());
                let _ = self.process_event(DlPdEvent::PDComplete);
                Some(out)
            },
            DlPdTransition::T6 => Some(vstd::slice::slice_to_vec(self.output.as_slice())),
            _ => None,
        }
    }

    /// PD_Conf: activates or deactivates the handler.
    pub fn pd_conf(&mut self, state: ConfState) -> (r: IoLinkResult<()>)
        ensures
            r is Ok,
            (final(self).spec_transition(), final(self).spec_state()) == dl_pd_next(
                old(self).spec_state(),
                if state is Active {
                    DlPdEvent::PDConfActive
                } else {
                    DlPdEvent::PDConfInactive
                },
            ),
            final(self).spec_input() == old(self).spec_input(),
            final(self).spec_output() == old(self).spec_output(),
    {
        match state {
            ConfState::Active => self.process_event(DlPdEvent::PDConfActive),
            ConfState::Inactive => self.process_event(DlPdEvent::PDConfInactive),
        }
    }

    /// Process Data of a cycle: the output of the master is kept and the
    /// cycle handled; an input length above the longest Process Data is
    /// refused.
    pub fn pd_ind(&mut self, pd_in_address: u8, pd_in_length: u8, pd_out_address: u8, pd_out: &[u8]) -> (r:
        IoLinkResult<()>)
        ensures
            pd_in_length > MAX_PD_LENGTH ==> r == Err::<(), IoLinkError>(
                IoLinkError::InvalidParameter,
            ) && final(self).spec_state() == old(self).spec_state() && final(self).spec_transition()
                == old(self).spec_transition() && final(self).spec_output() == old(self).spec_output(),
            pd_in_length <= MAX_PD_LENGTH ==> r is Ok && final(self).spec_output() == pd_out@ && (
            final(self).spec_transition(),
            final(self).spec_state(),
            ) == dl_pd_next(old(self).spec_state(), DlPdEvent::PDInd(pd_in_length)),
            final(self).spec_input() == old(self).spec_input(),
    {
        if pd_in_length as usize > MAX_PD_LENGTH {
            return Err(IoLinkError::InvalidParameter);
        }
        self.output = vstd::slice::slice_to_vec(pd_out);
        self.process_event(DlPdEvent::PDInd(pd_in_length))
    }

    /// DL_PDInputUpdate: the application's new input Process Data; input
    /// longer than the longest Process Data is refused and leaves no input.
    pub fn dl_pd_input_update_req(&mut self, length: u8, input_data: &[u8]) -> (r: IoLinkResult<()>)
        ensures
            final(self).spec_output() == old(self).spec_output(),
            input_data@.len() > MAX_PD_LENGTH ==> r == Err::<(), IoLinkError>(
                IoLinkError::InvalidParameter,
            ) && final(self).spec_input() == Seq::<u8>::empty() && final(self).spec_state() == old(self).spec_state() && final(self).spec_transition() == old(self).spec_transition(),
            input_data@.len() <= MAX_PD_LENGTH ==> r is Ok && final(self).spec_input()
                == input_data@ && (final(self).spec_transition(), final(self).spec_state())
                == dl_pd_next(old(self).spec_state(), DlPdEvent::DlPDInputUpdate),
    {
        self.input = pd_input_new();
        match pd_input_extend(&mut self.input, input_data) {
            Ok(()) => self.process_event(DlPdEvent::DlPDInputUpdate),
            Err(()) => Err(IoLinkError::InvalidParameter),
        }
    }
}

} // verus!
