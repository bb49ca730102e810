//! On-request Data handler of the data link layer (7.3.6): sorts the
//! On-request Data of each message into page accesses, commands, ISDU and
//! event accesses, and hands each to the handler that serves it.
use vstd::prelude::*;
use crate::errors::{IoLinkError, IoLinkResult};
use crate::dl::message_handler::MessageHandler;
use crate::protocol::{ComChannel, ConfState, RwDirection};

verus! {

/// The On-request Data of one message.
#[derive(Debug, Clone)]
pub struct OdIndData {
    /// Read or write.
    pub rw_direction: RwDirection,
    /// Communication channel.
    pub com_channel: ComChannel,
    /// Address or flow control.
    pub address_ctrl: u8,
    /// Number of octets the master asks for.
    pub req_length: u8,
    /// Octets written by the master.
    pub data: Vec<u8>,
}

impl View for OdIndData {
    type V = (RwDirection, ComChannel, u8, u8, Seq<u8>);

    open spec fn view(&self) -> (RwDirection, ComChannel, u8, u8, Seq<u8>) {
        (self.rw_direction, self.com_channel, self.address_ctrl, self.req_length, self.data@)
    }
}

impl OdIndData {
    /// A read of address 0 on the process channel with no data.
    pub fn new() -> (r: OdIndData)
        ensures
            r.rw_direction == RwDirection::Read,
            r.com_channel == ComChannel::Process,
            r.address_ctrl == 0,
            r.req_length == 0,
            r.data@ == Seq::<u8>::empty(),
    {
        OdIndData {
            rw_direction: RwDirection::Read,
            com_channel: ComChannel::Process,
            address_ctrl: 0,
            req_length: 0,
            data: Vec::new(),
        }
    }
}

/// States of the On-request Data handler.
#[derive(Debug, Clone, Copy, PartialEq, Eq, Structural)]
pub enum DlOdState {
    /// Inactive.
    Inactive,
    /// Idle.
    Idle,
}

/// Events of the On-request Data handler.
#[derive(Debug, Clone, Copy, PartialEq, Eq, Structural)]
pub enum DlOdEvent {
    /// A write of the MasterCommand.
    OdIndCommand,
    /// An access to a page parameter.
    OdIndParam,
    /// OH_Conf active.
    OhConfActive,
    /// OH_Conf inactive.
    OhConfInactive,
    /// An ISDU access.
    OdIndIsdu,
    /// An event access.
    OdIndEvent,
}

/// Transitions of the On-request Data handler with work left for `poll`.
#[derive(Debug, Clone, Copy, PartialEq, Eq, Structural)]
pub enum DlOdTransition {
    /// Nothing to do.
    Tn,
    /// Activated.
    T1,
    /// Page parameter access.
    T2,
    /// MasterCommand written.
    T3,
    /// ISDU access.
    T4,
    /// Event access.
    T5,
    /// Deactivated.
    T6,
}

/// The state machine of the On-request Data handler; an event that is not
/// accepted keeps the state and clears the pending transition.
pub open spec fn dl_od_next(s: DlOdState, e: DlOdEvent) -> (DlOdTransition, DlOdState) {
    match (s, e) {
        (DlOdState::Inactive, DlOdEvent::OhConfActive) => (DlOdTransition::T1, DlOdState::Idle),
        (DlOdState::Idle, DlOdEvent::OdIndParam) => (DlOdTransition::T2, DlOdState::Idle),
        (DlOdState::Idle, DlOdEvent::OdIndCommand) => (DlOdTransition::T3, DlOdState::Idle),
        (DlOdState::Idle, DlOdEvent::OdIndIsdu) => (DlOdTransition::T4, DlOdState::Idle),
        (DlOdState::Idle, DlOdEvent::OdIndEvent) => (DlOdTransition::T5, DlOdState::Idle),
        (DlOdState::Idle, DlOdEvent::OhConfInactive) => (DlOdTransition::T6, DlOdState::Inactive),
        _ => (DlOdTransition::Tn, s),
    }
}

/// The kind of an On-request Data access: a write of address 0 on the page
/// channel is a command, other page addresses up to 31 are parameters, the
/// ISDU and diagnosis channels are ISDU and event accesses; anything else
/// is not accepted.
pub open spec fn od_ind_event(rw: RwDirection, ch: ComChannel, address: u8) -> Option<DlOdEvent> {
    match ch {
        ComChannel::Page => if address == 0 && rw is Write {
            Some(DlOdEvent::OdIndCommand)
        } else if 1 <= address <= 31 {
            Some(DlOdEvent::OdIndParam)
        } else {
            None
        },
        ComChannel::Isdu => Some(DlOdEvent::OdIndIsdu),
        ComChannel::Diagnosis => Some(DlOdEvent::OdIndEvent),
        ComChannel::Process => None,
    }
}

/// Where `poll` hands an On-request Data access.
#[derive(Debug, Clone)]
pub enum DlOdDispatch {
    /// Nothing.
    Nothing,
    /// A page read: to the application layer (DL_ReadParam) and to System
    /// Management (DL_Read).
    ParamRead(u8),
    /// A page write: to the application layer (DL_WriteParam), and for the
    /// MasterCommand also to the command handler.
    ParamWrite(u8, u8),
    /// A MasterCommand: to the application layer, the command handler and
    /// System Management (DL_Write).
    Command(u8, u8),
    /// An ISDU access: to the ISDU handler.
    Isdu(OdIndData),
    /// An event access: to the event handler.
    Event(OdIndData),
}

/// Where `poll` hands the On-request Data `d` of a pending transition `t`:
/// a page read or write for T2 on the page channel, a MasterCommand for T3,
/// the ISDU or event access itself for T4 and T5, nowhere otherwise.
pub open spec fn od_dispatched(
    t: DlOdTransition,
    d: (RwDirection, ComChannel, u8, u8, Seq<u8>),
    dispatch: DlOdDispatch,
) -> bool {
    match t {
        DlOdTransition::T2 => if !(d.1 is Page) {
            dispatch is Nothing
        } else if d.0 is Read {
            dispatch == DlOdDispatch::ParamRead(d.2)
        } else {
            dispatch == DlOdDispatch::ParamWrite(d.2, d.4[0])
        },
        DlOdTransition::T3 => dispatch == DlOdDispatch::Command(d.2, d.4[0]),
        DlOdTransition::T4 => dispatch matches DlOdDispatch::Isdu(x) && x@ == d,
        DlOdTransition::T5 => dispatch matches DlOdDispatch::Event(x) && x@ == d,
        _ => dispatch is Nothing,
    }
}

/// The On-request Data handler of the data link layer.
pub struct OnRequestDataHandler {
    state: DlOdState,
    exec_transition: DlOdTransition,
    od_ind_data: OdIndData,
}

impl OnRequestDataHandler {
    /// The state.
    pub closed spec fn spec_state(&self) -> DlOdState {
        self.state
    }

    /// The pending transition.
    pub closed spec fn spec_transition(&self) -> DlOdTransition {
        self.exec_transition
    }

    /// The last On-request Data handed in.
    pub closed spec fn spec_data(&self) -> OdIndData {
        self.od_ind_data
    }

    /// Inactive, nothing pending.
    pub fn new() -> (r: OnRequestDataHandler)
        ensures
            r.spec_state() == DlOdState::Inactive,
            r.spec_transition() == DlOdTransition::Tn,
    {
        OnRequestDataHandler {
            state: DlOdState::Inactive,
            exec_transition: DlOdTransition::Tn,
            od_ind_data: OdIndData::new(),
        }
    }

    /// Feeds one event to the state machine.
    fn process_event(&mut self, event: DlOdEvent) -> (r: IoLinkResult<()>)
        ensures
            r is Ok,
            (final(self).spec_transition(), final(self).spec_state()) == dl_od_next(
                old(self).spec_state(),
                event,
            ),
            final(self).spec_data() == old(self).spec_data(),
    {
        let (t, s) = match (self.state, event) {
            (DlOdState::Inactive, DlOdEvent::OhConfActive) => (DlOdTransition::T1, DlOdState::Idle),
            (DlOdState::Idle, DlOdEvent::OdIndParam) => (DlOdTransition::T2, DlOdState::Idle),
            (DlOdState::Idle, DlOdEvent::OdIndCommand) => (DlOdTransition::T3, DlOdState::Idle),
            (DlOdState::Idle, DlOdEvent::OdIndIsdu) => (DlOdTransition::T4, DlOdState::Idle),
            (DlOdState::Idle, DlOdEvent::OdIndEvent) => (DlOdTransition::T5, DlOdState::Idle),
            (DlOdState::Idle, DlOdEvent::OhConfInactive) => (
                DlOdTransition::T6,
                DlOdState::Inactive,
            ),
            _ => (DlOdTransition::Tn, self.state),
        };
        self.exec_transition = t;
        self.state = s;
        Ok(())
    }

    /// OH_Conf: activates or deactivates the handler.
    pub fn oh_conf(&mut self, state: ConfState) -> (r: IoLinkResult<()>)
        ensures
            r is Ok,
            (final(self).spec_transition(), final(self).spec_state()) == dl_od_next(
                old(self).spec_state(),
                if state is Active {
                    DlOdEvent::OhConfActive
                } else {
                    DlOdEvent::OhConfInactive
                },
            ),
            final(self).spec_data() == old(self).spec_data(),
    {
        match state {
            ConfState::Active => self.process_event(DlOdEvent::OhConfActive),
            ConfState::Inactive => self.process_event(DlOdEvent::OhConfInactive),
        }
    }

    /// OD indication of the message handler: the data is kept, and its
    /// kind is fed to the state machine; a kind that is not accepted gives
    /// `InvalidEvent`.
    pub fn od_ind(&mut self, od_ind_data: &OdIndData) -> (r: IoLinkResult<()>)
        ensures
            final(self).spec_data()@ == od_ind_data@,
            match od_ind_event(od_ind_data.rw_direction, od_ind_data.com_channel, od_ind_data.address_ctrl) {
                Some(e) => r is Ok && (final(self).spec_transition(), final(self).spec_state())
                    == dl_od_next(old(self).spec_state(), e),
                None => r == Err::<(), IoLinkError>(IoLinkError::InvalidEvent)
                    && final(self).spec_state() == old(self).spec_state()
                    && final(self).spec_transition() == old(self).spec_transition(),
            },
    {
        self.od_ind_data = OdIndData {
            rw_direction: od_ind_data.rw_direction,
            com_channel: od_ind_data.com_channel,
            address_ctrl: od_ind_data.address_ctrl,
            req_length: od_ind_data.req_length,
            data: vstd::slice::slice_to_vec(od_ind_data.data.as_slice()),
        };
        assert(self.od_ind_data.data@ == od_ind_data.data@);
        let event = match od_ind_data.com_channel {
            ComChannel::Page => {
                if od_ind_data.address_ctrl == 0 && od_ind_data.rw_direction == RwDirection::Write {
                    DlOdEvent::OdIndCommand
                } else if 1 <= od_ind_data.address_ctrl && od_ind_data.address_ctrl <= 31 {
                    DlOdEvent::OdIndParam
                } else {
                    return Err(IoLinkError::InvalidEvent);
                }
            },
            ComChannel::Isdu => DlOdEvent::OdIndIsdu,
            ComChannel::Diagnosis => DlOdEvent::OdIndEvent,
            ComChannel::Process => {
                return Err(IoLinkError::InvalidEvent);
            },
        };
        self.process_event(event)
    }

    /// Does the work of the pending transition: says where the kept
    /// On-request Data goes. A page access whose data is no longer on the
    /// page channel gives `InvalidEvent`. The pending transition is
    /// consumed.
    pub fn poll(&mut self) -> (r: (IoLinkResult<()>, DlOdDispatch))
        requires
            (old(self).spec_transition() is T3 || (old(self).spec_transition() is T2
                && old(self).spec_data().com_channel is Page && old(self).spec_data().rw_direction is Write)) ==> old(self).spec_data().data@.len() >= 1,
        ensures
            final(self).spec_transition() == DlOdTransition::Tn,
            final(self).spec_state() == old(self).spec_state(),
            final(self).spec_data() == old(self).spec_data(),
            od_dispatched(old(self).spec_transition(), old(self).spec_data()@, r.1),
            r.0 is Err <==> (old(self).spec_transition() is T2 && !(old(self).spec_data().com_channel is Page)),
            r.0 is Err ==> r.0 == Err::<(), IoLinkError>(IoLinkError::InvalidEvent),
    {
        let t = self.exec_transition;
        self.exec_transition = DlOdTransition::Tn;
        match t {
            DlOdTransition::T2 => {
                match self.od_ind_data.com_channel {
                    ComChannel::Page => {},
                    _ => {
                        return (Err(IoLinkError::InvalidEvent), DlOdDispatch::Nothing);
                    },
                }
                match self.od_ind_data.rw_direction {
                    RwDirection::Read => (
                        Ok(()),
                        DlOdDispatch::ParamRead(self.od_ind_data.address_ctrl),
                    ),
                    RwDirection::Write => (
                        Ok(()),
                        DlOdDispatch::ParamWrite(
                            self.od_ind_data.address_ctrl,
                            self.od_ind_data.data[0],
                        ),
                    ),
                }
            },
            DlOdTransition::T3 => (
                Ok(()),
                DlOdDispatch::Command(self.od_ind_data.address_ctrl, self.od_ind_data.data[0]),
            ),
            DlOdTransition::T4 => (Ok(()), DlOdDispatch::Isdu(self.copy_data())),
            DlOdTransition::T5 => (Ok(()), DlOdDispatch::Event(self.copy_data())),
            _ => (Ok(()), DlOdDispatch::Nothing),
        }
    }

    /// A copy of the kept On-request Data.
    fn copy_data(&self) -> (r: OdIndData)
        ensures
            r@ == self.spec_data()@,
    {
        let r = OdIndData {
            rw_direction: self.od_ind_data.rw_direction,
            com_channel: self.od_ind_data.com_channel,
            address_ctrl: self.od_ind_data.address_ctrl,
            req_length: self.od_ind_data.req_length,
            data: vstd::slice::slice_to_vec(self.od_ind_data.data.as_slice()),
        };
        assert(r.data@ == self.od_ind_data.data@);
        r
    }

    /// OD response: the first `length` octets of `data` for the next
    /// response.
    pub fn od_rsp(&self, length: u8, data: &[u8], message_handler: &mut MessageHandler) -> (r:
        IoLinkResult<()>)
        requires
            length <= data@.len(),
        ensures
            r is Ok,
            final(message_handler).spec_od_response() == data@.subrange(0, length as int),
            final(message_handler).same_settings(old(message_handler)),
            final(message_handler).same_rx(old(message_handler)),
            final(message_handler).spec_tx() == old(message_handler).spec_tx(),
            final(message_handler).spec_state() == old(message_handler).spec_state(),
            final(message_handler).spec_transition() == old(message_handler).spec_transition(),
            final(message_handler).spec_event_flag() == old(message_handler).spec_event_flag(),
            final(message_handler).spec_od_ready(),
            final(message_handler).spec_pd_ready() == old(message_handler).spec_pd_ready(),
            final(message_handler).spec_pd_response() == old(message_handler).spec_pd_response(),
            final(message_handler).spec_pd_status() == old(message_handler).spec_pd_status(),
    {
        message_handler.od_rsp(length, data)
    }

    /// DL_ReadParam response: one octet of page data for the next response.
    pub fn dl_read_param_rsp(&self, length: u8, data: u8, message_handler: &mut MessageHandler) -> (r:
        IoLinkResult<()>)
        requires
            length <= 1,
        ensures
            r is Ok,
            final(message_handler).spec_od_response() == seq![data].subrange(0, length as int),
            final(message_handler).same_settings(old(message_handler)),
            final(message_handler).same_rx(old(message_handler)),
            final(message_handler).spec_tx() == old(message_handler).spec_tx(),
            final(message_handler).spec_state() == old(message_handler).spec_state(),
            final(message_handler).spec_transition() == old(message_handler).spec_transition(),
            final(message_handler).spec_event_flag() == old(message_handler).spec_event_flag(),
            final(message_handler).spec_od_ready(),
            final(message_handler).spec_pd_ready() == old(message_handler).spec_pd_ready(),
            final(message_handler).spec_pd_response() == old(message_handler).spec_pd_response(),
            final(message_handler).spec_pd_status() == old(message_handler).spec_pd_status(),
    {
        let d = [data];
        assert(d@ =~= seq![data]);
        let _ = message_handler.od_rsp(length, &d);
        Ok(())
    }

    /// DL_WriteParam response: no On-request Data in the next response.
    pub fn dl_write_param_rsp(&self, message_handler: &mut MessageHandler) -> (r: IoLinkResult<()>)
        ensures
            r is Ok,
            final(message_handler).spec_od_response() == Seq::<u8>::empty(),
            final(message_handler).same_settings(old(message_handler)),
            final(message_handler).same_rx(old(message_handler)),
            final(message_handler).spec_tx() == old(message_handler).spec_tx(),
            final(message_handler).spec_state() == old(message_handler).spec_state(),
            final(message_handler).spec_transition() == old(message_handler).spec_transition(),
            final(message_handler).spec_event_flag() == old(message_handler).spec_event_flag(),
            final(message_handler).spec_od_ready(),
            final(message_handler).spec_pd_ready() == old(message_handler).spec_pd_ready(),
            final(message_handler).spec_pd_response() == old(message_handler).spec_pd_response(),
            final(message_handler).spec_pd_status() == old(message_handler).spec_pd_status(),
    {
        let d: [u8; 0] = [];
        let _ = message_handler.od_rsp(0, &d);
        Ok(())
    }
}

} // verus!
