//! Values of the test environment: the modes a test drives the device
//! into, the messages between the test and the device's thread, the mock
//! application and the timers of the mock physical layer.
use vstd::prelude::*;
use crate::protocol::Timer;

verus! {

/// Operating modes that a test drives the device into.
#[derive(Debug, Clone, Copy, PartialEq, Eq, Structural)]
pub enum TestDeviceMode {
    /// STARTUP.
    Startup,
    /// PREOPERATE.
    Preoperate,
    /// OPERATE.
    Operate,
}

/// A message between the test and the device's thread.
#[derive(Debug, Clone)]
pub enum ThreadMessage {
    /// Octets from the master to the device.
    RxData(Vec<u8>),
    /// Octets from the device to the master.
    TxData(Vec<u8>),
}

/// The application of the device under test; it keeps no state.
pub struct MockApplicationLayer {}

impl MockApplicationLayer {
    /// The mock application.
    pub fn new() -> (r: MockApplicationLayer) {
        MockApplicationLayer {}
    }
}

/// A timer of the mock physical layer; the time since its start is
/// measured by the caller.
#[derive(Debug, Clone, Copy, PartialEq, Eq, Structural)]
pub struct MockTimerState {
    /// Which timer.
    pub timer_id: Timer,
    /// Its duration in microseconds.
    pub duration_us: u32,
    /// It is running.
    pub active: bool,
}

impl MockTimerState {
    /// A running timer of the given duration.
    pub fn new(timer_id: Timer, duration_us: u32) -> (r: MockTimerState)
        ensures
            r == (MockTimerState { timer_id, duration_us, active: true }),
    {
        MockTimerState { timer_id, duration_us, active: true }
    }

    /// A running timer has expired once its duration has elapsed; a
    /// stopped one never expires.
    pub fn is_expired(&self, elapsed_us: u32) -> (r: bool)
        ensures
            r == (self.active && elapsed_us >= self.duration_us),
    {
        self.active && elapsed_us >= self.duration_us
    }

    /// Runs the timer again with a new duration.
    pub fn restart(&mut self, duration_us: u32)
        ensures
            *final(self) == (MockTimerState { duration_us, active: true, ..*old(self) }),
    {
        self.duration_us = duration_us;
        self.active = true;
    }

    /// Stops the timer.
    pub fn stop(&mut self)
        ensures
            *final(self) == (MockTimerState { active: false, ..*old(self) }),
    {
        self.active = false;
    }
}

} // verus!
