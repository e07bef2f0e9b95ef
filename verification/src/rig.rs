//! The single-actuator test rig: one actuator on pressure sensor 1 that
//! starts deflating when its pressure passes a fixed maximum.

use vstd::prelude::*;

verus! {

/// The pressure above which the rig deflates.
pub const MAX_PRESSURE: i16 = 100;

#[derive(Clone, Copy, PartialEq, Eq, Structural, Debug)]
pub enum State {
    Deflating,
    Inflating,
    Idle,
}

/// The rig's actuator: its last pressure reading and what it is doing.
pub struct Actuator {
    pub pressure: i16,
    pub state: State,
}

impl Actuator {
    pub fn new() -> (a: Actuator)
        ensures
            a.pressure == 0,
            a.state == State::Idle,
    {
        Actuator { pressure: 0, state: State::Idle }
    }

    /// Start deflating, if idle; returns whether it started.
    pub fn deflate(&mut self) -> (started: bool)
        ensures
            started == (old(self).state == State::Idle),
            final(self).pressure == old(self).pressure,
            final(self).state == if started {
                State::Deflating
            } else {
                old(self).state
            },
    {
        match self.state {
            State::Idle => {
                self.state = State::Deflating;
                true
            },
            _ => false,
        }
    }

    /// Take a pressure reading; above the maximum an idle actuator starts
    /// deflating. Returns whether the reading was above the maximum.
    pub fn update(&mut self, reading: i16) -> (over: bool)
        ensures
            over == (reading > MAX_PRESSURE),
            final(self).pressure == reading,
            final(self).state == if over && old(self).state == State::Idle {
                State::Deflating
            } else {
                old(self).state
            },
    {
        self.pressure = reading;
        if self.pressure > MAX_PRESSURE {
            self.deflate();
            true
        } else {
            false
        }
    }
}

} // verus!
