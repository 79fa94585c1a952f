//! # Alarm manager
//! A small record of the alarm's life cycle: idle, armed, triggered.
use vstd::prelude::*;

verus! {

/// The life cycle state of the alarm
#[derive(Debug, Clone, Copy, PartialEq, Eq, Structural)]
pub enum AlarmState {
    /// No alarm is pending
    Idle,
    /// The alarm waits for its time
    Armed,
    /// The alarm went off
    Triggered,
}

/// The alarm's state with its time and the time it last went off
#[derive(Debug, Clone, Copy, PartialEq, Eq, Structural)]
pub struct AlarmManager {
    /// The life cycle state
    pub state: AlarmState,
    /// The alarm time
    pub time: u32,
    /// When the alarm last went off
    pub last_triggered: u32,
}

impl AlarmManager {
    /// An idle alarm with both times zero.
    pub fn new() -> (m: AlarmManager)
        ensures
            m == (AlarmManager { state: AlarmState::Idle, time: 0, last_triggered: 0 }),
    {
        AlarmManager { state: AlarmState::Idle, time: 0, last_triggered: 0 }
    }

    /// Arms the alarm; the times stay.
    pub fn arm(&mut self)
        ensures
            *final(self) == (AlarmManager { state: AlarmState::Armed, ..*old(self) }),
    {
        self.state = AlarmState::Armed;
    }

    /// Disarms the alarm; the times stay.
    pub fn disarm(&mut self)
        ensures
            *final(self) == (AlarmManager { state: AlarmState::Idle, ..*old(self) }),
    {
        self.state = AlarmState::Idle;
    }

    /// Marks the alarm as gone off; the times stay.
    pub fn trigger(&mut self)
        ensures
            *final(self) == (AlarmManager { state: AlarmState::Triggered, ..*old(self) }),
    {
        self.state = AlarmState::Triggered;
    }
}

} // verus!
