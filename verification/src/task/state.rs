//! # State of the first-generation firmware
//! The six operation modes of the first firmware generation and how its three buttons move
//! between them. The alarm settings, the alarm state and the battery levels are the ones of
//! the current system state.
use vstd::prelude::*;

pub use crate::state::{AlarmSettings, AlarmState, BatteryLevel};

use crate::state::{default_stop_sequence, dial_next, erase_first_valid, first_valid_button, sequence_complete, shuffled_sequence, AlarmSettingsView};
use crate::task::buttons::Button;
use crate::task::task_messages::Events;

verus! {

/// The operation mode of the system
#[derive(Debug, Clone, Copy, PartialEq, Eq, Structural)]
pub enum OperationMode {
    /// The regular operation mode: time, alarm status, analog clock on the ring.
    Normal,
    /// Setting the alarm time.
    SetAlarmTime,
    /// The alarm is active: sunrise, sound and the button sequence that stops it.
    Alarm,
    /// The menu.
    Menu,
    /// Displaying the system info.
    SystemInfo,
    /// Standby: display and ring off, low power.
    Standby,
}

/// The states of the system (the power readings are kept beside it).
#[derive(Debug, Clone, Copy)]
pub struct StateManager {
    /// The operation mode of the system
    pub operation_mode: OperationMode,
    /// The settings for the alarm
    pub alarm_settings: AlarmSettings,
    /// The state of the alarm
    pub alarm_state: AlarmState,
}

/// The values of the state.
pub struct StateManagerView {
    /// The operation mode
    pub operation_mode: OperationMode,
    /// The alarm settings
    pub alarm_settings: AlarmSettingsView,
    /// The alarm state
    pub alarm_state: AlarmState,
}

impl View for StateManager {
    type V = StateManagerView;

    open spec fn view(&self) -> StateManagerView {
        StateManagerView {
            operation_mode: self.operation_mode,
            alarm_settings: self.alarm_settings@,
            alarm_state: self.alarm_state,
        }
    }
}

/// Back to normal mode, which ends the alarm.
pub open spec fn to_normal(s: StateManagerView) -> StateManagerView {
    StateManagerView { operation_mode: OperationMode::Normal, alarm_state: AlarmState::Inactive, ..s }
}

/// A press during the alarm: the button erases the next button of the stop sequence if it is
/// that one, and the completed sequence stops the alarm.
pub open spec fn alarm_press(s: StateManagerView, button: Button) -> (StateManagerView, Option<Events>) {
    let seq0 = s.alarm_settings.sequence;
    let seq1 = if first_valid_button(seq0) == button { erase_first_valid(seq0) } else { seq0 };
    let s1 = StateManagerView { alarm_settings: AlarmSettingsView { sequence: seq1, ..s.alarm_settings }, ..s };
    (s1, if sequence_complete(seq1) { Some(Events::AlarmStop) } else { None })
}

/// The green button: toggles the alarm (and saves it), steps the alarm hour, opens the system
/// info from the menu, leaves the system info, presses green during the alarm, wakes up.
pub open spec fn legacy_green(s: StateManagerView) -> (StateManagerView, Option<Events>) {
    match s.operation_mode {
        OperationMode::Normal => (
            StateManagerView { alarm_settings: AlarmSettingsView { enabled: !s.alarm_settings.enabled, ..s.alarm_settings }, ..s },
            Some(Events::AlarmSettingsNeedUpdate),
        ),
        OperationMode::SetAlarmTime => (
            StateManagerView { alarm_settings: AlarmSettingsView { hour: dial_next(s.alarm_settings.hour, 24), ..s.alarm_settings }, ..s },
            None,
        ),
        OperationMode::Menu => (StateManagerView { operation_mode: OperationMode::SystemInfo, ..s }, None),
        OperationMode::SystemInfo => (to_normal(s), None),
        OperationMode::Alarm => alarm_press(s, Button::Green),
        OperationMode::Standby => (to_normal(s), Some(Events::WakeUp)),
    }
}

/// The blue button: starts setting the alarm time, saves it and returns, enters standby from
/// the menu, leaves the system info, presses blue during the alarm, wakes up.
pub open spec fn legacy_blue(s: StateManagerView) -> (StateManagerView, Option<Events>) {
    match s.operation_mode {
        OperationMode::Normal => (StateManagerView { operation_mode: OperationMode::SetAlarmTime, ..s }, None),
        OperationMode::SetAlarmTime => (to_normal(s), Some(Events::AlarmSettingsNeedUpdate)),
        OperationMode::Menu => (StateManagerView { operation_mode: OperationMode::Standby, ..s }, Some(Events::Standby)),
        OperationMode::SystemInfo => (to_normal(s), None),
        OperationMode::Alarm => alarm_press(s, Button::Blue),
        OperationMode::Standby => (to_normal(s), Some(Events::WakeUp)),
    }
}

/// The yellow button: opens the menu, leaves the menu and the system info, steps the alarm
/// minute, presses yellow during the alarm, wakes up.
pub open spec fn legacy_yellow(s: StateManagerView) -> (StateManagerView, Option<Events>) {
    match s.operation_mode {
        OperationMode::Normal => (StateManagerView { operation_mode: OperationMode::Menu, ..s }, None),
        OperationMode::Menu | OperationMode::SystemInfo => (to_normal(s), None),
        OperationMode::SetAlarmTime => (
            StateManagerView { alarm_settings: AlarmSettingsView { minute: dial_next(s.alarm_settings.minute, 60), ..s.alarm_settings }, ..s },
            None,
        ),
        OperationMode::Alarm => alarm_press(s, Button::Yellow),
        OperationMode::Standby => (to_normal(s), Some(Events::WakeUp)),
    }
}

impl StateManager {
    /// Creates a new `StateManager`: normal mode, empty alarm settings, no alarm.
    pub fn new() -> (s: StateManager)
        ensures
            s@.operation_mode == OperationMode::Normal,
            s@.alarm_settings == (AlarmSettingsView { hour: 0, minute: 0, enabled: false, sequence: default_stop_sequence() }),
            s@.alarm_state == AlarmState::Inactive,
    {
        StateManager { operation_mode: OperationMode::Normal, alarm_settings: AlarmSettings::new_empty(), alarm_state: AlarmState::Inactive }
    }

    /// Toggle the alarm enabled state; the settings then need saving.
    pub fn toggle_alarm_enabled(&mut self) -> (event: Events)
        ensures
            final(self)@ == (StateManagerView {
                alarm_settings: AlarmSettingsView { enabled: !old(self)@.alarm_settings.enabled, ..old(self)@.alarm_settings },
                ..old(self)@
            }),
            event == Events::AlarmSettingsNeedUpdate,
    {
        let enabled = self.alarm_settings.get_enabled();
        self.alarm_settings.set_enabled(!enabled);
        self.save_alarm_settings()
    }

    /// Set the system to menu mode
    pub fn set_menu_mode(&mut self)
        ensures
            final(self)@ == (StateManagerView { operation_mode: OperationMode::Menu, ..old(self)@ }),
    {
        self.operation_mode = OperationMode::Menu;
    }

    /// Set the system to normal mode, which ends the alarm
    pub fn set_normal_mode(&mut self)
        ensures
            final(self)@ == to_normal(old(self)@),
    {
        self.operation_mode = OperationMode::Normal;
        self.set_alarm_state(AlarmState::Inactive);
    }

    /// Set the system to set alarm time mode
    pub fn set_set_alarm_time_mode(&mut self)
        ensures
            final(self)@ == (StateManagerView { operation_mode: OperationMode::SetAlarmTime, ..old(self)@ }),
    {
        self.operation_mode = OperationMode::SetAlarmTime;
    }

    /// Set the system to alarm mode, starting with the sunrise
    pub fn set_alarm_mode(&mut self)
        ensures
            final(self)@ == (StateManagerView { operation_mode: OperationMode::Alarm, alarm_state: AlarmState::Sunrise, ..old(self)@ }),
    {
        self.operation_mode = OperationMode::Alarm;
        self.set_alarm_state(AlarmState::Sunrise);
    }

    /// Set the alarm state
    pub fn set_alarm_state(&mut self, state: AlarmState)
        ensures
            final(self)@ == (StateManagerView { alarm_state: state, ..old(self)@ }),
    {
        self.alarm_state = state;
    }

    /// Set the system to system info mode
    pub fn set_system_info_mode(&mut self)
        ensures
            final(self)@ == (StateManagerView { operation_mode: OperationMode::SystemInfo, ..old(self)@ }),
    {
        self.operation_mode = OperationMode::SystemInfo;
    }

    /// Increment the alarm hour
    pub fn increment_alarm_hour(&mut self)
        ensures
            final(self)@ == (StateManagerView {
                alarm_settings: AlarmSettingsView { hour: dial_next(old(self)@.alarm_settings.hour, 24), ..old(self)@.alarm_settings },
                ..old(self)@
            }),
    {
        self.alarm_settings.increment_alarm_hour();
    }

    /// Increment the alarm minute
    pub fn increment_alarm_minute(&mut self)
        ensures
            final(self)@ == (StateManagerView {
                alarm_settings: AlarmSettingsView { minute: dial_next(old(self)@.alarm_settings.minute, 60), ..old(self)@.alarm_settings },
                ..old(self)@
            }),
    {
        self.alarm_settings.increment_alarm_minute();
    }

    /// Save the alarm settings: the event that asks for them to be written.
    pub fn save_alarm_settings(&self) -> (event: Events)
        ensures
            event == Events::AlarmSettingsNeedUpdate,
    {
        Events::AlarmSettingsNeedUpdate
    }

    /// Set the system to standby mode and announce it
    pub fn set_standby_mode(&mut self) -> (event: Events)
        ensures
            final(self)@ == (StateManagerView { operation_mode: OperationMode::Standby, ..old(self)@ }),
            event == Events::Standby,
    {
        self.operation_mode = OperationMode::Standby;
        Events::Standby
    }

    /// Wake up the system from standby mode and announce it
    pub fn wake_up(&mut self) -> (event: Events)
        ensures
            final(self)@ == to_normal(old(self)@),
            event == Events::WakeUp,
    {
        self.set_normal_mode();
        Events::WakeUp
    }

    /// Randomize the alarm stop button sequence with the given random indices
    pub fn randomize_alarm_stop_buttom_sequence(&mut self, random_indices: [usize; 3])
        requires
            forall|i: int| 0 <= i < 3 ==> random_indices[i] < 3,
        ensures
            final(self)@ == (StateManagerView {
                alarm_settings: AlarmSettingsView { sequence: shuffled_sequence(random_indices@), ..old(self)@.alarm_settings },
                ..old(self)@
            }),
    {
        self.alarm_settings.randomize_stop_alarm_button_sequence(random_indices);
    }

    /// A press of `button` during the alarm.
    fn press_during_alarm(&mut self, button: Button) -> (event: Option<Events>)
        ensures
            (final(self)@, event) == alarm_press(old(self)@, button),
    {
        if self.alarm_settings.get_first_valid_stop_alarm_button() == button {
            self.alarm_settings.erase_first_valid_stop_alarm_button();
        }
        if self.alarm_settings.is_alarm_stop_button_sequence_complete() {
            Some(Events::AlarmStop)
        } else {
            None
        }
    }

    /// Handle state changes when the green button is pressed; returns the event to send.
    pub fn handle_green_button_press(&mut self) -> (event: Option<Events>)
        ensures
            (final(self)@, event) == legacy_green(old(self)@),
    {
        match self.operation_mode {
            OperationMode::Normal => Some(self.toggle_alarm_enabled()),
            OperationMode::SetAlarmTime => {
                self.increment_alarm_hour();
                None
            },
            OperationMode::Menu => {
                self.set_system_info_mode();
                None
            },
            OperationMode::SystemInfo => {
                self.set_normal_mode();
                None
            },
            OperationMode::Alarm => self.press_during_alarm(Button::Green),
            OperationMode::Standby => Some(self.wake_up()),
        }
    }

    /// Handle state changes when the blue button is pressed; returns the event to send.
    pub fn handle_blue_button_press(&mut self) -> (event: Option<Events>)
        ensures
            (final(self)@, event) == legacy_blue(old(self)@),
    {
        match self.operation_mode {
            OperationMode::Normal => {
                self.set_set_alarm_time_mode();
                None
            },
            OperationMode::SetAlarmTime => {
                let event = self.save_alarm_settings();
                self.set_normal_mode();
                Some(event)
            },
            OperationMode::Menu => Some(self.set_standby_mode()),
            OperationMode::SystemInfo => {
                self.set_normal_mode();
                None
            },
            OperationMode::Alarm => self.press_during_alarm(Button::Blue),
            OperationMode::Standby => Some(self.wake_up()),
        }
    }

    /// Handle state changes when the yellow button is pressed; returns the event to send.
    pub fn handle_yellow_button_press(&mut self) -> (event: Option<Events>)
        ensures
            (final(self)@, event) == legacy_yellow(old(self)@),
    {
        match self.operation_mode {
            OperationMode::Normal => {
                self.set_menu_mode();
                None
            },
            OperationMode::Menu | OperationMode::SystemInfo => {
                self.set_normal_mode();
                None
            },
            OperationMode::SetAlarmTime => {
                self.increment_alarm_minute();
                None
            },
            OperationMode::Alarm => self.press_during_alarm(Button::Yellow),
            OperationMode::Standby => Some(self.wake_up()),
        }
    }
}

/// Any button wakes the system from standby, into normal mode with no alarm.
pub proof fn law_any_button_wakes(s: StateManagerView)
    requires
        s.operation_mode == OperationMode::Standby,
    ensures
        legacy_green(s) == (to_normal(s), Some(Events::WakeUp)),
        legacy_blue(s) == (to_normal(s), Some(Events::WakeUp)),
        legacy_yellow(s) == (to_normal(s), Some(Events::WakeUp)),
{
}

/// During the alarm, a wrong button leaves the stop sequence as it was.
pub proof fn law_wrong_button_changes_nothing(s: StateManagerView, button: Button)
    requires
        s.operation_mode == OperationMode::Alarm,
        first_valid_button(s.alarm_settings.sequence) != button,
    ensures
        alarm_press(s, button).0 == s,
{
}

} // verus!
