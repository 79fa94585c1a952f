//! # Orchestrate
//! The state transitions of the system: how each event changes the system state, and which
//! actions the other tasks are asked to perform, in order.
use vstd::prelude::*;

use crate::datetime::DateTime;
use crate::event::Event;
use crate::state::{
    brightness_down, brightness_up, dial_next, erase_first_valid, first_valid_button,
    sequence_complete, shuffled_sequence, volume_down, volume_up, AlarmSettings,
    AlarmSettingsView, AlarmState, DisplayState, OperationMode, SystemSettings,
    SystemSettingsView, SystemState, SystemStateView,
};
use crate::task::alarm_settings::{SettingsWriteCommand, SettingsWriteCommandView};
use crate::task::button_leds::ButtonLedCommand;
use crate::task::buttons::Button;

verus! {

/// Struct to track what has been initialized
#[derive(Debug, Clone, Copy, PartialEq, Eq, Structural)]
pub struct InitializationState {
    /// Whether the RTC has been set with valid time
    pub rtc_ready: bool,
    /// Whether alarm settings have been loaded from flash
    pub alarm_settings_loaded: bool,
}

impl InitializationState {
    /// Create a new initialization state with nothing ready
    pub fn new() -> (s: Self)
        ensures
            !s.rtc_ready,
            !s.alarm_settings_loaded,
    {
        Self { rtc_ready: false, alarm_settings_loaded: false }
    }

    /// Check if both RTC and alarm settings are ready
    pub fn is_ready(&self) -> (r: bool)
        ensures
            r == (self.rtc_ready && self.alarm_settings_loaded),
    {
        self.rtc_ready && self.alarm_settings_loaded
    }

    /// Mark RTC as ready
    pub fn mark_rtc_ready(&mut self)
        ensures
            *final(self) == (InitializationState { rtc_ready: true, ..*old(self) }),
    {
        self.rtc_ready = true;
    }

    /// Mark alarm settings as loaded
    pub fn mark_alarm_settings_loaded(&mut self)
        ensures
            *final(self) == (InitializationState { alarm_settings_loaded: true, ..*old(self) }),
    {
        self.alarm_settings_loaded = true;
    }
}

/// What the orchestrator asks the other tasks to do.
#[derive(Debug, Clone, Copy)]
pub enum Action {
    /// Redraw the display
    DisplayUpdate,
    /// Start or update the light effects with the time (hour, minute, second)
    LightFxStart(u8, u8, u8),
    /// Stop the running light effect
    LightFxStop,
    /// Reload the `NeoPixel` brightness from the system settings
    NeopixelBrightnessUpdate,
    /// Start the alarm sound
    SoundStart,
    /// Stop the alarm sound
    SoundStop,
    /// Use a new volume for the alarm sound
    SoundVolumeUpdate(u8),
    /// Control the button LEDs
    ButtonLeds(ButtonLedCommand),
    /// Resume the scheduler
    SchedulerStart,
    /// Halt the scheduler
    SchedulerStop,
    /// Wake the scheduler early
    SchedulerWake,
    /// Measure the supply voltage early
    VsysWake,
    /// Suspend the time updater
    TimeUpdaterSuspend,
    /// Resume the time updater
    TimeUpdaterResume,
    /// Reschedule the alarm
    AlarmScheduleUpdate,
    /// Disable the alarm schedule
    AlarmScheduleDisable,
    /// Write settings to flash
    Persist(SettingsWriteCommand),
    /// Set the clock to the given hour and minute, keeping the date and zeroing the seconds
    SetRtcTimeManual(u8, u8),
    /// Read the clock and enter manual time mode with its hour and minute
    EnterManualTimeMode,
}

/// The values of an action.
pub enum ActionView {
    DisplayUpdate,
    LightFxStart(u8, u8, u8),
    LightFxStop,
    NeopixelBrightnessUpdate,
    SoundStart,
    SoundStop,
    SoundVolumeUpdate(u8),
    ButtonLeds(ButtonLedCommand),
    SchedulerStart,
    SchedulerStop,
    SchedulerWake,
    VsysWake,
    TimeUpdaterSuspend,
    TimeUpdaterResume,
    AlarmScheduleUpdate,
    AlarmScheduleDisable,
    Persist(SettingsWriteCommandView),
    SetRtcTimeManual(u8, u8),
    EnterManualTimeMode,
}

impl View for Action {
    type V = ActionView;

    open spec fn view(&self) -> ActionView {
        match self {
            Action::DisplayUpdate => ActionView::DisplayUpdate,
            Action::LightFxStart(h, m, s) => ActionView::LightFxStart(*h, *m, *s),
            Action::LightFxStop => ActionView::LightFxStop,
            Action::NeopixelBrightnessUpdate => ActionView::NeopixelBrightnessUpdate,
            Action::SoundStart => ActionView::SoundStart,
            Action::SoundStop => ActionView::SoundStop,
            Action::SoundVolumeUpdate(v) => ActionView::SoundVolumeUpdate(*v),
            Action::ButtonLeds(c) => ActionView::ButtonLeds(*c),
            Action::SchedulerStart => ActionView::SchedulerStart,
            Action::SchedulerStop => ActionView::SchedulerStop,
            Action::SchedulerWake => ActionView::SchedulerWake,
            Action::VsysWake => ActionView::VsysWake,
            Action::TimeUpdaterSuspend => ActionView::TimeUpdaterSuspend,
            Action::TimeUpdaterResume => ActionView::TimeUpdaterResume,
            Action::AlarmScheduleUpdate => ActionView::AlarmScheduleUpdate,
            Action::AlarmScheduleDisable => ActionView::AlarmScheduleDisable,
            Action::Persist(c) => ActionView::Persist(c@),
            Action::SetRtcTimeManual(h, m) => ActionView::SetRtcTimeManual(*h, *m),
            Action::EnterManualTimeMode => ActionView::EnterManualTimeMode,
        }
    }
}

/// The values of a list of actions.
pub open spec fn actions_view(actions: Seq<Action>) -> Seq<ActionView> {
    actions.map_values(|a: Action| a@)
}

/// The values of an optional system state.
pub open spec fn state_view(state: Option<SystemState>) -> Option<SystemStateView> {
    match state {
        Some(s) => Some(s@),
        None => None,
    }
}

/// Append an action.
fn push_action(actions: &mut Vec<Action>, action: Action)
    ensures
        actions_view(final(actions)@) == actions_view(old(actions)@).push(action@),
{
    let ghost before = actions@;
    actions.push(action);
    assert(actions_view(actions@) =~= actions_view(before).push(action@));
}

/// Append a list of actions.
fn append_actions(actions: &mut Vec<Action>, more: Vec<Action>)
    ensures
        actions_view(final(actions)@) == actions_view(old(actions)@) + actions_view(more@),
    decreases more.len(),
{
    let ghost before = actions@;
    let mut i: usize = 0;
    while i < more.len()
        invariant
            0 <= i <= more.len(),
            actions_view(actions@) == actions_view(before) + actions_view(more@.take(i as int)),
        decreases more.len() - i,
    {
        let ghost mid = actions@;
        push_action(actions, more[i]);
        assert(more@.take(i + 1) =~= more@.take(i as int).push(more@[i as int]));
        assert(actions_view(more@.take(i + 1)) =~= actions_view(more@.take(i as int)).push(more@[i as int]@));
        i = i + 1;
    }
    assert(more@.take(more.len() as int) =~= more@);
}

/// Actions after the alarm settings changed: persist them, then reschedule the alarm (and
/// refresh the LEDs) if it is enabled, or disable the schedule (and wake the scheduler) if not.
pub open spec fn alarm_settings_update_actions(a: AlarmSettingsView) -> Seq<ActionView> {
    seq![ActionView::Persist(SettingsWriteCommandView::AlarmSettings(a))] + if a.enabled {
        seq![ActionView::LightFxStart(0, 0, 0), ActionView::AlarmScheduleUpdate]
    } else {
        seq![ActionView::AlarmScheduleDisable, ActionView::SchedulerWake]
    }
}

/// Actions after the system settings changed: persist them and update the sound and light tasks.
pub open spec fn system_settings_update_actions(s: SystemSettingsView) -> Seq<ActionView> {
    seq![
        ActionView::Persist(SettingsWriteCommandView::SystemSettings(s)),
        ActionView::SoundVolumeUpdate(s.volume),
        ActionView::NeopixelBrightnessUpdate,
    ]
}

/// Actions to set the clock manually.
pub open spec fn manual_time_set_actions(hour: u8, minute: u8) -> Seq<ActionView> {
    seq![ActionView::SetRtcTimeManual(hour, minute), ActionView::DisplayUpdate]
}

/// Actions on entering standby.
pub open spec fn standby_actions() -> Seq<ActionView> {
    seq![
        ActionView::SchedulerStop,
        ActionView::DisplayUpdate,
        ActionView::LightFxStart(0, 0, 0),
        ActionView::TimeUpdaterSuspend,
    ]
}

/// Actions on waking up from standby.
pub open spec fn wakeup_actions() -> Seq<ActionView> {
    seq![ActionView::SchedulerStart, ActionView::VsysWake, ActionView::TimeUpdaterResume]
}

/// Stopping the alarm: if it is active, return to normal mode with the display on and stop the
/// sound, the light effect and the button LEDs; otherwise nothing happens.
pub open spec fn alarm_stop_outcome(s: SystemStateView, tick: u64) -> (SystemStateView, Seq<ActionView>) {
    if s.alarm_state != AlarmState::Inactive {
        (
            SystemStateView { display_state: DisplayState::On, last_interaction_tick: tick, ..s.normal() },
            seq![
                ActionView::DisplayUpdate,
                ActionView::LightFxStop,
                ActionView::LightFxStart(0, 0, 0),
                ActionView::SoundStop,
                ActionView::ButtonLeds(ButtonLedCommand::Off),
            ],
        )
    } else {
        (s, seq![])
    }
}

/// A press during the alarm: the expected button is struck off the sequence; once all are struck
/// off, the alarm stops.
pub open spec fn stop_sequence_press(s: SystemStateView, button: Button, tick: u64) -> (SystemStateView, Seq<ActionView>) {
    let a = s.alarm_settings;
    let a2 = if first_valid_button(a.sequence) == button {
        AlarmSettingsView { sequence: erase_first_valid(a.sequence), ..a }
    } else {
        a
    };
    let s2 = SystemStateView { alarm_settings: a2, ..s };
    if sequence_complete(a2.sequence) {
        alarm_stop_outcome(s2, tick)
    } else {
        (s2, seq![])
    }
}

/// The green button: toggle the alarm, increase values, choose the first option.
pub open spec fn green_press(s0: SystemStateView, tick: u64) -> (SystemStateView, Seq<ActionView>) {
    let s = SystemStateView { last_interaction_tick: tick, ..s0 };
    match s.operation_mode {
        OperationMode::Initializing => (s, seq![]),
        OperationMode::Normal => {
            let a = AlarmSettingsView { enabled: !s.alarm_settings.enabled, ..s.alarm_settings };
            (SystemStateView { alarm_settings: a, ..s }, alarm_settings_update_actions(a))
        },
        OperationMode::SetAlarmTime => (
            SystemStateView {
                alarm_settings: AlarmSettingsView { hour: dial_next(s.alarm_settings.hour, 24), ..s.alarm_settings },
                ..s
            },
            seq![],
        ),
        OperationMode::Menu => (s.in_mode(OperationMode::SettingsMenu), seq![]),
        OperationMode::SystemInfo => if s.system_info_page == 0 {
            (SystemStateView { system_info_page: 1, ..s }, seq![])
        } else {
            (s.normal(), seq![])
        },
        OperationMode::SettingsMenu => (s.in_mode(OperationMode::SetVolume), seq![]),
        OperationMode::SetVolume => (
            SystemStateView {
                system_settings: SystemSettingsView { volume: volume_up(s.system_settings.volume), ..s.system_settings },
                ..s
            },
            seq![],
        ),
        OperationMode::SetClockBrightness => (
            SystemStateView {
                system_settings: SystemSettingsView {
                    clock_brightness: brightness_up(s.system_settings.clock_brightness),
                    ..s.system_settings
                },
                ..s
            },
            seq![ActionView::NeopixelBrightnessUpdate],
        ),
        OperationMode::SetTimeManual => (
            SystemStateView { manual_time_buffer: (dial_next(s.manual_time_buffer.0, 24), s.manual_time_buffer.1), ..s },
            seq![],
        ),
        OperationMode::Alarm => stop_sequence_press(s, Button::Green, tick),
        OperationMode::Standby => (s.normal(), wakeup_actions()),
    }
}

/// The blue button: set the alarm, save and confirm, enter standby.
pub open spec fn blue_press(s0: SystemStateView, tick: u64) -> (SystemStateView, Seq<ActionView>) {
    let s = SystemStateView { last_interaction_tick: tick, ..s0 };
    match s.operation_mode {
        OperationMode::Initializing => (s, seq![]),
        OperationMode::Normal => (s.in_mode(OperationMode::SetAlarmTime), seq![]),
        OperationMode::SetAlarmTime => (s.normal(), alarm_settings_update_actions(s.alarm_settings)),
        OperationMode::Menu => (s.in_mode(OperationMode::Standby), standby_actions()),
        OperationMode::SystemInfo => (s.normal(), seq![]),
        OperationMode::SettingsMenu => (s.in_mode(OperationMode::SetClockBrightness), seq![]),
        OperationMode::SetVolume | OperationMode::SetClockBrightness => (
            s.in_mode(OperationMode::SettingsMenu),
            system_settings_update_actions(s.system_settings),
        ),
        OperationMode::SetTimeManual => (
            s.in_mode(OperationMode::SettingsMenu),
            manual_time_set_actions(s.manual_time_buffer.0, s.manual_time_buffer.1),
        ),
        OperationMode::Alarm => stop_sequence_press(s, Button::Blue, tick),
        OperationMode::Standby => (s.normal(), wakeup_actions()),
    }
}

/// The yellow button: open the menu, go back, decrease values.
pub open spec fn yellow_press(s0: SystemStateView, tick: u64) -> (SystemStateView, Seq<ActionView>) {
    let s = SystemStateView { last_interaction_tick: tick, ..s0 };
    match s.operation_mode {
        OperationMode::Initializing => (s, seq![]),
        OperationMode::Normal => (s.in_mode(OperationMode::Menu), seq![]),
        OperationMode::Menu => (
            SystemStateView { operation_mode: OperationMode::SystemInfo, system_info_page: 0, ..s },
            seq![],
        ),
        OperationMode::SystemInfo => (s.normal(), seq![]),
        OperationMode::SettingsMenu => (s, seq![ActionView::EnterManualTimeMode]),
        OperationMode::SetAlarmTime => (
            SystemStateView {
                alarm_settings: AlarmSettingsView { minute: dial_next(s.alarm_settings.minute, 60), ..s.alarm_settings },
                ..s
            },
            seq![],
        ),
        OperationMode::SetVolume => (
            SystemStateView {
                system_settings: SystemSettingsView { volume: volume_down(s.system_settings.volume), ..s.system_settings },
                ..s
            },
            seq![],
        ),
        OperationMode::SetClockBrightness => (
            SystemStateView {
                system_settings: SystemSettingsView {
                    clock_brightness: brightness_down(s.system_settings.clock_brightness),
                    ..s.system_settings
                },
                ..s
            },
            seq![ActionView::NeopixelBrightnessUpdate],
        ),
        OperationMode::SetTimeManual => (
            SystemStateView { manual_time_buffer: (s.manual_time_buffer.0, dial_next(s.manual_time_buffer.1, 60)), ..s },
            seq![],
        ),
        OperationMode::Alarm => stop_sequence_press(s, Button::Yellow, tick),
        OperationMode::Standby => (s.normal(), wakeup_actions()),
    }
}

/// The outcome of a press of one of the three buttons (`Green`, `Blue` or `Yellow`).
pub open spec fn press_outcome(s: SystemStateView, button: Button, tick: u64) -> (SystemStateView, Seq<ActionView>) {
    if button == Button::Green {
        green_press(s, tick)
    } else if button == Button::Blue {
        blue_press(s, tick)
    } else {
        yellow_press(s, tick)
    }
}

/// A button event: a press while the display is off only wakes the display; otherwise the press
/// takes effect, the display is redrawn, and outside alarm mode the button LEDs light up for a
/// while.
pub open spec fn button_event_outcome(state: Option<SystemStateView>, button: Button, tick: u64) -> (Option<SystemStateView>, Seq<ActionView>) {
    match state {
        None => (None, seq![ActionView::DisplayUpdate]),
        Some(s) => if s.display_state == DisplayState::Off {
            (
                Some(SystemStateView { display_state: DisplayState::On, last_interaction_tick: tick, ..s }),
                seq![ActionView::DisplayUpdate],
            )
        } else {
            let (s2, acts) = press_outcome(s, button, tick);
            (
                Some(s2),
                acts + seq![ActionView::DisplayUpdate] + if s2.operation_mode != OperationMode::Alarm {
                    seq![ActionView::ButtonLeds(ButtonLedCommand::OnWithTimeout)]
                } else {
                    seq![]
                },
            )
        },
    }
}

/// The outcome of an interactive mode timing out: pending changes are saved and the system
/// returns to normal mode.
pub open spec fn timeout_outcome(s: SystemStateView) -> (SystemStateView, Seq<ActionView>) {
    let save = match s.operation_mode {
        OperationMode::SetVolume | OperationMode::SetClockBrightness => system_settings_update_actions(s.system_settings),
        OperationMode::SetTimeManual => manual_time_set_actions(s.manual_time_buffer.0, s.manual_time_buffer.1),
        OperationMode::SetAlarmTime => alarm_settings_update_actions(s.alarm_settings),
        _ => seq![],
    };
    (s.normal(), save + seq![ActionView::DisplayUpdate])
}

/// The outcome of the initialization completing.
pub open spec fn system_ready_outcome(state: Option<SystemStateView>) -> (Option<SystemStateView>, Seq<ActionView>) {
    match state {
        None => (None, seq![]),
        Some(s) => (
            Some(if s.operation_mode == OperationMode::Initializing { s.in_mode(OperationMode::Normal) } else { s }),
            seq![ActionView::DisplayUpdate, ActionView::SchedulerWake],
        ),
    }
}

/// How an event changes the system state and the initialization state, and the actions it asks
/// for, in order. `random_indices` are the random draws used when the alarm is raised.
pub open spec fn event_outcome(
    state: Option<SystemStateView>,
    init: InitializationState,
    event: Event,
    tick: u64,
    random_indices: Seq<usize>,
) -> (Option<SystemStateView>, InitializationState, Seq<ActionView>) {
    match event {
        Event::BlueBtn => {
            let (s, a) = button_event_outcome(state, Button::Blue, tick);
            (s, init, a)
        },
        Event::GreenBtn => {
            let (s, a) = button_event_outcome(state, Button::Green, tick);
            (s, init, a)
        },
        Event::YellowBtn => {
            let (s, a) = button_event_outcome(state, Button::Yellow, tick);
            (s, init, a)
        },
        Event::InteractiveModeTimeout => match state {
            None => (None, init, seq![]),
            Some(s) => {
                let (s2, a) = timeout_outcome(s);
                (Some(s2), init, a)
            },
        },
        Event::DisplaySleepTimeout => match state {
            None => (None, init, seq![]),
            Some(s) => if s.alarm_display_sleep_due(tick) {
                (Some(SystemStateView { display_state: DisplayState::Off, ..s }), init, seq![ActionView::DisplayUpdate])
            } else {
                (Some(s), init, seq![])
            },
        },
        Event::AlarmSettingsReadFromFlash(a) => match state {
            None => (None, init, seq![]),
            Some(s) => {
                let init2 = InitializationState { alarm_settings_loaded: true, ..init };
                let s2 = SystemStateView { alarm_settings: a@, ..s };
                if init2.rtc_ready {
                    let (s3, acts) = system_ready_outcome(Some(s2));
                    (s3, init2, acts)
                } else {
                    (Some(s2), init2, seq![])
                }
            },
        },
        Event::SystemSettingsReadFromFlash(ss) => match state {
            None => (None, init, seq![]),
            Some(s) => (
                Some(SystemStateView { system_settings: ss@, ..s }),
                init,
                seq![ActionView::SoundVolumeUpdate(ss@.volume), ActionView::NeopixelBrightnessUpdate],
            ),
        },
        Event::Scheduler((hour, minute, second)) => match state {
            None => (None, init, seq![]),
            Some(s) => if s.operation_mode == OperationMode::Initializing {
                (Some(s), init, seq![])
            } else if s.alarm_state == AlarmState::Inactive && !s.alarm_settings.enabled {
                (Some(s), init, seq![ActionView::LightFxStart(hour, minute, second), ActionView::DisplayUpdate])
            } else {
                (Some(s), init, seq![ActionView::DisplayUpdate])
            },
        },
        Event::RtcUpdated => {
            let init2 = InitializationState { rtc_ready: true, ..init };
            if init2.alarm_settings_loaded {
                let (s2, acts) = system_ready_outcome(state);
                (s2, init2, acts + seq![ActionView::DisplayUpdate])
            } else {
                (state, init2, seq![ActionView::DisplayUpdate])
            }
        },
        Event::Alarm => match state {
            None => (None, init, seq![]),
            Some(s) => (
                Some(SystemStateView {
                    alarm_settings: AlarmSettingsView { sequence: shuffled_sequence(random_indices), ..s.alarm_settings },
                    operation_mode: OperationMode::Alarm,
                    alarm_state: AlarmState::Sunrise,
                    display_state: DisplayState::On,
                    ..s
                }),
                init,
                seq![
                    ActionView::DisplayUpdate,
                    ActionView::LightFxStart(0, 0, 0),
                    ActionView::ButtonLeds(ButtonLedCommand::On),
                ],
            ),
        },
        Event::AlarmStop => match state {
            None => (None, init, seq![]),
            Some(s) => {
                let (s2, a) = alarm_stop_outcome(s, tick);
                (Some(s2), init, a)
            },
        },
        Event::SunriseEffectFinished => match state {
            None => (None, init, seq![]),
            Some(s) => (
                Some(SystemStateView { alarm_state: AlarmState::Noise, ..s }),
                init,
                seq![ActionView::SoundStart, ActionView::LightFxStart(0, 0, 0)],
            ),
        },
    }
}

/// Actions after the alarm settings changed.
fn handle_alarm_settings_update(alarm_settings: AlarmSettings) -> (actions: Vec<Action>)
    ensures
        actions_view(actions@) == alarm_settings_update_actions(alarm_settings@),
{
    let mut actions = Vec::new();
    push_action(&mut actions, Action::Persist(SettingsWriteCommand::AlarmSettings(alarm_settings)));
    if alarm_settings.get_enabled() {
        push_action(&mut actions, Action::LightFxStart(0, 0, 0));
        push_action(&mut actions, Action::AlarmScheduleUpdate);
    } else {
        push_action(&mut actions, Action::AlarmScheduleDisable);
        push_action(&mut actions, Action::SchedulerWake);
    }
    assert(actions_view(actions@) =~= alarm_settings_update_actions(alarm_settings@));
    actions
}

/// Actions after the system settings changed.
fn handle_system_settings_update(system_settings: SystemSettings) -> (actions: Vec<Action>)
    ensures
        actions_view(actions@) == system_settings_update_actions(system_settings@),
{
    let mut actions = Vec::new();
    push_action(&mut actions, Action::Persist(SettingsWriteCommand::SystemSettings(system_settings)));
    push_action(&mut actions, Action::SoundVolumeUpdate(system_settings.get_volume()));
    push_action(&mut actions, Action::NeopixelBrightnessUpdate);
    assert(actions_view(actions@) =~= system_settings_update_actions(system_settings@));
    actions
}

/// Actions to set the clock manually.
fn handle_manual_time_set(hour: u8, minute: u8) -> (actions: Vec<Action>)
    ensures
        actions_view(actions@) == manual_time_set_actions(hour, minute),
{
    let mut actions = Vec::new();
    push_action(&mut actions, Action::SetRtcTimeManual(hour, minute));
    push_action(&mut actions, Action::DisplayUpdate);
    assert(actions_view(actions@) =~= manual_time_set_actions(hour, minute));
    actions
}

/// Actions on entering standby: stop the scheduler, redraw, refresh the LEDs, suspend the time updater.
fn handle_standby_event() -> (actions: Vec<Action>)
    ensures
        actions_view(actions@) == standby_actions(),
{
    let mut actions = Vec::new();
    push_action(&mut actions, Action::SchedulerStop);
    push_action(&mut actions, Action::DisplayUpdate);
    push_action(&mut actions, Action::LightFxStart(0, 0, 0));
    push_action(&mut actions, Action::TimeUpdaterSuspend);
    assert(actions_view(actions@) =~= standby_actions());
    actions
}

/// Actions on waking up: start the scheduler, measure the voltage, resume the time updater.
fn handle_wakeup_event() -> (actions: Vec<Action>)
    ensures
        actions_view(actions@) == wakeup_actions(),
{
    let mut actions = Vec::new();
    push_action(&mut actions, Action::SchedulerStart);
    push_action(&mut actions, Action::VsysWake);
    push_action(&mut actions, Action::TimeUpdaterResume);
    assert(actions_view(actions@) =~= wakeup_actions());
    actions
}

/// Handles the alarm stop event by transitioning back to normal mode.
fn handle_alarm_stop_event(system_state: &mut SystemState, now_tick: u64) -> (actions: Vec<Action>)
    ensures
        (final(system_state)@, actions_view(actions@)) == alarm_stop_outcome(old(system_state)@, now_tick),
{
    let mut actions = Vec::new();
    if system_state.alarm_state.is_active() {
        system_state.set_normal_mode();
        system_state.set_display_on();
        system_state.update_interaction_tick(now_tick);
        push_action(&mut actions, Action::DisplayUpdate);
        push_action(&mut actions, Action::LightFxStop);
        push_action(&mut actions, Action::LightFxStart(0, 0, 0));
        push_action(&mut actions, Action::SoundStop);
        push_action(&mut actions, Action::ButtonLeds(ButtonLedCommand::Off));
    }
    assert(actions_view(actions@) =~= alarm_stop_outcome(old(system_state)@, now_tick).1);
    actions
}

/// A press during the alarm: strike the expected button off the sequence, stop once complete.
fn handle_stop_sequence_press(system_state: &mut SystemState, button: Button, now_tick: u64) -> (actions: Vec<Action>)
    ensures
        (final(system_state)@, actions_view(actions@)) == stop_sequence_press(old(system_state)@, button, now_tick),
{
    if system_state.alarm_settings.get_first_valid_stop_alarm_button() == button {
        system_state.alarm_settings.erase_first_valid_stop_alarm_button();
    }
    if system_state.alarm_settings.is_alarm_stop_button_sequence_complete() {
        handle_alarm_stop_event(system_state, now_tick)
    } else {
        let actions = Vec::new();
        assert(actions_view(actions@) =~= seq![]);
        actions
    }
}

/// Handle state changes when the green button is pressed
pub fn handle_green_button_press(system_state: &mut SystemState, now_tick: u64) -> (actions: Vec<Action>)
    ensures
        (final(system_state)@, actions_view(actions@)) == green_press(old(system_state)@, now_tick),
{
    system_state.update_interaction_tick(now_tick);
    let mut actions: Vec<Action> = Vec::new();
    match system_state.operation_mode {
        OperationMode::Initializing => {},
        OperationMode::Normal => {
            system_state.toggle_alarm_enabled();
            actions = handle_alarm_settings_update(system_state.alarm_settings);
        },
        OperationMode::SetAlarmTime => {
            system_state.increment_alarm_hour();
        },
        OperationMode::Menu => {
            system_state.set_settings_menu_mode();
        },
        OperationMode::SystemInfo => {
            if !system_state.next_system_info_page() {
                system_state.set_normal_mode();
            }
        },
        OperationMode::SettingsMenu => {
            system_state.set_volume_mode();
        },
        OperationMode::SetVolume => {
            system_state.system_settings.increment_volume();
        },
        OperationMode::SetClockBrightness => {
            system_state.system_settings.increment_clock_brightness();
            push_action(&mut actions, Action::NeopixelBrightnessUpdate);
        },
        OperationMode::SetTimeManual => {
            system_state.increment_manual_hour();
        },
        OperationMode::Alarm => {
            actions = handle_stop_sequence_press(system_state, Button::Green, now_tick);
        },
        OperationMode::Standby => {
            system_state.wake_up();
            actions = handle_wakeup_event();
        },
    }
    assert(actions_view(actions@) =~= green_press(old(system_state)@, now_tick).1);
    actions
}

/// Handle state changes when the blue button is pressed
pub fn handle_blue_button_press(system_state: &mut SystemState, now_tick: u64) -> (actions: Vec<Action>)
    ensures
        (final(system_state)@, actions_view(actions@)) == blue_press(old(system_state)@, now_tick),
{
    system_state.update_interaction_tick(now_tick);
    let mut actions: Vec<Action> = Vec::new();
    match system_state.operation_mode {
        OperationMode::Initializing => {},
        OperationMode::Normal => {
            system_state.set_set_alarm_time_mode();
        },
        OperationMode::SetAlarmTime => {
            actions = handle_alarm_settings_update(system_state.alarm_settings);
            system_state.set_normal_mode();
        },
        OperationMode::Menu => {
            system_state.set_standby_mode();
            actions = handle_standby_event();
        },
        OperationMode::SystemInfo => {
            system_state.set_normal_mode();
        },
        OperationMode::SettingsMenu => {
            system_state.set_clock_brightness_mode();
        },
        OperationMode::SetVolume | OperationMode::SetClockBrightness => {
            actions = handle_system_settings_update(system_state.system_settings);
            system_state.set_settings_menu_mode();
        },
        OperationMode::SetTimeManual => {
            let (hour, minute) = system_state.manual_time_buffer;
            actions = handle_manual_time_set(hour, minute);
            system_state.set_settings_menu_mode();
        },
        OperationMode::Alarm => {
            actions = handle_stop_sequence_press(system_state, Button::Blue, now_tick);
        },
        OperationMode::Standby => {
            system_state.wake_up();
            actions = handle_wakeup_event();
        },
    }
    assert(actions_view(actions@) =~= blue_press(old(system_state)@, now_tick).1);
    actions
}

/// Handle state changes when the yellow button is pressed
pub fn handle_yellow_button_press(system_state: &mut SystemState, now_tick: u64) -> (actions: Vec<Action>)
    ensures
        (final(system_state)@, actions_view(actions@)) == yellow_press(old(system_state)@, now_tick),
{
    system_state.update_interaction_tick(now_tick);
    let mut actions: Vec<Action> = Vec::new();
    match system_state.operation_mode {
        OperationMode::Initializing => {},
        OperationMode::Normal => {
            system_state.set_menu_mode();
        },
        OperationMode::Menu => {
            system_state.set_system_info_mode();
        },
        OperationMode::SystemInfo => {
            system_state.set_normal_mode();
        },
        OperationMode::SettingsMenu => {
            push_action(&mut actions, Action::EnterManualTimeMode);
        },
        OperationMode::SetAlarmTime => {
            system_state.increment_alarm_minute();
        },
        OperationMode::SetVolume => {
            system_state.system_settings.decrement_volume();
        },
        OperationMode::SetClockBrightness => {
            system_state.system_settings.decrement_clock_brightness();
            push_action(&mut actions, Action::NeopixelBrightnessUpdate);
        },
        OperationMode::SetTimeManual => {
            system_state.increment_manual_minute();
        },
        OperationMode::Alarm => {
            actions = handle_stop_sequence_press(system_state, Button::Yellow, now_tick);
        },
        OperationMode::Standby => {
            system_state.wake_up();
            actions = handle_wakeup_event();
        },
    }
    assert(actions_view(actions@) =~= yellow_press(old(system_state)@, now_tick).1);
    actions
}

/// Waking the display if it is off; returns whether the press was used up for that.
fn handle_display_wake_if_off(system_state: &mut SystemState, now_tick: u64) -> (woken: bool)
    ensures
        woken == (old(system_state).display_state == DisplayState::Off),
        woken ==> final(system_state)@ == (SystemStateView { display_state: DisplayState::On, last_interaction_tick: now_tick, ..old(system_state)@ }),
        !woken ==> *final(system_state) == *old(system_state),
{
    if system_state.is_display_off() {
        system_state.set_display_on();
        system_state.update_interaction_tick(now_tick);
        true
    } else {
        false
    }
}

/// Handles a press of the green, blue or yellow button.
fn handle_button_event(state: &mut Option<SystemState>, button: Button, now_tick: u64) -> (actions: Vec<Action>)
    requires
        button == Button::Green || button == Button::Blue || button == Button::Yellow,
    ensures
        (state_view(*final(state)), actions_view(actions@)) == button_event_outcome(state_view(*old(state)), button, now_tick),
{
    let mut actions: Vec<Action> = Vec::new();
    match *state {
        None => {
            push_action(&mut actions, Action::DisplayUpdate);
            assert(actions_view(actions@) =~= seq![ActionView::DisplayUpdate]);
        },
        Some(s) => {
            let mut system_state = s;
            if handle_display_wake_if_off(&mut system_state, now_tick) {
                push_action(&mut actions, Action::DisplayUpdate);
                assert(actions_view(actions@) =~= seq![ActionView::DisplayUpdate]);
            } else {
                actions = if button == Button::Green {
                    handle_green_button_press(&mut system_state, now_tick)
                } else if button == Button::Blue {
                    handle_blue_button_press(&mut system_state, now_tick)
                } else {
                    handle_yellow_button_press(&mut system_state, now_tick)
                };
                push_action(&mut actions, Action::DisplayUpdate);
                if system_state.operation_mode != OperationMode::Alarm {
                    push_action(&mut actions, Action::ButtonLeds(ButtonLedCommand::OnWithTimeout));
                }
                assert(actions_view(actions@) =~= button_event_outcome(state_view(*old(state)), button, now_tick).1);
            }
            *state = Some(system_state);
        },
    }
    actions
}

/// Handles interactive mode timeout by auto-saving changes and returning to normal mode
fn handle_interactive_mode_timeout_event(system_state: &mut SystemState) -> (actions: Vec<Action>)
    ensures
        (final(system_state)@, actions_view(actions@)) == timeout_outcome(old(system_state)@),
{
    let mut actions: Vec<Action> = Vec::new();
    match system_state.operation_mode {
        OperationMode::SetVolume | OperationMode::SetClockBrightness => {
            actions = handle_system_settings_update(system_state.system_settings);
        },
        OperationMode::SetTimeManual => {
            let (hour, minute) = system_state.manual_time_buffer;
            actions = handle_manual_time_set(hour, minute);
        },
        OperationMode::SetAlarmTime => {
            actions = handle_alarm_settings_update(system_state.alarm_settings);
        },
        _ => {},
    }
    system_state.set_normal_mode();
    push_action(&mut actions, Action::DisplayUpdate);
    assert(actions_view(actions@) =~= timeout_outcome(old(system_state)@).1);
    actions
}

/// Handles system ready event (initialization complete)
fn handle_system_ready_event(state: &mut Option<SystemState>) -> (actions: Vec<Action>)
    ensures
        (state_view(*final(state)), actions_view(actions@)) == system_ready_outcome(state_view(*old(state))),
{
    let mut actions: Vec<Action> = Vec::new();
    match *state {
        None => {
            assert(actions_view(actions@) =~= seq![]);
        },
        Some(s) => {
            let mut system_state = s;
            system_state.complete_initialization();
            *state = Some(system_state);
            push_action(&mut actions, Action::DisplayUpdate);
            push_action(&mut actions, Action::SchedulerWake);
            assert(actions_view(actions@) =~= seq![ActionView::DisplayUpdate, ActionView::SchedulerWake]);
        },
    }
    actions
}

/// The outcome of an event, as seen from the handler of that event.
pub open spec fn outcome_of(
    old_state: Option<SystemState>,
    old_init: InitializationState,
    event: Event,
    tick: u64,
    random_indices: [usize; 3],
    new_state: Option<SystemState>,
    new_init: InitializationState,
    actions: Seq<Action>,
) -> bool {
    (state_view(new_state), new_init, actions_view(actions))
        == event_outcome(state_view(old_state), old_init, event, tick, random_indices@)
}

/// Handles a button event.
fn handle_button(state: &mut Option<SystemState>, init: &mut InitializationState, event: Event, now_tick: u64, random_indices: [usize; 3]) -> (actions: Vec<Action>)
    requires
        event is BlueBtn || event is GreenBtn || event is YellowBtn,
    ensures
        outcome_of(*old(state), *old(init), event, now_tick, random_indices, *final(state), *final(init), actions@),
{
    let button = match event {
        Event::BlueBtn => Button::Blue,
        Event::GreenBtn => Button::Green,
        _ => Button::Yellow,
    };
    handle_button_event(state, button, now_tick)
}

/// Handles the interactive mode timeout event.
fn handle_timeout(state: &mut Option<SystemState>, init: &mut InitializationState, now_tick: u64, random_indices: [usize; 3]) -> (actions: Vec<Action>)
    ensures
        outcome_of(*old(state), *old(init), Event::InteractiveModeTimeout, now_tick, random_indices, *final(state), *final(init), actions@),
{
    let mut actions: Vec<Action> = Vec::new();
    if let Some(s) = *state {
        let mut system_state = s;
        actions = handle_interactive_mode_timeout_event(&mut system_state);
        *state = Some(system_state);
    } else {
        assert(actions_view(actions@) =~= seq![]);
    }
    actions
}

/// Handles the alarm-enabled display sleep timeout
fn handle_display_sleep_timeout_event(state: &mut Option<SystemState>, init: &mut InitializationState, now_tick: u64, random_indices: [usize; 3]) -> (actions: Vec<Action>)
    ensures
        outcome_of(*old(state), *old(init), Event::DisplaySleepTimeout, now_tick, random_indices, *final(state), *final(init), actions@),
{
    let mut actions: Vec<Action> = Vec::new();
    if let Some(s) = *state {
        let mut system_state = s;
        if system_state.should_alarm_display_sleep(now_tick) {
            system_state.set_display_off();
            push_action(&mut actions, Action::DisplayUpdate);
        }
        *state = Some(system_state);
    }
    assert(actions_view(actions@) =~= event_outcome(state_view(*old(state)), *old(init), Event::DisplaySleepTimeout, now_tick, random_indices@).2);
    actions
}

/// Handles alarm settings loaded from flash
fn handle_alarm_settings_read_event(state: &mut Option<SystemState>, init: &mut InitializationState, alarm_settings: AlarmSettings, now_tick: u64, random_indices: [usize; 3]) -> (actions: Vec<Action>)
    ensures
        outcome_of(*old(state), *old(init), Event::AlarmSettingsReadFromFlash(alarm_settings), now_tick, random_indices, *final(state), *final(init), actions@),
{
    let mut actions: Vec<Action> = Vec::new();
    if let Some(s) = *state {
        let mut system_state = s;
        system_state.alarm_settings = alarm_settings;
        *state = Some(system_state);
        init.mark_alarm_settings_loaded();
        if init.is_ready() {
            actions = handle_system_ready_event(state);
        } else {
            assert(actions_view(actions@) =~= seq![]);
        }
    } else {
        assert(actions_view(actions@) =~= seq![]);
    }
    actions
}

/// Handles system settings loaded from flash
fn handle_system_settings_read_event(state: &mut Option<SystemState>, init: &mut InitializationState, system_settings: SystemSettings, now_tick: u64, random_indices: [usize; 3]) -> (actions: Vec<Action>)
    ensures
        outcome_of(*old(state), *old(init), Event::SystemSettingsReadFromFlash(system_settings), now_tick, random_indices, *final(state), *final(init), actions@),
{
    let mut actions: Vec<Action> = Vec::new();
    if let Some(s) = *state {
        let mut system_state = s;
        let volume = system_settings.get_volume();
        system_state.system_settings = system_settings;
        *state = Some(system_state);
        push_action(&mut actions, Action::SoundVolumeUpdate(volume));
        push_action(&mut actions, Action::NeopixelBrightnessUpdate);
    }
    assert(actions_view(actions@) =~= event_outcome(state_view(*old(state)), *old(init), Event::SystemSettingsReadFromFlash(system_settings), now_tick, random_indices@).2);
    actions
}

/// Handles the scheduler event which updates display and light effects.
fn handle_scheduler_event(state: &mut Option<SystemState>, init: &mut InitializationState, time: (u8, u8, u8), now_tick: u64, random_indices: [usize; 3]) -> (actions: Vec<Action>)
    ensures
        outcome_of(*old(state), *old(init), Event::Scheduler(time), now_tick, random_indices, *final(state), *final(init), actions@),
{
    let (hour, minute, second) = time;
    let mut actions: Vec<Action> = Vec::new();
    if let Some(s) = *state {
        if s.operation_mode != OperationMode::Initializing {
            if s.alarm_state == AlarmState::Inactive && !s.alarm_settings.get_enabled() {
                push_action(&mut actions, Action::LightFxStart(hour, minute, second));
            }
            push_action(&mut actions, Action::DisplayUpdate);
        }
    }
    assert(actions_view(actions@) =~= event_outcome(state_view(*old(state)), *old(init), Event::Scheduler(time), now_tick, random_indices@).2);
    actions
}

/// Handles RTC update completion
fn handle_rtc_updated_event(state: &mut Option<SystemState>, init: &mut InitializationState, now_tick: u64, random_indices: [usize; 3]) -> (actions: Vec<Action>)
    ensures
        outcome_of(*old(state), *old(init), Event::RtcUpdated, now_tick, random_indices, *final(state), *final(init), actions@),
{
    let mut actions: Vec<Action> = Vec::new();
    init.mark_rtc_ready();
    if init.is_ready() {
        actions = handle_system_ready_event(state);
    }
    push_action(&mut actions, Action::DisplayUpdate);
    assert(actions_view(actions@) =~= event_outcome(state_view(*old(state)), *old(init), Event::RtcUpdated, now_tick, random_indices@).2);
    actions
}

/// Handles the alarm event by initializing alarm mode and starting effects.
fn handle_alarm_event(state: &mut Option<SystemState>, init: &mut InitializationState, now_tick: u64, random_indices: [usize; 3]) -> (actions: Vec<Action>)
    requires
        forall|i: int| 0 <= i < 3 ==> random_indices[i] < 3,
    ensures
        outcome_of(*old(state), *old(init), Event::Alarm, now_tick, random_indices, *final(state), *final(init), actions@),
{
    let mut actions: Vec<Action> = Vec::new();
    if let Some(s) = *state {
        let mut system_state = s;
        system_state.randomize_alarm_stop_button_sequence(random_indices);
        system_state.set_alarm_mode();
        system_state.set_display_on();
        *state = Some(system_state);
        push_action(&mut actions, Action::DisplayUpdate);
        push_action(&mut actions, Action::LightFxStart(0, 0, 0));
        push_action(&mut actions, Action::ButtonLeds(ButtonLedCommand::On));
    }
    assert(actions_view(actions@) =~= event_outcome(state_view(*old(state)), *old(init), Event::Alarm, now_tick, random_indices@).2);
    actions
}

/// Handles the alarm stop event.
fn handle_alarm_stop(state: &mut Option<SystemState>, init: &mut InitializationState, now_tick: u64, random_indices: [usize; 3]) -> (actions: Vec<Action>)
    ensures
        outcome_of(*old(state), *old(init), Event::AlarmStop, now_tick, random_indices, *final(state), *final(init), actions@),
{
    let mut actions: Vec<Action> = Vec::new();
    if let Some(s) = *state {
        let mut system_state = s;
        actions = handle_alarm_stop_event(&mut system_state, now_tick);
        *state = Some(system_state);
    } else {
        assert(actions_view(actions@) =~= seq![]);
    }
    actions
}

/// Handles the sunrise effect finished event by transitioning to noise phase.
fn handle_sunrise_effect_finished_event(state: &mut Option<SystemState>, init: &mut InitializationState, now_tick: u64, random_indices: [usize; 3]) -> (actions: Vec<Action>)
    ensures
        outcome_of(*old(state), *old(init), Event::SunriseEffectFinished, now_tick, random_indices, *final(state), *final(init), actions@),
{
    let mut actions: Vec<Action> = Vec::new();
    if let Some(s) = *state {
        let mut system_state = s;
        system_state.set_alarm_state(AlarmState::Noise);
        *state = Some(system_state);
        push_action(&mut actions, Action::SoundStart);
        push_action(&mut actions, Action::LightFxStart(0, 0, 0));
    }
    assert(actions_view(actions@) =~= event_outcome(state_view(*old(state)), *old(init), Event::SunriseEffectFinished, now_tick, random_indices@).2);
    actions
}

/// Handles a single event: updates the system state and the initialization state and returns
/// the actions the other tasks are asked to perform, in order. `random_indices` are random draws
/// below 3, used to shuffle the stop sequence when the alarm is raised.
pub fn handle_event(
    state: &mut Option<SystemState>,
    init: &mut InitializationState,
    event: Event,
    now_tick: u64,
    random_indices: [usize; 3],
) -> (actions: Vec<Action>)
    requires
        forall|i: int| 0 <= i < 3 ==> random_indices[i] < 3,
    ensures
        (state_view(*final(state)), *final(init), actions_view(actions@))
            == event_outcome(state_view(*old(state)), *old(init), event, now_tick, random_indices@),
{
    match event {
        Event::BlueBtn | Event::GreenBtn | Event::YellowBtn => handle_button(state, init, event, now_tick, random_indices),
        Event::InteractiveModeTimeout => handle_timeout(state, init, now_tick, random_indices),
        Event::DisplaySleepTimeout => handle_display_sleep_timeout_event(state, init, now_tick, random_indices),
        Event::AlarmSettingsReadFromFlash(a) => handle_alarm_settings_read_event(state, init, a, now_tick, random_indices),
        Event::SystemSettingsReadFromFlash(s) => handle_system_settings_read_event(state, init, s, now_tick, random_indices),
        Event::Scheduler(time) => handle_scheduler_event(state, init, time, now_tick, random_indices),
        Event::RtcUpdated => handle_rtc_updated_event(state, init, now_tick, random_indices),
        Event::Alarm => handle_alarm_event(state, init, now_tick, random_indices),
        Event::AlarmStop => handle_alarm_stop(state, init, now_tick, random_indices),
        Event::SunriseEffectFinished => handle_sunrise_effect_finished_event(state, init, now_tick, random_indices),
    }
}

/// Milliseconds between two scheduler ticks while the analog clock runs: with 16 LEDs for 60
/// seconds each LED stands for about 3.75 seconds, so a tick every second keeps it smooth.
pub const ANALOG_CLOCK_UPDATE_INTERVAL_MS: u64 = 1000;

/// Milliseconds between two scheduler ticks while the alarm is enabled (the RTC raises the alarm).
pub const ALARM_ENABLED_UPDATE_INTERVAL_MS: u64 = 10_000;

/// Milliseconds between two checks for the interactive and display timeouts.
pub const TIMEOUT_CHECK_INTERVAL_MS: u64 = 1000;

/// The time of day the scheduler sends on: the RTC's, or midnight when the RTC is not running.
pub fn scheduler_time(now: Option<DateTime>) -> (t: (u8, u8, u8))
    ensures
        now.is_some() ==> t == (now.unwrap().hour, now.unwrap().minute, now.unwrap().second),
        now.is_none() ==> t == (0u8, 0u8, 0u8),
{
    let dt = match now {
        Some(dt) => dt,
        None => DateTime::empty(),
    };
    (dt.hour, dt.minute, dt.second)
}

/// The hour and minute the manual time screen opens with: the clock's, or midnight when the
/// clock could not be read.
pub open spec fn manual_time_start(rtc: Option<DateTime>) -> (u8, u8) {
    match rtc {
        Some(dt) => (dt.hour, dt.minute),
        None => (0u8, 0u8),
    }
}

/// The state after the manual time screen opened with the clock's reading `rtc`.
pub open spec fn manual_time_entry(s: SystemStateView, rtc: Option<DateTime>) -> SystemStateView {
    SystemStateView { operation_mode: OperationMode::SetTimeManual, manual_time_buffer: manual_time_start(rtc), ..s }
}

/// Opens the manual time screen with the hour and minute the clock reads (midnight when it
/// could not be read); nothing else changes.
pub fn enter_manual_time_mode(system_state: &mut SystemState, rtc: Option<DateTime>)
    ensures
        *final(system_state) == (SystemState {
            operation_mode: OperationMode::SetTimeManual,
            manual_time_buffer: manual_time_start(rtc),
            ..*old(system_state)
        }),
        final(system_state)@ == manual_time_entry(old(system_state)@, rtc),
{
    let (hour, minute) = match rtc {
        Some(dt) => (dt.hour, dt.minute),
        None => (0u8, 0u8),
    };
    system_state.set_time_manual_mode(hour, minute);
}

/// What a change of the USB power supply asks for: nothing without a system state; otherwise
/// a fresh voltage reading when the clock runs on battery, then a redraw.
pub open spec fn vbus_actions(has_state: bool, usb_power: bool) -> Seq<ActionView> {
    if !has_state {
        seq![]
    } else if usb_power {
        seq![ActionView::DisplayUpdate]
    } else {
        seq![ActionView::VsysWake, ActionView::DisplayUpdate]
    }
}

/// The actions for a change of the USB power supply to `usb_power`.
pub fn vbus_event_actions(state: Option<&SystemState>, usb_power: bool) -> (actions: Vec<Action>)
    ensures
        actions_view(actions@) == vbus_actions(state.is_some(), usb_power),
{
    let mut actions: Vec<Action> = Vec::new();
    if state.is_none() {
        assert(actions_view(actions@) =~= seq![]);
        return actions;
    }
    if !usb_power {
        push_action(&mut actions, Action::VsysWake);
    }
    push_action(&mut actions, Action::DisplayUpdate);
    proof {
        assert(actions_view(Seq::<Action>::empty()) =~= seq![]);
    }
    actions
}

/// The outcome of the scheduler's timeout checks.
#[derive(Debug, Clone, Copy, PartialEq, Eq, Structural)]
pub struct TimeoutChecks {
    /// Whether a second has passed since the last check, so that the check ran now.
    pub checked: bool,
    /// Whether an interactive mode timed out (an event is sent).
    pub interactive_timeout: bool,
    /// Whether the display is due to sleep during an enabled alarm (an event is sent).
    pub display_sleep: bool,
}

/// Checks, once a second, whether an interactive mode timed out and whether the display should
/// sleep; without a system state nothing times out.
pub fn timeout_checks(state: Option<&SystemState>, now_ms: u64, last_check_ms: u64) -> (c: TimeoutChecks)
    requires
        last_check_ms <= now_ms,
    ensures
        c.checked == (now_ms - last_check_ms >= TIMEOUT_CHECK_INTERVAL_MS),
        c.interactive_timeout == (c.checked && state.is_some() && state.unwrap()@.interactive_mode_timeout_due(now_ms)),
        c.display_sleep == (c.checked && state.is_some() && state.unwrap()@.alarm_display_sleep_due(now_ms)),
{
    if now_ms - last_check_ms < TIMEOUT_CHECK_INTERVAL_MS {
        return TimeoutChecks { checked: false, interactive_timeout: false, display_sleep: false };
    }
    match state {
        Some(s) => TimeoutChecks {
            checked: true,
            interactive_timeout: s.should_interactive_mode_timeout(now_ms),
            display_sleep: s.should_alarm_display_sleep(now_ms),
        },
        None => TimeoutChecks { checked: true, interactive_timeout: false, display_sleep: false },
    }
}

/// The tick period the scheduler switches to when the alarm enablement differs from the one
/// its ticker was made for: 10 seconds with the alarm enabled, 1 second otherwise.
pub fn ticker_update(alarm_enabled: bool, last_alarm_enabled: Option<bool>) -> (period_ms: Option<u64>)
    ensures
        last_alarm_enabled == Some(alarm_enabled) ==> period_ms.is_none(),
        last_alarm_enabled != Some(alarm_enabled) ==> period_ms == Some(
            if alarm_enabled { ALARM_ENABLED_UPDATE_INTERVAL_MS } else { ANALOG_CLOCK_UPDATE_INTERVAL_MS },
        ),
{
    let unchanged = match last_alarm_enabled {
        Some(last) => last == alarm_enabled,
        None => false,
    };
    if unchanged {
        None
    } else if alarm_enabled {
        Some(ALARM_ENABLED_UPDATE_INTERVAL_MS)
    } else {
        Some(ANALOG_CLOCK_UPDATE_INTERVAL_MS)
    }
}

} // verus!
