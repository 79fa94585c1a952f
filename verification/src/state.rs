//! # System State
//! The state of the alarm clock and the operations that can be performed on it.
//!
//! The power readings (supply voltage, battery level) are floating-point values and are kept
//! beside this state by the firmware, not inside it.
use vstd::prelude::*;

use crate::task::buttons::Button;

verus! {

/// Highest volume the `DFPlayer` accepts.
pub const MAX_VOLUME: u8 = 30;

/// Highest brightness allowed for the `NeoPixel` clock.
pub const MAX_CLOCK_BRIGHTNESS: u8 = 20;

/// Default volume of the alarm sound.
pub const DEFAULT_VOLUME: u8 = 13;

/// Default brightness of the `NeoPixel` clock.
pub const DEFAULT_CLOCK_BRIGHTNESS: u8 = 1;

/// Milliseconds without interaction after which the display sleeps while the alarm is enabled.
pub const DISPLAY_SLEEP_TIMEOUT_MS: u64 = 30_000;

/// Milliseconds without interaction after which an interactive mode returns to normal mode.
pub const INTERACTIVE_MODE_TIMEOUT_MS: u64 = 10_000;

/// The value after `x` on a dial of `modulus` positions, where `x + 1` wraps at 256 first.
pub open spec fn dial_next(x: u8, modulus: u8) -> u8
    recommends
        modulus > 0,
{
    (((x + 1) % 256) % (modulus as int)) as u8
}

/// Next value of an hour dial.
fn next_hour(x: u8) -> (r: u8)
    ensures
        r == dial_next(x, 24),
        r < 24,
{
    x.wrapping_add(1) % 24
}

/// Next value of a minute dial.
fn next_minute(x: u8) -> (r: u8)
    ensures
        r == dial_next(x, 60),
        r < 60,
{
    x.wrapping_add(1) % 60
}

/// The operation mode of the system
#[derive(Debug, Clone, Copy, PartialEq, Eq, Structural)]
pub enum OperationMode {
    /// The system is initializing, waiting for RTC and alarm settings to be loaded.
    Initializing,
    /// The regular operation mode: time, alarm status and the analog clock.
    Normal,
    /// Setting the alarm time.
    SetAlarmTime,
    /// The alarm is active: sunrise effect, then sound and the waker effect, until the
    /// button sequence is pressed.
    Alarm,
    /// The menu is active.
    Menu,
    /// Displaying the system info.
    SystemInfo,
    /// The settings menu is active.
    SettingsMenu,
    /// Setting the volume level.
    SetVolume,
    /// Setting the clock brightness level.
    SetClockBrightness,
    /// Setting the time manually.
    SetTimeManual,
    /// Standby: display and `NeoPixel` ring off, low power.
    Standby,
}

/// The modes in which the user interacts and which time out after inactivity.
pub open spec fn is_interactive_mode(mode: OperationMode) -> bool {
    match mode {
        OperationMode::Menu | OperationMode::SettingsMenu | OperationMode::SystemInfo
        | OperationMode::SetAlarmTime | OperationMode::SetVolume
        | OperationMode::SetClockBrightness | OperationMode::SetTimeManual => true,
        _ => false,
    }
}

/// The on/off state of the display
#[derive(Debug, Clone, Copy, PartialEq, Eq, Structural)]
pub enum DisplayState {
    /// Display is on
    On,
    /// Display is off
    Off,
}

/// The values of the system settings.
pub struct SystemSettingsView {
    /// Volume level
    pub volume: u8,
    /// Brightness of the clock
    pub clock_brightness: u8,
}

/// User-configurable system settings (persisted to flash)
#[derive(Debug, Clone, Copy, PartialEq, Eq, Structural)]
pub struct SystemSettings {
    /// Volume level for alarm sound (0-30, `DFPlayer` range)
    volume: u8,
    /// Brightness for `NeoPixel` clock mode (0-20, reasonable range to avoid power issues)
    clock_brightness: u8,
}

impl View for SystemSettings {
    type V = SystemSettingsView;

    closed spec fn view(&self) -> SystemSettingsView {
        SystemSettingsView { volume: self.volume, clock_brightness: self.clock_brightness }
    }
}

/// The volume after one step up: 30 wraps to 0.
pub open spec fn volume_up(v: u8) -> u8 {
    if v >= MAX_VOLUME { 0 } else { (v + 1) as u8 }
}

/// The volume after one step down: 0 wraps to 30.
pub open spec fn volume_down(v: u8) -> u8 {
    if v == 0 { MAX_VOLUME } else { (v - 1) as u8 }
}

/// The brightness after one step up: 20 wraps to 0.
pub open spec fn brightness_up(b: u8) -> u8 {
    if b >= MAX_CLOCK_BRIGHTNESS { 0 } else { (b + 1) as u8 }
}

/// The brightness after one step down: 0 wraps to 20.
pub open spec fn brightness_down(b: u8) -> u8 {
    if b == 0 { MAX_CLOCK_BRIGHTNESS } else { (b - 1) as u8 }
}

/// A value clamped to an upper bound.
pub open spec fn clamp_to(v: u8, max: u8) -> u8 {
    if v > max { max } else { v }
}

impl SystemSettingsView {
    /// Both settings lie within their ranges.
    pub open spec fn in_range(self) -> bool {
        self.volume <= MAX_VOLUME && self.clock_brightness <= MAX_CLOCK_BRIGHTNESS
    }
}

impl SystemSettings {
    /// Both settings lie within their ranges.
    #[verifier::type_invariant]
    spec fn settings_in_range(self) -> bool {
        self.volume <= MAX_VOLUME && self.clock_brightness <= MAX_CLOCK_BRIGHTNESS
    }

    /// Create new settings with sensible defaults
    pub fn new_default() -> (s: Self)
        ensures
            s@ == (SystemSettingsView { volume: DEFAULT_VOLUME, clock_brightness: DEFAULT_CLOCK_BRIGHTNESS }),
    {
        Self { volume: DEFAULT_VOLUME, clock_brightness: DEFAULT_CLOCK_BRIGHTNESS }
    }

    /// Get the volume level
    pub fn get_volume(self) -> (v: u8)
        ensures
            v == self@.volume,
            v <= MAX_VOLUME,
    {
        proof { use_type_invariant(&self); }
        self.volume
    }

    /// Set the volume level (clamped to valid `DFPlayer` range)
    pub fn set_volume(&mut self, volume: u8)
        ensures
            final(self)@ == (SystemSettingsView { volume: clamp_to(volume, MAX_VOLUME), ..old(self)@ }),
    {
        proof { use_type_invariant(&*self); }
        self.volume = if volume > MAX_VOLUME { MAX_VOLUME } else { volume };
    }

    /// Increment the volume level (wraps from 30 to 0)
    pub fn increment_volume(&mut self)
        ensures
            final(self)@ == (SystemSettingsView { volume: volume_up(old(self)@.volume), ..old(self)@ }),
    {
        proof { use_type_invariant(&*self); }
        self.volume = if self.volume >= MAX_VOLUME { 0 } else { self.volume + 1 };
    }

    /// Decrement the volume level (wraps from 0 to 30)
    pub fn decrement_volume(&mut self)
        ensures
            final(self)@ == (SystemSettingsView { volume: volume_down(old(self)@.volume), ..old(self)@ }),
    {
        proof { use_type_invariant(&*self); }
        self.volume = if self.volume == 0 { MAX_VOLUME } else { self.volume - 1 };
    }

    /// Get the clock brightness level
    pub fn get_clock_brightness(self) -> (b: u8)
        ensures
            b == self@.clock_brightness,
            b <= MAX_CLOCK_BRIGHTNESS,
    {
        proof { use_type_invariant(&self); }
        self.clock_brightness
    }

    /// Set the clock brightness level (clamped to reasonable range)
    pub fn set_clock_brightness(&mut self, brightness: u8)
        ensures
            final(self)@ == (SystemSettingsView {
                clock_brightness: clamp_to(brightness, MAX_CLOCK_BRIGHTNESS),
                ..old(self)@
            }),
    {
        proof { use_type_invariant(&*self); }
        self.clock_brightness = if brightness > MAX_CLOCK_BRIGHTNESS {
            MAX_CLOCK_BRIGHTNESS
        } else {
            brightness
        };
    }

    /// Increment the clock brightness level (wraps from 20 to 0)
    pub fn increment_clock_brightness(&mut self)
        ensures
            final(self)@ == (SystemSettingsView {
                clock_brightness: brightness_up(old(self)@.clock_brightness),
                ..old(self)@
            }),
    {
        proof { use_type_invariant(&*self); }
        self.clock_brightness = if self.clock_brightness >= MAX_CLOCK_BRIGHTNESS {
            0
        } else {
            self.clock_brightness + 1
        };
    }

    /// Decrement the clock brightness level (wraps from 0 to 20)
    pub fn decrement_clock_brightness(&mut self)
        ensures
            final(self)@ == (SystemSettingsView {
                clock_brightness: brightness_down(old(self)@.clock_brightness),
                ..old(self)@
            }),
    {
        proof { use_type_invariant(&*self); }
        self.clock_brightness = if self.clock_brightness == 0 {
            MAX_CLOCK_BRIGHTNESS
        } else {
            self.clock_brightness - 1
        };
    }
}

/// The values of the alarm settings.
pub struct AlarmSettingsView {
    /// Hour of the alarm
    pub hour: u8,
    /// Minute of the alarm
    pub minute: u8,
    /// Whether the alarm is enabled
    pub enabled: bool,
    /// The buttons that must be pressed, in order, to stop the alarm
    pub sequence: Seq<Button>,
}

/// The button sequence of fresh alarm settings.
pub open spec fn default_stop_sequence() -> Seq<Button> {
    seq![Button::Green, Button::Blue, Button::Yellow]
}

/// Index of the first button of the sequence that has not been pressed yet (its length if none).
pub open spec fn first_valid_index(s: Seq<Button>) -> int
    decreases s.len(),
{
    if s.len() == 0 {
        0
    } else if s[0] != Button::NoButton {
        0
    } else {
        1 + first_valid_index(s.drop_first())
    }
}

/// The button that must be pressed next to stop the alarm (`None` once all are pressed).
pub open spec fn first_valid_button(s: Seq<Button>) -> Button {
    let i = first_valid_index(s);
    if i < s.len() { s[i] } else { Button::NoButton }
}

/// The sequence after the next expected button has been pressed.
pub open spec fn erase_first_valid(s: Seq<Button>) -> Seq<Button> {
    let i = first_valid_index(s);
    if i < s.len() { s.update(i, Button::NoButton) } else { s }
}

/// All buttons of the sequence have been pressed.
pub open spec fn sequence_complete(s: Seq<Button>) -> bool {
    forall|k: int| 0 <= k < s.len() ==> s[k] == Button::NoButton
}

/// The sequence produced by swapping position `i` with `picks[i]` for `i` = 0, 1, 2, starting
/// from green, blue, yellow.
pub open spec fn shuffled_sequence(picks: Seq<usize>) -> Seq<Button> {
    let s0 = default_stop_sequence();
    let s1 = s0.update(0, s0[picks[0] as int]).update(picks[0] as int, s0[0]);
    let s2 = s1.update(1, s1[picks[1] as int]).update(picks[1] as int, s1[1]);
    s2.update(2, s2[picks[2] as int]).update(picks[2] as int, s2[2])
}

/// Facts about the first button not yet pressed.
pub proof fn lemma_first_valid_index(s: Seq<Button>)
    ensures
        0 <= first_valid_index(s) <= s.len(),
        forall|k: int| 0 <= k < first_valid_index(s) ==> s[k] == Button::NoButton,
        first_valid_index(s) < s.len() ==> s[first_valid_index(s)] != Button::NoButton,
    decreases s.len(),
{
    if s.len() > 0 && s[0] == Button::NoButton {
        lemma_first_valid_index(s.drop_first());
        assert forall|k: int| 0 <= k < first_valid_index(s) implies s[k] == Button::NoButton by {
            if k > 0 {
                assert(s[k] == s.drop_first()[k - 1]);
            }
        }
    }
}

/// The settings for the alarm
#[derive(Debug, Clone, Copy, PartialEq, Eq)]
pub struct AlarmSettings {
    /// The alarm time is set to the specified time
    time: (u8, u8),
    /// The alarm is enabled or disabled
    enabled: bool,
    /// The color sequence of buttons that need to be pressed to stop the alarm
    stop_alarm_button_sequence: [Button; 3],
}

impl View for AlarmSettings {
    type V = AlarmSettingsView;

    closed spec fn view(&self) -> AlarmSettingsView {
        AlarmSettingsView {
            hour: self.time.0,
            minute: self.time.1,
            enabled: self.enabled,
            sequence: self.stop_alarm_button_sequence@,
        }
    }
}

impl AlarmSettings {
    /// Create a new `AlarmSettings` with default values.
    pub fn new_empty() -> (a: Self)
        ensures
            a@ == (AlarmSettingsView { hour: 0, minute: 0, enabled: false, sequence: default_stop_sequence() }),
    {
        let a = Self {
            time: (0, 0),
            enabled: false,
            stop_alarm_button_sequence: [Button::Green, Button::Blue, Button::Yellow],
        };
        assert(a@.sequence =~= default_stop_sequence());
        a
    }

    /// Set the alarm time
    pub fn set_time(&mut self, time: (u8, u8))
        ensures
            final(self)@ == (AlarmSettingsView { hour: time.0, minute: time.1, ..old(self)@ }),
            final(self)@ == alarm_op(old(self)@, AlarmOp::SetTime(time.0, time.1)),
    {
        self.time = time;
    }

    /// Set the enabled state
    pub fn set_enabled(&mut self, enabled: bool)
        ensures
            final(self)@ == (AlarmSettingsView { enabled: enabled, ..old(self)@ }),
            final(self)@ == alarm_op(old(self)@, AlarmOp::SetEnabled(enabled)),
    {
        self.enabled = enabled;
    }

    /// Get the alarm time hour
    pub fn get_hour(&self) -> (h: u8)
        ensures
            h == self@.hour,
    {
        self.time.0
    }

    /// Get the alarm time minute
    pub fn get_minute(&self) -> (m: u8)
        ensures
            m == self@.minute,
    {
        self.time.1
    }

    /// Get the enabled state
    pub fn get_enabled(&self) -> (e: bool)
        ensures
            e == self@.enabled,
    {
        self.enabled
    }

    /// Increment the alarm hour (wraps from 23 to 0)
    pub fn increment_alarm_hour(&mut self)
        ensures
            final(self)@ == (AlarmSettingsView { hour: dial_next(old(self)@.hour, 24), ..old(self)@ }),
            final(self)@ == alarm_op(old(self)@, AlarmOp::IncrementHour),
    {
        let hour = next_hour(self.get_hour());
        self.set_time((hour, self.get_minute()));
    }

    /// Increment the alarm minute (wraps from 59 to 0)
    pub fn increment_alarm_minute(&mut self)
        ensures
            final(self)@ == (AlarmSettingsView { minute: dial_next(old(self)@.minute, 60), ..old(self)@ }),
            final(self)@ == alarm_op(old(self)@, AlarmOp::IncrementMinute),
    {
        let minute = next_minute(self.get_minute());
        self.set_time((self.get_hour(), minute));
    }

    /// Get the stop alarm button sequence
    pub fn get_stop_alarm_button_sequence(&self) -> (s: [Button; 3])
        ensures
            s@ == self@.sequence,
    {
        self.stop_alarm_button_sequence
    }

    /// Set the stop alarm button sequence
    fn set_stop_alarm_button_sequence(&mut self, sequence: [Button; 3])
        ensures
            final(self)@ == (AlarmSettingsView { sequence: sequence@, ..old(self)@ }),
    {
        self.stop_alarm_button_sequence = sequence;
    }

    /// Shuffle the stop alarm button sequence with a Fisher-Yates likeness: starting from green,
    /// blue, yellow, position `i` is swapped with position `random_indices[i]`, for each `i` in
    /// turn. The indices are drawn at random by the caller.
    pub fn randomize_stop_alarm_button_sequence(&mut self, random_indices: [usize; 3])
        requires
            forall|i: int| 0 <= i < 3 ==> random_indices[i] < 3,
        ensures
            final(self)@ == (AlarmSettingsView {
                sequence: shuffled_sequence(random_indices@),
                ..old(self)@
            }),
            final(self)@ == alarm_op(old(self)@, AlarmOp::Randomize(random_indices)),
    {
        let mut sequence = [Button::Green, Button::Blue, Button::Yellow];
        let ghost s0 = sequence@;
        assert(s0 =~= default_stop_sequence());
        let mut i: usize = 0;
        while i < 3
            invariant
                0 <= i <= 3,
                forall|k: int| 0 <= k < 3 ==> random_indices[k] < 3,
                i == 0 ==> sequence@ == default_stop_sequence(),
                i == 1 ==> sequence@ == ({
                    let s0 = default_stop_sequence();
                    s0.update(0, s0[random_indices[0] as int]).update(random_indices[0] as int, s0[0])
                }),
                i == 2 ==> sequence@ == ({
                    let s0 = default_stop_sequence();
                    let s1 = s0.update(0, s0[random_indices[0] as int]).update(random_indices[0] as int, s0[0]);
                    s1.update(1, s1[random_indices[1] as int]).update(random_indices[1] as int, s1[1])
                }),
                i == 3 ==> sequence@ == shuffled_sequence(random_indices@),
            decreases 3 - i,
        {
            let j = random_indices[i];
            let ghost before = sequence@;
            let a = sequence[i];
            let b = sequence[j];
            sequence[i] = b;
            sequence[j] = a;
            assert(sequence@ =~= before.update(i as int, before[j as int]).update(j as int, before[i as int]));
            i = i + 1;
        }
        self.set_stop_alarm_button_sequence(sequence);
    }

    /// The sequence gets iterated and the first of its values that is not None is set to None.
    pub fn erase_first_valid_stop_alarm_button(&mut self)
        ensures
            final(self)@ == (AlarmSettingsView { sequence: erase_first_valid(old(self)@.sequence), ..old(self)@ }),
            final(self)@ == alarm_op(old(self)@, AlarmOp::EraseFirstValid),
    {
        let mut sequence = self.get_stop_alarm_button_sequence();
        let mut i: usize = 0;
        proof { lemma_first_valid_index(sequence@); }
        while i < 3 && sequence[i] == Button::NoButton
            invariant
                0 <= i <= 3,
                sequence@ == self@.sequence,
                i <= first_valid_index(sequence@),
                0 <= first_valid_index(sequence@) <= 3,
                forall|k: int| 0 <= k < first_valid_index(sequence@) ==> sequence@[k] == Button::NoButton,
                first_valid_index(sequence@) < 3 ==> sequence@[first_valid_index(sequence@)] != Button::NoButton,
            decreases 3 - i,
        {
            i = i + 1;
        }
        let ghost before = sequence@;
        if i < 3 {
            sequence[i] = Button::NoButton;
        }
        assert(sequence@ =~= erase_first_valid(before));
        self.set_stop_alarm_button_sequence(sequence);
    }

    /// The sequence gets iterated and the first of its values that is not None is returned.
    pub fn get_first_valid_stop_alarm_button(&self) -> (b: Button)
        ensures
            b == first_valid_button(self@.sequence),
    {
        let sequence = self.get_stop_alarm_button_sequence();
        let mut i: usize = 0;
        proof { lemma_first_valid_index(sequence@); }
        while i < 3 && sequence[i] == Button::NoButton
            invariant
                0 <= i <= 3,
                sequence@ == self@.sequence,
                i <= first_valid_index(sequence@),
                0 <= first_valid_index(sequence@) <= 3,
                forall|k: int| 0 <= k < first_valid_index(sequence@) ==> sequence@[k] == Button::NoButton,
                first_valid_index(sequence@) < 3 ==> sequence@[first_valid_index(sequence@)] != Button::NoButton,
            decreases 3 - i,
        {
            i = i + 1;
        }
        if i < 3 {
            sequence[i]
        } else {
            Button::NoButton
        }
    }

    /// Check if the alarm stop button sequence is complete
    pub fn is_alarm_stop_button_sequence_complete(&self) -> (c: bool)
        ensures
            c == sequence_complete(self@.sequence),
    {
        let sequence = self.get_stop_alarm_button_sequence();
        let mut i: usize = 0;
        while i < 3
            invariant
                0 <= i <= 3,
                sequence@ == self@.sequence,
                forall|k: int| 0 <= k < i ==> sequence@[k] == Button::NoButton,
            decreases 3 - i,
        {
            if sequence[i] != Button::NoButton {
                return false;
            }
            i = i + 1;
        }
        true
    }
}

/// One of the operations that change alarm settings, as a value: each stands for the method of
/// the same name and changes the settings exactly as that method's contract says.
#[derive(Debug, Clone, Copy)]
pub enum AlarmOp {
    /// `increment_alarm_hour`
    IncrementHour,
    /// `increment_alarm_minute`
    IncrementMinute,
    /// `set_enabled` with this flag
    SetEnabled(bool),
    /// `erase_first_valid_stop_alarm_button`
    EraseFirstValid,
    /// `set_time` with this hour and minute
    SetTime(u8, u8),
    /// `randomize_stop_alarm_button_sequence` with these draws
    Randomize([usize; 3]),
}

/// The settings after one operation, as the operation's method states it.
pub open spec fn alarm_op(a: AlarmSettingsView, op: AlarmOp) -> AlarmSettingsView {
    match op {
        AlarmOp::IncrementHour => AlarmSettingsView { hour: dial_next(a.hour, 24), ..a },
        AlarmOp::IncrementMinute => AlarmSettingsView { minute: dial_next(a.minute, 60), ..a },
        AlarmOp::SetEnabled(e) => AlarmSettingsView { enabled: e, ..a },
        AlarmOp::EraseFirstValid => AlarmSettingsView { sequence: erase_first_valid(a.sequence), ..a },
        AlarmOp::SetTime(h, m) => AlarmSettingsView { hour: h, minute: m, ..a },
        AlarmOp::Randomize(picks) => AlarmSettingsView { sequence: shuffled_sequence(picks@), ..a },
    }
}

/// The settings after a sequence of operations, applied in order.
pub open spec fn alarm_ops(a: AlarmSettingsView, ops: Seq<AlarmOp>) -> AlarmSettingsView
    decreases ops.len(),
{
    if ops.len() == 0 { a } else { alarm_ops(alarm_op(a, ops[0]), ops.drop_first()) }
}

/// Whether an operation sets a time outside 00:00-23:59.
pub open spec fn sets_time_out_of_range(op: AlarmOp) -> bool {
    match op {
        AlarmOp::SetTime(h, m) => h >= 24 || m >= 60,
        _ => false,
    }
}

/// The alarm time stays a time of day: starting from an hour below 24 and a minute below 60
/// (such as the empty settings' 00:00), any sequence of operations whose explicit times are
/// valid leaves the hour below 24 and the minute below 60.
pub proof fn law_alarm_time_stays_in_range(a: AlarmSettingsView, ops: Seq<AlarmOp>)
    requires
        a.hour < 24,
        a.minute < 60,
        forall|i: int| 0 <= i < ops.len() ==> !sets_time_out_of_range(#[trigger] ops[i]),
    ensures
        alarm_ops(a, ops).hour < 24,
        alarm_ops(a, ops).minute < 60,
    decreases ops.len(),
{
    if ops.len() > 0 {
        let rest = ops.drop_first();
        assert(!sets_time_out_of_range(ops[0]));
        assert forall|i: int| 0 <= i < rest.len() implies !sets_time_out_of_range(#[trigger] rest[i]) by {
            assert(rest[i] == ops[i + 1]);
        }
        law_alarm_time_stays_in_range(alarm_op(a, ops[0]), rest);
    }
}

/// Only `set_enabled` changes whether the alarm is enabled: any sequence of the other
/// operations keeps the flag.
pub proof fn law_only_set_enabled_changes_enabled(a: AlarmSettingsView, ops: Seq<AlarmOp>)
    requires
        forall|i: int| 0 <= i < ops.len() ==> !((#[trigger] ops[i]) is SetEnabled),
    ensures
        alarm_ops(a, ops).enabled == a.enabled,
    decreases ops.len(),
{
    if ops.len() > 0 {
        let rest = ops.drop_first();
        assert(!(ops[0] is SetEnabled));
        assert forall|i: int| 0 <= i < rest.len() implies !((#[trigger] rest[i]) is SetEnabled) by {
            assert(rest[i] == ops[i + 1]);
        }
        law_only_set_enabled_changes_enabled(alarm_op(a, ops[0]), rest);
    }
}

/// The state of the alarm
#[derive(Debug, Clone, Copy, PartialEq, Eq, Structural)]
pub enum AlarmState {
    /// The alarm is not active
    Inactive,
    /// The alarm time has been reached and the sunrise effect is shown.
    Sunrise,
    /// Past the sunrise effect: the alarm sound and the waker effect are playing.
    Noise,
}

impl AlarmState {
    /// Check if the alarm is active
    pub fn is_active(&self) -> (a: bool)
        ensures
            a == (*self != AlarmState::Inactive),
    {
        *self != AlarmState::Inactive
    }
}

/// The battery level of the system in steps of 20% from 0 to 100. One additional state is provided for charging.
#[derive(Debug, Clone, Copy, PartialEq, Eq, Structural)]
pub enum BatteryLevel {
    /// The battery is charging
    Charging,
    /// The battery level is 0%
    Bat000,
    /// The battery level is 20%
    Bat020,
    /// The battery level is 40%
    Bat040,
    /// The battery level is 60%
    Bat060,
    /// The battery level is 80%
    Bat080,
    /// The battery level is 100%
    Bat100,
}

/// The charge in percent that a battery level stands for; `None` while charging.
pub open spec fn battery_percent(level: BatteryLevel) -> Option<int> {
    match level {
        BatteryLevel::Charging => None,
        BatteryLevel::Bat000 => Some(0),
        BatteryLevel::Bat020 => Some(20),
        BatteryLevel::Bat040 => Some(40),
        BatteryLevel::Bat060 => Some(60),
        BatteryLevel::Bat080 => Some(80),
        BatteryLevel::Bat100 => Some(100),
    }
}

/// All the states of the system are kept in this struct.
#[derive(Debug, Clone, Copy, PartialEq, Eq)]
pub struct SystemState {
    /// The operation mode of the system
    pub operation_mode: OperationMode,
    /// The settings for the alarm
    pub alarm_settings: AlarmSettings,
    /// User-configurable system settings (volume, brightness, etc.)
    pub system_settings: SystemSettings,
    /// The state of the alarm
    pub alarm_state: AlarmState,
    /// The current page of system info (0-based, 0 = power info, 1 = alarm info)
    pub system_info_page: u8,
    /// Temporary buffer for manual time setting (hour, minute)
    pub manual_time_buffer: (u8, u8),
    /// The tick count of the last user interaction (for menu timeout)
    pub last_interaction_tick: u64,
    /// Whether the display is currently on or off
    pub display_state: DisplayState,
}

/// The values of the system state.
pub struct SystemStateView {
    /// The operation mode of the system
    pub operation_mode: OperationMode,
    /// The settings for the alarm
    pub alarm_settings: AlarmSettingsView,
    /// User-configurable system settings
    pub system_settings: SystemSettingsView,
    /// The state of the alarm
    pub alarm_state: AlarmState,
    /// The current page of system info
    pub system_info_page: u8,
    /// Temporary buffer for manual time setting (hour, minute)
    pub manual_time_buffer: (u8, u8),
    /// The tick count of the last user interaction
    pub last_interaction_tick: u64,
    /// Whether the display is currently on or off
    pub display_state: DisplayState,
}

impl View for SystemState {
    type V = SystemStateView;

    open spec fn view(&self) -> SystemStateView {
        SystemStateView {
            operation_mode: self.operation_mode,
            alarm_settings: self.alarm_settings@,
            system_settings: self.system_settings@,
            alarm_state: self.alarm_state,
            system_info_page: self.system_info_page,
            manual_time_buffer: self.manual_time_buffer,
            last_interaction_tick: self.last_interaction_tick,
            display_state: self.display_state,
        }
    }
}

impl SystemStateView {
    /// Whether the display should go to sleep at `current_tick`: the alarm is enabled, the clock
    /// shows normal mode with the display on, and 30 seconds passed without interaction.
    pub open spec fn alarm_display_sleep_due(self, current_tick: u64) -> bool {
        &&& self.alarm_settings.enabled
        &&& self.operation_mode == OperationMode::Normal
        &&& self.display_state == DisplayState::On
        &&& current_tick >= self.last_interaction_tick
        &&& current_tick - self.last_interaction_tick >= DISPLAY_SLEEP_TIMEOUT_MS
    }

    /// Whether the interactive mode should time out at `current_tick`: 10 seconds passed without
    /// interaction.
    pub open spec fn interactive_mode_timeout_due(self, current_tick: u64) -> bool {
        &&& is_interactive_mode(self.operation_mode)
        &&& current_tick >= self.last_interaction_tick
        &&& current_tick - self.last_interaction_tick >= INTERACTIVE_MODE_TIMEOUT_MS
    }

    /// The state after returning to normal mode: any alarm ends.
    pub open spec fn normal(self) -> SystemStateView {
        SystemStateView { operation_mode: OperationMode::Normal, alarm_state: AlarmState::Inactive, ..self }
    }

    /// The state in a given operation mode.
    pub open spec fn in_mode(self, mode: OperationMode) -> SystemStateView {
        SystemStateView { operation_mode: mode, ..self }
    }
}

impl SystemState {
    /// Create a new `SystemState`.
    /// We will get the actual data pretty early in the system startup, so we can set all this to inits here
    pub fn new() -> (s: Self)
        ensures
            s.operation_mode == OperationMode::Initializing,
            s.alarm_settings@ == (AlarmSettingsView { hour: 0, minute: 0, enabled: false, sequence: default_stop_sequence() }),
            s.system_settings@ == (SystemSettingsView { volume: DEFAULT_VOLUME, clock_brightness: DEFAULT_CLOCK_BRIGHTNESS }),
            s.alarm_state == AlarmState::Inactive,
            s.system_info_page == 0,
            s.manual_time_buffer == (0u8, 0u8),
            s.last_interaction_tick == 0,
            s.display_state == DisplayState::On,
    {
        Self {
            operation_mode: OperationMode::Initializing,
            alarm_settings: AlarmSettings::new_empty(),
            system_settings: SystemSettings::new_default(),
            alarm_state: AlarmState::Inactive,
            system_info_page: 0,
            manual_time_buffer: (0, 0),
            last_interaction_tick: 0,
            display_state: DisplayState::On,
        }
    }

    /// Toggle the alarm enabled state
    pub fn toggle_alarm_enabled(&mut self)
        ensures
            *final(self) == (SystemState { alarm_settings: final(self).alarm_settings, ..*old(self) }),
            final(self).alarm_settings@ == (AlarmSettingsView { enabled: !old(self).alarm_settings@.enabled, ..old(self).alarm_settings@ }),
    {
        let enabled = self.alarm_settings.get_enabled();
        self.alarm_settings.set_enabled(!enabled);
    }

    /// Set the system to menu mode
    pub fn set_menu_mode(&mut self)
        ensures
            *final(self) == (SystemState { operation_mode: OperationMode::Menu, ..*old(self) }),
    {
        self.operation_mode = OperationMode::Menu;
    }

    /// Set the system to normal mode, which ends any alarm
    pub fn set_normal_mode(&mut self)
        ensures
            *final(self) == (SystemState { operation_mode: OperationMode::Normal, alarm_state: AlarmState::Inactive, ..*old(self) }),
    {
        self.operation_mode = OperationMode::Normal;
        self.set_alarm_state(AlarmState::Inactive);
    }

    /// Transition from initializing to normal mode (only allowed from Initializing state)
    pub fn complete_initialization(&mut self)
        ensures
            old(self).operation_mode == OperationMode::Initializing ==> *final(self) == (SystemState { operation_mode: OperationMode::Normal, ..*old(self) }),
            old(self).operation_mode != OperationMode::Initializing ==> *final(self) == *old(self),
    {
        if self.operation_mode == OperationMode::Initializing {
            self.operation_mode = OperationMode::Normal;
        }
    }

    /// Set the system to set alarm time mode
    pub fn set_set_alarm_time_mode(&mut self)
        ensures
            *final(self) == (SystemState { operation_mode: OperationMode::SetAlarmTime, ..*old(self) }),
    {
        self.operation_mode = OperationMode::SetAlarmTime;
    }

    /// Set the system to alarm mode, starting with the sunrise
    pub fn set_alarm_mode(&mut self)
        ensures
            *final(self) == (SystemState { operation_mode: OperationMode::Alarm, alarm_state: AlarmState::Sunrise, ..*old(self) }),
    {
        self.operation_mode = OperationMode::Alarm;
        self.set_alarm_state(AlarmState::Sunrise);
    }

    /// Set the alarm state
    pub fn set_alarm_state(&mut self, state: AlarmState)
        ensures
            *final(self) == (SystemState { alarm_state: state, ..*old(self) }),
    {
        self.alarm_state = state;
    }

    /// Set the system to system info mode, on its first page
    pub fn set_system_info_mode(&mut self)
        ensures
            *final(self) == (SystemState { operation_mode: OperationMode::SystemInfo, system_info_page: 0, ..*old(self) }),
    {
        self.operation_mode = OperationMode::SystemInfo;
        self.system_info_page = 0;
    }

    /// Set the system to settings menu mode
    pub fn set_settings_menu_mode(&mut self)
        ensures
            *final(self) == (SystemState { operation_mode: OperationMode::SettingsMenu, ..*old(self) }),
    {
        self.operation_mode = OperationMode::SettingsMenu;
    }

    /// Set the system to set volume mode
    pub fn set_volume_mode(&mut self)
        ensures
            *final(self) == (SystemState { operation_mode: OperationMode::SetVolume, ..*old(self) }),
    {
        self.operation_mode = OperationMode::SetVolume;
    }

    /// Set the system to set clock brightness mode
    pub fn set_clock_brightness_mode(&mut self)
        ensures
            *final(self) == (SystemState { operation_mode: OperationMode::SetClockBrightness, ..*old(self) }),
    {
        self.operation_mode = OperationMode::SetClockBrightness;
    }

    /// Set the system to manual time setting mode, initializing buffer with current RTC time
    pub fn set_time_manual_mode(&mut self, current_hour: u8, current_minute: u8)
        ensures
            *final(self) == (SystemState {
                manual_time_buffer: (current_hour, current_minute),
                operation_mode: OperationMode::SetTimeManual,
                ..*old(self)
            }),
    {
        self.manual_time_buffer = (current_hour, current_minute);
        self.operation_mode = OperationMode::SetTimeManual;
    }

    /// Increment the manual time hour (wraps from 23 to 0)
    pub fn increment_manual_hour(&mut self)
        ensures
            *final(self) == (SystemState {
                manual_time_buffer: (dial_next(old(self).manual_time_buffer.0, 24), old(self).manual_time_buffer.1),
                ..*old(self)
            }),
    {
        self.manual_time_buffer.0 = next_hour(self.manual_time_buffer.0);
    }

    /// Increment the manual time minute (wraps from 59 to 0)
    pub fn increment_manual_minute(&mut self)
        ensures
            *final(self) == (SystemState {
                manual_time_buffer: (old(self).manual_time_buffer.0, dial_next(old(self).manual_time_buffer.1, 60)),
                ..*old(self)
            }),
    {
        self.manual_time_buffer.1 = next_minute(self.manual_time_buffer.1);
    }

    /// Advance to the next system info page; returns `false` when already on the last page,
    /// meaning the system info mode should be left.
    pub fn next_system_info_page(&mut self) -> (stay: bool)
        ensures
            stay == (old(self).system_info_page == 0),
            stay ==> *final(self) == (SystemState { system_info_page: 1, ..*old(self) }),
            !stay ==> *final(self) == *old(self),
    {
        if self.system_info_page == 0 {
            self.system_info_page = 1;
            true
        } else {
            false
        }
    }

    /// Update the last interaction tick to current time
    pub fn update_interaction_tick(&mut self, tick: u64)
        ensures
            *final(self) == (SystemState { last_interaction_tick: tick, ..*old(self) }),
    {
        self.last_interaction_tick = tick;
    }

    /// Turn the display on
    pub fn set_display_on(&mut self)
        ensures
            *final(self) == (SystemState { display_state: DisplayState::On, ..*old(self) }),
    {
        self.display_state = DisplayState::On;
    }

    /// Turn the display off
    pub fn set_display_off(&mut self)
        ensures
            *final(self) == (SystemState { display_state: DisplayState::Off, ..*old(self) }),
    {
        self.display_state = DisplayState::Off;
    }

    /// Check if the display is off
    pub fn is_display_off(&self) -> (off: bool)
        ensures
            off == (self.display_state == DisplayState::Off),
    {
        self.display_state == DisplayState::Off
    }

    /// Check if the display should sleep when the alarm is enabled: 30 seconds without
    /// interaction in normal mode.
    pub fn should_alarm_display_sleep(&self, current_tick: u64) -> (sleep: bool)
        ensures
            sleep == self@.alarm_display_sleep_due(current_tick),
    {
        self.alarm_settings.get_enabled() && self.operation_mode == OperationMode::Normal
            && self.display_state == DisplayState::On && (current_tick.saturating_sub(
            self.last_interaction_tick,
        ) >= DISPLAY_SLEEP_TIMEOUT_MS)
    }

    /// Check if any interactive mode should timeout (10 seconds of inactivity)
    pub fn should_interactive_mode_timeout(&self, current_tick: u64) -> (timeout: bool)
        ensures
            timeout == self@.interactive_mode_timeout_due(current_tick),
    {
        let interactive = match self.operation_mode {
            OperationMode::Menu | OperationMode::SettingsMenu | OperationMode::SystemInfo
            | OperationMode::SetAlarmTime | OperationMode::SetVolume
            | OperationMode::SetClockBrightness | OperationMode::SetTimeManual => true,
            _ => false,
        };
        interactive && (current_tick.saturating_sub(self.last_interaction_tick)
            >= INTERACTIVE_MODE_TIMEOUT_MS)
    }

    /// Increment the alarm hour
    pub fn increment_alarm_hour(&mut self)
        ensures
            *final(self) == (SystemState { alarm_settings: final(self).alarm_settings, ..*old(self) }),
            final(self).alarm_settings@ == (AlarmSettingsView { hour: dial_next(old(self).alarm_settings@.hour, 24), ..old(self).alarm_settings@ }),
    {
        self.alarm_settings.increment_alarm_hour();
    }

    /// Increment the alarm minute
    pub fn increment_alarm_minute(&mut self)
        ensures
            *final(self) == (SystemState { alarm_settings: final(self).alarm_settings, ..*old(self) }),
            final(self).alarm_settings@ == (AlarmSettingsView { minute: dial_next(old(self).alarm_settings@.minute, 60), ..old(self).alarm_settings@ }),
    {
        self.alarm_settings.increment_alarm_minute();
    }

    /// Set the system to standby mode
    pub fn set_standby_mode(&mut self)
        ensures
            *final(self) == (SystemState { operation_mode: OperationMode::Standby, ..*old(self) }),
    {
        self.operation_mode = OperationMode::Standby;
    }

    /// Wake up the system from standby mode
    pub fn wake_up(&mut self)
        ensures
            *final(self) == (SystemState { operation_mode: OperationMode::Normal, alarm_state: AlarmState::Inactive, ..*old(self) }),
    {
        self.set_normal_mode();
    }

    /// Shuffle the alarm stop button sequence with the given random indices
    pub fn randomize_alarm_stop_button_sequence(&mut self, random_indices: [usize; 3])
        requires
            forall|i: int| 0 <= i < 3 ==> random_indices[i] < 3,
        ensures
            *final(self) == (SystemState { alarm_settings: final(self).alarm_settings, ..*old(self) }),
            final(self).alarm_settings@ == (AlarmSettingsView {
                sequence: shuffled_sequence(random_indices@),
                ..old(self).alarm_settings@
            }),
    {
        self.alarm_settings.randomize_stop_alarm_button_sequence(random_indices);
    }
}

} // verus!
