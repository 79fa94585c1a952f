//! # Display
//! What the OLED display shows in each state of the system: the indicator at the top left,
//! the battery icon at the top right, the main content, and the date line.
use vstd::prelude::*;

use crate::datetime::DateTime;
use crate::state::{battery_percent, first_valid_button, BatteryLevel, OperationMode, SystemState};
use crate::task::buttons::Button;

verus! {

/// Seconds the standby farewell stays on the display before it is cleared.
pub const GOING_TO_SLEEP_SECS: u64 = 5;

/// The text of the alarm prompt: the button to press next.
pub open spec fn prompt_text(button: Button) -> &'static str {
    match button {
        Button::Green => "Press Green!",
        Button::Blue => "Press Blue!",
        Button::Yellow => "Press Yellow!",
        Button::NoButton => "Press None!",
    }
}

/// The prompt shown during the alarm, naming the button to press next.
pub fn alarm_button_prompt(button: Button) -> (text: &'static str)
    ensures
        text == prompt_text(button),
{
    match button {
        Button::Green => "Press Green!",
        Button::Blue => "Press Blue!",
        Button::Yellow => "Press Yellow!",
        Button::NoButton => "Press None!",
    }
}

/// What the top left of the display shows.
#[derive(Debug, Clone, Copy, PartialEq, Eq, Structural)]
pub enum StateIndicator {
    /// Nothing.
    Blank,
    /// The lightsaber icon: the alarm is enabled.
    Saber,
    /// The settings icon: the alarm time is being set.
    Setup,
    /// The title of the menu.
    MenuTitle,
    /// The title of the system information.
    SystemInfoTitle,
    /// The prompt naming the button to press to stop the alarm.
    AlarmPrompt(Button),
}

/// The indicator for a mode.
pub open spec fn indicator_for(mode: OperationMode, alarm_enabled: bool, next_button: Button) -> StateIndicator {
    match mode {
        OperationMode::Normal => if alarm_enabled { StateIndicator::Saber } else { StateIndicator::Blank },
        OperationMode::SetAlarmTime => StateIndicator::Setup,
        OperationMode::Menu => StateIndicator::MenuTitle,
        OperationMode::SystemInfo => StateIndicator::SystemInfoTitle,
        OperationMode::Alarm => StateIndicator::AlarmPrompt(next_button),
        _ => StateIndicator::Blank,
    }
}

/// The battery icon at the top right.
#[derive(Debug, Clone, Copy, PartialEq, Eq, Structural)]
pub enum BatteryIcon {
    /// The level icon with this index, 0 for empty to 5 for full.
    Level(u8),
    /// The mains icon: the battery is charging.
    Mains,
}

/// The battery icon for a battery level.
pub open spec fn battery_icon_for(level: BatteryLevel) -> BatteryIcon {
    match level {
        BatteryLevel::Bat000 => BatteryIcon::Level(0),
        BatteryLevel::Bat020 => BatteryIcon::Level(1),
        BatteryLevel::Bat040 => BatteryIcon::Level(2),
        BatteryLevel::Bat060 => BatteryIcon::Level(3),
        BatteryLevel::Bat080 => BatteryIcon::Level(4),
        BatteryLevel::Bat100 => BatteryIcon::Level(5),
        BatteryLevel::Charging => BatteryIcon::Mains,
    }
}

/// Chooses the battery icon for a battery level.
pub fn battery_icon(level: BatteryLevel) -> (icon: BatteryIcon)
    ensures
        icon == battery_icon_for(level),
{
    match level {
        BatteryLevel::Bat000 => BatteryIcon::Level(0),
        BatteryLevel::Bat020 => BatteryIcon::Level(1),
        BatteryLevel::Bat040 => BatteryIcon::Level(2),
        BatteryLevel::Bat060 => BatteryIcon::Level(3),
        BatteryLevel::Bat080 => BatteryIcon::Level(4),
        BatteryLevel::Bat100 => BatteryIcon::Level(5),
        BatteryLevel::Charging => BatteryIcon::Mains,
    }
}

/// What the centre of the display shows.
#[derive(Debug, Clone, Copy, PartialEq, Eq, Structural)]
pub enum MainContent {
    /// Nothing.
    Empty,
    /// A time in large digits.
    Time(u8, u8),
    /// The lines of the menu.
    Menu,
    /// The lines of the settings menu.
    SettingsMenu,
    /// A page of the system information.
    SystemInfo(u8),
    /// The volume being set.
    Volume(u8),
    /// The clock brightness being set.
    ClockBrightness(u8),
    /// The farewell before standby.
    GoingToSleep,
}

/// Everything the display shows in one refresh.
#[derive(Debug, Clone, Copy, PartialEq, Eq, Structural)]
pub struct Screen {
    /// The top left
    pub indicator: StateIndicator,
    /// The top right
    pub battery: BatteryIcon,
    /// The centre
    pub content: MainContent,
    /// Whether the date line is shown at the bottom
    pub show_date: bool,
}

/// The screen for a system state, the clock's time of day and the battery level: the time in
/// normal and alarm mode, the alarm time while setting it, the time being set manually, the
/// menus, the setting values and the farewell before standby; the date only with the time.
pub open spec fn screen_for(
    mode: OperationMode,
    alarm_enabled: bool,
    next_button: Button,
    alarm_time: (u8, u8),
    manual_time: (u8, u8),
    info_page: u8,
    volume: u8,
    brightness: u8,
    now: DateTime,
    level: BatteryLevel,
) -> Screen {
    Screen {
        indicator: indicator_for(mode, alarm_enabled, next_button),
        battery: battery_icon_for(level),
        content: match mode {
            OperationMode::Normal | OperationMode::Alarm => MainContent::Time(now.hour, now.minute),
            OperationMode::SetAlarmTime => MainContent::Time(alarm_time.0, alarm_time.1),
            OperationMode::SetTimeManual => MainContent::Time(manual_time.0, manual_time.1),
            OperationMode::Menu => MainContent::Menu,
            OperationMode::SettingsMenu => MainContent::SettingsMenu,
            OperationMode::SystemInfo => MainContent::SystemInfo(info_page),
            OperationMode::SetVolume => MainContent::Volume(volume),
            OperationMode::SetClockBrightness => MainContent::ClockBrightness(brightness),
            OperationMode::Standby => MainContent::GoingToSleep,
            OperationMode::Initializing => MainContent::Empty,
        },
        show_date: mode == OperationMode::Normal || mode == OperationMode::Alarm,
    }
}

/// Composes the screen for the current system state, the time read from the clock and the
/// battery level.
pub fn compose_screen(state: &SystemState, now: &DateTime, level: BatteryLevel) -> (screen: Screen)
    ensures
        screen == screen_for(
            state@.operation_mode,
            state@.alarm_settings.enabled,
            first_valid_button(state@.alarm_settings.sequence),
            (state@.alarm_settings.hour, state@.alarm_settings.minute),
            state@.manual_time_buffer,
            state@.system_info_page,
            state@.system_settings.volume,
            state@.system_settings.clock_brightness,
            *now,
            level,
        ),
{
    let mode = state.operation_mode;
    let indicator = match mode {
        OperationMode::Normal => {
            if state.alarm_settings.get_enabled() {
                StateIndicator::Saber
            } else {
                StateIndicator::Blank
            }
        },
        OperationMode::SetAlarmTime => StateIndicator::Setup,
        OperationMode::Menu => StateIndicator::MenuTitle,
        OperationMode::SystemInfo => StateIndicator::SystemInfoTitle,
        OperationMode::Alarm => StateIndicator::AlarmPrompt(state.alarm_settings.get_first_valid_stop_alarm_button()),
        _ => StateIndicator::Blank,
    };
    let content = match mode {
        OperationMode::Normal | OperationMode::Alarm => MainContent::Time(now.hour, now.minute),
        OperationMode::SetAlarmTime => MainContent::Time(
            state.alarm_settings.get_hour(),
            state.alarm_settings.get_minute(),
        ),
        OperationMode::SetTimeManual => MainContent::Time(state.manual_time_buffer.0, state.manual_time_buffer.1),
        OperationMode::Menu => MainContent::Menu,
        OperationMode::SettingsMenu => MainContent::SettingsMenu,
        OperationMode::SystemInfo => MainContent::SystemInfo(state.system_info_page),
        OperationMode::SetVolume => MainContent::Volume(state.system_settings.get_volume()),
        OperationMode::SetClockBrightness => MainContent::ClockBrightness(state.system_settings.get_clock_brightness()),
        OperationMode::Standby => MainContent::GoingToSleep,
        OperationMode::Initializing => MainContent::Empty,
    };
    let show_date = match mode {
        OperationMode::Normal | OperationMode::Alarm => true,
        _ => false,
    };
    Screen { indicator, battery: battery_icon(level), content, show_date }
}

/// The four digit images of a time on the display: tens and units of the hours, then of the
/// minutes. Only two-digit values have digit images.
pub fn time_digits(hours: u8, minutes: u8) -> (digits: [u8; 4])
    requires
        hours < 100,
        minutes < 100,
    ensures
        digits@ == seq![hours / 10, hours % 10, minutes / 10, minutes % 10],
        forall|i: int| 0 <= i < 4 ==> #[trigger] digits@[i] < 10,
{
    let digits = [hours / 10, hours % 10, minutes / 10, minutes % 10];
    assert(digits@ =~= seq![hours / 10, hours % 10, minutes / 10, minutes % 10]);
    digits
}

/// The battery icon shows the charge in fifths: the icon of a level is the one with index
/// percent / 20 (0 for empty up to 5 for full), so that a fuller battery always has a fuller
/// icon; a charging battery shows the mains icon.
pub proof fn law_battery_icon_by_charge(level: BatteryLevel, other: BatteryLevel)
    ensures
        battery_percent(level).is_none() <==> battery_icon_for(level) == BatteryIcon::Mains,
        battery_percent(level).is_some() ==> battery_icon_for(level) == BatteryIcon::Level(
            (battery_percent(level).unwrap() / 20) as u8,
        ),
        battery_percent(level).is_some() && battery_percent(other).is_some()
            && battery_percent(level).unwrap() < battery_percent(other).unwrap() ==> ({
            let (a, b) = (battery_icon_for(level), battery_icon_for(other));
            a matches BatteryIcon::Level(i) && b matches BatteryIcon::Level(j) && i < j
        }),
{
}

/// The screen shows what the clock is doing: the clock's time with the date line below it in
/// normal and alarm mode, and otherwise no date; the alarm time while it is set, the time being
/// set by hand, the volume and the brightness on their screens; the sabre only in normal mode
/// with the alarm enabled, and the prompt only during the alarm, naming the button expected
/// next as "Press Green!", "Press Blue!" or "Press Yellow!".
pub proof fn law_screen_shows_the_state(
    mode: OperationMode,
    alarm_enabled: bool,
    next_button: Button,
    alarm_time: (u8, u8),
    manual_time: (u8, u8),
    info_page: u8,
    volume: u8,
    brightness: u8,
    now: DateTime,
    level: BatteryLevel,
)
    ensures
        ({
            let sc = screen_for(mode, alarm_enabled, next_button, alarm_time, manual_time, info_page, volume, brightness, now, level);
            &&& sc.show_date <==> (mode == OperationMode::Normal || mode == OperationMode::Alarm)
            &&& sc.show_date ==> sc.content == MainContent::Time(now.hour, now.minute)
            &&& mode == OperationMode::SetAlarmTime ==> sc.content == MainContent::Time(alarm_time.0, alarm_time.1)
            &&& mode == OperationMode::SetTimeManual ==> sc.content == MainContent::Time(manual_time.0, manual_time.1)
            &&& mode == OperationMode::SetVolume ==> sc.content == MainContent::Volume(volume)
            &&& mode == OperationMode::SetClockBrightness ==> sc.content == MainContent::ClockBrightness(brightness)
            &&& mode == OperationMode::SystemInfo ==> sc.content == MainContent::SystemInfo(info_page)
            &&& (sc.indicator == StateIndicator::Saber <==> (mode == OperationMode::Normal && alarm_enabled))
            &&& (sc.indicator is AlarmPrompt <==> mode == OperationMode::Alarm)
            &&& mode == OperationMode::Alarm ==> sc.indicator == StateIndicator::AlarmPrompt(next_button)
            &&& sc.battery == battery_icon_for(level)
        }),
        prompt_text(Button::Green)@ == "Press Green!"@,
        prompt_text(Button::Blue)@ == "Press Blue!"@,
        prompt_text(Button::Yellow)@ == "Press Yellow!"@,
{
}

} // verus!
