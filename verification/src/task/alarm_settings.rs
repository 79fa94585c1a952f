//! # Alarm Settings and System Settings Persistence
//! How the settings map to the values stored in flash.
//!
//! The alarm settings are stored as three separate key/value pairs (keys 0-2: hour, minute,
//! enabled), the system settings as two more (keys 3-4: volume, clock brightness).
use vstd::prelude::*;

use crate::state::{
    AlarmSettings, AlarmSettingsView, SystemSettings, SystemSettingsView, clamp_to,
    default_stop_sequence, DEFAULT_CLOCK_BRIGHTNESS, DEFAULT_VOLUME, MAX_CLOCK_BRIGHTNESS,
    MAX_VOLUME,
};

verus! {

/// Flash keys of the alarm settings: hour, minute, enabled.
pub const ALARM_SETTINGS_KEYS: [u8; 3] = [0, 1, 2];

/// Flash keys of the system settings: volume, clock brightness.
pub const SYSTEM_SETTINGS_KEYS: [u8; 2] = [3, 4];

/// Commands for writing settings to flash
#[derive(Debug, Clone, Copy)]
pub enum SettingsWriteCommand {
    /// Write alarm settings to flash
    AlarmSettings(AlarmSettings),
    /// Write system settings to flash
    SystemSettings(SystemSettings),
}

/// The values of a settings write command.
pub enum SettingsWriteCommandView {
    /// Write alarm settings to flash
    AlarmSettings(AlarmSettingsView),
    /// Write system settings to flash
    SystemSettings(SystemSettingsView),
}

impl View for SettingsWriteCommand {
    type V = SettingsWriteCommandView;

    open spec fn view(&self) -> SettingsWriteCommandView {
        match self {
            SettingsWriteCommand::AlarmSettings(a) => SettingsWriteCommandView::AlarmSettings(a@),
            SettingsWriteCommand::SystemSettings(s) => SettingsWriteCommandView::SystemSettings(s@),
        }
    }
}

/// A stored byte, or a default where none was read.
pub open spec fn stored_or(v: Option<u8>, default: u8) -> u8 {
    match v {
        Some(x) => x,
        None => default,
    }
}

/// The alarm settings rebuilt from the values read for keys 0-2; `None` when no value was read.
pub open spec fn alarm_settings_from_stored(values: Seq<Option<u8>>) -> Option<AlarmSettingsView> {
    if values[0] is None && values[1] is None && values[2] is None {
        None
    } else {
        Some(AlarmSettingsView {
            hour: stored_or(values[0], 0),
            minute: stored_or(values[1], 0),
            enabled: stored_or(values[2], 0) != 0,
            sequence: default_stop_sequence(),
        })
    }
}

/// The system settings rebuilt from the values read for keys 3-4; `None` when no value was read.
pub open spec fn system_settings_from_stored(values: Seq<Option<u8>>) -> Option<SystemSettingsView> {
    if values[0] is None && values[1] is None {
        None
    } else {
        Some(SystemSettingsView {
            volume: clamp_to(stored_or(values[0], DEFAULT_VOLUME), MAX_VOLUME),
            clock_brightness: clamp_to(stored_or(values[1], DEFAULT_CLOCK_BRIGHTNESS), MAX_CLOCK_BRIGHTNESS),
        })
    }
}

/// Read a stored byte, falling back to a default.
fn value_or(v: Option<u8>, default: u8) -> (r: u8)
    ensures
        r == stored_or(v, default),
{
    match v {
        Some(x) => x,
        None => default,
    }
}

/// Rebuild the alarm settings from the values read from flash for keys 0-2 (`None` where a key
/// held nothing or could not be read). Returns `None` if no value was read at all; missing
/// values default to 0, and the stop sequence is the default one.
pub fn alarm_settings_from_stored_values(values: [Option<u8>; 3]) -> (r: Option<AlarmSettings>)
    ensures
        r is None <==> alarm_settings_from_stored(values@) is None,
        r matches Some(a) ==> Some(a@) == alarm_settings_from_stored(values@),
{
    if values[0].is_none() && values[1].is_none() && values[2].is_none() {
        return None;
    }
    let mut alarm_settings = AlarmSettings::new_empty();
    alarm_settings.set_time((value_or(values[0], 0), value_or(values[1], 0)));
    alarm_settings.set_enabled(value_or(values[2], 0) != 0);
    Some(alarm_settings)
}

/// The values to store for keys 0-2: hour, minute, and 1 or 0 for enabled.
pub fn alarm_settings_stored_values(alarm_settings: &AlarmSettings) -> (values: [u8; 3])
    ensures
        values@ == seq![alarm_settings@.hour, alarm_settings@.minute, if alarm_settings@.enabled { 1u8 } else { 0u8 }],
{
    let values = [
        alarm_settings.get_hour(),
        alarm_settings.get_minute(),
        if alarm_settings.get_enabled() { 1u8 } else { 0u8 },
    ];
    assert(values@ =~= seq![alarm_settings@.hour, alarm_settings@.minute, if alarm_settings@.enabled { 1u8 } else { 0u8 }]);
    values
}

/// Rebuild the system settings from the values read from flash for keys 3-4. Returns `None` if
/// no value was read; missing values take the defaults (13, 1) and values are clamped to range.
pub fn system_settings_from_stored_values(values: [Option<u8>; 2]) -> (r: Option<SystemSettings>)
    ensures
        r is None <==> system_settings_from_stored(values@) is None,
        r matches Some(s) ==> Some(s@) == system_settings_from_stored(values@),
{
    if values[0].is_none() && values[1].is_none() {
        return None;
    }
    let mut system_settings = SystemSettings::new_default();
    system_settings.set_volume(value_or(values[0], DEFAULT_VOLUME));
    system_settings.set_clock_brightness(value_or(values[1], DEFAULT_CLOCK_BRIGHTNESS));
    Some(system_settings)
}

/// The values to store for keys 3-4: volume and clock brightness.
pub fn system_settings_stored_values(system_settings: &SystemSettings) -> (values: [u8; 2])
    ensures
        values@ == seq![system_settings@.volume, system_settings@.clock_brightness],
{
    let values = [system_settings.get_volume(), system_settings.get_clock_brightness()];
    assert(values@ =~= seq![system_settings@.volume, system_settings@.clock_brightness]);
    values
}

/// The alarm settings announced at startup: those read from flash, or the empty settings
/// (00:00, disabled) when flash held none.
pub fn startup_alarm_settings(values: [Option<u8>; 3]) -> (a: AlarmSettings)
    ensures
        alarm_settings_from_stored(values@) matches Some(v) ==> a@ == v,
        alarm_settings_from_stored(values@) is None ==> a@ == (AlarmSettingsView {
            hour: 0,
            minute: 0,
            enabled: false,
            sequence: default_stop_sequence(),
        }),
{
    match alarm_settings_from_stored_values(values) {
        Some(a) => a,
        None => AlarmSettings::new_empty(),
    }
}

/// The system settings announced at startup: those read from flash, or the defaults (volume
/// 13, clock brightness 1) when flash held none.
pub fn startup_system_settings(values: [Option<u8>; 2]) -> (s: SystemSettings)
    ensures
        system_settings_from_stored(values@) matches Some(v) ==> s@ == v,
        system_settings_from_stored(values@) is None ==> s@ == (SystemSettingsView {
            volume: DEFAULT_VOLUME,
            clock_brightness: DEFAULT_CLOCK_BRIGHTNESS,
        }),
{
    match system_settings_from_stored_values(values) {
        Some(s) => s,
        None => SystemSettings::new_default(),
    }
}

/// Alarm settings read back after being written keep their time and enabled state; the stop
/// sequence comes back as the default one.
pub proof fn law_alarm_settings_round_trip(a: AlarmSettingsView)
    ensures
        alarm_settings_from_stored(seq![Some(a.hour), Some(a.minute), Some(if a.enabled { 1u8 } else { 0u8 })])
            == Some(AlarmSettingsView { sequence: default_stop_sequence(), ..a }),
{
}

/// System settings read back after being written are the settings that were written.
pub proof fn law_system_settings_round_trip(s: SystemSettingsView)
    requires
        s.in_range(),
    ensures
        system_settings_from_stored(seq![Some(s.volume), Some(s.clock_brightness)]) == Some(s),
{
}

} // verus!
