//! # Task messages
//! The messages of the first generation of the firmware: events for the orchestrator to react
//! to, and commands it sends to the other tasks.
use vstd::prelude::*;

use crate::state::AlarmSettings;

verus! {

/// Events that the orchestrator reacts to, with the data needed to react to them. (The system
/// voltage event carries a float and is kept by the firmware around this crate.)
#[derive(Debug, Clone, Copy)]
pub enum Events {
    /// The blue button was pressed, the data is the number of presses
    BlueBtn(u32),
    /// The green button was pressed, the data is the number of presses
    GreenBtn(u32),
    /// The yellow button was pressed, the data is the number of presses
    YellowBtn(u32),
    /// The usb power state has changed, the data is the new state of the usb power
    Vbus(bool),
    /// The alarm settings have been read from the flash memory, the data is the alarm settings
    AlarmSettingsReadFromFlash(AlarmSettings),
    /// The alarm settings need to be updated in the flash memory
    AlarmSettingsNeedUpdate,
    /// The scheduler has ticked, the data is the time in (hour, minute, second)
    Scheduler((u8, u8, u8)),
    /// The rtc has been updated
    RtcUpdated,
    /// The system must go to standby mode
    Standby,
    /// The system must wake up from standby mode
    WakeUp,
    /// The alarm must be raised
    Alarm,
    /// The alarm must be stopped
    AlarmStop,
    /// The light effect `sunrise` has finished
    SunriseEffectFinished,
}

/// Commands that the orchestrator sends to the tasks it controls.
#[derive(Debug, Clone, Copy)]
pub enum Commands {
    /// Write the alarm settings to the flash memory, the data is the alarm settings
    AlarmSettingsWriteToFlash(AlarmSettings),
    /// Update the display with the new state of the system
    DisplayUpdate,
    /// Update the neopixel with the time in (hour, minute, second) for the analog clock
    LightFXUpdate((u8, u8, u8)),
    /// Update the sound task with the new state of the system
    SoundUpdate,
    /// Stop the minute timer
    MinuteTimerStop,
    /// Start the minute timer
    MinuteTimerStart,
}

} // verus!
