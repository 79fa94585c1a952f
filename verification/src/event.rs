//! Events that the orchestrator reacts to.
use vstd::prelude::*;

use crate::state::{AlarmSettings, SystemSettings};

verus! {

/// The events of the system. Changes of the power supply, which carry voltage readings, are
/// handled beside these by the firmware.
#[derive(Debug, Clone, Copy)]
pub enum Event {
    /// The blue button was pressed
    BlueBtn,
    /// The green button was pressed
    GreenBtn,
    /// The yellow button was pressed
    YellowBtn,
    /// An interactive mode saw no interaction for too long
    InteractiveModeTimeout,
    /// The display saw no interaction for too long while the alarm is enabled
    DisplaySleepTimeout,
    /// The alarm settings have been read from the flash memory
    AlarmSettingsReadFromFlash(AlarmSettings),
    /// The system settings have been read from the flash memory
    SystemSettingsReadFromFlash(SystemSettings),
    /// The scheduler has ticked, the data is the time in (hour, minute, second)
    Scheduler((u8, u8, u8)),
    /// The rtc has been updated
    RtcUpdated,
    /// The alarm must be raised
    Alarm,
    /// The alarm must be stopped
    AlarmStop,
    /// The light effect `sunrise` has finished
    SunriseEffectFinished,
}

} // verus!
