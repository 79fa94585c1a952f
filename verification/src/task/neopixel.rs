//! # Neopixel manager of the first firmware generation
//! Brightness settings for the ring, and the colour order of the SPI-driven WS2812 driver.
use vstd::prelude::*;

use crate::task::light_effects::Rgb;

verus! {

/// Brightness settings for alarm and clock modes.
#[derive(Debug, Clone, Copy, PartialEq, Eq, Structural)]
pub struct NeopixelManager {
    /// Brightness for alarm mode
    alarm_brightness: u8,
    /// Brightness for clock mode
    clock_brightness: u8,
}

impl NeopixelManager {
    /// The brightness for alarm mode.
    pub closed spec fn alarm_level(self) -> u8 {
        self.alarm_brightness
    }

    /// The brightness for clock mode.
    pub closed spec fn clock_level(self) -> u8 {
        self.clock_brightness
    }

    /// Creates a manager with the given brightness settings.
    pub fn new(alarm_brightness: u8, clock_brightness: u8) -> (m: NeopixelManager)
        ensures
            m.alarm_level() == alarm_brightness,
            m.clock_level() == clock_brightness,
    {
        NeopixelManager { alarm_brightness, clock_brightness }
    }

    /// Returns the alarm brightness setting.
    pub fn alarm_brightness(&self) -> (b: u8)
        ensures
            b == self.alarm_level(),
    {
        self.alarm_brightness
    }

    /// Returns the clock brightness setting.
    pub fn clock_brightness(&self) -> (b: u8)
        ensures
            b == self.clock_level(),
    {
        self.clock_brightness
    }

    /// Converts an (r, g, b) colour to the green-first order the SPI WS2812 driver sends: the
    /// first two channels swap places.
    pub fn rgb_to_grb(&self, color: (u8, u8, u8)) -> (c: Rgb)
        ensures
            c == (Rgb { r: color.1, g: color.0, b: color.2 }),
    {
        Rgb { r: color.1, g: color.0, b: color.2 }
    }
}

} // verus!
