//! # Light effects
//! The pictures the neopixel ring shows: the analog clock, the rainbow noise of the alarm, the
//! brightness reduction of `smart_leds`, and the decision which picture the ring needs next.
use vstd::prelude::*;

use crate::state::{AlarmState, OperationMode, SystemState};

verus! {

/// Number of LEDs in the ring
pub const NUM_LEDS: u8 = 16;

/// Number of LEDs in the ring, as an array length
pub const NUM_LEDS_USIZE: usize = 16;

/// Milliseconds between two frames of the noise effect
pub const NOISE_FRAME_DELAY_MS: u64 = 5;

/// Frames of one round of the noise effect: five turns of the colour wheel
pub const NOISE_FRAMES_PER_ROUND: u16 = 1280;

/// Duration of the sunrise effect in milliseconds
pub const SUNRISE_DURATION_MS: u32 = 60_000;

/// Milliseconds the last picture of the sunrise stays before the effect reports its end
pub const SUNRISE_TAIL_MS: u64 = 300;

/// A colour of one LED
#[derive(Debug, Clone, Copy, PartialEq, Eq, Structural)]
pub struct Rgb {
    /// Red
    pub r: u8,
    /// Green
    pub g: u8,
    /// Blue
    pub b: u8,
}

/// The colour of a dark LED.
pub open spec fn black() -> Rgb {
    Rgb { r: 0, g: 0, b: 0 }
}

/// A channel scaled by `smart_leds::brightness` at `level`: `c * (level + 1) / 256`.
pub open spec fn scale_channel(c: u8, level: u8) -> u8 {
    ((c as int * (level as int + 1)) / 256) as u8
}

/// A colour scaled by `smart_leds::brightness` at `level`.
pub open spec fn scale_color(c: Rgb, level: u8) -> Rgb {
    Rgb { r: scale_channel(c.r, level), g: scale_channel(c.g, level), b: scale_channel(c.b, level) }
}

/// Reduces the brightness of the ring's colours with `smart_leds::brightness`, which scales
/// each channel `c` of each colour to `c * (level + 1) / 256` and yields the colours in order.
#[verifier::external_body]
fn smart_leds_brightness(data: [Rgb; 16], level: u8) -> (scaled: [Rgb; 16])
    ensures
        forall|i: int| 0 <= i < 16 ==> scaled@[i] == scale_color(#[trigger] data@[i], level),
{
    let input = data.map(|c| smart_leds::RGB8::new(c.r, c.g, c.b));
    let mut out = data;
    for (slot, c) in out.iter_mut().zip(smart_leds::brightness(input.into_iter(), level)) {
        *slot = Rgb { r: c.r, g: c.g, b: c.b };
    }
    out
}

/// Helper function to apply brightness to an LED data array
pub fn apply_brightness(data: &[Rgb; 16], brightness_level: u8) -> (result: [Rgb; 16])
    ensures
        forall|i: int| 0 <= i < 16 ==> result@[i] == scale_color(#[trigger] data@[i], brightness_level),
{
    smart_leds_brightness(*data, brightness_level)
}

/// A channel sum, saturated at 255.
pub open spec fn saturating_sum(a: u8, b: u8) -> u8 {
    if a + b > 255 { 255 } else { (a + b) as u8 }
}

/// Two colours added channel by channel, each channel saturated at 255.
pub open spec fn mixed(c1: Rgb, c2: Rgb) -> Rgb {
    Rgb { r: saturating_sum(c1.r, c2.r), g: saturating_sum(c1.g, c2.g), b: saturating_sum(c1.b, c2.b) }
}

/// The colour of the wheel at a position: red to blue to green and back to red.
pub open spec fn wheel_color(pos: u8) -> Rgb {
    let w = 255 - pos;
    if w < 85 {
        Rgb { r: (255 - w * 3) as u8, g: 0, b: (w * 3) as u8 }
    } else if w < 170 {
        Rgb { r: 0, g: ((w - 85) * 3) as u8, b: (255 - (w - 85) * 3) as u8 }
    } else {
        Rgb { r: ((w - 170) * 3) as u8, g: (255 - (w - 170) * 3) as u8, b: 0 }
    }
}

/// Manages the neopixel LED ring, including brightness settings for alarm and clock modes.
#[derive(Debug, Clone, Copy, PartialEq, Eq, Structural)]
pub struct NeopixelManager {
    /// Brightness setting for alarm mode
    alarm_brightness: u8,
    /// Brightness setting for clock mode
    clock_brightness: u8,
}

impl NeopixelManager {
    /// The brightness of the alarm effects.
    pub closed spec fn alarm_level(self) -> u8 {
        self.alarm_brightness
    }

    /// The brightness of the analog clock.
    pub closed spec fn clock_level(self) -> u8 {
        self.clock_brightness
    }

    /// Creates a new `NeopixelManager` with default brightness settings: 10 for the alarm, 1
    /// for the clock.
    pub fn new() -> (m: NeopixelManager)
        ensures
            m.alarm_level() == 10,
            m.clock_level() == 1,
    {
        NeopixelManager { alarm_brightness: 10, clock_brightness: 1 }
    }

    /// Returns the alarm brightness setting.
    pub fn alarm_brightness(&self) -> (b: u8)
        ensures
            b == self.alarm_level(),
    {
        self.alarm_brightness
    }

    /// Returns the clock brightness setting.
    pub fn clock_brightness(&self) -> (b: u8)
        ensures
            b == self.clock_level(),
    {
        self.clock_brightness
    }

    /// Updates the clock brightness from the system settings, if the system state exists.
    pub fn update_from_system_state(&mut self, state: Option<&SystemState>)
        ensures
            final(self).alarm_level() == old(self).alarm_level(),
            state.is_some() ==> final(self).clock_level() == state.unwrap()@.system_settings.clock_brightness,
            state.is_none() ==> final(self).clock_level() == old(self).clock_level(),
    {
        if let Some(s) = state {
            self.clock_brightness = s.system_settings.get_clock_brightness();
        }
    }

    /// Mixes two colors together
    pub fn mix_colors(color1: Rgb, color2: Rgb) -> (c: Rgb)
        ensures
            c == mixed(color1, color2),
    {
        let r: u16 = color1.r as u16 + color2.r as u16;
        let g: u16 = color1.g as u16 + color2.g as u16;
        let b: u16 = color1.b as u16 + color2.b as u16;
        Rgb {
            r: if r > 255 { 255 } else { r as u8 },
            g: if g > 255 { 255 } else { g as u8 },
            b: if b > 255 { 255 } else { b as u8 },
        }
    }

    /// Function to convert a color wheel value to RGB
    pub fn wheel(wheel_pos: u8) -> (c: Rgb)
        ensures
            c == wheel_color(wheel_pos),
    {
        let mut pos = 255 - wheel_pos;
        if pos < 85 {
            return Rgb { r: 255 - pos * 3, g: 0, b: pos * 3 };
        }
        if pos < 170 {
            pos = pos - 85;
            return Rgb { r: 0, g: pos * 3, b: 255 - pos * 3 };
        }
        pos = pos - 170;
        Rgb { r: pos * 3, g: 255 - pos * 3, b: 0 }
    }
}

/// The ring position of a hand: `value` out of `max_value` around the ring, turned so that the
/// top of the clock falls on LED 9.
pub open spec fn hand_index(value: u8, max_value: u8) -> int {
    (((value % max_value) as int * 16) / (max_value as int) + 9) % 16
}

/// Calculates the LED index for a given time value
///
/// Maps a time value (0-59 for minutes/seconds or 1-12 for hours) to an LED index on the ring:
/// `(value * NUM_LEDS / max_value + offset) % NUM_LEDS`
pub fn calculate_hand_index(value: u8, max_value: u8) -> (index: u8)
    requires
        max_value > 0,
    ensures
        index == hand_index(value, max_value),
        index < NUM_LEDS,
{
    let value_mod: u16 = (value % max_value) as u16;
    assert(value_mod * 16 <= 255 * 16) by (nonlinear_arith)
        requires
            value_mod < 256,
    ;
    let index: u16 = (value_mod * 16 / max_value as u16 + (NUM_LEDS / 2 + 1) as u16) % 16;
    index as u8
}

/// Helper struct to bundle time values (hour, minute, second)
#[derive(Debug, Clone, Copy, PartialEq, Eq, Structural)]
pub struct ClockTime {
    /// Hour (0-23)
    pub hour: u8,
    /// Minute (0-59)
    pub minute: u8,
    /// Second (0-59)
    pub second: u8,
}

impl ClockTime {
    /// Creates a new `ClockTime` from hour, minute, and second values
    pub fn new(hour: u8, minute: u8, second: u8) -> (t: ClockTime)
        ensures
            t == (ClockTime { hour, minute, second }),
    {
        ClockTime { hour, minute, second }
    }
}

/// Helper struct to bundle clock hand colors
#[derive(Debug, Clone, Copy, PartialEq, Eq, Structural)]
pub struct ClockColors {
    /// Red color for hour hand
    pub hour: Rgb,
    /// Green color for minute hand
    pub minute: Rgb,
    /// Blue color for second hand
    pub second: Rgb,
}

impl ClockColors {
    /// Creates new clock colors with standard RGB values: red hours, green minutes, blue
    /// seconds.
    pub fn new() -> (c: ClockColors)
        ensures
            c == (ClockColors {
                hour: Rgb { r: 255, g: 0, b: 0 },
                minute: Rgb { r: 0, g: 255, b: 0 },
                second: Rgb { r: 0, g: 0, b: 255 },
            }),
    {
        ClockColors {
            hour: Rgb { r: 255, g: 0, b: 0 },
            minute: Rgb { r: 0, g: 255, b: 0 },
            second: Rgb { r: 0, g: 0, b: 255 },
        }
    }
}

/// The hour on the 12-hour dial: 12 for noon and midnight.
pub open spec fn dial_hour(hour: u8) -> u8 {
    if hour % 12 == 0 { 12 } else { hour % 12 }
}

/// The colour of LED `i` when the hands stand at `h`, `m` and `s`: a hand's colour where it
/// stands alone, the mix of the colours of the hands that share an LED, dark elsewhere.
pub open spec fn clock_pixel(i: int, h: int, m: int, s: int, colors: ClockColors) -> Rgb {
    if i == h && i == m && i == s {
        mixed(mixed(colors.hour, colors.minute), colors.second)
    } else if i == h && i == m {
        mixed(colors.hour, colors.minute)
    } else if i == h && i == s {
        mixed(colors.hour, colors.second)
    } else if i == m && i == s {
        mixed(colors.minute, colors.second)
    } else if i == h {
        colors.hour
    } else if i == m {
        colors.minute
    } else if i == s {
        colors.second
    } else {
        black()
    }
}

/// The analog clock picture of a time, before the brightness is applied.
pub open spec fn clock_face(time: ClockTime, colors: ClockColors) -> Seq<Rgb> {
    let h = hand_index(dial_hour(time.hour), 12);
    let m = hand_index(time.minute, 60);
    let s = hand_index(time.second, 60);
    Seq::new(16, |i: int| clock_pixel(i, h, m, s, colors))
}

/// The colours of the analog clock on the ring, before the brightness is applied.
pub fn analog_clock_face(time: &ClockTime, colors: &ClockColors) -> (data: [Rgb; 16])
    ensures
        data@ == clock_face(*time, *colors),
{
    let black = Rgb { r: 0, g: 0, b: 0 };
    let mut data = [black; 16];
    let hour_normalized = if time.hour % 12 == 0 { 12 } else { time.hour % 12 };
    let hour_index = calculate_hand_index(hour_normalized, 12) as usize;
    let minute_index = calculate_hand_index(time.minute, 60) as usize;
    let second_index = calculate_hand_index(time.second, 60) as usize;
    data[hour_index] = colors.hour;
    data[minute_index] = colors.minute;
    data[second_index] = colors.second;
    if hour_index == minute_index && hour_index == second_index {
        data[hour_index] = NeopixelManager::mix_colors(
            NeopixelManager::mix_colors(colors.hour, colors.minute),
            colors.second,
        );
    } else {
        if hour_index == minute_index {
            data[hour_index] = NeopixelManager::mix_colors(colors.hour, colors.minute);
        }
        if hour_index == second_index {
            data[hour_index] = NeopixelManager::mix_colors(colors.hour, colors.second);
        }
        if minute_index == second_index {
            data[minute_index] = NeopixelManager::mix_colors(colors.minute, colors.second);
        }
    }
    assert(data@ =~= clock_face(*time, *colors));
    data
}

/// Displays the analog clock hands: the picture of the time at the clock brightness.
pub fn display_analog_clock(neopixel_mgr: &NeopixelManager, time: &ClockTime, colors: &ClockColors) -> (data: [Rgb; 16])
    ensures
        forall|i: int| 0 <= i < 16 ==> data@[i] == scale_color(
            #[trigger] clock_face(*time, *colors)[i],
            neopixel_mgr.clock_level(),
        ),
{
    let face = analog_clock_face(time, colors);
    apply_brightness(&face, neopixel_mgr.clock_brightness())
}

/// All LEDs dark.
pub fn all_off() -> (data: [Rgb; 16])
    ensures
        forall|i: int| 0 <= i < 16 ==> data@[i] == black(),
{
    [Rgb { r: 0, g: 0, b: 0 }; 16]
}

/// A channel of the noise effect dimmed to `level` out of 255.
pub open spec fn dim_channel(c: u8, level: u8) -> u8 {
    ((c as int * level as int) / 255) as u8
}

/// The colour of LED `i` in frame `step` of the noise effect: the LEDs spread evenly over the
/// colour wheel, the wheel turning by one position per frame, dimmed to the alarm brightness.
pub open spec fn noise_pixel(i: int, step: u16, level: u8) -> Rgb {
    let c = wheel_color(((i * 16 + (step % 256)) % 256) as u8);
    Rgb { r: dim_channel(c.r, level), g: dim_channel(c.g, level), b: dim_channel(c.b, level) }
}

/// One frame of the rainbow noise effect
pub fn noise_frame(step: u16, brightness_level: u8) -> (data: [Rgb; 16])
    ensures
        forall|i: int| 0 <= i < 16 ==> data@[i] == noise_pixel(i, step, brightness_level),
{
    let mut data = [Rgb { r: 0, g: 0, b: 0 }; 16];
    let mut i: usize = 0;
    while i < 16
        invariant
            0 <= i <= 16,
            forall|k: int| 0 <= k < i ==> data@[k] == noise_pixel(k, step, brightness_level),
        decreases 16 - i,
    {
        assert((i as u16 * 256) / 16 == i * 16) by (nonlinear_arith)
            requires
                i < 16,
        ;
        let base_offset: u8 = ((i as u16 * 256) / NUM_LEDS as u16) as u8;
        let masked: u16 = step & 255;
        assert(masked == step % 256) by (bit_vector)
            requires
                masked == step & 255,
        ;
        let j_clamped: u8 = masked as u8;
        assert(base_offset == i * 16);
        let wheel_index = base_offset.wrapping_add(j_clamped);
        assert(wheel_index == ((i * 16 + (step % 256)) % 256) as u8);
        let color = NeopixelManager::wheel(wheel_index);
        assert(color.r as u16 * brightness_level as u16 <= 255 * 255) by (nonlinear_arith);
        assert(color.g as u16 * brightness_level as u16 <= 255 * 255) by (nonlinear_arith);
        assert(color.b as u16 * brightness_level as u16 <= 255 * 255) by (nonlinear_arith);
        let r = (color.r as u16 * brightness_level as u16 / 255) as u8;
        let g = (color.g as u16 * brightness_level as u16 / 255) as u8;
        let b = (color.b as u16 * brightness_level as u16 / 255) as u8;
        assert(r == dim_channel(color.r, brightness_level));
        assert(g == dim_channel(color.g, brightness_level));
        assert(b == dim_channel(color.b, brightness_level));
        data[i] = Rgb { r, g, b };
        i = i + 1;
    }
    data
}

/// What the ring currently shows, tracked to avoid redundant writes and save power
#[derive(Debug, Clone, Copy, PartialEq, Eq, Structural)]
pub enum LedState {
    /// LEDs are off (all black)
    Off,
    /// LEDs are displaying the analog clock
    AnalogClock,
    /// LEDs are in alarm effect mode
    AlarmEffect,
}

/// What the light effects task does on a time signal.
#[derive(Debug, Clone, Copy, PartialEq, Eq, Structural)]
pub enum LightAction {
    /// Nothing to write.
    Keep,
    /// The system state is not ready: wait a second.
    WaitForState,
    /// Turn all LEDs off.
    TurnOff,
    /// Show the analog clock at this time.
    ShowClock(ClockTime),
    /// Run the sunrise effect.
    Sunrise,
    /// Run the rainbow noise effect.
    Noise,
}

/// The ring's picture task state: what it shows and the time it shows.
#[derive(Debug, Clone, Copy, PartialEq, Eq, Structural)]
pub struct RingState {
    /// What the LEDs show
    pub current: LedState,
    /// The time the analog clock shows, if it does
    pub last_time: Option<ClockTime>,
}

/// Whether a mode shows the analog clock (unless the alarm is enabled).
pub open spec fn clock_mode(mode: OperationMode) -> bool {
    match mode {
        OperationMode::Initializing | OperationMode::Standby | OperationMode::Alarm => false,
        _ => true,
    }
}

/// Turn the ring off unless it is off already.
pub open spec fn turn_off(ring: RingState) -> (LightAction, RingState) {
    if ring.current != LedState::Off {
        (LightAction::TurnOff, RingState { current: LedState::Off, last_time: None })
    } else {
        (LightAction::Keep, ring)
    }
}

/// The action and next ring state for a time signal, given the system state's mode, alarm
/// enablement and alarm state.
pub open spec fn light_step_spec(
    mode: OperationMode,
    alarm_enabled: bool,
    alarm_state: AlarmState,
    time: ClockTime,
    ring: RingState,
) -> (LightAction, RingState) {
    if mode == OperationMode::Alarm {
        match alarm_state {
            AlarmState::Sunrise => (LightAction::Sunrise, RingState { current: LedState::AlarmEffect, last_time: None }),
            AlarmState::Noise => (LightAction::Noise, RingState { current: LedState::AlarmEffect, last_time: None }),
            AlarmState::Inactive => (LightAction::Keep, ring),
        }
    } else if !clock_mode(mode) || alarm_enabled {
        turn_off(ring)
    } else if ring.current != LedState::AnalogClock || ring.last_time != Some(time) {
        (LightAction::ShowClock(time), RingState { current: LedState::AnalogClock, last_time: Some(time) })
    } else {
        (LightAction::Keep, ring)
    }
}

/// Decides what the ring does on a time signal: stays dark while initializing, in standby or
/// with the alarm enabled, shows the analog clock otherwise, and runs the effect of the alarm
/// state during the alarm. Writes happen only when the picture changes.
pub fn light_step(state: Option<&SystemState>, time: ClockTime, ring: RingState) -> (r: (LightAction, RingState))
    ensures
        state.is_none() ==> r == (LightAction::WaitForState, ring),
        state.is_some() ==> r == light_step_spec(
            state.unwrap()@.operation_mode,
            state.unwrap()@.alarm_settings.enabled,
            state.unwrap()@.alarm_state,
            time,
            ring,
        ),
{
    let s = match state {
        None => {
            return (LightAction::WaitForState, ring);
        },
        Some(s) => s,
    };
    let off = if ring.current != LedState::Off {
        (LightAction::TurnOff, RingState { current: LedState::Off, last_time: None })
    } else {
        (LightAction::Keep, ring)
    };
    match s.operation_mode {
        OperationMode::Initializing | OperationMode::Standby => off,
        OperationMode::Alarm => match s.alarm_state {
            AlarmState::Sunrise => (LightAction::Sunrise, RingState { current: LedState::AlarmEffect, last_time: None }),
            AlarmState::Noise => (LightAction::Noise, RingState { current: LedState::AlarmEffect, last_time: None }),
            AlarmState::Inactive => (LightAction::Keep, ring),
        },
        _ => {
            if s.alarm_settings.get_enabled() {
                off
            } else {
                let same_time = match ring.last_time {
                    Some(t) => t.hour == time.hour && t.minute == time.minute && t.second == time.second,
                    None => false,
                };
                if ring.current != LedState::AnalogClock || !same_time {
                    (LightAction::ShowClock(time), RingState { current: LedState::AnalogClock, last_time: Some(time) })
                } else {
                    (LightAction::Keep, ring)
                }
            }
        },
    }
}

/// Every hand of the analog clock lands on an LED of the ring.
pub proof fn law_hand_index_on_ring(value: u8, max_value: u8)
    requires
        max_value > 0,
    ensures
        0 <= hand_index(value, max_value) < 16,
{
}

/// The analog clock only writes when its picture changes: a second signal with the same time,
/// in the same state, writes nothing.
pub proof fn law_clock_written_once_per_time(mode: OperationMode, alarm_state: AlarmState, time: ClockTime, ring: RingState)
    requires
        clock_mode(mode),
    ensures
        ({
            let (a1, r1) = light_step_spec(mode, false, alarm_state, time, ring);
            let (a2, r2) = light_step_spec(mode, false, alarm_state, time, r1);
            a2 == LightAction::Keep && r2 == r1
        }),
{
}

/// Outside the alarm itself, the ring is dark after any time signal while the alarm is enabled,
/// during initialization and in standby.
pub proof fn law_ring_dark_unless_showing_the_clock(
    mode: OperationMode,
    alarm_enabled: bool,
    alarm_state: AlarmState,
    time: ClockTime,
    ring: RingState,
)
    requires
        mode != OperationMode::Alarm,
        alarm_enabled || mode == OperationMode::Initializing || mode == OperationMode::Standby,
    ensures
        light_step_spec(mode, alarm_enabled, alarm_state, time, ring).1.current == LedState::Off,
{
}

/// The analog clock on the ring: with 12 o'clock on LED 9, the hour hand of hour `h` (the same
/// for `h` and `h + 12`) stands `(h mod 12) * 16 / 12` LEDs clockwise from it and the minute and
/// second hands `v * 16 / 60` LEDs; an LED with one hand alone shows that hand's colour, and an
/// LED without a hand is dark.
pub proof fn law_clock_face_hands(time: ClockTime, colors: ClockColors, i: int)
    requires
        time.minute < 60,
        time.second < 60,
        0 <= i < 16,
    ensures
        ({
            let h = (9 + (time.hour % 12) as int * 16 / 12) % 16;
            let m = (9 + time.minute as int * 16 / 60) % 16;
            let s = (9 + time.second as int * 16 / 60) % 16;
            let face = clock_face(time, colors);
            &&& face.len() == 16
            &&& hand_index(dial_hour(time.hour), 12) == h
            &&& hand_index(time.minute, 60) == m
            &&& hand_index(time.second, 60) == s
            &&& (i != h && i != m && i != s ==> face[i] == Rgb { r: 0, g: 0, b: 0 })
            &&& (i == h && i != m && i != s ==> face[i] == colors.hour)
            &&& (i != h && i == m && i != s ==> face[i] == colors.minute)
            &&& (i != h && i != m && i == s ==> face[i] == colors.second)
        }),
        (time.hour as int) < 12 ==> hand_index(dial_hour(time.hour), 12) == hand_index(dial_hour((time.hour + 12) as u8), 12),
{
}

} // verus!
