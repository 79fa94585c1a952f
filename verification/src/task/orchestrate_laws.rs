//! Properties of the state transitions that hold across events.
use vstd::prelude::*;

use crate::event::Event;
use crate::state::{
    default_stop_sequence, first_valid_button, first_valid_index, sequence_complete,
    shuffled_sequence, volume_down, volume_up, brightness_down, brightness_up, AlarmState,
    DisplayState, OperationMode, SystemStateView, MAX_CLOCK_BRIGHTNESS, MAX_VOLUME,
};
use crate::task::alarm_settings::SettingsWriteCommandView;
use crate::task::buttons::Button;
use crate::task::orchestrate::{
    alarm_settings_update_actions, button_event_outcome, event_outcome, manual_time_entry,
    manual_time_set_actions, standby_actions, system_settings_update_actions, wakeup_actions, ActionView,
    InitializationState,
};

verus! {

/// One of the three buttons of the clock.
pub open spec fn is_colored_button(b: Button) -> bool {
    b == Button::Green || b == Button::Blue || b == Button::Yellow
}

/// While the display is off, a press of any button only wakes the display: the press is used
/// up, the interaction time is recorded, and nothing else changes.
pub proof fn law_press_on_dark_display_only_wakes(s: SystemStateView, b: Button, tick: u64)
    requires
        s.display_state == DisplayState::Off,
    ensures
        button_event_outcome(Some(s), b, tick) == (
            Some(SystemStateView { display_state: DisplayState::On, last_interaction_tick: tick, ..s }),
            seq![ActionView::DisplayUpdate],
        ),
{
}

/// During initialization the buttons have no effect beyond recording the interaction.
pub proof fn law_initializing_ignores_buttons(s: SystemStateView, b: Button, tick: u64)
    requires
        s.operation_mode == OperationMode::Initializing,
        s.display_state == DisplayState::On,
        is_colored_button(b),
    ensures
        button_event_outcome(Some(s), b, tick) == (
            Some(SystemStateView { last_interaction_tick: tick, ..s }),
            seq![ActionView::DisplayUpdate, ActionView::ButtonLeds(crate::task::button_leds::ButtonLedCommand::OnWithTimeout)],
        ),
{
    assert(seq![] + seq![ActionView::DisplayUpdate] + seq![ActionView::ButtonLeds(crate::task::button_leds::ButtonLedCommand::OnWithTimeout)]
        =~= seq![ActionView::DisplayUpdate, ActionView::ButtonLeds(crate::task::button_leds::ButtonLedCommand::OnWithTimeout)]);
}

/// After an interactive-mode timeout the clock is back in normal mode with no alarm, whatever
/// mode it was in; the volume and brightness screens save the system settings, the manual time
/// screen sets the clock, the alarm time screen saves the alarm settings, and the display is
/// redrawn last.
pub proof fn law_timeout_returns_to_normal_and_saves(s: SystemStateView, init: InitializationState, tick: u64, r: Seq<usize>)
    ensures
        ({
            let (s2, init2, acts) = event_outcome(Some(s), init, Event::InteractiveModeTimeout, tick, r);
            &&& s2 == Some(s.normal())
            &&& init2 == init
            &&& acts.len() >= 1
            &&& acts.last() == ActionView::DisplayUpdate
            &&& (s.operation_mode == OperationMode::SetVolume || s.operation_mode == OperationMode::SetClockBrightness)
                ==> acts.take(3) == system_settings_update_actions(s.system_settings)
            &&& s.operation_mode == OperationMode::SetTimeManual
                ==> acts.take(2) == manual_time_set_actions(s.manual_time_buffer.0, s.manual_time_buffer.1)
            &&& s.operation_mode == OperationMode::SetAlarmTime
                ==> acts[0] == ActionView::Persist(SettingsWriteCommandView::AlarmSettings(s.alarm_settings))
        }),
{
    let (s2, init2, acts) = event_outcome(Some(s), init, Event::InteractiveModeTimeout, tick, r);
    if s.operation_mode == OperationMode::SetVolume || s.operation_mode == OperationMode::SetClockBrightness {
        assert(acts.take(3) =~= system_settings_update_actions(s.system_settings));
    }
    if s.operation_mode == OperationMode::SetTimeManual {
        assert(acts.take(2) =~= manual_time_set_actions(s.manual_time_buffer.0, s.manual_time_buffer.1));
    }
}

/// Pressing blue confirms: on the volume and brightness screens it saves the system settings and
/// returns to the settings menu, on the alarm time screen it saves the alarm settings and returns
/// to normal mode.
pub proof fn law_blue_saves(s: SystemStateView, tick: u64)
    requires
        s.display_state == DisplayState::On,
    ensures
        ({
            let (s2, acts) = button_event_outcome(Some(s), Button::Blue, tick);
            &&& (s.operation_mode == OperationMode::SetVolume || s.operation_mode == OperationMode::SetClockBrightness) ==> {
                &&& s2 == Some(SystemStateView { operation_mode: OperationMode::SettingsMenu, last_interaction_tick: tick, ..s })
                &&& acts.take(3) == system_settings_update_actions(s.system_settings)
            }
            &&& s.operation_mode == OperationMode::SetAlarmTime ==> {
                &&& s2 == Some(SystemStateView { last_interaction_tick: tick, ..s }.normal())
                &&& acts[0] == ActionView::Persist(SettingsWriteCommandView::AlarmSettings(s.alarm_settings))
            }
        }),
{
    let (s2, acts) = button_event_outcome(Some(s), Button::Blue, tick);
    if s.operation_mode == OperationMode::SetVolume || s.operation_mode == OperationMode::SetClockBrightness {
        assert(acts.take(3) =~= system_settings_update_actions(s.system_settings));
    }
}

/// Any button wakes the clock from standby into normal mode and resumes the stopped tasks.
pub proof fn law_standby_wakes_on_any_button(s: SystemStateView, b: Button, tick: u64)
    requires
        s.operation_mode == OperationMode::Standby,
        s.display_state == DisplayState::On,
        is_colored_button(b),
    ensures
        ({
            let (s2, acts) = button_event_outcome(Some(s), b, tick);
            &&& s2 == Some(SystemStateView { last_interaction_tick: tick, ..s }.normal())
            &&& acts.take(3) == wakeup_actions()
        }),
{
    let (s2, acts) = button_event_outcome(Some(s), b, tick);
    assert(acts.take(3) =~= wakeup_actions());
}

/// Blue in the menu puts the clock into standby and stops the periodic tasks.
pub proof fn law_menu_blue_enters_standby(s: SystemStateView, tick: u64)
    requires
        s.operation_mode == OperationMode::Menu,
        s.display_state == DisplayState::On,
    ensures
        ({
            let (s2, acts) = button_event_outcome(Some(s), Button::Blue, tick);
            &&& s2 == Some(SystemStateView { operation_mode: OperationMode::Standby, last_interaction_tick: tick, ..s })
            &&& acts.take(4) == standby_actions()
        }),
{
    let (s2, acts) = button_event_outcome(Some(s), Button::Blue, tick);
    assert(acts.take(4) =~= standby_actions());
}

/// The shuffled stop sequence always holds each of the three colors exactly once.
pub proof fn law_shuffle_is_permutation(picks: Seq<usize>)
    requires
        picks.len() == 3,
        forall|i: int| 0 <= i < 3 ==> picks[i] < 3,
    ensures
        shuffled_sequence(picks).len() == 3,
        shuffled_sequence(picks).contains(Button::Green),
        shuffled_sequence(picks).contains(Button::Blue),
        shuffled_sequence(picks).contains(Button::Yellow),
        forall|i: int, j: int| 0 <= i < j < 3 ==> shuffled_sequence(picks)[i] != shuffled_sequence(picks)[j],
{
    let s = shuffled_sequence(picks);
    assert(picks[0] == 0 || picks[0] == 1 || picks[0] == 2);
    assert(picks[1] == 0 || picks[1] == 1 || picks[1] == 2);
    assert(picks[2] == 0 || picks[2] == 1 || picks[2] == 2);
    assert(s[0] == Button::Green || s[1] == Button::Green || s[2] == Button::Green);
    assert(s[0] == Button::Blue || s[1] == Button::Blue || s[2] == Button::Blue);
    assert(s[0] == Button::Yellow || s[1] == Button::Yellow || s[2] == Button::Yellow);
}

/// During the alarm, a press of a button other than the one expected next changes nothing but
/// the interaction time: the alarm goes on.
pub proof fn law_wrong_button_keeps_alarm(s: SystemStateView, b: Button, tick: u64)
    requires
        s.operation_mode == OperationMode::Alarm,
        s.display_state == DisplayState::On,
        is_colored_button(b),
        first_valid_button(s.alarm_settings.sequence) != b,
        !sequence_complete(s.alarm_settings.sequence),
    ensures
        button_event_outcome(Some(s), b, tick) == (
            Some(SystemStateView { last_interaction_tick: tick, ..s }),
            seq![ActionView::DisplayUpdate],
        ),
{
    assert(seq![] + seq![ActionView::DisplayUpdate] + seq![] =~= seq![ActionView::DisplayUpdate]);
}

/// The alarm raised with a shuffled sequence stops exactly when its three buttons are pressed in
/// order: after the first two the alarm is still on, after the third the clock is in normal mode.
pub proof fn law_alarm_stops_after_sequence(s: SystemStateView, t0: u64, t1: u64, t2: u64, picks: Seq<usize>)
    requires
        s.operation_mode == OperationMode::Alarm,
        s.alarm_state != AlarmState::Inactive,
        s.display_state == DisplayState::On,
        picks.len() == 3,
        forall|i: int| 0 <= i < 3 ==> picks[i] < 3,
        s.alarm_settings.sequence == shuffled_sequence(picks),
    ensures
        ({
            let seq = shuffled_sequence(picks);
            let (o1, _a1) = button_event_outcome(Some(s), seq[0], t0);
            let (o2, _a2) = button_event_outcome(o1, seq[1], t1);
            let (o3, _a3) = button_event_outcome(o2, seq[2], t2);
            &&& o1 matches Some(s1) && s1.operation_mode == OperationMode::Alarm && s1.alarm_state == s.alarm_state
            &&& o2 matches Some(s2) && s2.operation_mode == OperationMode::Alarm && s2.alarm_state == s.alarm_state
            &&& o3 matches Some(s3) && s3.operation_mode == OperationMode::Normal && s3.alarm_state == AlarmState::Inactive
        }),
{
    law_shuffle_is_permutation(picks);
    let q = shuffled_sequence(picks);
    let q1 = q.update(0, Button::NoButton);
    let q2 = q1.update(1, Button::NoButton);
    let q3 = q2.update(2, Button::NoButton);
    assert(q[0] != Button::NoButton && q[1] != Button::NoButton && q[2] != Button::NoButton) by {
        assert(q.contains(Button::Green) && q.contains(Button::Blue) && q.contains(Button::Yellow));
        if q[0] == Button::NoButton || q[1] == Button::NoButton || q[2] == Button::NoButton {
            let k = choose|k: int| 0 <= k < 3 && q[k] == Button::Green;
            let l = choose|l: int| 0 <= l < 3 && q[l] == Button::Blue;
            let m = choose|m: int| 0 <= m < 3 && q[m] == Button::Yellow;
        }
    }
    assert(first_valid_index(q) == 0);
    assert(first_valid_index(q1) == 1) by {
        reveal_with_fuel(first_valid_index, 2);
        assert(q1.drop_first()[0] == q[1]);
    }
    assert(first_valid_index(q2) == 2) by {
        reveal_with_fuel(first_valid_index, 3);
        assert(q2.drop_first()[0] == Button::NoButton);
        assert(q2.drop_first().drop_first()[0] == q[2]);
    }
    assert(!sequence_complete(q1)) by { assert(q1[1] != Button::NoButton); }
    assert(!sequence_complete(q2)) by { assert(q2[2] != Button::NoButton); }
    assert(sequence_complete(q3));
}

/// Stepping the volume up and then down (or down and then up) gives back the volume it started
/// from, and both steps stay within 0-30; the same holds for the clock brightness within 0-20.
pub proof fn law_settings_steps_undo(v: u8, b: u8)
    requires
        v <= MAX_VOLUME,
        b <= MAX_CLOCK_BRIGHTNESS,
    ensures
        volume_down(volume_up(v)) == v,
        volume_up(volume_down(v)) == v,
        volume_up(v) <= MAX_VOLUME,
        volume_down(v) <= MAX_VOLUME,
        brightness_down(brightness_up(b)) == b,
        brightness_up(brightness_down(b)) == b,
        brightness_up(b) <= MAX_CLOCK_BRIGHTNESS,
        brightness_down(b) <= MAX_CLOCK_BRIGHTNESS,
{
}

/// The clock leaves initialization only once both the clock time and the alarm settings have
/// arrived: each of the two events completes it exactly when the other has already happened.
pub proof fn law_initialization_needs_both(
    s: SystemStateView,
    init: InitializationState,
    a: crate::state::AlarmSettings,
    tick: u64,
    r: Seq<usize>,
)
    requires
        s.operation_mode == OperationMode::Initializing,
    ensures
        ({
            let (o, i2, _acts) = event_outcome(Some(s), init, Event::AlarmSettingsReadFromFlash(a), tick, r);
            &&& i2.alarm_settings_loaded
            &&& o matches Some(s2) && (s2.operation_mode == OperationMode::Normal <==> init.rtc_ready)
            &&& o matches Some(s2) && (!init.rtc_ready ==> s2.operation_mode == OperationMode::Initializing)
        }),
        ({
            let (o, i2, _acts) = event_outcome(Some(s), init, Event::RtcUpdated, tick, r);
            &&& i2.rtc_ready
            &&& o matches Some(s2) && (s2.operation_mode == OperationMode::Normal <==> init.alarm_settings_loaded)
            &&& o matches Some(s2) && (!init.alarm_settings_loaded ==> s2.operation_mode == OperationMode::Initializing)
        }),
{
}

/// The scheduler tick drives the analog clock on the LEDs only while the alarm is disabled and
/// not ringing, and nothing at all happens on it during initialization.
pub proof fn law_scheduler_drives_leds_only_without_alarm(s: SystemStateView, init: InitializationState, h: u8, m: u8, sec: u8, tick: u64, r: Seq<usize>)
    ensures
        ({
            let (o, i2, acts) = event_outcome(Some(s), init, Event::Scheduler((h, m, sec)), tick, r);
            &&& o == Some(s)
            &&& i2 == init
            &&& s.operation_mode == OperationMode::Initializing ==> acts.len() == 0
            &&& acts.contains(ActionView::LightFxStart(h, m, sec)) ==> (s.alarm_state == AlarmState::Inactive && !s.alarm_settings.enabled)
        }),
{
    let (o, i2, acts) = event_outcome(Some(s), init, Event::Scheduler((h, m, sec)), tick, r);
    if acts.contains(ActionView::LightFxStart(h, m, sec)) {
        let k = choose|k: int| 0 <= k < acts.len() && acts[k] == ActionView::LightFxStart(h, m, sec);
    }
}

/// The display is switched off by the sleep timeout only when the alarm is enabled, the clock is
/// in normal mode, and 30 seconds passed since the last interaction.
pub proof fn law_display_sleeps_only_when_due(s: SystemStateView, init: InitializationState, tick: u64, r: Seq<usize>)
    ensures
        ({
            let (o, _i2, _acts) = event_outcome(Some(s), init, Event::DisplaySleepTimeout, tick, r);
            o matches Some(s2) && (s2.display_state == DisplayState::Off && s.display_state == DisplayState::On
                ==> s.alarm_display_sleep_due(tick))
        }),
{
}

/// Toggling the alarm with green in normal mode persists the new settings, and reschedules the
/// alarm when it was switched on or disables the schedule when it was switched off.
pub proof fn law_green_toggles_and_persists(s: SystemStateView, tick: u64)
    requires
        s.operation_mode == OperationMode::Normal,
        s.display_state == DisplayState::On,
    ensures
        ({
            let (o, acts) = button_event_outcome(Some(s), Button::Green, tick);
            let a = crate::state::AlarmSettingsView { enabled: !s.alarm_settings.enabled, ..s.alarm_settings };
            &&& o == Some(SystemStateView { alarm_settings: a, last_interaction_tick: tick, ..s })
            &&& acts.take(3) == alarm_settings_update_actions(a)
        }),
{
    let (o, acts) = button_event_outcome(Some(s), Button::Green, tick);
    let a = crate::state::AlarmSettingsView { enabled: !s.alarm_settings.enabled, ..s.alarm_settings };
    assert(acts.take(3) =~= alarm_settings_update_actions(a));
}

/// Setting the clock by hand never touches the alarm: no press on the manual time screen, and no
/// timeout out of it, changes the alarm settings.
pub proof fn law_manual_time_keeps_alarm(s: SystemStateView, b: Button, init: InitializationState, tick: u64, r: Seq<usize>)
    requires
        s.operation_mode == OperationMode::SetTimeManual,
        is_colored_button(b),
    ensures
        button_event_outcome(Some(s), b, tick).0 matches Some(s2) && s2.alarm_settings == s.alarm_settings,
        event_outcome(Some(s), init, Event::InteractiveModeTimeout, tick, r).0 matches Some(s2)
            && s2.alarm_settings == s.alarm_settings,
{
}

/// On the brightness screen every step up or down is shown on the ring at once: the press asks
/// for the brightness to be reloaded before the display is redrawn.
pub proof fn law_brightness_preview(s: SystemStateView, b: Button, tick: u64)
    requires
        s.operation_mode == OperationMode::SetClockBrightness,
        s.display_state == DisplayState::On,
        b == Button::Green || b == Button::Yellow,
    ensures
        button_event_outcome(Some(s), b, tick).1[0] == ActionView::NeopixelBrightnessUpdate,
        button_event_outcome(Some(s), b, tick).0 matches Some(s2)
            && s2.system_settings.clock_brightness == if b == Button::Green {
                brightness_up(s.system_settings.clock_brightness)
            } else {
                brightness_down(s.system_settings.clock_brightness)
            },
{
}

/// Yellow in the settings menu opens the manual time screen: the press asks for the clock to be
/// read first, and with the reading the screen starts at the clock's hour and minute (midnight
/// when the clock could not be read); the alarm and system settings stay as they were and the
/// interaction time is recorded.
pub proof fn law_yellow_opens_manual_time(s: SystemStateView, tick: u64, rtc: Option<crate::datetime::DateTime>)
    requires
        s.operation_mode == OperationMode::SettingsMenu,
        s.display_state == DisplayState::On,
    ensures
        ({
            let (s2, acts) = button_event_outcome(Some(s), Button::Yellow, tick);
            let entered = manual_time_entry(s2.unwrap(), rtc);
            &&& s2.is_some()
            &&& acts[0] == ActionView::EnterManualTimeMode
            &&& entered.operation_mode == OperationMode::SetTimeManual
            &&& entered.manual_time_buffer == (match rtc {
                Some(dt) => (dt.hour, dt.minute),
                None => (0u8, 0u8),
            })
            &&& entered.alarm_settings == s.alarm_settings
            &&& entered.system_settings == s.system_settings
            &&& entered.last_interaction_tick == tick
        }),
{
}

/// The state after a press of button `b` at `tick`, from a system state `s`.
pub open spec fn after_press(s: SystemStateView, b: Button, tick: u64) -> SystemStateView {
    button_event_outcome(Some(s), b, tick).0.unwrap()
}

/// On the volume and brightness screens green steps the value one up and yellow one down, so
/// that the two buttons always move it in opposite directions: the volume within 0-30 and the
/// brightness within 0-20, each wrapping round at its ends; the screen stays open, the other
/// setting keeps its value, and a step down followed by a step up gives back the value.
pub proof fn law_green_raises_yellow_lowers(s: SystemStateView, t1: u64, t2: u64)
    requires
        s.display_state == DisplayState::On,
        s.operation_mode == OperationMode::SetVolume || s.operation_mode == OperationMode::SetClockBrightness,
    ensures
        ({
            let v = s.system_settings.volume as int;
            let b = s.system_settings.clock_brightness as int;
            let g = after_press(s, Button::Green, t1);
            let y = after_press(s, Button::Yellow, t1);
            &&& g.operation_mode == s.operation_mode
            &&& y.operation_mode == s.operation_mode
            &&& g.alarm_settings == s.alarm_settings
            &&& y.alarm_settings == s.alarm_settings
            &&& s.operation_mode == OperationMode::SetVolume ==> {
                &&& g.system_settings.volume == (if v >= 30 { 0 } else { v + 1 })
                &&& y.system_settings.volume == (if v == 0 { 30 } else { v - 1 })
                &&& g.system_settings.clock_brightness == b
                &&& y.system_settings.clock_brightness == b
                &&& 0 < v < 30 ==> y.system_settings.volume < v < g.system_settings.volume
                &&& v <= 30 ==> after_press(y, Button::Green, t2).system_settings.volume == v
            }
            &&& s.operation_mode == OperationMode::SetClockBrightness ==> {
                &&& g.system_settings.clock_brightness == (if b >= 20 { 0 } else { b + 1 })
                &&& y.system_settings.clock_brightness == (if b == 0 { 20 } else { b - 1 })
                &&& g.system_settings.volume == v
                &&& y.system_settings.volume == v
                &&& 0 < b < 20 ==> y.system_settings.clock_brightness < b < g.system_settings.clock_brightness
                &&& b <= 20 ==> after_press(y, Button::Green, t2).system_settings.clock_brightness == b
            }
        }),
{
}

/// On the alarm time and manual time screens green counts the hour up and yellow the minute,
/// each wrapping round (at 24 and at 60); the other field and the screen stay as they were.
pub proof fn law_time_screens_count_hour_and_minute(s: SystemStateView, tick: u64)
    requires
        s.display_state == DisplayState::On,
    ensures
        s.operation_mode == OperationMode::SetAlarmTime && s.alarm_settings.hour < 24 && s.alarm_settings.minute < 60 ==> {
            let g = after_press(s, Button::Green, tick);
            let y = after_press(s, Button::Yellow, tick);
            &&& g.operation_mode == OperationMode::SetAlarmTime
            &&& y.operation_mode == OperationMode::SetAlarmTime
            &&& g.alarm_settings.hour == (s.alarm_settings.hour + 1) % 24
            &&& g.alarm_settings.minute == s.alarm_settings.minute
            &&& y.alarm_settings.hour == s.alarm_settings.hour
            &&& y.alarm_settings.minute == (s.alarm_settings.minute + 1) % 60
            &&& g.alarm_settings.enabled == s.alarm_settings.enabled
            &&& y.alarm_settings.enabled == s.alarm_settings.enabled
            &&& g.system_settings == s.system_settings
            &&& y.system_settings == s.system_settings
        },
        s.operation_mode == OperationMode::SetTimeManual && s.manual_time_buffer.0 < 24 && s.manual_time_buffer.1 < 60 ==> {
            let g = after_press(s, Button::Green, tick);
            let y = after_press(s, Button::Yellow, tick);
            &&& g.operation_mode == OperationMode::SetTimeManual
            &&& y.operation_mode == OperationMode::SetTimeManual
            &&& g.manual_time_buffer.0 == (s.manual_time_buffer.0 + 1) % 24
            &&& g.manual_time_buffer.1 == s.manual_time_buffer.1
            &&& y.manual_time_buffer.0 == s.manual_time_buffer.0
            &&& y.manual_time_buffer.1 == (s.manual_time_buffer.1 + 1) % 60
            &&& g.alarm_settings == s.alarm_settings
            &&& y.alarm_settings == s.alarm_settings
        },
{
}

/// The menus are navigated as the README describes them: from normal mode yellow opens the
/// menu and blue the alarm time screen; in the menu green opens the settings menu, yellow the
/// system information and blue goes to standby; in the settings menu green opens the volume
/// screen, blue the brightness screen and yellow the manual time screen (after reading the
/// clock); the system information pages forward with green and close with yellow or blue; blue
/// leaves each setting screen, back to the settings menu or, for the alarm time, to normal mode.
pub proof fn law_menu_navigation(s: SystemStateView, tick: u64)
    requires
        s.display_state == DisplayState::On,
    ensures
        s.operation_mode == OperationMode::Normal ==> {
            &&& after_press(s, Button::Yellow, tick).operation_mode == OperationMode::Menu
            &&& after_press(s, Button::Blue, tick).operation_mode == OperationMode::SetAlarmTime
            &&& after_press(s, Button::Green, tick).operation_mode == OperationMode::Normal
        },
        s.operation_mode == OperationMode::Menu ==> {
            &&& after_press(s, Button::Green, tick).operation_mode == OperationMode::SettingsMenu
            &&& after_press(s, Button::Yellow, tick).operation_mode == OperationMode::SystemInfo
            &&& after_press(s, Button::Yellow, tick).system_info_page == 0
            &&& after_press(s, Button::Blue, tick).operation_mode == OperationMode::Standby
        },
        s.operation_mode == OperationMode::SettingsMenu ==> {
            &&& after_press(s, Button::Green, tick).operation_mode == OperationMode::SetVolume
            &&& after_press(s, Button::Blue, tick).operation_mode == OperationMode::SetClockBrightness
            &&& after_press(s, Button::Yellow, tick).operation_mode == OperationMode::SettingsMenu
            &&& button_event_outcome(Some(s), Button::Yellow, tick).1[0] == ActionView::EnterManualTimeMode
        },
        s.operation_mode == OperationMode::SystemInfo ==> {
            &&& s.system_info_page == 0 ==> after_press(s, Button::Green, tick).operation_mode == OperationMode::SystemInfo
                && after_press(s, Button::Green, tick).system_info_page == 1
            &&& s.system_info_page != 0 ==> after_press(s, Button::Green, tick).operation_mode == OperationMode::Normal
            &&& after_press(s, Button::Yellow, tick).operation_mode == OperationMode::Normal
            &&& after_press(s, Button::Blue, tick).operation_mode == OperationMode::Normal
        },
        s.operation_mode == OperationMode::SetVolume || s.operation_mode == OperationMode::SetClockBrightness
            || s.operation_mode == OperationMode::SetTimeManual
            ==> after_press(s, Button::Blue, tick).operation_mode == OperationMode::SettingsMenu,
        s.operation_mode == OperationMode::SetAlarmTime
            ==> after_press(s, Button::Blue, tick).operation_mode == OperationMode::Normal,
{
}

/// During the alarm the button the screen prompts for is the one that moves the alarm on: its
/// press strikes it off the sequence (and the next prompt names the following button), while
/// the sequence is not yet complete.
pub proof fn law_prompted_button_moves_the_alarm_on(s: SystemStateView, tick: u64)
    requires
        s.operation_mode == OperationMode::Alarm,
        s.display_state == DisplayState::On,
        s.alarm_settings.sequence.len() == 3,
        !sequence_complete(s.alarm_settings.sequence),
    ensures
        ({
            let b = first_valid_button(s.alarm_settings.sequence);
            let after = after_press(s, b, tick);
            &&& is_colored_button(b)
            &&& after.alarm_settings.sequence == s.alarm_settings.sequence.update(
                first_valid_index(s.alarm_settings.sequence),
                Button::NoButton,
            )
            &&& after.alarm_settings.sequence != s.alarm_settings.sequence
        }),
{
    let q = s.alarm_settings.sequence;
    crate::state::lemma_first_valid_index(q);
    let i = first_valid_index(q);
    if i >= 3 {
        assert(sequence_complete(q));
    }
    assert(q.update(i, Button::NoButton)[i] != q[i]);
}

} // verus!
