use alarmclock::state::{AlarmState, OperationMode, SystemState};
use alarmclock::task::light_effects::{
    all_off, analog_clock_face, apply_brightness, calculate_hand_index, display_analog_clock, light_step,
    noise_frame, ClockColors, ClockTime, LedState, LightAction, NeopixelManager, Rgb, RingState,
};

const BLACK: Rgb = Rgb { r: 0, g: 0, b: 0 };

#[test]
fn wheel_positions() {
    assert_eq!(NeopixelManager::wheel(0), Rgb { r: 255, g: 0, b: 0 });
    assert_eq!(NeopixelManager::wheel(85), Rgb { r: 0, g: 255, b: 0 });
    assert_eq!(NeopixelManager::wheel(170), Rgb { r: 0, g: 0, b: 255 });
    assert_eq!(NeopixelManager::wheel(255), Rgb { r: 255, g: 0, b: 0 });
    assert_eq!(NeopixelManager::wheel(100), Rgb { r: 0, g: 210, b: 45 });
}

#[test]
fn mixing_saturates() {
    let a = Rgb { r: 200, g: 10, b: 0 };
    let b = Rgb { r: 100, g: 10, b: 255 };
    assert_eq!(NeopixelManager::mix_colors(a, b), Rgb { r: 255, g: 20, b: 255 });
}

#[test]
fn hand_indices() {
    assert_eq!(calculate_hand_index(0, 60), 9);
    assert_eq!(calculate_hand_index(30, 60), 1);
    assert_eq!(calculate_hand_index(59, 60), 8);
    assert_eq!(calculate_hand_index(12, 12), 9);
    assert_eq!(calculate_hand_index(3, 12), 13);
    assert_eq!(calculate_hand_index(255, 60), 13);
}

#[test]
fn noon_mixes_all_hands_on_one_led() {
    let face = analog_clock_face(&ClockTime::new(12, 0, 0), &ClockColors::new());
    for (i, c) in face.iter().enumerate() {
        if i == 9 {
            assert_eq!(*c, Rgb { r: 255, g: 255, b: 255 });
        } else {
            assert_eq!(*c, BLACK);
        }
    }
}

#[test]
fn separate_hands_keep_their_colours() {
    let colors = ClockColors::new();
    let face = analog_clock_face(&ClockTime::new(15, 0, 30), &colors);
    assert_eq!(face[13], colors.hour);
    assert_eq!(face[9], colors.minute);
    assert_eq!(face[1], colors.second);
    assert_eq!(face.iter().filter(|c| **c == BLACK).count(), 13);
}

#[test]
fn hour_and_minute_share_an_led() {
    let face = analog_clock_face(&ClockTime::new(0, 0, 30), &ClockColors::new());
    assert_eq!(face[9], Rgb { r: 255, g: 255, b: 0 });
    assert_eq!(face[1], Rgb { r: 0, g: 0, b: 255 });
}

#[test]
fn brightness_follows_smart_leds() {
    let data = [Rgb { r: 255, g: 128, b: 1 }; 16];
    let dim = apply_brightness(&data, 10);
    assert!(dim.iter().all(|c| *c == Rgb { r: 10, g: 5, b: 0 }));
    let full = apply_brightness(&data, 255);
    assert_eq!(full, data);
    let off = apply_brightness(&data, 0);
    assert!(off.iter().all(|c| *c == BLACK));
}

#[test]
fn clock_is_shown_at_the_clock_brightness() {
    let mgr = NeopixelManager::new();
    assert_eq!(mgr.clock_brightness(), 1);
    assert_eq!(mgr.alarm_brightness(), 10);
    let data = display_analog_clock(&mgr, &ClockTime::new(12, 0, 0), &ClockColors::new());
    assert_eq!(data[9], Rgb { r: 1, g: 1, b: 1 });
    assert_eq!(data[0], BLACK);
}

#[test]
fn brightness_update_reads_the_settings() {
    let mut mgr = NeopixelManager::new();
    let mut s = SystemState::new();
    s.system_settings.set_clock_brightness(7);
    mgr.update_from_system_state(Some(&s));
    assert_eq!(mgr.clock_brightness(), 7);
    assert_eq!(mgr.alarm_brightness(), 10);
    mgr.update_from_system_state(None);
    assert_eq!(mgr.clock_brightness(), 7);
}

#[test]
fn noise_frame_spreads_the_wheel() {
    let f = noise_frame(0, 255);
    assert_eq!(f[0], Rgb { r: 255, g: 0, b: 0 });
    assert_eq!(f[1], NeopixelManager::wheel(16));
    let g = noise_frame(256 + 16, 255);
    assert_eq!(g[0], NeopixelManager::wheel(16));
    let dim = noise_frame(0, 10);
    assert_eq!(dim[0], Rgb { r: 10, g: 0, b: 0 });
}

#[test]
fn all_dark() {
    assert!(all_off().iter().all(|c| *c == BLACK));
}

#[test]
fn ring_waits_without_state() {
    let ring = RingState { current: LedState::Off, last_time: None };
    let (action, next) = light_step(None, ClockTime::new(1, 2, 3), ring);
    assert_eq!(action, LightAction::WaitForState);
    assert_eq!(next, ring);
}

#[test]
fn ring_shows_the_clock_once_per_time() {
    let mut s = SystemState::new();
    s.set_normal_mode();
    let t = ClockTime::new(8, 15, 0);
    let (a1, r1) = light_step(Some(&s), t, RingState { current: LedState::Off, last_time: None });
    assert_eq!(a1, LightAction::ShowClock(t));
    let (a2, r2) = light_step(Some(&s), t, r1);
    assert_eq!(a2, LightAction::Keep);
    assert_eq!(r2, r1);
}

#[test]
fn enabled_alarm_darkens_the_ring() {
    let mut s = SystemState::new();
    s.set_normal_mode();
    s.alarm_settings.set_enabled(true);
    let ring = RingState { current: LedState::AnalogClock, last_time: Some(ClockTime::new(8, 15, 0)) };
    let (a, r) = light_step(Some(&s), ClockTime::new(8, 15, 1), ring);
    assert_eq!(a, LightAction::TurnOff);
    assert_eq!(r, RingState { current: LedState::Off, last_time: None });
    let (a2, _) = light_step(Some(&s), ClockTime::new(8, 15, 2), r);
    assert_eq!(a2, LightAction::Keep);
}

#[test]
fn alarm_runs_its_effects() {
    let mut s = SystemState::new();
    s.set_alarm_mode();
    assert_eq!(s.operation_mode, OperationMode::Alarm);
    let ring = RingState { current: LedState::Off, last_time: None };
    let (a, r) = light_step(Some(&s), ClockTime::new(6, 0, 0), ring);
    assert_eq!(a, LightAction::Sunrise);
    assert_eq!(r.current, LedState::AlarmEffect);
    s.set_alarm_state(AlarmState::Noise);
    assert_eq!(light_step(Some(&s), ClockTime::new(6, 1, 0), r).0, LightAction::Noise);
    s.set_alarm_state(AlarmState::Inactive);
    assert_eq!(light_step(Some(&s), ClockTime::new(6, 1, 0), r), (LightAction::Keep, r));
}

#[test]
fn initializing_and_standby_keep_the_ring_dark() {
    let s = SystemState::new();
    let lit = RingState { current: LedState::AnalogClock, last_time: None };
    assert_eq!(light_step(Some(&s), ClockTime::new(0, 0, 0), lit).0, LightAction::TurnOff);
    let mut st = SystemState::new();
    st.set_standby_mode();
    let off = RingState { current: LedState::Off, last_time: None };
    assert_eq!(light_step(Some(&st), ClockTime::new(0, 0, 0), off).0, LightAction::Keep);
}
