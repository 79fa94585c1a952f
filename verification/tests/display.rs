use alarmclock::datetime::{DateTime, DayOfWeek};
use alarmclock::state::{BatteryLevel, SystemState};
use alarmclock::task::buttons::Button;
use alarmclock::task::display::{
    alarm_button_prompt, battery_icon, compose_screen, time_digits, BatteryIcon, MainContent, StateIndicator,
};

fn now() -> DateTime {
    DateTime { year: 2024, month: 6, day: 26, day_of_week: DayOfWeek::Wednesday, hour: 7, minute: 42, second: 3 }
}

#[test]
fn prompts_name_the_next_button() {
    assert_eq!(alarm_button_prompt(Button::Yellow), "Press Yellow!");
    assert_eq!(alarm_button_prompt(Button::Green), "Press Green!");
    assert_eq!(alarm_button_prompt(Button::Blue), "Press Blue!");
    assert_eq!(alarm_button_prompt(Button::NoButton), "Press None!");
}

#[test]
fn battery_icons() {
    assert_eq!(battery_icon(BatteryLevel::Bat000), BatteryIcon::Level(0));
    assert_eq!(battery_icon(BatteryLevel::Bat060), BatteryIcon::Level(3));
    assert_eq!(battery_icon(BatteryLevel::Bat100), BatteryIcon::Level(5));
    assert_eq!(battery_icon(BatteryLevel::Charging), BatteryIcon::Mains);
}

#[test]
fn time_digit_images() {
    assert_eq!(time_digits(7, 42), [0, 7, 4, 2]);
    assert_eq!(time_digits(23, 5), [2, 3, 0, 5]);
}

#[test]
fn normal_screen_shows_time_and_date() {
    let mut s = SystemState::new();
    s.set_normal_mode();
    let screen = compose_screen(&s, &now(), BatteryLevel::Bat080);
    assert_eq!(screen.indicator, StateIndicator::Blank);
    assert_eq!(screen.content, MainContent::Time(7, 42));
    assert!(screen.show_date);
    assert_eq!(screen.battery, BatteryIcon::Level(4));
    s.toggle_alarm_enabled();
    assert_eq!(compose_screen(&s, &now(), BatteryLevel::Bat080).indicator, StateIndicator::Saber);
}

#[test]
fn alarm_time_screen() {
    let mut s = SystemState::new();
    s.alarm_settings.set_time((6, 30));
    s.set_set_alarm_time_mode();
    let screen = compose_screen(&s, &now(), BatteryLevel::Charging);
    assert_eq!(screen.indicator, StateIndicator::Setup);
    assert_eq!(screen.content, MainContent::Time(6, 30));
    assert!(!screen.show_date);
}

#[test]
fn alarm_screen_prompts_for_the_next_button() {
    let mut s = SystemState::new();
    s.set_alarm_mode();
    s.alarm_settings.erase_first_valid_stop_alarm_button();
    let screen = compose_screen(&s, &now(), BatteryLevel::Bat020);
    assert_eq!(screen.indicator, StateIndicator::AlarmPrompt(Button::Blue));
    assert_eq!(screen.content, MainContent::Time(7, 42));
    assert!(screen.show_date);
}

#[test]
fn menus_and_settings_screens() {
    let mut s = SystemState::new();
    s.set_menu_mode();
    assert_eq!(compose_screen(&s, &now(), BatteryLevel::Bat020).content, MainContent::Menu);
    assert_eq!(compose_screen(&s, &now(), BatteryLevel::Bat020).indicator, StateIndicator::MenuTitle);
    s.set_volume_mode();
    assert_eq!(compose_screen(&s, &now(), BatteryLevel::Bat020).content, MainContent::Volume(13));
    s.set_clock_brightness_mode();
    assert_eq!(compose_screen(&s, &now(), BatteryLevel::Bat020).content, MainContent::ClockBrightness(1));
    s.set_time_manual_mode(9, 10);
    assert_eq!(compose_screen(&s, &now(), BatteryLevel::Bat020).content, MainContent::Time(9, 10));
    s.set_standby_mode();
    assert_eq!(compose_screen(&s, &now(), BatteryLevel::Bat020).content, MainContent::GoingToSleep);
}
