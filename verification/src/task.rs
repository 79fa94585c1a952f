//! Tasks of the alarm clock: the decisions each task takes, separated from the hardware it drives.
pub mod alarm_settings;
pub mod button_leds;
pub mod buttons;
pub mod orchestrate;
pub mod orchestrate_laws;
pub mod time_updater;
pub mod alarm_trigger;
pub mod watchdog;
pub mod light_effects;
pub mod power;
pub mod display;
pub mod alarm_mgr;
pub mod state;
pub mod task_messages;
pub mod neopixel;
pub mod rtc_manager;
pub mod sound;
