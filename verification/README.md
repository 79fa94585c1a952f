# alarmclock

The verified core of a Raspberry Pi Pico W alarm clock: OLED display, NeoPixel ring, three
buttons, DFPlayer Mini, WiFi time synchronisation.

The library (`src/`) holds the decisions of the clock, each with a Verus contract:

- `state`: the system state, the alarm and system settings and their wrap-around rules;
- `task::orchestrate`: how every event changes the state, and the ordered actions the other
  tasks are asked to perform; `task::orchestrate_laws` states what holds across events;
- `task::time_updater`: the Gregorian calendar, Unix seconds, the CET/CEST rules and the NTP
  exchange;
- `task::alarm_trigger`: the next occurrence of the alarm and the RTC alarm filter;
- `task::light_effects`, `task::display`, `utility::string_utils`: the LED pictures, the
  screen composition and the date line;
- `task::watchdog`, `task::power`, `task::buttons`, `task::button_leds`, `task::sound`,
  `task::rtc_manager`, `task::alarm_settings`: the health countdown, the noise filters of the
  power readings, the press-and-hold recognition, the LED timeout, the sound commands, the
  manual time and the settings stored in flash;
- `task::state`, `task::alarm_mgr`, `task::neopixel`, `task::task_messages`: the state
  machine and helpers of the first firmware generation.

`app/` is the firmware around it: the embassy tasks, the hardware drivers, the flash and
network I/O, and the floating-point parts (battery level, sunrise fade, voltage display).
