use alarmclock::state::SystemState;

#[test]
fn test_something() {}

#[test]
fn fresh_system_state_is_initializing() {
    let s = SystemState::new();
    assert!(!s.is_display_off());
}
