use alarmclock::task::watchdog::{SystemHealth, TaskHealth, TaskId, COUNTDOWN_TIMEOUT_MS};

#[test]
fn report_intervals() {
    assert_eq!(TaskId::Orchestrator.max_report_interval(), 120_000);
    assert_eq!(TaskId::Display.max_report_interval(), 120_000);
    assert_eq!(TaskId::AlarmTrigger.max_report_interval(), 300_000);
    assert_eq!(TaskId::TimeUpdater.max_report_interval(), 25_200_000);
}

#[test]
fn task_health_depends_on_the_last_report() {
    let never = TaskHealth::new();
    assert!(!never.is_healthy(120_000, 1_000));
    let recent = TaskHealth { last_report: Some(1_000), has_reported: true };
    assert!(recent.is_healthy(120_000, 120_999));
    assert!(!recent.is_healthy(120_000, 121_000));
}

#[test]
fn no_countdown_during_the_grace_period() {
    let mut h = SystemHealth::new();
    h.update_overall_health(5_000);
    assert_eq!(h.startup_time, 5_000);
    h.update_overall_health(124_999);
    assert_eq!(h.countdown_deadline, None);
    assert!(!h.should_trigger_reset(124_999));
}

#[test]
fn healthy_checks_keep_pushing_the_deadline() {
    let mut h = SystemHealth::new();
    h.update_overall_health(1);
    h.set_task_succeeded(TaskId::Orchestrator, 130_000);
    h.update_overall_health(130_000);
    assert_eq!(h.countdown_deadline, Some(130_000 + COUNTDOWN_TIMEOUT_MS));
    h.set_task_succeeded(TaskId::Orchestrator, 200_000);
    h.update_overall_health(200_000);
    assert_eq!(h.countdown_deadline, Some(200_000 + COUNTDOWN_TIMEOUT_MS));
    assert!(!h.should_trigger_reset(1_000_000));
}

#[test]
fn an_unhealthy_task_lets_the_countdown_expire() {
    let mut h = SystemHealth::new();
    h.update_overall_health(1);
    h.set_task_succeeded(TaskId::Display, 130_000);
    h.update_overall_health(130_000);
    let deadline = 130_000 + COUNTDOWN_TIMEOUT_MS;
    h.set_task_failed(TaskId::Display);
    h.update_overall_health(400_000);
    assert_eq!(h.countdown_deadline, Some(deadline));
    assert_eq!(h.time_until_reset(400_000), Some(deadline - 400_000));
    assert!(!h.should_trigger_reset(deadline - 1));
    assert!(h.should_trigger_reset(deadline));
    assert_eq!(h.time_until_reset(deadline + 5), Some(0));
}

#[test]
fn silent_tasks_that_never_reported_are_not_checked() {
    let mut h = SystemHealth::new();
    h.update_overall_health(1);
    h.update_overall_health(10_000_000);
    assert_eq!(h.countdown_deadline, Some(10_000_000 + COUNTDOWN_TIMEOUT_MS));
}

#[test]
fn a_stale_report_starts_the_countdown() {
    let mut h = SystemHealth::new();
    h.update_overall_health(1);
    h.set_task_succeeded(TaskId::AlarmTrigger, 200_000);
    h.update_overall_health(600_000);
    assert_eq!(h.countdown_deadline, Some(600_000 + COUNTDOWN_TIMEOUT_MS));
    h.update_overall_health(700_000);
    assert_eq!(h.countdown_deadline, Some(600_000 + COUNTDOWN_TIMEOUT_MS));
}

#[test]
fn no_deadline_no_remaining_time() {
    let h = SystemHealth::new();
    assert_eq!(h.time_until_reset(42), None);
}
