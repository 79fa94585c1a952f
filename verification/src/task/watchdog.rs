//! # Watchdog
//! The health bookkeeping of the watchdog: which critical tasks reported in time, and when the
//! countdown that ends in a hardware reset starts, is renewed or expires. Times are milliseconds
//! since boot, as the system clock reports them.
use vstd::prelude::*;

verus! {

/// How long the countdown runs before it triggers a reset (15 minutes), in milliseconds.
pub const COUNTDOWN_TIMEOUT_MS: u64 = 900_000;

/// How often the task health is checked, in seconds.
pub const HEALTH_CHECK_INTERVAL_SECS: u64 = 60;

/// Hardware watchdog timeout, used only for the actual reset, in milliseconds.
pub const HARDWARE_WATCHDOG_TIMEOUT_MS: u64 = 8000;

/// The grace period after startup during which no countdown runs, in milliseconds.
pub const STARTUP_GRACE_MS: u64 = 120_000;

/// Task identifiers for health tracking
#[derive(Debug, Clone, Copy, PartialEq, Eq, Structural)]
pub enum TaskId {
    /// Orchestrator task (state machine coordination) - MUST report regularly
    Orchestrator,
    /// Display handler task - MUST report regularly
    Display,
    /// Alarm trigger task - MUST report regularly (even when waiting)
    AlarmTrigger,
    /// Time updater task (WiFi/RTC synchronization) - Critical, runs after startup
    TimeUpdater,
}

/// The slot of a task in the health table.
pub open spec fn task_slot(task: TaskId) -> int {
    match task {
        TaskId::Orchestrator => 0,
        TaskId::Display => 1,
        TaskId::AlarmTrigger => 2,
        TaskId::TimeUpdater => 3,
    }
}

/// The task kept in a slot of the health table.
pub open spec fn slot_task(slot: int) -> TaskId {
    if slot == 0 {
        TaskId::Orchestrator
    } else if slot == 1 {
        TaskId::Display
    } else if slot == 2 {
        TaskId::AlarmTrigger
    } else {
        TaskId::TimeUpdater
    }
}

/// The longest time a task may go without a report, in milliseconds.
pub open spec fn max_interval_ms(task: TaskId) -> u64 {
    match task {
        TaskId::Orchestrator | TaskId::Display => 120_000,
        TaskId::AlarmTrigger => 300_000,
        TaskId::TimeUpdater => 25_200_000,
    }
}

impl TaskId {
    /// Returns the maximum time allowed between health reports for the task, in milliseconds:
    /// 2 minutes for the orchestrator and the display, 5 for the alarm trigger, 7 hours for the
    /// time updater (which refreshes every 6 hours).
    pub fn max_report_interval(self) -> (ms: u64)
        ensures
            ms == max_interval_ms(self),
    {
        match self {
            TaskId::Orchestrator | TaskId::Display => 120_000,
            TaskId::AlarmTrigger => 300_000,
            TaskId::TimeUpdater => 25_200_000,
        }
    }

    /// The slot of the task in the health table.
    pub fn index(self) -> (i: usize)
        ensures
            i == task_slot(self),
    {
        match self {
            TaskId::Orchestrator => 0,
            TaskId::Display => 1,
            TaskId::AlarmTrigger => 2,
            TaskId::TimeUpdater => 3,
        }
    }
}

/// Task health tracking with last-seen timestamp
#[derive(Debug, Clone, Copy, PartialEq, Eq, Structural)]
pub struct TaskHealth {
    /// When the task last reported success
    pub last_report: Option<u64>,
    /// Whether the task has ever reported
    pub has_reported: bool,
}

/// A task is healthy at `now` if it reported less than `max_interval` ago.
pub open spec fn healthy_at(t: TaskHealth, max_interval: u64, now: u64) -> bool {
    t.last_report.is_some() && now - t.last_report.unwrap() < max_interval
}

impl TaskHealth {
    /// Create a new `TaskHealth` instance: never reported.
    pub fn new() -> (t: TaskHealth)
        ensures
            t == (TaskHealth { last_report: None, has_reported: false }),
    {
        TaskHealth { last_report: None, has_reported: false }
    }

    /// Check if the task is healthy based on its max report interval
    pub fn is_healthy(&self, max_interval: u64, now: u64) -> (healthy: bool)
        requires
            self.last_report.is_some() ==> self.last_report.unwrap() <= now,
        ensures
            healthy == healthy_at(*self, max_interval, now),
    {
        match self.last_report {
            Some(last) => now - last < max_interval,
            None => false,
        }
    }
}

/// System health state with custom countdown timer
#[derive(Debug, Clone, Copy)]
pub struct SystemHealth {
    /// Health status of each task, in the order Orchestrator, Display, `AlarmTrigger`,
    /// `TimeUpdater`
    pub tasks: [TaskHealth; 4],
    /// When the system was initialized (0 until the first health check)
    pub startup_time: u64,
    /// Countdown timer - when this expires, we trigger hardware watchdog reset
    pub countdown_deadline: Option<u64>,
}

/// Whether every time recorded in the health table lies at or before `now`.
pub open spec fn recorded_by(h: SystemHealth, now: u64) -> bool {
    &&& h.startup_time <= now
    &&& forall|i: int| 0 <= i < 4 ==> (#[trigger] h.tasks@[i]).last_report.is_some()
        ==> h.tasks@[i].last_report.unwrap() <= now
}

/// Whether a task that has reported at least once is unhealthy at `now`.
pub open spec fn slot_unhealthy(h: SystemHealth, slot: int, now: u64) -> bool {
    h.tasks@[slot].has_reported && !healthy_at(h.tasks@[slot], max_interval_ms(slot_task(slot)), now)
}

/// Whether some task that has reported is unhealthy at `now`.
pub open spec fn any_unhealthy(h: SystemHealth, now: u64) -> bool {
    exists|i: int| 0 <= i < 4 && slot_unhealthy(h, i, now)
}

/// The startup time once the first health check has recorded it.
pub open spec fn started_at(h: SystemHealth, now: u64) -> u64 {
    if h.startup_time == 0 { now } else { h.startup_time }
}

/// Whether `now` lies within the grace period after `startup`.
pub open spec fn in_grace(startup: u64, now: u64) -> bool {
    now - startup < STARTUP_GRACE_MS
}

/// The health table after the check at `now`: during the grace period only the startup time is
/// recorded; after it, the countdown restarts when all tasks are healthy, starts when it was
/// not running, and runs on otherwise.
pub open spec fn checked(h: SystemHealth, now: u64) -> SystemHealth {
    let start = started_at(h, now);
    let h1 = SystemHealth { startup_time: start, ..h };
    if in_grace(start, now) {
        h1
    } else if !any_unhealthy(h, now) || h.countdown_deadline.is_none() {
        SystemHealth { countdown_deadline: Some((now + COUNTDOWN_TIMEOUT_MS) as u64), ..h1 }
    } else {
        h1
    }
}

/// Whether the countdown has expired at `now`, outside the grace period.
pub open spec fn reset_due(h: SystemHealth, now: u64) -> bool {
    !in_grace(h.startup_time, now) && h.countdown_deadline.is_some() && now >= h.countdown_deadline.unwrap()
}

impl SystemHealth {
    /// Create a new `SystemHealth` instance: no task has reported, no countdown runs.
    pub fn new() -> (h: SystemHealth)
        ensures
            forall|i: int| 0 <= i < 4 ==> h.tasks@[i] == (TaskHealth { last_report: None, has_reported: false }),
            h.startup_time == 0,
            h.countdown_deadline.is_none(),
    {
        let t = TaskHealth::new();
        SystemHealth { tasks: [t, t, t, t], startup_time: 0, countdown_deadline: None }
    }

    /// Initialize the startup time (called on first health check)
    pub fn init_if_needed(&mut self, now: u64)
        ensures
            *final(self) == (SystemHealth { startup_time: started_at(*old(self), now), ..*old(self) }),
    {
        if self.startup_time == 0 {
            self.startup_time = now;
        }
    }

    /// Report a task as succeeded at `now`
    pub fn set_task_succeeded(&mut self, task_id: TaskId, now: u64)
        ensures
            final(self).tasks@ == old(self).tasks@.update(
                task_slot(task_id),
                TaskHealth { last_report: Some(now), has_reported: true },
            ),
            final(self).startup_time == old(self).startup_time,
            final(self).countdown_deadline == old(self).countdown_deadline,
    {
        let index = task_id.index();
        self.tasks[index] = TaskHealth { last_report: Some(now), has_reported: true };
        assert(self.tasks@ =~= old(self).tasks@.update(
            task_slot(task_id),
            TaskHealth { last_report: Some(now), has_reported: true },
        ));
    }

    /// Report a failed task iteration: the task counts as unhealthy until it reports success
    /// again, and stays among the checked tasks.
    pub fn set_task_failed(&mut self, task_id: TaskId)
        ensures
            final(self).tasks@ == old(self).tasks@.update(
                task_slot(task_id),
                TaskHealth { last_report: None, ..old(self).tasks@[task_slot(task_id)] },
            ),
            final(self).startup_time == old(self).startup_time,
            final(self).countdown_deadline == old(self).countdown_deadline,
    {
        let index = task_id.index();
        let mut t = self.tasks[index];
        t.last_report = None;
        self.tasks[index] = t;
        assert(self.tasks@ =~= old(self).tasks@.update(
            task_slot(task_id),
            TaskHealth { last_report: None, ..old(self).tasks@[task_slot(task_id)] },
        ));
    }

    /// Check if we're still in startup grace period
    pub fn in_startup_grace_period(&self, now: u64) -> (grace: bool)
        requires
            self.startup_time <= now,
        ensures
            grace == in_grace(self.startup_time, now),
    {
        now - self.startup_time < STARTUP_GRACE_MS
    }

    /// Counts the tasks that reported at least once and are unhealthy at `now`.
    fn count_unhealthy(&self, now: u64) -> (count: u8)
        requires
            recorded_by(*self, now),
        ensures
            (count == 0) == !any_unhealthy(*self, now),
            count <= 4,
    {
        let task_ids = [TaskId::Orchestrator, TaskId::Display, TaskId::AlarmTrigger, TaskId::TimeUpdater];
        let mut unhealthy_count: u8 = 0;
        let mut index: usize = 0;
        while index < 4
            invariant
                0 <= index <= 4,
                unhealthy_count <= index,
                recorded_by(*self, now),
                task_ids@ == seq![TaskId::Orchestrator, TaskId::Display, TaskId::AlarmTrigger, TaskId::TimeUpdater],
                (unhealthy_count == 0) == (forall|k: int| 0 <= k < index ==> !slot_unhealthy(*self, k, now)),
            decreases 4 - index,
        {
            let task = self.tasks[index];
            let task_id = task_ids[index];
            assert(task_id == slot_task(index as int));
            assert(task == self.tasks@[index as int]);
            let healthy = task.is_healthy(task_id.max_report_interval(), now);
            assert(slot_unhealthy(*self, index as int, now) == (task.has_reported && !healthy));
            if task.has_reported && !healthy {
                unhealthy_count = unhealthy_count + 1;
            }
            index = index + 1;
        }
        proof { count_witness(*self, now, unhealthy_count); }
        unhealthy_count
    }

    /// Update overall health status based on individual task health
    pub fn update_overall_health(&mut self, now: u64)
        requires
            recorded_by(*old(self), now),
            now <= u64::MAX - COUNTDOWN_TIMEOUT_MS,
        ensures
            *final(self) == checked(*old(self), now),
            recorded_by(*final(self), now),
    {
        self.init_if_needed(now);
        if self.in_startup_grace_period(now) {
            return;
        }
        let unhealthy_count = self.count_unhealthy(now);
        let all_healthy = unhealthy_count == 0;
        if all_healthy {
            self.countdown_deadline = Some(now + COUNTDOWN_TIMEOUT_MS);
        } else if self.countdown_deadline.is_none() {
            self.countdown_deadline = Some(now + COUNTDOWN_TIMEOUT_MS);
        }
    }

    /// Check if countdown has expired and we should trigger hardware watchdog
    pub fn should_trigger_reset(&self, now: u64) -> (reset: bool)
        requires
            self.startup_time <= now,
        ensures
            reset == reset_due(*self, now),
    {
        if self.in_startup_grace_period(now) {
            return false;
        }
        match self.countdown_deadline {
            Some(deadline) => now >= deadline,
            None => false,
        }
    }

    /// Get remaining time until reset, in milliseconds; zero once the deadline has passed.
    pub fn time_until_reset(&self, now: u64) -> (remaining: Option<u64>)
        ensures
            self.countdown_deadline.is_none() ==> remaining.is_none(),
            self.countdown_deadline.is_some() ==> remaining == Some(
                if now >= self.countdown_deadline.unwrap() { 0 } else { (self.countdown_deadline.unwrap() - now) as u64 },
            ),
    {
        match self.countdown_deadline {
            Some(deadline) => {
                if now >= deadline {
                    Some(0)
                } else {
                    Some(deadline - now)
                }
            },
            None => None,
        }
    }
}

/// The count of unhealthy tasks is zero exactly when no slot is unhealthy.
proof fn count_witness(h: SystemHealth, now: u64, count: u8)
    requires
        (count == 0) == (forall|k: int| 0 <= k < 4 ==> !slot_unhealthy(h, k, now)),
    ensures
        (count == 0) == !any_unhealthy(h, now),
{
}

/// A task that just reported is healthy at that moment, and one that reported a failure is
/// unhealthy until it reports again.
pub proof fn law_report_sets_health(h: SystemHealth, task: TaskId, now: u64)
    ensures
        healthy_at(
            TaskHealth { last_report: Some(now), has_reported: true },
            max_interval_ms(task),
            now,
        ),
        !healthy_at(
            TaskHealth { last_report: None, ..h.tasks@[task_slot(task)] },
            max_interval_ms(task),
            now,
        ),
        slot_task(task_slot(task)) == task,
{
}

/// A health check that finds every task healthy, after the grace period, renews the countdown:
/// no reset is due at that check or for the whole countdown after it.
pub proof fn law_healthy_check_defers_reset(h: SystemHealth, now: u64, later: u64)
    requires
        recorded_by(h, now),
        now <= u64::MAX - COUNTDOWN_TIMEOUT_MS,
        !in_grace(started_at(h, now), now),
        !any_unhealthy(h, now),
        now <= later < now + COUNTDOWN_TIMEOUT_MS,
    ensures
        !reset_due(checked(h, now), later),
{
}

/// No reset is due during the grace period after startup, whatever the tasks report.
pub proof fn law_no_reset_in_grace(h: SystemHealth, now: u64)
    requires
        h.startup_time <= now,
        in_grace(h.startup_time, now),
    ensures
        !reset_due(h, now),
{
}

/// Once the countdown runs, checks that find an unhealthy task leave its deadline where it is:
/// only a fully healthy check can move it.
pub proof fn law_unhealthy_check_keeps_deadline(h: SystemHealth, now: u64)
    requires
        recorded_by(h, now),
        h.countdown_deadline.is_some(),
        any_unhealthy(h, now),
    ensures
        checked(h, now).countdown_deadline == h.countdown_deadline,
{
}

} // verus!
