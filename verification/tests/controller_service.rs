use xbattery::controller::battery::{BatteryCharge, BatteryKind, BatteryLevel, BatteryReading};
use xbattery::controller::event::controller_event::ControllerEvent;
use xbattery::controller::monitor::controller_monitor::ControllerMonitor;
use xbattery::controller::service::controller_service::{
    DueRefresh, PollWait, RefreshSchedule, current_refresh_events, due_refresh, next_event_wait,
    next_scheduled_wait, notify_events, pending_refresh_events, poll_wait,
};
use xbattery::controller::service::ControllerServiceConfig;
use xbattery::controller::Controller;
use xbattery::notifier::{Notification, Notifier};
use std::sync::atomic::{AtomicUsize, Ordering};
use std::sync::Arc;

/// One millisecond, in the library's nanoseconds.
const MS: u64 = 1_000_000;

struct FailingNotifier {
    attempts: Arc<AtomicUsize>,
}

impl Notifier for FailingNotifier {
    fn notify(&self, _notification: &Notification) -> Result<(), String> {
        self.attempts.fetch_add(1, Ordering::Relaxed);
        Err("test notification failure".to_string())
    }
}

fn full_controller() -> Controller {
    Controller::new("one", BatteryReading::new(BatteryKind::Alkaline, BatteryCharge::Coarse(BatteryLevel::Full)))
}

#[test]
fn pending_battery_deadline_preempts_the_regular_poll_interval() {
    assert_eq!(next_scheduled_wait(60_000 * MS, Some(250 * MS)), 250 * MS);
    assert_eq!(next_scheduled_wait(60_000 * MS, Some(6_000 * MS)), 6_000 * MS);
    assert_eq!(next_scheduled_wait(250 * MS, Some(0)), 0);
}

#[test]
fn event_wait_honors_regular_polls_and_pending_battery_deadlines() {
    assert_eq!(next_event_wait(250 * MS, 60_000 * MS, None, None), 250 * MS);
    assert_eq!(next_event_wait(250 * MS, 100 * MS, Some(6_000 * MS), None), 100 * MS);
    assert_eq!(next_event_wait(1_000 * MS, 60_000 * MS, Some(250 * MS), None), 250 * MS);
    assert_eq!(next_event_wait(250 * MS, 60_000 * MS, Some(50 * MS), None), 50 * MS);
    assert_eq!(next_event_wait(250 * MS, 60_000 * MS, None, Some(25 * MS)), 25 * MS);
}

#[test]
fn due_pending_refresh_is_selected_at_the_event_boundary() {
    assert_eq!(due_refresh(false, true), Some(DueRefresh::Pending));
    assert_eq!(due_refresh(false, false), None);
}

#[test]
fn one_current_refresh_services_simultaneous_deadlines() {
    assert_eq!(due_refresh(true, true), Some(DueRefresh::Current));
    assert_eq!(due_refresh(true, false), Some(DueRefresh::Current));
}

#[test]
fn default_service_config_polls_every_minute() {
    let config = ControllerServiceConfig::default();

    assert_eq!(config.poll_interval(), 60_000 * MS);
    assert_eq!(config.control_wait_slice(), 250 * MS);
    assert!(config.notification_policy().notify_connected());
}

#[test]
fn failed_first_refresh_schedules_settling_follow_ups() {
    let mut schedule = RefreshSchedule::start(true, 1_000 * MS);
    assert_eq!(schedule.follow_up_refresh_at, Some(1_250 * MS));
    assert_eq!(schedule.follow_up_attempts_remaining, 3);
    assert_eq!(schedule.wait_timeout(60_000 * MS, 250 * MS, None, 1_100 * MS), 150 * MS);

    let decision = schedule.wake(false, 60_000 * MS, None, 1_250 * MS);
    assert_eq!(decision.refresh, Some(DueRefresh::Current));
    assert!(decision.follow_up_due);

    schedule.record_current_refresh(false, decision.follow_up_due, 1_260 * MS);
    assert_eq!(schedule.follow_up_attempts_remaining, 2);
    assert_eq!(schedule.follow_up_refresh_at, Some(1_510 * MS));
    assert_eq!(schedule.last_refresh, 1_260 * MS);

    schedule.record_current_refresh(true, true, 1_600 * MS);
    assert_eq!(schedule.follow_up_refresh_at, None);
    assert_eq!(schedule.follow_up_attempts_remaining, 0);
}

#[test]
fn topology_changes_refresh_at_once_and_pending_readings_wait_their_turn() {
    let mut schedule = RefreshSchedule::start(false, 0);
    assert_eq!(schedule.follow_up_refresh_at, None);

    let changed = schedule.wake(true, 60_000 * MS, None, 500 * MS);
    assert_eq!(changed.refresh, Some(DueRefresh::Current));
    assert_eq!(schedule.follow_up_refresh_at, Some(750 * MS));

    let mut quiet = RefreshSchedule::start(false, 0);
    let pending = quiet.wake(false, 60_000 * MS, Some(0), 500 * MS);
    assert_eq!(pending.refresh, Some(DueRefresh::Pending));
    assert!(!pending.follow_up_due);
    let idle = quiet.wake(false, 60_000 * MS, Some(10 * MS), 500 * MS);
    assert_eq!(idle.refresh, None);
    let regular = quiet.wake(false, 60_000 * MS, None, 60_000 * MS);
    assert_eq!(regular.refresh, Some(DueRefresh::Current));
}

#[test]
fn polling_sleeps_in_slices_until_something_is_due() {
    assert_eq!(poll_wait(60_000 * MS, 250 * MS, 1_000 * MS, None), PollWait::Sleep(250 * MS));
    assert_eq!(poll_wait(60_000 * MS, 250 * MS, 59_900 * MS, None), PollWait::Sleep(100 * MS));
    assert_eq!(poll_wait(60_000 * MS, 250 * MS, 60_000 * MS, Some(0)), PollWait::Refresh(DueRefresh::Current));
    assert_eq!(poll_wait(60_000 * MS, 250 * MS, 1_000 * MS, Some(0)), PollWait::Refresh(DueRefresh::Pending));
}

#[test]
fn unknown_connection_is_followed_by_one_settled_battery_notification() {
    let mut monitor = ControllerMonitor::default();
    let policy = ControllerServiceConfig::default();
    let unknown = Controller::new("one", BatteryReading::new(BatteryKind::Unknown, BatteryCharge::Unknown));
    let full = Controller::new(
        "one",
        BatteryReading::new(BatteryKind::Alkaline, BatteryCharge::Coarse(BatteryLevel::Full)),
    );
    let mut notifications = Vec::new();

    let (succeeded, connected) = current_refresh_events(&mut monitor, Ok(vec![unknown.clone()]), false);
    assert!(succeeded);
    assert_eq!(connected, vec![ControllerEvent::Connected(unknown)]);
    notifications.extend(connected.iter().filter_map(|event| event.notification(policy.notification_policy())));
    for _ in 0..2 {
        let events = pending_refresh_events(&mut monitor, Ok(vec![full.clone()]));
        notifications.extend(events.iter().filter_map(|event| event.notification(policy.notification_policy())));
    }

    assert_eq!(notifications.len(), 2);
    assert_eq!(notifications[0].title(), "Xbox Controller Connected");
    assert_eq!(notifications[0].body(), "Controller is connected");
    assert_eq!(notifications[1].title(), "Xbox Controller Battery Status");
    assert_eq!(notifications[1].body(), "Battery level is ~100%");
}

#[test]
fn failed_refreshes_postpone_only_due_readings() {
    let mut monitor = ControllerMonitor::default();
    let (succeeded, events) = current_refresh_events(&mut monitor, Err("offline".to_string()), false);
    assert!(!succeeded);
    assert!(events.is_empty());
    assert!(pending_refresh_events(&mut monitor, Err("offline".to_string())).is_empty());
    assert_eq!(monitor.next_refresh_delay_at(0), None);
}

#[test]
fn notification_failures_do_not_abort_event_processing() {
    let attempts = Arc::new(AtomicUsize::new(0));
    let notifier = FailingNotifier { attempts: Arc::clone(&attempts) };
    let config = ControllerServiceConfig::default();

    notify_events(&notifier, &config, vec![ControllerEvent::Connected(full_controller())]);

    assert_eq!(attempts.load(Ordering::Relaxed), 1);
}

#[test]
fn every_notification_is_attempted_in_order_after_a_failure() {
    let attempts = Arc::new(AtomicUsize::new(0));
    let notifier = FailingNotifier { attempts: Arc::clone(&attempts) };
    let config = ControllerServiceConfig::default();
    let events = vec![
        ControllerEvent::Connected(full_controller()),
        ControllerEvent::Disconnected(full_controller()),
    ];

    let deliveries = notify_events(&notifier, &config, events);

    assert_eq!(attempts.load(Ordering::Relaxed), 2);
    assert_eq!(deliveries.len(), 2);
    assert_eq!(deliveries[0].0.title(), "Xbox Controller Connected");
    assert_eq!(deliveries[1].0.title(), "Xbox Controller Disconnected");
    assert_eq!(deliveries[1].1, Err("test notification failure".to_string()));
}
