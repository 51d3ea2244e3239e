use xbattery::controller::battery::{
    BatteryCharge, BatteryKind, BatteryLevel, BatteryReading, BatteryWarning, BatteryWarningLevel,
    BatteryWarningPolicy,
};
use xbattery::controller::event::controller_event::ControllerEvent;
use xbattery::controller::event::controller_notification_policy::ControllerNotificationPolicy;
use xbattery::controller::monitor::controller_monitor::ControllerMonitor;
use xbattery::controller::monitor::pending::{
    INITIAL_READING_RETRY_DELAY, MAX_DEFERRED_REFRESHES, READING_CONFIRMATION_DELAY,
};
use xbattery::controller::Controller;

/// One millisecond, in the library's nanoseconds.
const MS: u64 = 1_000_000;

#[test]
fn controller_monitor_emits_connected_event_for_new_controller() {
    let mut monitor = ControllerMonitor::default();
    let controller = controller("one", BatteryCharge::Coarse(BatteryLevel::Full));

    let events = monitor.observe_current(vec![controller.clone()]);

    assert_eq!(events, vec![ControllerEvent::Connected(controller)]);
}

#[test]
fn unknown_initial_reading_emits_a_generic_connected_event_and_schedules_a_retry() {
    let now: u64 = 1_000_000 * MS;
    let mut monitor = ControllerMonitor::default();
    let unknown = controller("one", BatteryCharge::Unknown);

    let events = monitor.observe_current_at(vec![unknown.clone()], now);

    assert_eq!(events, vec![ControllerEvent::Connected(unknown)]);
    assert_eq!(
        monitor.next_refresh_delay_at(now),
        Some(INITIAL_READING_RETRY_DELAY)
    );
}

#[test]
fn first_usable_reading_after_unknown_emits_one_battery_status() {
    let now: u64 = 1_000_000 * MS;
    let mut monitor = ControllerMonitor::default();
    let unknown = controller("one", BatteryCharge::Unknown);
    let full = controller("one", BatteryCharge::Coarse(BatteryLevel::Full));
    monitor.observe_current_at(vec![unknown], now);

    let status =
        monitor.observe_current_at(vec![full.clone()], now + INITIAL_READING_RETRY_DELAY);
    let repeated = monitor.observe_current_at(
        vec![full.clone()],
        now + INITIAL_READING_RETRY_DELAY + 1_000 * MS,
    );

    assert_eq!(
        status,
        vec![ControllerEvent::BatteryStatus {
            controller: full,
            warning: None,
        }]
    );
    assert!(repeated.is_empty());
    assert_eq!(
        monitor.next_refresh_delay_at(now + INITIAL_READING_RETRY_DELAY),
        None
    );
}

#[test]
fn unknown_initial_reading_gets_three_accelerated_retries() {
    let now: u64 = 1_000_000 * MS;
    let mut monitor = ControllerMonitor::default();
    let unknown = controller("one", BatteryCharge::Unknown);
    monitor.observe_current_at(vec![unknown.clone()], now);

    for attempt in 1..=MAX_DEFERRED_REFRESHES {
        let refresh_at = now + INITIAL_READING_RETRY_DELAY * u64::from(attempt);
        assert!(
            monitor
                .observe_pending_at(vec![unknown.clone()], refresh_at)
                .is_empty()
        );
        assert_eq!(
            monitor.next_refresh_delay_at(refresh_at),
            Some(INITIAL_READING_RETRY_DELAY)
        );
    }

    let final_retry = now + INITIAL_READING_RETRY_DELAY * u64::from(MAX_DEFERRED_REFRESHES + 1);
    assert!(
        monitor
            .observe_pending_at(vec![unknown], final_retry)
            .is_empty()
    );
    assert_eq!(monitor.next_refresh_delay_at(final_retry), None);
}

#[test]
fn retry_exhaustion_keeps_the_later_battery_status_announcement() {
    let now: u64 = 1_000_000 * MS;
    let mut monitor = ControllerMonitor::default();
    let unknown = controller("one", BatteryCharge::Unknown);
    let full = controller("one", BatteryCharge::Coarse(BatteryLevel::Full));
    monitor.observe_current_at(vec![unknown.clone()], now);

    for attempt in 1..=MAX_DEFERRED_REFRESHES + 1 {
        let refresh_at = now + INITIAL_READING_RETRY_DELAY * u64::from(attempt);
        assert!(
            monitor
                .observe_pending_at(vec![unknown.clone()], refresh_at)
                .is_empty()
        );
    }

    let later = now + 60_000 * MS;
    assert_eq!(
        monitor.observe_current_at(vec![full.clone()], later),
        vec![ControllerEvent::BatteryStatus {
            controller: full,
            warning: None,
        }]
    );
}

#[test]
fn initial_unknown_to_low_folds_the_warning_into_one_confirmed_status() {
    let now: u64 = 1_000_000 * MS;
    let mut monitor = ControllerMonitor::default();
    let unknown = controller("one", BatteryCharge::Unknown);
    let critical = controller("one", BatteryCharge::Precise(10));
    monitor.observe_current_at(vec![unknown], now);
    let low_seen = now + INITIAL_READING_RETRY_DELAY;

    assert!(
        monitor
            .observe_current_at(vec![critical.clone()], low_seen)
            .is_empty()
    );
    assert!(
        monitor
            .observe_pending_at(
                vec![critical.clone()],
                low_seen + READING_CONFIRMATION_DELAY - 1 * MS,
            )
            .is_empty()
    );

    assert_eq!(
        monitor.observe_pending_at(
            vec![critical.clone()],
            low_seen + READING_CONFIRMATION_DELAY,
        ),
        vec![ControllerEvent::BatteryStatus {
            controller: critical,
            warning: Some(critical_warning_value()),
        }]
    );
}

#[test]
fn initial_unknown_to_wired_waits_for_confirmation_before_status() {
    let now: u64 = 1_000_000 * MS;
    let mut monitor = ControllerMonitor::default();
    let unknown = controller("one", BatteryCharge::Unknown);
    let wired = wired_controller("one");
    monitor.observe_current_at(vec![unknown], now);
    let wired_seen = now + INITIAL_READING_RETRY_DELAY;

    assert!(
        monitor
            .observe_current_at(vec![wired.clone()], wired_seen)
            .is_empty()
    );
    assert_eq!(
        monitor
            .observe_pending_at(vec![wired.clone()], wired_seen + READING_CONFIRMATION_DELAY,),
        vec![ControllerEvent::BatteryStatus {
            controller: wired,
            warning: None,
        }]
    );
}

#[test]
fn usable_wireless_reading_supersedes_pending_wired_status_immediately() {
    let now: u64 = 1_000_000 * MS;
    let mut monitor = ControllerMonitor::default();
    let unknown = controller("one", BatteryCharge::Unknown);
    let wired = wired_controller("one");
    let full = controller("one", BatteryCharge::Coarse(BatteryLevel::Full));
    monitor.observe_current_at(vec![unknown], now);
    monitor.observe_current_at(vec![wired], now + INITIAL_READING_RETRY_DELAY);

    assert_eq!(
        monitor.observe_current_at(
            vec![full.clone()],
            now + INITIAL_READING_RETRY_DELAY + 250 * MS,
        ),
        vec![ControllerEvent::BatteryStatus {
            controller: full,
            warning: None,
        }]
    );
}

#[test]
fn switching_low_to_wired_restarts_unknown_status_confirmation() {
    let now: u64 = 1_000_000 * MS;
    let mut monitor = ControllerMonitor::default();
    let unknown = controller("one", BatteryCharge::Unknown);
    let critical = controller("one", BatteryCharge::Precise(10));
    let wired = wired_controller("one");
    monitor.observe_current_at(vec![unknown], now);
    let low_seen = now + INITIAL_READING_RETRY_DELAY;
    monitor.observe_current_at(vec![critical], low_seen);
    let wired_seen = low_seen + READING_CONFIRMATION_DELAY - 100 * MS;
    monitor.observe_current_at(vec![wired.clone()], wired_seen);

    assert!(
        monitor
            .observe_pending_at(vec![wired.clone()], low_seen + READING_CONFIRMATION_DELAY)
            .is_empty()
    );
    assert_eq!(
        monitor.next_refresh_delay_at(low_seen + READING_CONFIRMATION_DELAY),
        Some(READING_CONFIRMATION_DELAY - 100 * MS)
    );
    assert_eq!(
        monitor
            .observe_pending_at(vec![wired.clone()], wired_seen + READING_CONFIRMATION_DELAY,),
        vec![ControllerEvent::BatteryStatus {
            controller: wired,
            warning: None,
        }]
    );
}

#[test]
fn disconnect_clears_pending_unknown_status_before_reconnect() {
    let now: u64 = 1_000_000 * MS;
    let mut monitor = ControllerMonitor::default();
    let unknown = controller("one", BatteryCharge::Unknown);
    let full = controller("one", BatteryCharge::Coarse(BatteryLevel::Full));
    assert_eq!(
        monitor.observe_current_at(vec![unknown.clone()], now),
        vec![ControllerEvent::Connected(unknown.clone())]
    );

    assert_eq!(
        monitor.observe_current_at(Vec::new(), now + 100 * MS),
        vec![ControllerEvent::Disconnected(unknown)]
    );
    assert_eq!(
        monitor.observe_current_at(vec![full.clone()], now + 200 * MS),
        vec![ControllerEvent::Connected(full)]
    );
}

#[test]
fn refresh_error_exhaustion_keeps_the_unknown_status_announcement() {
    let now: u64 = 1_000_000 * MS;
    let mut monitor = ControllerMonitor::default();
    let unknown = controller("one", BatteryCharge::Unknown);
    let medium = controller("one", BatteryCharge::Coarse(BatteryLevel::Medium));
    monitor.observe_current_at(vec![unknown], now);

    for attempt in 1..=MAX_DEFERRED_REFRESHES + 1 {
        let refresh_at = now + INITIAL_READING_RETRY_DELAY * u64::from(attempt);
        assert!(monitor.defer_due_refreshes_at(refresh_at).is_empty());
    }

    assert_eq!(
        monitor.observe_current_at(vec![medium.clone()], now + 60_000 * MS),
        vec![ControllerEvent::BatteryStatus {
            controller: medium,
            warning: None,
        }]
    );
}

#[test]
fn controller_monitor_emits_disconnected_event_for_missing_controller() {
    let mut monitor = ControllerMonitor::default();
    let controller = controller("one", BatteryCharge::Coarse(BatteryLevel::Full));
    monitor.observe_current(vec![controller.clone()]);

    let events = monitor.observe_current(Vec::new());

    assert_eq!(events, vec![ControllerEvent::Disconnected(controller)]);
}

#[test]
fn controller_monitor_emits_battery_warning_for_decreasing_coarse_level() {
    let mut monitor = ControllerMonitor::default();
    let full = controller("one", BatteryCharge::Coarse(BatteryLevel::Full));
    let medium = controller("one", BatteryCharge::Coarse(BatteryLevel::Medium));
    monitor.observe_current(vec![full]);

    let events = monitor.observe_current(vec![medium]);

    assert_eq!(
        events,
        vec![ControllerEvent::BatteryWarning {
            warning: BatteryWarning::coarse(
                BatteryLevel::Medium,
                BatteryWarningLevel::new(
                    "medium",
                    Some(70),
                    Some(BatteryLevel::Medium),
                    true,
                    false,
                    None,
                ),
            ),
        }]
    );
}

#[test]
fn a_genuine_recovery_allows_the_same_warning_again() {
    let now: u64 = 1_000_000 * MS;
    let mut monitor = ControllerMonitor::default();
    let full = controller("one", BatteryCharge::Precise(100));
    let medium = controller("one", BatteryCharge::Precise(70));
    monitor.observe_current_at(vec![full.clone()], now);

    let first = monitor.observe_current_at(vec![medium.clone()], now + 1_000 * MS);
    monitor.observe_current_at(vec![full], now + 2_000 * MS);
    let second = monitor.observe_current_at(vec![medium], now + 3_000 * MS);

    assert_eq!(first, vec![precise_medium_warning()]);
    assert_eq!(second, vec![precise_medium_warning()]);
}

#[test]
fn a_warned_level_stays_quiet_through_a_run_without_recovery() {
    let now: u64 = 1_000_000 * MS;
    let mut monitor = ControllerMonitor::default();
    monitor.observe_current_at(vec![controller("one", BatteryCharge::Precise(100))], now);
    let first = monitor.observe_current_at(vec![controller("one", BatteryCharge::Precise(70))], now + 1_000 * MS);
    assert_eq!(first, vec![precise_medium_warning()]);

    let mut later = Vec::new();
    later.extend(monitor.observe_incremental_at(controller("one", BatteryCharge::Precise(65)), true, now + 2_000 * MS));
    later.extend(monitor.observe_incremental_at(
        controller("one", BatteryCharge::Coarse(BatteryLevel::Medium)),
        true,
        now + 3_000 * MS,
    ));
    later.extend(monitor.observe_incremental_at(controller("one", BatteryCharge::Unknown), true, now + 4_000 * MS));
    later.extend(monitor.observe_incremental_at(controller("two", BatteryCharge::Precise(90)), true, now + 5_000 * MS));
    later.extend(monitor.observe_incremental_at(controller("two", BatteryCharge::Precise(90)), false, now + 6_000 * MS));
    monitor.set_warning_policy(BatteryWarningPolicy::default());
    later.extend(monitor.observe_current_at(vec![controller("one", BatteryCharge::Precise(68))], now + 7_000 * MS));

    assert!(later.iter().all(|event| !matches!(event, ControllerEvent::BatteryWarning { .. })));

    monitor.observe_current_at(vec![controller("one", BatteryCharge::Precise(90))], now + 8_000 * MS);
    let again = monitor.observe_current_at(vec![controller("one", BatteryCharge::Precise(70))], now + 9_000 * MS);
    assert_eq!(again, vec![precise_medium_warning()]);
}

#[test]
fn replacing_the_policy_resets_warning_history() {
    let now: u64 = 1_000_000 * MS;
    let mut monitor = ControllerMonitor::default();
    monitor.observe_current_at(vec![controller("one", BatteryCharge::Precise(100))], now);
    assert_eq!(
        monitor.observe_current_at(
            vec![controller("one", BatteryCharge::Precise(40))],
            now + 1_000 * MS,
        ),
        vec![precise_low_warning()]
    );
    let replacement =
        BatteryWarningLevel::new("low", Some(20), Some(BatteryLevel::Low), true, false, None);
    monitor.set_warning_policy(BatteryWarningPolicy::new(vec![replacement.clone()]));
    monitor.observe_current_at(
        vec![controller("one", BatteryCharge::Precise(30))],
        now + 2_000 * MS,
    );

    let events = monitor.observe_current_at(
        vec![controller("one", BatteryCharge::Precise(19))],
        now + 3_000 * MS,
    );

    assert_eq!(
        events,
        vec![ControllerEvent::BatteryWarning {
            warning: BatteryWarning::precise(20, replacement),
        }]
    );
}

#[test]
fn ignores_a_one_off_critical_incremental_reading() {
    let now: u64 = 1_000_000 * MS;
    let mut monitor = ControllerMonitor::default();
    let full = controller("one", BatteryCharge::Precise(100));
    let critical = controller("one", BatteryCharge::Precise(10));
    monitor.observe_incremental_at(full.clone(), true, now);

    let events = monitor.observe_incremental_at(critical, true, now + 1_000 * MS);
    let recovery = monitor.observe_incremental_at(full, true, now + 2_000 * MS);

    assert!(events.is_empty());
    assert!(recovery.is_empty());
}

#[test]
fn warns_when_an_incremental_critical_reading_persists() {
    let now: u64 = 1_000_000 * MS;
    let mut monitor = ControllerMonitor::default();
    let full = controller("one", BatteryCharge::Precise(100));
    let critical = controller("one", BatteryCharge::Precise(10));
    monitor.observe_incremental_at(full, true, now);
    let first_seen = now + 1_000 * MS;
    monitor.observe_incremental_at(critical.clone(), true, first_seen);

    assert!(
        monitor
            .observe_incremental_at(
                critical.clone(),
                true,
                first_seen + READING_CONFIRMATION_DELAY - 1 * MS,
            )
            .is_empty()
    );

    let events =
        monitor.observe_incremental_at(critical, true, first_seen + READING_CONFIRMATION_DELAY);

    assert_eq!(events, vec![critical_warning()]);
}

#[test]
fn defers_the_connected_event_for_an_unconfirmed_critical_level() {
    let now: u64 = 1_000_000 * MS;
    let mut monitor = ControllerMonitor::default();
    let critical = controller("one", BatteryCharge::Precise(10));

    let events = monitor.observe_incremental_at(critical, true, now);

    assert!(events.is_empty());
}

#[test]
fn defers_the_connected_event_for_an_unconfirmed_wired_classification() {
    let now: u64 = 1_000_000 * MS;
    let mut monitor = ControllerMonitor::default();
    let wired = Controller::new(
        "one",
        BatteryReading::new(BatteryKind::Wired, BatteryCharge::Unknown),
    );
    let connected = monitor.observe_incremental_at(wired.clone(), true, now);

    assert!(connected.is_empty());
    let confirmed =
        monitor.observe_pending_at(vec![wired.clone()], now + READING_CONFIRMATION_DELAY);
    assert_eq!(confirmed, vec![ControllerEvent::Connected(wired.clone())]);
    assert_eq!(
        confirmed[0]
            .notification(&ControllerNotificationPolicy::default())
            .unwrap()
            .body(),
        "Battery level is wired"
    );
    assert_eq!(
        monitor.observe_incremental_at(
            wired.clone(),
            false,
            now + READING_CONFIRMATION_DELAY + 1_000 * MS,
        ),
        vec![ControllerEvent::Disconnected(wired)]
    );
}

#[test]
fn settled_wireless_reading_is_used_in_the_connected_notification() {
    let now: u64 = 1_000_000 * MS;
    let mut monitor = ControllerMonitor::default();
    let wired = Controller::new(
        "one",
        BatteryReading::new(BatteryKind::Wired, BatteryCharge::Unknown),
    );
    let full = Controller::new(
        "one",
        BatteryReading::new(
            BatteryKind::Alkaline,
            BatteryCharge::Coarse(BatteryLevel::Full),
        ),
    );

    assert!(monitor.observe_current_at(vec![wired], now).is_empty());
    let events =
        monitor.observe_current_at(vec![full.clone()], now + 250 * MS);

    assert_eq!(events, vec![ControllerEvent::Connected(full)]);
    assert_eq!(
        events[0]
            .notification(&ControllerNotificationPolicy::default())
            .unwrap()
            .body(),
        "Battery level is ~100%"
    );
}

#[test]
fn ignores_a_one_off_wired_classification_for_a_known_battery() {
    let now: u64 = 1_000_000 * MS;
    let mut monitor = ControllerMonitor::default();
    let full = controller("one", BatteryCharge::Precise(100));
    let wired = Controller::new(
        "one",
        BatteryReading::new(BatteryKind::Wired, BatteryCharge::Unknown),
    );
    monitor.observe_incremental_at(full.clone(), true, now);

    assert!(
        monitor
            .observe_incremental_at(wired, true, now + 1_000 * MS)
            .is_empty()
    );
    assert!(
        monitor
            .observe_incremental_at(full, true, now + 2_000 * MS)
            .is_empty()
    );
}

#[test]
fn switching_from_low_to_wired_restarts_the_confirmation_delay() {
    let now: u64 = 1_000_000 * MS;
    let mut monitor = ControllerMonitor::default();
    let full = controller("one", BatteryCharge::Precise(100));
    let low = controller("one", BatteryCharge::Precise(10));
    let wired = Controller::new(
        "one",
        BatteryReading::new(BatteryKind::Wired, BatteryCharge::Unknown),
    );
    monitor.observe_incremental_at(full.clone(), true, now);
    let low_seen = now + 1_000 * MS;
    monitor.observe_incremental_at(low, true, low_seen);
    let wired_seen = low_seen + READING_CONFIRMATION_DELAY - 100 * MS;
    monitor.observe_incremental_at(wired.clone(), true, wired_seen);

    let old_deadline = low_seen + READING_CONFIRMATION_DELAY;
    assert!(
        monitor
            .observe_incremental_at(wired.clone(), true, old_deadline)
            .is_empty()
    );
    assert_eq!(
        monitor.next_refresh_delay_at(old_deadline),
        Some(READING_CONFIRMATION_DELAY - 100 * MS)
    );

    let new_deadline = wired_seen + READING_CONFIRMATION_DELAY;
    assert!(
        monitor
            .observe_incremental_at(wired.clone(), true, new_deadline)
            .is_empty()
    );
    assert_eq!(monitor.next_refresh_delay_at(new_deadline), None);
    assert_eq!(
        monitor.observe_incremental_at(
            wired.clone(),
            false,
            new_deadline + 1_000 * MS,
        ),
        vec![ControllerEvent::Disconnected(wired)]
    );
}

#[test]
fn switching_from_wired_to_low_restarts_the_confirmation_delay() {
    let now: u64 = 1_000_000 * MS;
    let mut monitor = ControllerMonitor::default();
    let wired = Controller::new(
        "one",
        BatteryReading::new(BatteryKind::Wired, BatteryCharge::Unknown),
    );
    let low = controller("one", BatteryCharge::Precise(10));
    monitor.observe_incremental_at(wired, true, now);
    let low_seen = now + READING_CONFIRMATION_DELAY - 100 * MS;
    monitor.observe_incremental_at(low.clone(), true, low_seen);

    let old_deadline = now + READING_CONFIRMATION_DELAY;
    assert!(
        monitor
            .observe_incremental_at(low.clone(), true, old_deadline)
            .is_empty()
    );
    assert_eq!(
        monitor.next_refresh_delay_at(old_deadline),
        Some(READING_CONFIRMATION_DELAY - 100 * MS)
    );

    let new_deadline = low_seen + READING_CONFIRMATION_DELAY;
    assert_eq!(
        monitor.observe_incremental_at(low.clone(), true, new_deadline),
        vec![ControllerEvent::Connected(low), critical_warning()]
    );
}

#[test]
fn transient_unknown_does_not_erase_a_confirmed_wired_classification() {
    let now: u64 = 1_000_000 * MS;
    let mut monitor = ControllerMonitor::default();
    let wired = Controller::new(
        "one",
        BatteryReading::new(BatteryKind::Wired, BatteryCharge::Unknown),
    );
    let unknown = controller("one", BatteryCharge::Unknown);
    monitor.observe_incremental_at(wired.clone(), true, now);
    monitor.observe_incremental_at(wired.clone(), true, now + READING_CONFIRMATION_DELAY);

    assert!(
        monitor
            .observe_incremental_at(
                unknown,
                true,
                now + READING_CONFIRMATION_DELAY + 1_000 * MS,
            )
            .is_empty()
    );
    assert_eq!(
        monitor
            .next_refresh_delay_at(now + READING_CONFIRMATION_DELAY + 1_000 * MS),
        None
    );
    assert_eq!(
        monitor.observe_incremental_at(
            wired.clone(),
            false,
            now + READING_CONFIRMATION_DELAY + 2_000 * MS,
        ),
        vec![ControllerEvent::Disconnected(wired)]
    );
}

#[test]
fn queued_unknown_after_a_confirmation_does_not_undo_the_fresh_low_snapshot() {
    let now: u64 = 1_000_000 * MS;
    let mut monitor = ControllerMonitor::default();
    let critical = controller("one", BatteryCharge::Precise(10));
    let unknown = controller("one", BatteryCharge::Unknown);
    monitor.observe_incremental_at(critical.clone(), true, now);

    let deadline = now + READING_CONFIRMATION_DELAY;
    assert_eq!(
        monitor.observe_pending_at(vec![critical.clone()], deadline),
        vec![
            ControllerEvent::Connected(critical.clone()),
            critical_warning()
        ]
    );
    assert!(
        monitor
            .observe_incremental_at(unknown, true, deadline)
            .is_empty()
    );
    assert_eq!(monitor.next_refresh_delay_at(deadline), None);
    assert_eq!(
        monitor.observe_incremental_at(
            critical.clone(),
            false,
            deadline + 1_000 * MS,
        ),
        vec![ControllerEvent::Disconnected(critical)]
    );
}

#[test]
fn warns_once_when_an_initial_critical_level_is_confirmed() {
    let now: u64 = 1_000_000 * MS;
    let mut monitor = ControllerMonitor::default();
    let critical = controller("one", BatteryCharge::Precise(10));
    monitor.observe_incremental_at(critical.clone(), true, now);

    let events =
        monitor.observe_pending_at(vec![critical.clone()], now + READING_CONFIRMATION_DELAY);
    let repeated = monitor.observe_incremental_at(
        critical.clone(),
        true,
        now + READING_CONFIRMATION_DELAY + 1_000 * MS,
    );

    assert_eq!(
        events,
        vec![
            ControllerEvent::Connected(critical.clone()),
            critical_warning()
        ]
    );
    assert_eq!(
        events[0]
            .notification(&ControllerNotificationPolicy::default())
            .unwrap()
            .body(),
        "Battery level is 10%"
    );
    assert!(repeated.is_empty());
}

#[test]
fn snapshot_observations_filter_a_one_off_critical_level() {
    let now: u64 = 1_000_000 * MS;
    let mut monitor = ControllerMonitor::default();
    let full = controller("one", BatteryCharge::Precise(100));
    let critical = controller("one", BatteryCharge::Precise(10));
    monitor.observe_current_at(vec![full.clone()], now);

    let transient = monitor.observe_current_at(vec![critical], now + 1_000 * MS);
    let recovery = monitor.observe_current_at(vec![full], now + 2_000 * MS);

    assert!(transient.is_empty());
    assert!(recovery.is_empty());
}

#[test]
fn snapshot_observations_warn_for_a_persistent_critical_level() {
    let now: u64 = 1_000_000 * MS;
    let mut monitor = ControllerMonitor::default();
    let full = controller("one", BatteryCharge::Precise(100));
    let critical = controller("one", BatteryCharge::Precise(10));
    monitor.observe_current_at(vec![full], now);
    monitor.observe_current_at(vec![critical.clone()], now + 1_000 * MS);

    let events = monitor.observe_current_at(
        vec![critical],
        now + 1_000 * MS + READING_CONFIRMATION_DELAY,
    );

    assert_eq!(events, vec![critical_warning()]);
}

#[test]
fn snapshot_observations_confirm_a_persistent_wired_transition() {
    let now: u64 = 1_000_000 * MS;
    let mut monitor = ControllerMonitor::default();
    let full = Controller::new(
        "one",
        BatteryReading::new(
            BatteryKind::Alkaline,
            BatteryCharge::Coarse(BatteryLevel::Full),
        ),
    );
    let wired = Controller::new(
        "one",
        BatteryReading::new(BatteryKind::Wired, BatteryCharge::Unknown),
    );
    monitor.observe_current_at(vec![full], now);
    let first_wired = now + 1_000 * MS;

    assert!(
        monitor
            .observe_current_at(vec![wired.clone()], first_wired)
            .is_empty()
    );
    let confirmed_at = first_wired + READING_CONFIRMATION_DELAY;
    assert!(
        monitor
            .observe_current_at(vec![wired.clone()], confirmed_at)
            .is_empty()
    );
    assert_eq!(monitor.next_refresh_delay_at(confirmed_at), None);
    assert_eq!(
        monitor.observe_current_at(Vec::new(), confirmed_at + 1_000 * MS),
        vec![ControllerEvent::Disconnected(wired)]
    );
}

#[test]
fn coarse_low_readings_keep_the_existing_confirmation_behavior() {
    let now: u64 = 1_000_000 * MS;
    let mut monitor = ControllerMonitor::default();
    let full = controller("one", BatteryCharge::Coarse(BatteryLevel::Full));
    let low = controller("one", BatteryCharge::Coarse(BatteryLevel::Low));
    monitor.observe_current_at(vec![full], now);

    assert!(
        monitor
            .observe_current_at(vec![low.clone()], now + 1_000 * MS)
            .is_empty()
    );
    let events = monitor.observe_current_at(
        vec![low],
        now + 1_000 * MS + READING_CONFIRMATION_DELAY,
    );

    assert_eq!(events, vec![coarse_low_warning()]);
}

#[test]
fn coarse_to_precise_transition_preserves_a_noncritical_crossing() {
    let now: u64 = 1_000_000 * MS;
    let mut monitor = ControllerMonitor::default();
    let full = controller("one", BatteryCharge::Coarse(BatteryLevel::Full));
    let low = controller("one", BatteryCharge::Precise(40));
    monitor.observe_current_at(vec![full], now);

    let events = monitor.observe_current_at(vec![low], now + 1_000 * MS);

    assert_eq!(events, vec![precise_low_warning()]);
}

#[test]
fn changing_precision_does_not_repeat_an_already_emitted_empty_warning() {
    let now: u64 = 1_000_000 * MS;
    let mut monitor = ControllerMonitor::default();
    let coarse_empty = controller("one", BatteryCharge::Coarse(BatteryLevel::Empty));
    let precise_empty = controller("one", BatteryCharge::Precise(9));
    monitor.observe_current_at(vec![coarse_empty.clone()], now);
    assert_eq!(
        monitor
            .observe_current_at(vec![coarse_empty.clone()], now + READING_CONFIRMATION_DELAY,),
        vec![
            ControllerEvent::Connected(coarse_empty),
            coarse_empty_warning()
        ]
    );
    monitor.set_warning_policy(BatteryWarningPolicy::default());

    assert!(
        monitor
            .observe_current_at(
                vec![precise_empty.clone()],
                now + READING_CONFIRMATION_DELAY + 1_000 * MS,
            )
            .is_empty()
    );
    assert!(
        monitor
            .observe_current_at(
                vec![precise_empty],
                now + 1_000 * MS
                    + READING_CONFIRMATION_DELAY
                    + READING_CONFIRMATION_DELAY,
            )
            .is_empty()
    );
}

#[test]
fn changing_precision_still_emits_a_more_severe_warning() {
    let now: u64 = 1_000_000 * MS;
    let mut monitor = ControllerMonitor::default();
    let full = controller("one", BatteryCharge::Coarse(BatteryLevel::Full));
    let coarse_low = controller("one", BatteryCharge::Coarse(BatteryLevel::Low));
    let precise_empty = controller("one", BatteryCharge::Precise(5));
    monitor.observe_current_at(vec![full], now);
    let low_seen = now + 1_000 * MS;
    monitor.observe_current_at(vec![coarse_low.clone()], low_seen);
    assert_eq!(
        monitor.observe_current_at(vec![coarse_low], low_seen + READING_CONFIRMATION_DELAY,),
        vec![coarse_low_warning()]
    );
    let empty_seen = low_seen + READING_CONFIRMATION_DELAY + 1_000 * MS;
    monitor.observe_current_at(vec![precise_empty.clone()], empty_seen);

    let events = monitor
        .observe_current_at(vec![precise_empty], empty_seen + READING_CONFIRMATION_DELAY);

    assert_eq!(events, vec![critical_warning()]);
}

#[test]
fn custom_cross_scale_mapping_deduplicates_by_level_identity() {
    let now: u64 = 1_000_000 * MS;
    let level = BatteryWarningLevel::new(
        "custom",
        Some(20),
        Some(BatteryLevel::Low),
        true,
        false,
        None,
    );
    let mut monitor = ControllerMonitor::new(BatteryWarningPolicy::new(vec![level.clone()]));
    let full = controller("one", BatteryCharge::Coarse(BatteryLevel::Full));
    let coarse_low = controller("one", BatteryCharge::Coarse(BatteryLevel::Low));
    let precise_low = controller("one", BatteryCharge::Precise(10));
    monitor.observe_current_at(vec![full], now);
    let coarse_seen = now + 1_000 * MS;
    monitor.observe_current_at(vec![coarse_low.clone()], coarse_seen);
    assert_eq!(
        monitor.observe_current_at(vec![coarse_low], coarse_seen + READING_CONFIRMATION_DELAY,),
        vec![ControllerEvent::BatteryWarning {
            warning: BatteryWarning::coarse(BatteryLevel::Low, level),
        }]
    );
    let precise_seen = coarse_seen + READING_CONFIRMATION_DELAY + 1_000 * MS;
    monitor.observe_current_at(vec![precise_low.clone()], precise_seen);

    assert!(
        monitor
            .observe_current_at(vec![precise_low], precise_seen + READING_CONFIRMATION_DELAY,)
            .is_empty()
    );
}

#[test]
fn cross_scale_recovery_allows_the_same_warning_again() {
    let now: u64 = 1_000_000 * MS;
    let mut monitor = ControllerMonitor::default();
    let full_coarse = controller("one", BatteryCharge::Coarse(BatteryLevel::Full));
    let low_coarse = controller("one", BatteryCharge::Coarse(BatteryLevel::Low));
    monitor.observe_current_at(vec![full_coarse], now);
    let low_seen = now + 1_000 * MS;
    monitor.observe_current_at(vec![low_coarse.clone()], low_seen);
    assert_eq!(
        monitor.observe_current_at(vec![low_coarse], low_seen + READING_CONFIRMATION_DELAY,),
        vec![coarse_low_warning()]
    );
    monitor.observe_current_at(
        vec![controller("one", BatteryCharge::Precise(100))],
        low_seen + READING_CONFIRMATION_DELAY + 1_000 * MS,
    );

    let events = monitor.observe_current_at(
        vec![controller("one", BatteryCharge::Precise(40))],
        low_seen + READING_CONFIRMATION_DELAY + 2_000 * MS,
    );

    assert_eq!(events, vec![precise_low_warning()]);
}

#[test]
fn recovery_survives_alternating_charge_scales() {
    let now: u64 = 1_000_000 * MS;
    let mut monitor = ControllerMonitor::default();
    let full_coarse = controller("one", BatteryCharge::Coarse(BatteryLevel::Full));
    let low_coarse = controller("one", BatteryCharge::Coarse(BatteryLevel::Low));
    monitor.observe_current_at(vec![full_coarse], now);
    let first_low = now + 1_000 * MS;
    monitor.observe_current_at(vec![low_coarse.clone()], first_low);
    assert_eq!(
        monitor.observe_current_at(
            vec![low_coarse.clone()],
            first_low + READING_CONFIRMATION_DELAY,
        ),
        vec![coarse_low_warning()]
    );
    monitor.observe_current_at(
        vec![controller("one", BatteryCharge::Precise(100))],
        first_low + READING_CONFIRMATION_DELAY + 1_000 * MS,
    );
    let second_low = first_low + READING_CONFIRMATION_DELAY + 2_000 * MS;
    monitor.observe_current_at(vec![low_coarse.clone()], second_low);

    let events =
        monitor.observe_current_at(vec![low_coarse], second_low + READING_CONFIRMATION_DELAY);

    assert_eq!(events, vec![coarse_low_warning()]);
}

#[test]
fn unknown_sample_defers_instead_of_discarding_a_pending_confirmation() {
    let now: u64 = 1_000_000 * MS;
    let mut monitor = ControllerMonitor::default();
    let full = controller("one", BatteryCharge::Precise(100));
    let critical = controller("one", BatteryCharge::Precise(10));
    let unknown = controller("one", BatteryCharge::Unknown);
    monitor.observe_current_at(vec![full], now);
    let first_seen = now + 1_000 * MS;
    monitor.observe_current_at(vec![critical.clone()], first_seen);

    assert!(
        monitor
            .observe_pending_at(vec![unknown], first_seen + READING_CONFIRMATION_DELAY,)
            .is_empty()
    );
    assert_eq!(
        monitor.next_refresh_delay_at(first_seen + READING_CONFIRMATION_DELAY),
        Some(READING_CONFIRMATION_DELAY)
    );
    let events = monitor.observe_pending_at(
        vec![critical],
        first_seen + READING_CONFIRMATION_DELAY + READING_CONFIRMATION_DELAY,
    );

    assert_eq!(events, vec![critical_warning()]);
}

#[test]
fn repeated_missing_snapshots_eventually_disconnect_the_controller() {
    let now: u64 = 1_000_000 * MS;
    let mut monitor = ControllerMonitor::default();
    let critical = controller("one", BatteryCharge::Precise(10));
    monitor.observe_incremental_at(critical, true, now);

    for attempt in 1..=MAX_DEFERRED_REFRESHES {
        let refresh_at = now
            + ((READING_CONFIRMATION_DELAY / 1000) * u64::from(attempt)) * 1000;
        assert!(
            monitor
                .observe_pending_at(Vec::new(), refresh_at)
                .is_empty()
        );
    }

    let final_refresh =
        now + READING_CONFIRMATION_DELAY * u64::from(MAX_DEFERRED_REFRESHES + 1);
    assert_eq!(
        monitor.observe_pending_at(Vec::new(), final_refresh),
        vec![ControllerEvent::Disconnected(controller(
            "one",
            BatteryCharge::Unknown
        ))]
    );

    assert_eq!(monitor.next_refresh_delay_at(final_refresh), None);
}

#[test]
fn unknown_samples_do_not_preload_the_missing_snapshot_budget() {
    let now: u64 = 1_000_000 * MS;
    let mut monitor = ControllerMonitor::default();
    let critical = controller("one", BatteryCharge::Precise(10));
    let unknown = controller("one", BatteryCharge::Unknown);
    monitor.observe_incremental_at(critical.clone(), true, now);

    for attempt in 1..=MAX_DEFERRED_REFRESHES {
        let refresh_at = now + READING_CONFIRMATION_DELAY * u64::from(attempt);
        assert!(
            monitor
                .observe_pending_at(vec![unknown.clone()], refresh_at)
                .is_empty()
        );
    }

    let missing_at = now + READING_CONFIRMATION_DELAY * u64::from(MAX_DEFERRED_REFRESHES + 1);
    assert!(
        monitor
            .observe_pending_at(Vec::new(), missing_at)
            .is_empty()
    );

    let confirmed_at = missing_at + READING_CONFIRMATION_DELAY;
    assert_eq!(
        monitor.observe_pending_at(vec![critical.clone()], confirmed_at),
        vec![ControllerEvent::Connected(critical), critical_warning()]
    );
}

#[test]
fn repeated_refresh_errors_eventually_abandon_the_candidate() {
    let now: u64 = 1_000_000 * MS;
    let mut monitor = ControllerMonitor::default();
    monitor.observe_incremental_at(controller("one", BatteryCharge::Precise(10)), true, now);

    for attempt in 1..=MAX_DEFERRED_REFRESHES {
        let refresh_at = now + READING_CONFIRMATION_DELAY * u64::from(attempt);
        assert!(monitor.defer_due_refreshes_at(refresh_at).is_empty());
    }

    let abandoned_at = now + READING_CONFIRMATION_DELAY * u64::from(MAX_DEFERRED_REFRESHES + 1);
    assert_eq!(
        monitor.defer_due_refreshes_at(abandoned_at),
        vec![ControllerEvent::Connected(controller(
            "one",
            BatteryCharge::Unknown
        ))]
    );
    assert_eq!(monitor.next_refresh_delay_at(abandoned_at), None);
}

#[test]
fn observed_low_samples_reset_the_missing_snapshot_streak() {
    let now: u64 = 1_000_000 * MS;
    let mut monitor = ControllerMonitor::default();
    let critical = controller("one", BatteryCharge::Precise(10));
    monitor.observe_incremental_at(critical.clone(), true, now);

    for attempt in 1..=MAX_DEFERRED_REFRESHES + 1 {
        let refresh_at = now + READING_CONFIRMATION_DELAY * u64::from(attempt);
        assert!(
            monitor
                .observe_pending_at(Vec::new(), refresh_at)
                .is_empty()
        );
        assert!(
            monitor
                .observe_incremental_at(
                    critical.clone(),
                    true,
                    refresh_at + 1_000 * MS,
                )
                .is_empty()
        );
    }

    let confirmed_at = now + READING_CONFIRMATION_DELAY * u64::from(MAX_DEFERRED_REFRESHES + 2);
    assert_eq!(
        monitor.observe_pending_at(vec![critical.clone()], confirmed_at),
        vec![ControllerEvent::Connected(critical), critical_warning()]
    );
}

#[test]
fn disconnect_clears_the_old_confirmation_deadline() {
    let now: u64 = 1_000_000 * MS;
    let mut monitor = ControllerMonitor::default();
    let full = controller("one", BatteryCharge::Precise(100));
    let critical = controller("one", BatteryCharge::Precise(10));
    monitor.observe_incremental_at(full.clone(), true, now);
    monitor.observe_incremental_at(critical.clone(), true, now + 1_000 * MS);

    let disconnected =
        monitor.observe_incremental_at(critical.clone(), false, now + 2_000 * MS);
    assert_eq!(
        monitor.next_refresh_delay_at(now + 2_000 * MS),
        None
    );
    let reconnected_at = now + 3_000 * MS;
    let reconnected = monitor.observe_incremental_at(critical.clone(), true, reconnected_at);
    let before_new_deadline = monitor.observe_incremental_at(
        critical.clone(),
        true,
        reconnected_at + READING_CONFIRMATION_DELAY - 1 * MS,
    );
    let confirmed = monitor.observe_incremental_at(
        critical.clone(),
        true,
        reconnected_at + READING_CONFIRMATION_DELAY,
    );

    assert_eq!(disconnected, vec![ControllerEvent::Disconnected(full)]);
    assert!(reconnected.is_empty());
    assert!(before_new_deadline.is_empty());
    assert_eq!(
        confirmed,
        vec![ControllerEvent::Connected(critical), critical_warning()]
    );
}

#[test]
fn unknown_snapshot_does_not_erase_the_last_known_level() {
    let mut monitor = ControllerMonitor::default();
    let full = controller("one", BatteryCharge::Coarse(BatteryLevel::Full));
    let unknown = controller("one", BatteryCharge::Unknown);
    let medium = controller("one", BatteryCharge::Coarse(BatteryLevel::Medium));
    monitor.observe_current(vec![full]);

    assert!(monitor.observe_current(vec![unknown]).is_empty());
    let events = monitor.observe_current(vec![medium]);

    assert!(matches!(
        events.as_slice(),
        [ControllerEvent::BatteryWarning { .. }]
    ));
}

fn controller(id: &str, charge: BatteryCharge) -> Controller {
    Controller::new(id, BatteryReading::new(BatteryKind::Unknown, charge))
}

fn wired_controller(id: &str) -> Controller {
    Controller::new(
        id,
        BatteryReading::new(BatteryKind::Wired, BatteryCharge::Unknown),
    )
}

fn critical_warning() -> ControllerEvent {
    ControllerEvent::BatteryWarning {
        warning: critical_warning_value(),
    }
}

fn critical_warning_value() -> BatteryWarning {
    BatteryWarning::precise(
        10,
        BatteryWarningLevel::new(
            "empty",
            Some(10),
            Some(BatteryLevel::Empty),
            true,
            true,
            None,
        ),
    )
}

fn precise_medium_warning() -> ControllerEvent {
    ControllerEvent::BatteryWarning {
        warning: BatteryWarning::precise(
            70,
            BatteryWarningLevel::new(
                "medium",
                Some(70),
                Some(BatteryLevel::Medium),
                true,
                false,
                None,
            ),
        ),
    }
}

fn precise_low_warning() -> ControllerEvent {
    ControllerEvent::BatteryWarning {
        warning: BatteryWarning::precise(
            40,
            BatteryWarningLevel::new(
                "low",
                Some(40),
                Some(BatteryLevel::Low),
                true,
                false,
                None,
            ),
        ),
    }
}

fn coarse_low_warning() -> ControllerEvent {
    ControllerEvent::BatteryWarning {
        warning: BatteryWarning::coarse(
            BatteryLevel::Low,
            BatteryWarningLevel::new(
                "low",
                Some(40),
                Some(BatteryLevel::Low),
                true,
                false,
                None,
            ),
        ),
    }
}

fn coarse_empty_warning() -> ControllerEvent {
    ControllerEvent::BatteryWarning {
        warning: BatteryWarning::coarse(
            BatteryLevel::Empty,
            BatteryWarningLevel::new(
                "empty",
                Some(10),
                Some(BatteryLevel::Empty),
                true,
                true,
                None,
            ),
        ),
    }
}
