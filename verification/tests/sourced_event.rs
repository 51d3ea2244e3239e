use xbattery::controller::battery::warning::BatteryWarning;
use xbattery::controller::battery::{BatteryCharge, BatteryKind, BatteryLevel, BatteryReading};
use xbattery::controller::event::notification_policy::ControllerNotificationPolicy as StatusPolicy;
use xbattery::controller::event::{ControllerEvent, ControllerNotificationPolicy};
use xbattery::controller::source::ControllerSource;
use xbattery::controller::sourced::Controller;
use xbattery::notifier::NotificationUrgency;

fn controller(charge: BatteryCharge) -> Controller {
    Controller::new(
        "controller",
        "Controller",
        ControllerSource::XInput,
        BatteryReading::new(BatteryKind::Unknown, charge),
    )
}

#[test]
fn event_connected_notifications_are_normal_urgency() {
    let event = ControllerEvent::Connected(controller(BatteryCharge::Coarse(BatteryLevel::Full)));

    assert_eq!(
        event.notification(&ControllerNotificationPolicy::default()).unwrap().urgency(),
        NotificationUrgency::Normal
    );
}

#[test]
fn event_connected_notifications_can_be_disabled() {
    let event = ControllerEvent::Connected(controller(BatteryCharge::Coarse(BatteryLevel::Full)));
    let policy = ControllerNotificationPolicy::default().with_connectivity_notifications(false, true);

    assert_eq!(event.notification(&policy), None);
}

#[test]
fn event_disconnected_notifications_can_be_disabled() {
    let event = ControllerEvent::Disconnected(controller(BatteryCharge::Coarse(BatteryLevel::Full)));
    let policy = ControllerNotificationPolicy::default().with_connectivity_notifications(true, false);

    assert_eq!(event.notification(&policy), None);
}

#[test]
fn event_precise_critical_battery_notifications_are_urgent() {
    let event = ControllerEvent::BatteryWarning {
        current: controller(BatteryCharge::Precise(10)),
        warning: BatteryWarning::Precise(10),
    };

    assert_eq!(
        event.notification(&ControllerNotificationPolicy::default()).unwrap().urgency(),
        NotificationUrgency::Urgent
    );
}

#[test]
fn event_precise_noncritical_battery_notifications_are_high_priority() {
    let event = ControllerEvent::BatteryWarning {
        current: controller(BatteryCharge::Precise(25)),
        warning: BatteryWarning::Precise(25),
    };

    assert_eq!(
        event.notification(&ControllerNotificationPolicy::default()).unwrap().urgency(),
        NotificationUrgency::High
    );
}

#[test]
fn precise_urgency_threshold_can_be_configured() {
    let event = ControllerEvent::BatteryWarning {
        current: controller(BatteryCharge::Precise(20)),
        warning: BatteryWarning::Precise(20),
    };

    assert_eq!(
        event.notification(&ControllerNotificationPolicy::new(25)).unwrap().urgency(),
        NotificationUrgency::Urgent
    );
}

#[test]
fn event_coarse_empty_battery_notifications_are_urgent() {
    let event = ControllerEvent::BatteryWarning {
        current: controller(BatteryCharge::Coarse(BatteryLevel::Empty)),
        warning: BatteryWarning::Coarse(BatteryLevel::Empty),
    };

    assert_eq!(
        event.notification(&ControllerNotificationPolicy::default()).unwrap().urgency(),
        NotificationUrgency::Urgent
    );
}

#[test]
fn sourced_notifications_name_the_controller_reading_and_source() {
    let connected = ControllerEvent::Connected(controller(BatteryCharge::Coarse(BatteryLevel::Full)));
    let notification = connected.notification(&ControllerNotificationPolicy::default()).unwrap();
    assert_eq!(notification.title(), "Controller connected");
    assert_eq!(notification.body(), "Battery: full (~100%). Source: XInput.");

    let gone = ControllerEvent::Disconnected(controller(BatteryCharge::Unknown));
    let notification = gone.notification(&ControllerNotificationPolicy::default()).unwrap();
    assert_eq!(notification.title(), "Controller disconnected");
    assert_eq!(notification.body(), "The controller is no longer connected.");

    let precise = ControllerEvent::BatteryWarning {
        current: controller(BatteryCharge::Precise(25)),
        warning: BatteryWarning::Precise(25),
    };
    let notification = precise.notification(&ControllerNotificationPolicy::default()).unwrap();
    assert_eq!(notification.title(), "Controller battery 25%");
    assert_eq!(notification.body(), "Current level: 25%. Source: XInput.");

    let coarse = ControllerEvent::BatteryWarning {
        current: controller(BatteryCharge::Coarse(BatteryLevel::Low)),
        warning: BatteryWarning::Coarse(BatteryLevel::Low),
    };
    let notification = coarse.notification(&ControllerNotificationPolicy::default()).unwrap();
    assert_eq!(notification.title(), "Controller battery low");
    assert_eq!(notification.body(), "Estimated level: 40%. Source: XInput coarse battery state.");
    assert_eq!(notification.urgency(), NotificationUrgency::High);
    assert_eq!(coarse.controller().name(), "Controller");
}

#[test]
fn status_policy_reports_the_warning_level() {
    let policy = StatusPolicy::default();

    let precise = policy.notification_for_battery_warning(BatteryWarning::Precise(10));
    assert_eq!(precise.title(), "Xbox Controller Battery Status");
    assert_eq!(precise.body(), "Battery level is 10%");
    assert_eq!(precise.urgency(), NotificationUrgency::Urgent);

    let coarse = policy.notification_for_battery_warning(BatteryWarning::Coarse(BatteryLevel::Medium));
    assert_eq!(coarse.body(), "Battery level is ~70%");
    assert_eq!(coarse.urgency(), NotificationUrgency::High);

    let quiet = StatusPolicy::new(5).with_connectivity_notifications(false, true);
    assert!(!quiet.notify_connected());
    assert!(quiet.notify_disconnected());
    assert_eq!(quiet.notification_for_battery_warning(BatteryWarning::Precise(10)).urgency(), NotificationUrgency::High);
}

#[test]
fn source_labels_name_the_api() {
    assert_eq!(ControllerSource::GameInput.label(), "GameInput");
    assert_eq!(ControllerSource::XInput.label(), "XInput");
    assert_eq!(ControllerSource::WinRT.label(), "Windows.Gaming.Input");
}
