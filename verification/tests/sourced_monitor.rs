use xbattery::controller::battery::warning::BatteryWarning;
use xbattery::controller::battery::{BatteryCharge, BatteryKind, BatteryLevel, BatteryReading};
use xbattery::controller::event::ControllerEvent;
use xbattery::controller::monitor::ControllerMonitor;
use xbattery::controller::source::ControllerSource;
use xbattery::controller::sourced::Controller;

fn controller(id: &str, charge: BatteryCharge) -> Controller {
    Controller::new(id, "Controller", ControllerSource::XInput, BatteryReading::new(BatteryKind::Unknown, charge))
}

#[test]
fn monitor_emits_connected_event_for_new_controller() {
    let mut monitor = ControllerMonitor::new();
    let controller = controller("one", BatteryCharge::Coarse(BatteryLevel::Full));

    let events = monitor.observe_current(vec![controller.clone()]);

    assert_eq!(events, vec![ControllerEvent::Connected(controller)]);
}

#[test]
fn monitor_emits_disconnected_event_for_missing_controller() {
    let mut monitor = ControllerMonitor::new();
    let controller = controller("one", BatteryCharge::Coarse(BatteryLevel::Full));
    monitor.observe_current(vec![controller.clone()]);

    let events = monitor.observe_current(Vec::new());

    assert_eq!(events, vec![ControllerEvent::Disconnected(controller)]);
}

#[test]
fn monitor_emits_battery_warning_for_decreasing_coarse_level() {
    let mut monitor = ControllerMonitor::new();
    let full = controller("one", BatteryCharge::Coarse(BatteryLevel::Full));
    let medium = controller("one", BatteryCharge::Coarse(BatteryLevel::Medium));
    monitor.observe_current(vec![full]);

    let events = monitor.observe_current(vec![medium.clone()]);

    assert_eq!(
        events,
        vec![ControllerEvent::BatteryWarning {
            current: medium,
            warning: BatteryWarning::Coarse(BatteryLevel::Medium),
        }]
    );
}

#[test]
fn incremental_samples_connect_warn_and_disconnect() {
    let mut monitor = ControllerMonitor::default();
    let full = controller("one", BatteryCharge::Precise(60));
    let low = controller("one", BatteryCharge::Precise(20));

    assert_eq!(monitor.observe_incremental(full.clone(), true), vec![ControllerEvent::Connected(full)]);
    assert_eq!(
        monitor.observe_incremental(low.clone(), true),
        vec![ControllerEvent::BatteryWarning { current: low.clone(), warning: BatteryWarning::Precise(25) }]
    );
    assert_eq!(monitor.observe_incremental(low.clone(), false), vec![ControllerEvent::Disconnected(low.clone())]);
    assert!(monitor.observe_incremental(low, false).is_empty());
}

#[test]
fn snapshots_report_arrivals_before_departures() {
    let mut monitor = ControllerMonitor::new();
    let one = controller("one", BatteryCharge::Precise(80));
    let two = controller("two", BatteryCharge::Precise(80));
    monitor.observe_current(vec![one.clone()]);

    let events = monitor.observe_current(vec![two.clone()]);

    assert_eq!(events, vec![ControllerEvent::Connected(two), ControllerEvent::Disconnected(one)]);
}

#[test]
fn connecting_then_disconnecting_leaves_the_monitor_as_it_was() {
    let mut monitor = ControllerMonitor::new();
    let known = controller("known", BatteryCharge::Precise(80));
    monitor.observe_current(vec![known.clone()]);
    let visitor = controller("visitor", BatteryCharge::Precise(30));

    assert_eq!(monitor.observe_incremental(visitor.clone(), true), vec![ControllerEvent::Connected(visitor.clone())]);
    assert_eq!(monitor.observe_incremental(visitor.clone(), false), vec![ControllerEvent::Disconnected(visitor)]);
    assert!(monitor.observe_current(vec![known]).is_empty());
}
