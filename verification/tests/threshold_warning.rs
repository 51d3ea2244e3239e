use xbattery::controller::battery::warning::{BatteryWarning, BatteryWarningPolicy};
use xbattery::controller::battery::{BatteryCharge, BatteryKind, BatteryLevel, BatteryReading};

fn reading(charge: BatteryCharge) -> BatteryReading {
    BatteryReading::new(BatteryKind::Unknown, charge)
}

#[test]
fn warning_warns_when_precise_charge_crosses_threshold() {
    let policy = BatteryWarningPolicy::default();

    let warning = policy.warning_between(
        reading(BatteryCharge::Precise(51)),
        reading(BatteryCharge::Precise(50)),
    );

    assert_eq!(warning, Some(BatteryWarning::Precise(50)));
}

#[test]
fn warning_warns_when_coarse_charge_drops_to_warning_level() {
    let policy = BatteryWarningPolicy::default();

    let warning = policy.warning_between(
        reading(BatteryCharge::Coarse(BatteryLevel::Full)),
        reading(BatteryCharge::Coarse(BatteryLevel::Medium)),
    );

    assert_eq!(warning, Some(BatteryWarning::Coarse(BatteryLevel::Medium)));
}

#[test]
fn warning_ignores_charge_recovery() {
    let policy = BatteryWarningPolicy::default();

    let warning = policy.warning_between(
        reading(BatteryCharge::Coarse(BatteryLevel::Low)),
        reading(BatteryCharge::Coarse(BatteryLevel::Full)),
    );

    assert_eq!(warning, None);
}

#[test]
fn thresholds_are_sorted_and_deduplicated() {
    let policy = BatteryWarningPolicy::new(vec![10, 50, 25, 50, 10]);

    assert_eq!(
        policy.warning_between(reading(BatteryCharge::Precise(60)), reading(BatteryCharge::Precise(5))),
        Some(BatteryWarning::Precise(10))
    );
    assert_eq!(
        policy.warning_between(reading(BatteryCharge::Precise(60)), reading(BatteryCharge::Precise(30))),
        Some(BatteryWarning::Precise(50))
    );
    assert_eq!(
        policy.warning_between(reading(BatteryCharge::Precise(30)), reading(BatteryCharge::Precise(26))),
        None
    );
}

#[test]
fn scale_changes_and_full_levels_do_not_warn() {
    let policy = BatteryWarningPolicy::default();

    assert_eq!(
        policy.warning_between(
            reading(BatteryCharge::Coarse(BatteryLevel::Full)),
            reading(BatteryCharge::Precise(5)),
        ),
        None
    );
    assert_eq!(
        policy.warning_between(
            reading(BatteryCharge::Coarse(BatteryLevel::Low)),
            reading(BatteryCharge::Coarse(BatteryLevel::Empty)),
        ),
        Some(BatteryWarning::Coarse(BatteryLevel::Empty))
    );
    assert_eq!(
        policy.warning_between(
            reading(BatteryCharge::Coarse(BatteryLevel::Full)),
            reading(BatteryCharge::Coarse(BatteryLevel::Unknown)),
        ),
        None
    );
}
