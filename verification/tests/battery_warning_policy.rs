use xbattery::audio::AudioClip;
use xbattery::controller::battery::{
    BatteryCharge, BatteryKind, BatteryLevel, BatteryReading, BatteryWarning, BatteryWarningLevel,
    BatteryWarningPolicy,
};

fn reading(charge: BatteryCharge) -> BatteryReading {
    BatteryReading::new(BatteryKind::Unknown, charge)
}

fn medium_level() -> BatteryWarningLevel {
    BatteryWarningLevel::new("medium", Some(70), Some(BatteryLevel::Medium), true, false, None)
}

fn low_level() -> BatteryWarningLevel {
    BatteryWarningLevel::new("low", Some(40), Some(BatteryLevel::Low), true, false, None)
}

fn empty_level() -> BatteryWarningLevel {
    BatteryWarningLevel::new("empty", Some(10), Some(BatteryLevel::Empty), true, true, None)
}

#[test]
fn battery_warning_policy_warns_when_precise_charge_crosses_threshold() {
    let policy = BatteryWarningPolicy::default();

    let warning = policy.warning_between(
        reading(BatteryCharge::Precise(71)),
        reading(BatteryCharge::Precise(70)),
    );

    assert_eq!(warning, Some(BatteryWarning::precise(70, medium_level())));
}

#[test]
fn battery_warning_policy_warns_when_coarse_charge_drops_to_warning_level() {
    let policy = BatteryWarningPolicy::default();

    let warning = policy.warning_between(
        reading(BatteryCharge::Coarse(BatteryLevel::Full)),
        reading(BatteryCharge::Coarse(BatteryLevel::Medium)),
    );

    assert_eq!(warning, Some(BatteryWarning::coarse(BatteryLevel::Medium, medium_level())));
}

#[test]
fn reports_most_severe_crossed_precise_threshold() {
    let policy = BatteryWarningPolicy::default();

    let warning = policy.warning_between(
        reading(BatteryCharge::Precise(71)),
        reading(BatteryCharge::Precise(9)),
    );

    assert_eq!(warning, Some(BatteryWarning::precise(10, empty_level())));
}

#[test]
fn battery_warning_policy_ignores_charge_recovery() {
    let policy = BatteryWarningPolicy::default();

    let warning = policy.warning_between(
        reading(BatteryCharge::Coarse(BatteryLevel::Low)),
        reading(BatteryCharge::Coarse(BatteryLevel::Full)),
    );

    assert_eq!(warning, None);
}

#[test]
fn ignores_unknown_charge_on_either_side() {
    let policy = BatteryWarningPolicy::default();

    assert_eq!(
        policy.warning_between(
            reading(BatteryCharge::Unknown),
            reading(BatteryCharge::Coarse(BatteryLevel::Empty)),
        ),
        None
    );
    assert_eq!(
        policy.warning_between(
            reading(BatteryCharge::Coarse(BatteryLevel::Full)),
            reading(BatteryCharge::Coarse(BatteryLevel::Unknown)),
        ),
        None
    );
}

#[test]
fn warns_when_a_coarse_to_precise_transition_crosses_a_threshold() {
    let policy = BatteryWarningPolicy::default();

    let warning = policy.warning_between(
        reading(BatteryCharge::Coarse(BatteryLevel::Full)),
        reading(BatteryCharge::Precise(40)),
    );

    assert_eq!(warning, Some(BatteryWarning::precise(40, low_level())));
}

#[test]
fn does_not_repeat_a_coarse_boundary_after_switching_to_precise() {
    let policy = BatteryWarningPolicy::default();

    let warning = policy.warning_between(
        reading(BatteryCharge::Coarse(BatteryLevel::Medium)),
        reading(BatteryCharge::Precise(69)),
    );

    assert_eq!(warning, None);
}

#[test]
fn warns_when_a_precise_to_coarse_transition_crosses_a_level() {
    let policy = BatteryWarningPolicy::default();

    let warning = policy.warning_between(
        reading(BatteryCharge::Precise(71)),
        reading(BatteryCharge::Coarse(BatteryLevel::Medium)),
    );

    assert_eq!(warning, Some(BatteryWarning::coarse(BatteryLevel::Medium, medium_level())));
}

#[test]
fn ignores_levels_without_actions() {
    let policy = BatteryWarningPolicy::new(vec![BatteryWarningLevel::new(
        "full",
        Some(100),
        Some(BatteryLevel::Full),
        false,
        false,
        None,
    )]);

    let warning = policy.warning_between(
        reading(BatteryCharge::Precise(100)),
        reading(BatteryCharge::Precise(99)),
    );

    assert_eq!(warning, None);
}

#[test]
fn warns_for_non_notifying_levels_with_audio() {
    let policy = BatteryWarningPolicy::new(vec![BatteryWarningLevel::new(
        "low",
        Some(40),
        Some(BatteryLevel::Low),
        false,
        false,
        Some(AudioClip::file("low.wav")),
    )]);

    let warning = policy.warning_between(
        reading(BatteryCharge::Precise(41)),
        reading(BatteryCharge::Precise(40)),
    );

    assert_eq!(
        warning,
        Some(BatteryWarning::precise(
            40,
            BatteryWarningLevel::new(
                "low",
                Some(40),
                Some(BatteryLevel::Low),
                false,
                false,
                Some(AudioClip::file("low.wav")),
            )
        ))
    );
}

#[test]
fn unknown_is_the_default_without_an_estimated_percentage() {
    let level = BatteryLevel::default();

    assert_eq!(level, BatteryLevel::Unknown);
    assert_eq!(level.estimated_percent(), None);
    assert_eq!(level.to_string(), "unknown");
}

#[test]
fn warning_for_current_reports_the_lowest_reached_level() {
    let policy = BatteryWarningPolicy::default();

    assert_eq!(
        policy.warning_for_current(reading(BatteryCharge::Precise(35))),
        Some(BatteryWarning::precise(40, low_level()))
    );
    assert_eq!(
        policy.warning_for_current(reading(BatteryCharge::Coarse(BatteryLevel::Empty))),
        Some(BatteryWarning::coarse(BatteryLevel::Empty, empty_level()))
    );
    assert_eq!(policy.warning_for_current(reading(BatteryCharge::Precise(90))), None);
    assert_eq!(policy.warning_for_current(reading(BatteryCharge::Unknown)), None);
}

#[test]
fn default_levels_match_the_coarse_percentages() {
    let levels = BatteryWarningLevel::default_levels();

    assert_eq!(levels.len(), 4);
    assert_eq!(levels[0].name(), "full");
    assert_eq!(levels[0].precise_threshold_percent(), Some(100));
    assert!(!levels[0].has_action());
    assert_eq!(levels[1].precise_threshold_percent(), Some(70));
    assert_eq!(levels[2].precise_threshold_percent(), Some(40));
    assert_eq!(levels[3].precise_threshold_percent(), Some(10));
    assert!(levels[3].urgent());
    assert!(levels[3].notify());
}

#[test]
fn charge_descriptions_name_level_and_percentage() {
    assert_eq!(BatteryCharge::Coarse(BatteryLevel::Medium).description(), "medium (~70%)");
    assert_eq!(BatteryCharge::Precise(42).description(), "42%");
    assert_eq!(BatteryCharge::Unknown.description(), "unknown");
    assert_eq!(BatteryReading::new(BatteryKind::Wired, BatteryCharge::Unknown).description(), "wired");
    assert_eq!(BatteryReading::new(BatteryKind::Nimh, BatteryCharge::Unknown).description(), "NiMH");
    assert!(BatteryCharge::Coarse(BatteryLevel::Unknown).is_unknown());
    assert_eq!(BatteryCharge::Coarse(BatteryLevel::Low).estimated_percent(), Some(40));
}
