use xbattery::controller::battery::warning::BatteryWarning;
use xbattery::controller::battery::{BatteryCharge, BatteryKind, BatteryLevel, BatteryReading};
use xbattery::controller::event::ControllerEvent;
use xbattery::controller::rumble::backend::RumbleBackend;
use xbattery::controller::rumble::config::ControllerRumbleConfig as PatternConfig;
use xbattery::controller::rumble::diagnostic::{
    diagnostic_steps, rumble_single_controller, rumble_single_xinput_controller, rumble_xinput_slot,
};
use xbattery::controller::rumble::pattern::BatteryWarningStage;
use xbattery::controller::source::BackendKind;
use xbattery::controller::rumble::rumbler::BatteryWarningRumbler;
use xbattery::controller::rumble::sequence::rumble_sequence;
use xbattery::controller::rumble::target::RumbleTarget;
use xbattery::controller::rumble::{
    ControllerRumbleConfig, ControllerRumbler, RumblePattern, motor_speed, parse_xinput_slot, pulses_for_warning,
};
use xbattery::controller::source::ControllerSource;
use xbattery::controller::sourced::Controller;

fn controller() -> Controller {
    Controller::new(
        "xinput:0",
        "Controller",
        ControllerSource::XInput,
        BatteryReading::new(BatteryKind::Unknown, BatteryCharge::Precise(10)),
    )
}

#[test]
fn precise_warning_pulses_scale_by_threshold() {
    assert_eq!(pulses_for_warning(BatteryWarning::Precise(50)), 1);
    assert_eq!(pulses_for_warning(BatteryWarning::Precise(25)), 2);
    assert_eq!(pulses_for_warning(BatteryWarning::Precise(10)), 3);
}

#[test]
fn coarse_warning_pulses_scale_by_level() {
    assert_eq!(pulses_for_warning(BatteryWarning::Coarse(BatteryLevel::Medium)), 1);
    assert_eq!(pulses_for_warning(BatteryWarning::Coarse(BatteryLevel::Low)), 2);
    assert_eq!(pulses_for_warning(BatteryWarning::Coarse(BatteryLevel::Empty)), 3);
}

#[test]
fn rumble_ignores_connectivity_events() {
    let event = ControllerEvent::Connected(controller());

    assert_eq!(RumblePattern::for_event(&event), None);
}

#[test]
fn parses_xinput_slot_from_controller_id() {
    assert_eq!(parse_xinput_slot("xinput:2"), Some(2));
    assert_eq!(parse_xinput_slot("gameinput:abc"), None);
}

#[test]
fn rumble_motor_strength_is_clamped_to_percent() {
    assert_eq!(motor_speed(0), 0);
    assert_eq!(motor_speed(100), u16::MAX);
}

#[test]
fn targets_exact_xinput_slot_for_xinput_controller() {
    let controller = Controller::new(
        "xinput:2",
        "Controller",
        ControllerSource::XInput,
        BatteryReading::new(BatteryKind::Unknown, BatteryCharge::Unknown),
    );

    assert_eq!(RumbleTarget::for_controller(&controller), RumbleTarget::XInputSlot(2));
}

#[test]
fn targets_single_controller_for_non_xinput_controller() {
    let controller = Controller::new(
        "gameinput:123",
        "Controller",
        ControllerSource::GameInput,
        BatteryReading::new(BatteryKind::Unknown, BatteryCharge::Unknown),
    );

    assert_eq!(RumbleTarget::for_controller(&controller), RumbleTarget::SingleController);
}

#[test]
fn precise_warning_patterns_scale_by_threshold() {
    assert_eq!(BatteryWarningStage::for_warning(BatteryWarning::Precise(50)), Some(BatteryWarningStage::Medium));
    assert_eq!(BatteryWarningStage::for_warning(BatteryWarning::Precise(25)), Some(BatteryWarningStage::Low));
    assert_eq!(BatteryWarningStage::for_warning(BatteryWarning::Precise(10)), Some(BatteryWarningStage::Empty));
}

#[test]
fn coarse_warning_patterns_scale_by_level() {
    assert_eq!(
        BatteryWarningStage::for_warning(BatteryWarning::Coarse(BatteryLevel::Medium)),
        Some(BatteryWarningStage::Medium)
    );
    assert_eq!(
        BatteryWarningStage::for_warning(BatteryWarning::Coarse(BatteryLevel::Low)),
        Some(BatteryWarningStage::Low)
    );
    assert_eq!(
        BatteryWarningStage::for_warning(BatteryWarning::Coarse(BatteryLevel::Empty)),
        Some(BatteryWarningStage::Empty)
    );
}

#[test]
fn tests_ignores_connectivity_events() {
    let event = ControllerEvent::Connected(controller());

    assert_eq!(BatteryWarningStage::for_event(&event), None);
}

#[test]
fn tests_motor_strength_is_clamped_to_percent() {
    assert_eq!(motor_speed(0), 0);
    assert_eq!(motor_speed(100), u16::MAX);
}

#[test]
fn gradient_patterns_have_expected_shape() {
    let config = PatternConfig::default();

    let medium = rumble_sequence(config.pattern_for_stage(BatteryWarningStage::Medium), &config);
    let low = rumble_sequence(config.pattern_for_stage(BatteryWarningStage::Low), &config);
    let empty = rumble_sequence(config.pattern_for_stage(BatteryWarningStage::Empty), &config);

    assert_eq!(medium.len(), 5);
    assert_eq!(low.len(), 8);
    assert_eq!(empty.len(), 17);

    assert!(medium[0].low_frequency > 0);
    assert_eq!(medium[0].left_trigger, 0);
    assert_eq!(medium[0].right_trigger, 0);
    assert!(medium[1].left_trigger > medium[1].low_frequency);
    assert!(medium[1].right_trigger > medium[1].high_frequency);
}

#[test]
fn gradient_steps_use_basis_points_and_gaps() {
    let config = PatternConfig::default();
    let steps = config.steps_for_stage(BatteryWarningStage::Medium);

    assert_eq!(steps[0].low_frequency, 10_000);
    assert_eq!(steps[0].duration, 35);
    assert_eq!(steps[1].low_frequency, 1_000);
    assert_eq!(steps[1].high_frequency, 500);
    assert_eq!(steps[1].left_trigger, 7_500);
    assert_eq!(steps[1].duration, 50);
    assert_eq!(steps[2].low_frequency, 0);
    assert_eq!(steps[2].duration, 45);
    let empty = config.steps_for_stage(BatteryWarningStage::Empty);
    assert_eq!(empty[8].duration, 200);
    assert_eq!(empty[8].left_trigger, 0);
}

#[test]
fn slot_parsing_follows_integer_syntax() {
    assert_eq!(parse_xinput_slot("xinput:+3"), Some(3));
    assert_eq!(parse_xinput_slot("xinput:"), None);
    assert_eq!(parse_xinput_slot("xinput:-1"), None);
    assert_eq!(parse_xinput_slot("xinput:4294967295"), Some(u32::MAX));
    assert_eq!(parse_xinput_slot("xinput:4294967296"), None);
    assert_eq!(parse_xinput_slot("XINPUT:1"), None);
    assert_eq!(motor_speed(35), 22_937);
    assert_eq!(motor_speed(200), u16::MAX);
}

#[test]
fn rumbler_only_rumbles_enabled_battery_warnings() {
    let warning = ControllerEvent::BatteryWarning { current: controller(), warning: BatteryWarning::Precise(10) };
    let disabled = ControllerRumbler::new(ControllerRumbleConfig::default());
    assert_eq!(disabled.pattern_for(&warning), None);

    let enabled = ControllerRumbler::new(ControllerRumbleConfig::new(true, 100, 1, 1));
    assert_eq!(enabled.pattern_for(&warning), Some(RumblePattern { pulses: 3 }));
    assert_eq!(enabled.pattern_for(&ControllerEvent::Disconnected(controller())), None);
}

#[test]
fn diagnostic_levels_and_backends_are_described() {
    assert_eq!(BatteryWarningStage::diagnostic(0), BatteryWarningStage::Medium);
    assert_eq!(BatteryWarningStage::diagnostic(2), BatteryWarningStage::Low);
    assert_eq!(BatteryWarningStage::diagnostic(9), BatteryWarningStage::Empty);
    assert_eq!(RumbleBackend::XInput(0).description(), "XInput slot 1");
    assert_eq!(RumbleBackend::WinRT.description(), "WinRT Gamepad");
    assert_eq!(RumbleBackend::GameInput.description(), "GameInput");
    assert_eq!(RumbleTarget::XInputSlot(3).xinput_slot(), Some(3));
}

#[test]
fn rumble_disabled_rumbler_is_a_noop() {
    let rumbler = ControllerRumbler::new(ControllerRumbleConfig::new(false, 100, 1, 1));
    let event = ControllerEvent::BatteryWarning { current: controller(), warning: BatteryWarning::Precise(10) };

    assert_eq!(rumbler.pattern_for(&event), None);
}

#[test]
fn tests_disabled_rumbler_is_a_noop() {
    let rumbler = BatteryWarningRumbler::new(PatternConfig::default());
    let event = ControllerEvent::BatteryWarning { current: controller(), warning: BatteryWarning::Precise(10) };

    assert!(rumbler.rumble_for_event(&event).is_none());
}

#[test]
fn enabled_rumbler_sends_the_stage_pattern_to_the_warned_controller() {
    let default = PatternConfig::default();
    let mut rumbler = BatteryWarningRumbler::new(default.clone());
    let mut enabled = default.clone();
    enabled.enabled = true;
    rumbler.set_config(enabled.clone());
    let warning = ControllerEvent::BatteryWarning { current: controller(), warning: BatteryWarning::Precise(10) };

    let (target, steps) = rumbler.rumble_for_event(&warning).expect("a warning rumbles");
    assert_eq!(target, RumbleTarget::XInputSlot(0));
    assert_eq!(steps, enabled.steps_for_stage(BatteryWarningStage::Empty));
    assert!(rumbler.rumble_for_event(&ControllerEvent::Connected(controller())).is_none());
    let full = ControllerEvent::BatteryWarning {
        current: controller(),
        warning: BatteryWarning::Coarse(BatteryLevel::Full),
    };
    assert!(rumbler.rumble_for_event(&full).is_none());
}

#[test]
fn diagnostic_rumbles_report_which_backend_played_them() {
    let config = PatternConfig::default();
    assert_eq!(diagnostic_steps(&config, 0), config.steps_for_stage(BatteryWarningStage::Medium));
    assert_eq!(diagnostic_steps(&config, 2), config.steps_for_stage(BatteryWarningStage::Low));
    assert_eq!(diagnostic_steps(&config, 3), config.steps_for_stage(BatteryWarningStage::Empty));

    assert_eq!(rumble_single_controller(Ok(Some(BackendKind::GameInput))), Ok(BackendKind::GameInput));
    assert_eq!(
        rumble_single_controller(Ok(None)),
        Err("requires exactly one connected GameInput controller".to_string())
    );
    assert_eq!(rumble_single_controller(Err("backend failed".to_string())), Err("backend failed".to_string()));

    assert_eq!(rumble_single_xinput_controller(Ok(Some(BackendKind::XInput))), Ok(()));
    assert_eq!(
        rumble_single_xinput_controller(Ok(Some(BackendKind::GameInput))),
        Err("requires exactly one connected XInput controller".to_string())
    );

    assert_eq!(rumble_xinput_slot(1, Ok(Some(BackendKind::XInput))), Ok(()));
    assert_eq!(rumble_xinput_slot(1, Ok(None)), Err("XInput slot 2 is not available".to_string()));
    assert_eq!(rumble_xinput_slot(9, Ok(Some(BackendKind::WinRT))), Err("XInput slot 10 is not available".to_string()));
}
