use xbattery::controller::battery::{BatteryCharge, BatteryKind, BatteryLevel, BatteryReading};
use xbattery::controller::battery_source::{attach_battery_readings, attach_single_battery_reading};
use xbattery::controller::factory::ControllerFactory;
use xbattery::controller::poller::{select_polled_controllers, single_battery};
use xbattery::controller::rumble::parse_xinput_slot;
use xbattery::controller::source::ControllerSource;
use xbattery::controller::sourced::Controller;

fn reading(charge: BatteryCharge) -> BatteryReading {
    BatteryReading::new(BatteryKind::Unknown, charge)
}

#[test]
fn factory_identities_name_the_api_and_slot() {
    let factory = ControllerFactory::new();
    let xinput = factory.from_xinput_snapshot(3, "Xbox Controller", reading(BatteryCharge::Precise(40)));
    assert_eq!(xinput.id(), "xinput:3");
    assert_eq!(xinput.source(), ControllerSource::XInput);
    assert_eq!(parse_xinput_slot(xinput.id()), Some(3));

    let winrt = factory.from_winrt_report("{abc}", "Wireless Controller", reading(BatteryCharge::Unknown));
    assert_eq!(winrt.id(), "winrt:{abc}");
    assert_eq!(winrt.name(), "Wireless Controller");
    assert_eq!(winrt.source(), ControllerSource::WinRT);
}

#[test]
fn polls_prefer_gameinput_then_matching_precise_readings() {
    let factory = ControllerFactory::new();
    let game = Controller::new("gameinput:1", "Pad", ControllerSource::GameInput, reading(BatteryCharge::Unknown));
    let x0 = factory.from_xinput_snapshot(0, "Pad", reading(BatteryCharge::Coarse(BatteryLevel::Full)));
    let x1 = factory.from_xinput_snapshot(1, "Pad", reading(BatteryCharge::Coarse(BatteryLevel::Low)));
    let w0 = factory.from_winrt_report("a", "Pad", reading(BatteryCharge::Precise(90)));

    assert_eq!(
        select_polled_controllers(Ok(vec![game.clone()]), Ok(vec![x0.clone()]), Ok(vec![w0.clone()])),
        Ok(vec![game.clone()])
    );
    assert_eq!(select_polled_controllers(Ok(Vec::new()), Ok(vec![x0.clone()]), Ok(Vec::new())), Ok(vec![x0.clone()]));
    assert_eq!(
        select_polled_controllers(Ok(Vec::new()), Ok(vec![x0.clone()]), Ok(vec![w0.clone()])),
        Ok(vec![w0.clone()])
    );
    assert_eq!(select_polled_controllers(Ok(Vec::new()), Ok(Vec::new()), Ok(vec![w0.clone()])), Ok(vec![w0.clone()]));
    assert_eq!(
        select_polled_controllers(Ok(Vec::new()), Ok(vec![x0.clone(), x1.clone()]), Ok(vec![w0.clone()])),
        Ok(vec![x0.clone(), x1.clone()])
    );
}

#[test]
fn poll_errors_fall_back_except_for_xinput_without_gameinput() {
    let factory = ControllerFactory::new();
    let game = Controller::new("gameinput:1", "Pad", ControllerSource::GameInput, reading(BatteryCharge::Unknown));
    let x0 = factory.from_xinput_snapshot(0, "Pad", reading(BatteryCharge::Coarse(BatteryLevel::Full)));
    let w0 = factory.from_winrt_report("a", "Pad", reading(BatteryCharge::Precise(90)));
    let failed = || Err("query failed".to_string());

    assert_eq!(select_polled_controllers(Ok(vec![game.clone()]), failed(), failed()), Ok(vec![game]));
    assert_eq!(select_polled_controllers(failed(), failed(), Ok(vec![w0.clone()])), Err("query failed".to_string()));
    assert_eq!(select_polled_controllers(failed(), Ok(vec![x0.clone()]), failed()), Ok(vec![x0.clone()]));
    assert_eq!(select_polled_controllers(failed(), Ok(Vec::new()), Ok(vec![w0.clone()])), Ok(vec![w0]));
}

#[test]
fn battery_readings_attach_only_when_they_line_up() {
    let pad = |id: &str| Controller::new(id, "Pad", ControllerSource::GameInput, reading(BatteryCharge::Unknown));
    let low = reading(BatteryCharge::Coarse(BatteryLevel::Low));
    let full = reading(BatteryCharge::Coarse(BatteryLevel::Full));

    let attached = attach_battery_readings(vec![pad("a"), pad("b")], Ok(vec![low, full]), ControllerSource::XInput);
    assert_eq!(attached[0].battery(), low);
    assert_eq!(attached[1].battery(), full);
    assert_eq!(attached[1].source(), ControllerSource::XInput);

    let unchanged = attach_battery_readings(vec![pad("a"), pad("b")], Ok(vec![low]), ControllerSource::XInput);
    assert_eq!(unchanged, vec![pad("a"), pad("b")]);
    let failed = attach_battery_readings(vec![pad("a")], Err("no XInput".to_string()), ControllerSource::XInput);
    assert_eq!(failed, vec![pad("a")]);

    assert_eq!(attach_single_battery_reading(pad("a"), Ok(vec![low]), ControllerSource::XInput).battery(), low);
    assert_eq!(attach_single_battery_reading(pad("a"), Ok(vec![low, full]), ControllerSource::XInput), pad("a"));
    assert_eq!(single_battery(&vec![full]), Some(full));
    assert_eq!(single_battery(&vec![full, low]), None);
}
