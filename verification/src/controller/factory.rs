//! Building sourced controllers from what the XInput and Windows.Gaming.Input APIs
//! report.
use vstd::prelude::*;

use super::battery::reading::BatteryReading;
use super::rumble::{xinput_prefix, xinput_slot_of};
use super::source::ControllerSource;
use super::sourced::{Controller, SourcedControllerView};
use crate::text::{all_digits, decimal, digit_char, digits_value, is_digit, lemma_digit_char, u64_decimal};

verus! {

/// Builds controllers with identities that name the API they came from.
#[derive(Clone, Copy, Debug, Default)]
pub struct ControllerFactory;

/// The identity of the XInput controller in `slot`: `xinput:<slot>`.
pub open spec fn xinput_id(slot: u32) -> Seq<char> {
    xinput_prefix() + decimal(slot as nat)
}

impl ControllerFactory {
    pub fn new() -> (factory: Self) {
        ControllerFactory
    }

    /// The controller in XInput slot `slot`.
    pub fn from_xinput_snapshot(&self, slot: u32, name: &str, battery: BatteryReading) -> (controller: Controller)
        ensures
            controller@ == (SourcedControllerView {
                id: xinput_id(slot),
                name: name@,
                source: ControllerSource::XInput,
                battery,
            }),
    {
        let mut id = String::from_str("xinput:");
        id.append(u64_decimal(slot as u64).as_str());
        proof {
            reveal_strlit("xinput:");
        }
        Controller::new(id.as_str(), name, ControllerSource::XInput, battery)
    }

    /// The controller that Windows.Gaming.Input reports as `report_id`.
    pub fn from_winrt_report(&self, report_id: &str, display_name: &str, battery: BatteryReading) -> (controller:
        Controller)
        ensures
            controller@ == (SourcedControllerView {
                id: "winrt:"@ + report_id@,
                name: display_name@,
                source: ControllerSource::WinRT,
                battery,
            }),
    {
        let mut id = String::from_str("winrt:");
        id.append(report_id);
        Controller::new(id.as_str(), display_name, ControllerSource::WinRT, battery)
    }
}

proof fn lemma_decimal_digits(n: nat)
    ensures
        decimal(n).len() > 0,
        all_digits(decimal(n)),
        digits_value(decimal(n)) == n,
        decimal(n)[0] != '+',
    decreases n,
{
    lemma_digit_char(n % 10);
    if n < 10 {
        lemma_digit_char(n);
        let d = decimal(n);
        assert(d.drop_last() =~= Seq::<char>::empty());
        assert(digits_value(d) == digits_value(d.drop_last()) * 10 + ((d.last() as int) - ('0' as int)) as nat);
    } else {
        lemma_decimal_digits(n / 10);
        let d = decimal(n);
        assert(d.drop_last() =~= decimal(n / 10));
        assert(d.last() == digit_char(n % 10));
        assert(digits_value(d) == digits_value(decimal(n / 10)) * 10 + n % 10);
        assert((n / 10) * 10 + n % 10 == n);
        assert forall|i: int| 0 <= i < d.len() implies is_digit(#[trigger] d[i]) by {
            if i < d.len() - 1 {
                assert(d[i] == decimal(n / 10)[i]);
            }
        }
    }
}

/// The slot read back from an XInput controller's identity is the slot it was built
/// with.
pub proof fn law_xinput_identity_names_its_slot(slot: u32)
    ensures
        xinput_slot_of(xinput_id(slot)) == Some(slot),
{
    lemma_decimal_digits(slot as nat);
    reveal_strlit("xinput:");
    let id = xinput_id(slot);
    assert(id.subrange(0, 7) =~= xinput_prefix());
    assert(id.subrange(7, id.len() as int) =~= decimal(slot as nat));
}

} // verus!
