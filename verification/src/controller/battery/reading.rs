use vstd::prelude::*;

use super::charge::{BatteryCharge, charge_description, charge_percent};
use super::kind::{BatteryKind, kind_name};

verus! {

/// What a controller reports about its power source and charge.
#[derive(Clone, Copy, Debug, PartialEq, Eq, Structural)]
pub struct BatteryReading {
    pub kind: BatteryKind,
    pub charge: BatteryCharge,
}

/// A diagnostic description of a reading: `"wired"`, the kind when the charge is
/// unknown, or the charge.
pub open spec fn reading_description(reading: BatteryReading) -> Seq<char> {
    if reading.kind == BatteryKind::Wired {
        "wired"@
    } else if charge_percent(reading.charge) is None {
        kind_name(reading.kind)
    } else {
        charge_description(reading.charge)
    }
}

impl BatteryReading {
    pub fn new(kind: BatteryKind, charge: BatteryCharge) -> (reading: Self)
        ensures
            reading.kind == kind,
            reading.charge == charge,
    {
        BatteryReading { kind, charge }
    }

    pub fn description(self) -> (text: String)
        ensures
            text@ == reading_description(self),
    {
        if self.kind == BatteryKind::Wired {
            return String::from_str("wired");
        }
        if self.charge.is_unknown() {
            return self.kind.to_string();
        }
        self.charge.description()
    }
}

} // verus!
