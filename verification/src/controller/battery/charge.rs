use vstd::prelude::*;

use super::level::{BatteryLevel, level_name, level_percent};
use crate::text::{decimal, u8_decimal};

verus! {

/// A battery charge: a coarse level, an exact percentage, or nothing usable.
#[derive(Clone, Copy, Debug, PartialEq, Eq, Structural)]
pub enum BatteryCharge {
    Coarse(BatteryLevel),
    Precise(u8),
    Unknown,
}

/// The percentage a charge stands for, if any.
pub open spec fn charge_percent(charge: BatteryCharge) -> Option<u8> {
    match charge {
        BatteryCharge::Coarse(level) => level_percent(level),
        BatteryCharge::Precise(percent) => Some(percent),
        BatteryCharge::Unknown => None,
    }
}

/// `"N%"` for a percentage.
pub open spec fn percent_text(percent: u8) -> Seq<char> {
    decimal(percent as nat).push('%')
}

/// A diagnostic description of a charge, such as `"medium (~70%)"` or `"42%"`.
pub open spec fn charge_description(charge: BatteryCharge) -> Seq<char> {
    match charge {
        BatteryCharge::Coarse(level) => match level_percent(level) {
            Some(percent) => level_name(level) + " (~"@ + percent_text(percent) + ")"@,
            None => "unknown"@,
        },
        BatteryCharge::Precise(percent) => percent_text(percent),
        BatteryCharge::Unknown => "unknown"@,
    }
}

/// Renders a percentage as `"N%"`.
pub fn percent_string(percent: u8) -> (text: String)
    ensures
        text@ == percent_text(percent),
{
    let mut text = u8_decimal(percent);
    text.append("%");
    proof {
        reveal_strlit("%");
        assert(text@ =~= percent_text(percent));
    }
    text
}

impl BatteryCharge {
    pub fn estimated_percent(self) -> (percent: Option<u8>)
        ensures
            percent == charge_percent(self),
    {
        match self {
            BatteryCharge::Coarse(level) => level.estimated_percent(),
            BatteryCharge::Precise(percent) => Some(percent),
            BatteryCharge::Unknown => None,
        }
    }

    pub fn is_unknown(self) -> (unknown: bool)
        ensures
            unknown == (charge_percent(self) is None),
    {
        self.estimated_percent().is_none()
    }

    pub fn description(self) -> (text: String)
        ensures
            text@ == charge_description(self),
    {
        match self {
            BatteryCharge::Coarse(level) => match level.estimated_percent() {
                Some(percent) => {
                    let mut text = level.to_string();
                    text.append(" (~");
                    let rendered = percent_string(percent);
                    text.append(rendered.as_str());
                    text.append(")");
                    text
                },
                None => String::from_str("unknown"),
            },
            BatteryCharge::Precise(percent) => percent_string(percent),
            BatteryCharge::Unknown => String::from_str("unknown"),
        }
    }
}

} // verus!
