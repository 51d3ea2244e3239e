use vstd::prelude::*;

verus! {

/// How a controller is powered.
#[derive(Clone, Copy, Debug, PartialEq, Eq, Structural)]
pub enum BatteryKind {
    Disconnected,
    Wired,
    Alkaline,
    Nimh,
    Unknown,
}

/// The user-facing name of a battery kind.
pub open spec fn kind_name(kind: BatteryKind) -> Seq<char> {
    match kind {
        BatteryKind::Disconnected => "disconnected"@,
        BatteryKind::Wired => "wired"@,
        BatteryKind::Alkaline => "alkaline"@,
        BatteryKind::Nimh => "NiMH"@,
        BatteryKind::Unknown => "unknown"@,
    }
}

impl BatteryKind {
    pub fn to_string(self) -> (name: String)
        ensures
            name@ == kind_name(self),
    {
        match self {
            BatteryKind::Disconnected => String::from_str("disconnected"),
            BatteryKind::Wired => String::from_str("wired"),
            BatteryKind::Alkaline => String::from_str("alkaline"),
            BatteryKind::Nimh => String::from_str("NiMH"),
            BatteryKind::Unknown => String::from_str("unknown"),
        }
    }
}

} // verus!
