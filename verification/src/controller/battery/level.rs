use vstd::prelude::*;

verus! {

/// The coarse battery level that some controller APIs report instead of a percentage.
#[derive(Clone, Copy, Debug, PartialEq, Eq, Structural, Hash)]
pub enum BatteryLevel {
    Unknown,
    Empty,
    Low,
    Medium,
    Full,
}

/// The percentage a coarse level stands for: the bucketed values that Windows exposes.
pub open spec fn level_percent(level: BatteryLevel) -> Option<u8> {
    match level {
        BatteryLevel::Unknown => None,
        BatteryLevel::Full => Some(100u8),
        BatteryLevel::Medium => Some(70u8),
        BatteryLevel::Low => Some(40u8),
        BatteryLevel::Empty => Some(10u8),
    }
}

/// The lowercase name of a coarse level.
pub open spec fn level_name(level: BatteryLevel) -> Seq<char> {
    match level {
        BatteryLevel::Unknown => "unknown"@,
        BatteryLevel::Empty => "empty"@,
        BatteryLevel::Low => "low"@,
        BatteryLevel::Medium => "medium"@,
        BatteryLevel::Full => "full"@,
    }
}

impl BatteryLevel {
    pub fn estimated_percent(self) -> (percent: Option<u8>)
        ensures
            percent == level_percent(self),
    {
        match self {
            BatteryLevel::Unknown => None,
            BatteryLevel::Full => Some(100),
            BatteryLevel::Medium => Some(70),
            BatteryLevel::Low => Some(40),
            BatteryLevel::Empty => Some(10),
        }
    }

    /// The lowercase name of the level, as it appears in configuration files.
    pub fn to_string(self) -> (name: String)
        ensures
            name@ == level_name(self),
    {
        match self {
            BatteryLevel::Unknown => String::from_str("unknown"),
            BatteryLevel::Empty => String::from_str("empty"),
            BatteryLevel::Low => String::from_str("low"),
            BatteryLevel::Medium => String::from_str("medium"),
            BatteryLevel::Full => String::from_str("full"),
        }
    }
}

impl Default for BatteryLevel {
    fn default() -> (level: Self)
        ensures
            level == BatteryLevel::Unknown,
    {
        BatteryLevel::Unknown
    }
}


/// The estimates of the coarse levels: full 100%, medium 70%, low 40%, empty 10%, and
/// none for an unknown level; a lower level never has a higher estimate.
pub proof fn law_coarse_level_estimates()
    ensures
        level_percent(BatteryLevel::Full) == Some(100u8),
        level_percent(BatteryLevel::Medium) == Some(70u8),
        level_percent(BatteryLevel::Low) == Some(40u8),
        level_percent(BatteryLevel::Empty) == Some(10u8),
        level_percent(BatteryLevel::Unknown) is None,
{
}

} // verus!
