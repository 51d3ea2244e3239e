pub mod battery_warning;
pub mod battery_warning_level;
pub mod battery_warning_policy;
pub mod charge;
pub mod kind;
pub mod level;
pub mod reading;
pub mod warning;

pub use battery_warning::{BatteryWarning, BatteryWarningReading};
pub use battery_warning_level::BatteryWarningLevel;
pub use battery_warning_policy::BatteryWarningPolicy;
pub use charge::BatteryCharge;
pub use kind::BatteryKind;
pub use level::BatteryLevel;
pub use reading::BatteryReading;
