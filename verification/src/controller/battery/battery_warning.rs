use vstd::prelude::*;

use super::battery_warning_level::{BatteryWarningLevel, LevelView};
use super::level::BatteryLevel;

verus! {

/// The reading at which a warning fires: a threshold percentage or a coarse level.
#[derive(Clone, Copy, Debug, PartialEq, Eq, Structural)]
pub enum BatteryWarningReading {
    Precise(u8),
    Coarse(BatteryLevel),
}

/// A battery warning: the reading that triggered it and the configured level it belongs to.
#[derive(Debug, PartialEq, Eq)]
pub struct BatteryWarning {
    reading: BatteryWarningReading,
    level: BatteryWarningLevel,
}

/// The model of a battery warning.
pub struct WarningView {
    pub reading: BatteryWarningReading,
    pub level: LevelView,
}

impl View for BatteryWarning {
    type V = WarningView;

    closed spec fn view(&self) -> WarningView {
        WarningView { reading: self.reading, level: self.level@ }
    }
}

impl Clone for BatteryWarning {
    fn clone(&self) -> (warning: Self)
        ensures
            warning == *self,
    {
        BatteryWarning { reading: self.reading, level: self.level.clone() }
    }
}

impl BatteryWarning {
    pub fn precise(percent: u8, level: BatteryWarningLevel) -> (warning: Self)
        ensures
            warning@ == (WarningView { reading: BatteryWarningReading::Precise(percent), level: level@ }),
    {
        BatteryWarning { reading: BatteryWarningReading::Precise(percent), level }
    }

    pub fn coarse(coarse_level: BatteryLevel, level: BatteryWarningLevel) -> (warning: Self)
        ensures
            warning@ == (WarningView { reading: BatteryWarningReading::Coarse(coarse_level), level: level@ }),
    {
        BatteryWarning { reading: BatteryWarningReading::Coarse(coarse_level), level }
    }

    pub fn reading(&self) -> (reading: BatteryWarningReading)
        ensures
            reading == self@.reading,
    {
        self.reading
    }

    pub fn level(&self) -> (level: &BatteryWarningLevel)
        ensures
            level@ == self@.level,
    {
        &self.level
    }

    /// Whether the warning's level asks for urgent delivery.
    pub fn urgent(&self) -> (urgent: bool)
        ensures
            urgent == self@.level.urgent,
    {
        self.level.urgent()
    }
}

} // verus!
