//! A controller as reported by one of the Windows controller APIs: its identity, a
//! display name, the API it came from and its battery reading.
use vstd::prelude::*;

use super::battery::reading::BatteryReading;
use super::source::ControllerSource;

verus! {

/// A controller with a display name and the API it was read through.
#[derive(Debug, PartialEq, Eq)]
pub struct Controller {
    id: String,
    name: String,
    source: ControllerSource,
    battery: BatteryReading,
}

/// The model of a sourced controller.
pub struct SourcedControllerView {
    pub id: Seq<char>,
    pub name: Seq<char>,
    pub source: ControllerSource,
    pub battery: BatteryReading,
}

impl View for Controller {
    type V = SourcedControllerView;

    closed spec fn view(&self) -> SourcedControllerView {
        SourcedControllerView { id: self.id@, name: self.name@, source: self.source, battery: self.battery }
    }
}

impl Clone for Controller {
    fn clone(&self) -> (controller: Self)
        ensures
            controller == *self,
    {
        Controller { id: self.id.clone(), name: self.name.clone(), source: self.source, battery: self.battery }
    }
}

impl Controller {
    pub fn new(id: &str, name: &str, source: ControllerSource, battery: BatteryReading) -> (controller: Self)
        ensures
            controller@ == (SourcedControllerView { id: id@, name: name@, source, battery }),
    {
        Controller { id: String::from_str(id), name: String::from_str(name), source, battery }
    }

    pub fn id(&self) -> (id: &str)
        ensures
            id@ == self@.id,
    {
        self.id.as_str()
    }

    pub fn name(&self) -> (name: &str)
        ensures
            name@ == self@.name,
    {
        self.name.as_str()
    }

    pub fn source(&self) -> (source: ControllerSource)
        ensures
            source == self@.source,
    {
        self.source
    }

    pub fn battery(&self) -> (battery: BatteryReading)
        ensures
            battery == self@.battery,
    {
        self.battery
    }

    /// The controller with a reading taken through `source`.
    pub fn with_battery(self, source: ControllerSource, battery: BatteryReading) -> (controller: Self)
        ensures
            controller@ == (SourcedControllerView { source, battery, ..self@ }),
    {
        Controller { source, battery, ..self }
    }
}

} // verus!
