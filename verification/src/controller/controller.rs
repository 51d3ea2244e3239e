use vstd::prelude::*;

use super::battery::BatteryReading;

verus! {

/// A connected controller: its identity and its latest battery reading.
#[derive(Debug, PartialEq, Eq)]
pub struct Controller {
    id: String,
    battery: BatteryReading,
}

/// The model of a controller.
pub struct ControllerView {
    pub id: Seq<char>,
    pub battery: BatteryReading,
}

impl View for Controller {
    type V = ControllerView;

    closed spec fn view(&self) -> ControllerView {
        ControllerView { id: self.id@, battery: self.battery }
    }
}

impl Clone for Controller {
    fn clone(&self) -> (controller: Self)
        ensures
            controller == *self,
    {
        Controller { id: self.id.clone(), battery: self.battery }
    }
}

impl ControllerView {
    pub open spec fn with_battery(self, battery: BatteryReading) -> ControllerView {
        ControllerView { id: self.id, battery }
    }
}

impl Controller {
    pub fn new(id: &str, battery: BatteryReading) -> (controller: Self)
        ensures
            controller@ == (ControllerView { id: id@, battery }),
    {
        Controller { id: String::from_str(id), battery }
    }

    pub fn id(&self) -> (id: &str)
        ensures
            id@ == self@.id,
    {
        self.id.as_str()
    }

    pub fn battery(&self) -> (battery: BatteryReading)
        ensures
            battery == self@.battery,
    {
        self.battery
    }

    pub fn with_battery(self, battery: BatteryReading) -> (controller: Self)
        ensures
            controller@ == self@.with_battery(battery),
    {
        Controller { id: self.id, battery }
    }

    /// Whether this controller has identity `id`.
    pub fn has_id(&self, id: &String) -> (same: bool)
        ensures
            same == (self@.id == id@),
    {
        self.id == *id
    }

    pub fn id_string(&self) -> (id: String)
        ensures
            id@ == self@.id,
    {
        self.id.clone()
    }
}

} // verus!
