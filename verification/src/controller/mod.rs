pub mod battery;
pub mod battery_source;
#[allow(clippy::module_inception)]
pub mod controller;
pub mod event;
pub mod factory;
pub mod monitor;
pub mod poller;
pub mod rumble;
pub mod service;
pub mod source;
pub mod sourced;

pub use controller::Controller;
