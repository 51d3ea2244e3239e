pub mod config;
pub mod controller_service;

pub use config::ControllerServiceConfig;
