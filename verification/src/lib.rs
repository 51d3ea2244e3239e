//! Battery warnings and connection notifications for game controllers.
pub mod audio;
pub mod controller;
pub mod gameinput;
pub mod ipc;
pub mod launch_context;
pub mod monitor_control;
pub mod notifier;
pub mod text;
