pub mod stop_result;
pub mod stop_signal;

pub use stop_result::StopResult;
