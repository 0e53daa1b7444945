//! The values every platform produces, and the contract every platform meets.

pub mod active_window;
pub mod active_window_error;
pub mod platform_api;
pub mod window_position;
