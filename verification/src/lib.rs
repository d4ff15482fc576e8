//! Lifecycle supervisor for a companion sidecar process.

pub mod attempt;
pub mod command;
pub mod deeplink;
pub mod launch;
pub mod guarantees;
pub mod mode;
pub mod readiness;
pub mod reaper;
pub mod registry;
pub mod relay;
pub mod text;
pub mod window;

pub use window::{default_x, default_y, initial_window_state, WindowState};
