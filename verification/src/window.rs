//! The window geometry record that the host application persists between runs.

use vstd::prelude::*;

verus! {

/// Size and position of the main window, in physical pixels.
#[derive(Debug, Clone, Copy, PartialEq, Eq, Structural)]
pub struct WindowState {
    pub width: u32,
    pub height: u32,
    pub x: i32,
    pub y: i32,
}

/// Horizontal position used when a stored record carries none.
pub open spec fn spec_default_x() -> i32 {
    100
}

/// Vertical position used when a stored record carries none.
pub open spec fn spec_default_y() -> i32 {
    100
}

/// The geometry used when nothing has been stored yet.
pub open spec fn spec_initial_window_state() -> WindowState {
    WindowState { width: 1000, height: 800, x: spec_default_x(), y: spec_default_y() }
}

#[verifier::when_used_as_spec(spec_default_x)]
pub fn default_x() -> (x: i32)
    ensures
        x == spec_default_x(),
{
    100
}

#[verifier::when_used_as_spec(spec_default_y)]
pub fn default_y() -> (y: i32)
    ensures
        y == spec_default_y(),
{
    100
}

/// Returns the geometry for a first run: 1000 by 800 at the default position.
pub fn initial_window_state() -> (state: WindowState)
    ensures
        state == spec_initial_window_state(),
{
    WindowState { width: 1000, height: 800, x: default_x(), y: default_y() }
}

} // verus!
