//! Modes of the display and the pointer.

use vstd::prelude::*;

verus! {

/// How the pointer is passed on.
#[derive(Clone, Copy, Debug, PartialEq, Eq, Structural)]
pub enum MacosMouseMode {
    /// As touches.
    Touchscreen,
}

/// How the display is shown.
#[derive(Clone, Copy, Debug, PartialEq, Eq, Structural)]
pub enum MacosDisplayMode {
    /// In a window of this width and height.
    Windowed(u32, u32),
}

impl MacosDisplayMode {
    /// The width and height of the window.
    pub fn get_window_size(&self) -> (size: (u32, u32))
        ensures
            *self == MacosDisplayMode::Windowed(size.0, size.1),
    {
        match *self {
            MacosDisplayMode::Windowed(width, height) => (width, height),
        }
    }

    /// The width and height of the display, which fills the window.
    pub fn get_virtual_display_size(&self) -> (size: (u32, u32))
        ensures
            *self == MacosDisplayMode::Windowed(size.0, size.1),
    {
        self.get_window_size()
    }

    /// The width and height of the display, which fills the window whether or
    /// not the highest resolution is enabled.
    pub fn get_virtual_display_size_4k_uhd(&self, is_4k_uhd_enabled: bool) -> (size: (u32, u32))
        ensures
            *self == MacosDisplayMode::Windowed(size.0, size.1),
    {
        self.get_window_size()
    }
}

} // verus!
