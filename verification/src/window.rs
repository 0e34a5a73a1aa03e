//! The window that the program opens.

use vstd::prelude::*;

verus! {

/// The title of the window.
pub const WINDOW_TITLE: &'static str = "WGPU Hello Triangle";

/// The width of the window, in logical pixels.
pub const WINDOW_WIDTH: u32 = 1280;

/// The height of the window, in logical pixels.
pub const WINDOW_HEIGHT: u32 = 720;

/// What a window is opened with: its title and its size in logical pixels.
#[derive(Clone, Copy, Debug, PartialEq, Eq)]
pub struct WindowAttributes {
    pub title: &'static str,
    pub width: u32,
    pub height: u32,
}

/// The size of a window's drawable area, in physical pixels.
#[derive(Clone, Copy, Debug, PartialEq, Eq, Structural)]
pub struct PhysicalSize {
    pub width: u32,
    pub height: u32,
}

impl WindowAttributes {
    /// Whether these are the attributes of the program's one window.
    pub open spec fn is_main_window(self) -> bool {
        &&& self.title@ == WINDOW_TITLE@
        &&& self.width == WINDOW_WIDTH
        &&& self.height == WINDOW_HEIGHT
    }

    /// The attributes of the program's one window.
    pub fn main_window() -> (attributes: WindowAttributes)
        ensures
            attributes.is_main_window(),
    {
        WindowAttributes { title: WINDOW_TITLE, width: WINDOW_WIDTH, height: WINDOW_HEIGHT }
    }
}

} // verus!
