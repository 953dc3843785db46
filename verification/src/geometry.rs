//! Sizes and positions in whole pixels.

use vstd::prelude::*;

verus! {

/// The width of the window when the viewer starts, in pixels.
pub const INITIAL_WINDOW_WIDTH: u32 = 680;

/// The height of the window when the viewer starts, in pixels.
pub const INITIAL_WINDOW_HEIGHT: u32 = 680;

/// The extent of a window or of an image, in pixels.
#[derive(Clone, Copy, Debug, PartialEq, Eq)]
pub struct Size {
    pub width: u32,
    pub height: u32,
}

impl Size {
    /// Both sides are at least one pixel long.
    pub open spec fn positive(self) -> bool {
        self.width > 0 && self.height > 0
    }

    /// Tells whether both sides are at least one pixel long.
    pub fn is_positive(&self) -> (b: bool)
        ensures
            b == self.positive(),
    {
        self.width > 0 && self.height > 0
    }
}

/// A position inside a window, counted in pixels from its corner.
#[derive(Clone, Copy, Debug, PartialEq, Eq)]
pub struct Pixel {
    pub x: i32,
    pub y: i32,
}

} // verus!
