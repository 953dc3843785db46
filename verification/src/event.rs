//! What the host tells a viewer, and what the viewer asks of the host.

use vstd::prelude::*;
use crate::geometry::{Pixel, Size};
use crate::image::ImageBinding;
use crate::zoom::ZoomRange;

verus! {

/// A key of the keyboard, as far as the viewer tells keys apart.
#[derive(Clone, Copy, Debug, PartialEq, Eq)]
pub enum Key {
    Escape,
    Other,
}

/// The vertical direction of a wheel movement.
#[derive(Clone, Copy, Debug, PartialEq, Eq)]
pub enum WheelDirection {
    /// A positive vertical amount.
    Up,
    /// A negative vertical amount.
    Down,
    /// No vertical amount.
    Still,
}

/// A movement of the wheel.
#[derive(Clone, Copy, Debug, PartialEq, Eq)]
pub enum Scroll {
    /// Whole lines, as a notched wheel reports them.
    Lines { direction: WheelDirection },
    /// Pixels, as a touchpad reports them.
    Pixels,
}

/// Something that happened to the window.
#[derive(Clone, Copy, Debug, PartialEq, Eq)]
pub enum Event {
    /// The window has a new size.
    Resized { window: Size },
    /// A key went down.
    KeyPressed { key: Key },
    /// The wheel moved.
    Scrolled { scroll: Scroll },
    /// The cursor went from `from` to `to`, with the left or the right
    /// mouse button held or not.
    MouseMoved { from: Pixel, to: Pixel, left_down: bool, right_down: bool },
    /// A file was dropped on the window, which is `window` pixels large.
    /// `decoded` is the image in the file, or `None` where the file
    /// holds no image that can be shown.
    FileDropped { window: Size, decoded: Option<ImageBinding> },
}

/// What the host does to the zoom and the focus of the view.
#[derive(Clone, Copy, Debug, PartialEq, Eq)]
pub enum ViewChange {
    /// Nothing.
    Keep,
    /// Take the bounds of `range` as the new zoom bounds and leave the
    /// zoom as it is, even where it falls outside them.
    Rebound { range: ZoomRange },
    /// Take the bounds of `range` as the new zoom bounds and its fitted
    /// zoom as the new zoom.
    Refit { range: ZoomRange },
    /// Multiply the zoom by the wheel step, then bring it back between
    /// the zoom bounds.
    ZoomIn,
    /// Divide the zoom by the wheel step, then bring it back between the
    /// zoom bounds.
    ZoomOut,
    /// Move the focus by the way from the point under `to` to the point
    /// under `from`, so that what was under the cursor stays under it.
    Pan { from: Pixel, to: Pixel },
}

/// What the host does after an event.
#[derive(Clone, Copy, Debug, PartialEq, Eq)]
pub struct Reaction {
    /// The change to the view.
    pub change: ViewChange,
    /// The bound image is new: build its texture and let the old one go.
    pub rebuild_texture: bool,
    /// The dropped file could not be shown: tell the user.
    pub report_failure: bool,
    /// Draw the frame again.
    pub redraw: bool,
}

impl Reaction {
    /// The reaction that asks nothing of the host.
    pub open spec fn nothing() -> Reaction {
        Reaction {
            change: ViewChange::Keep,
            rebuild_texture: false,
            report_failure: false,
            redraw: false,
        }
    }

    /// The reaction that changes the view and draws the frame again.
    pub open spec fn redraw_with(change: ViewChange) -> Reaction {
        Reaction { change, rebuild_texture: false, report_failure: false, redraw: true }
    }
}

} // verus!
