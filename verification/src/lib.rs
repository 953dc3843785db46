//! The decision core of a small image viewer.
//!
//! A viewer shows one image in a window.  The wheel zooms, a drag with a
//! mouse button held pans, a file dropped on the window replaces the image
//! and the escape key ends the session.  The host owns the window, the
//! decoder and the renderer; this crate owns the rules: which image is
//! bound, how large the fitted zoom and its bounds are, and what each
//! event does to the session.
//!
//! Every quantity here is an integer or a quotient of two integers, so the
//! sizes and zoom bounds that the host turns into screen coordinates are
//! exact.

pub mod event;
pub mod geometry;
pub mod image;
pub mod viewer;
pub mod zoom;

pub use event::{Event, Key, Reaction, Scroll, ViewChange, WheelDirection};
pub use geometry::{Pixel, Size};
pub use image::{placeholder_pixels, ImageBinding, TextureFilter, TextureRequest, TextureSource};
pub use viewer::Viewer;
pub use zoom::{initial_zoom, zoom_range, Ratio, ZoomRange};
