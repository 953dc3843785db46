//! The fitted zoom of an image in a window, and the bounds derived from it.
//!
//! A zoom factor says how many window pixels one image pixel covers.  The
//! factors computed here are quotients of pixel counts, kept as exact
//! fractions; the host divides once, when it needs a screen coordinate.

use vstd::prelude::*;
use crate::geometry::Size;

verus! {

/// The widest zoom is this many times the fitted zoom.
pub const MAX_ZOOM_FACTOR: u64 = 100;

/// The narrowest zoom is the fitted zoom divided by this.
pub const MIN_ZOOM_DIVISOR: u64 = 10;

/// One wheel step multiplies or divides the zoom by
/// `ZOOM_STEP_NUM / ZOOM_STEP_DEN`.
pub const ZOOM_STEP_NUM: u64 = 3;

/// See [`ZOOM_STEP_NUM`].
pub const ZOOM_STEP_DEN: u64 = 2;

/// The non-negative fraction `num / den`.
#[derive(Clone, Copy, Debug, PartialEq, Eq)]
pub struct Ratio {
    pub num: u64,
    pub den: u64,
}

impl Ratio {
    /// The denominator is not zero, so the fraction is a number.
    pub open spec fn wf(self) -> bool {
        self.den > 0
    }

    /// `self <= other` as numbers, for two well-formed fractions.
    pub open spec fn le(self, other: Ratio) -> bool {
        self.num * other.den <= other.num * self.den
    }

    /// `self == factor * other` as numbers, for two well-formed fractions.
    pub open spec fn is_multiple(self, factor: int, other: Ratio) -> bool {
        self.num * other.den == factor * other.num * self.den
    }

    /// An image of `image` pixels, scaled by this fraction, covers no more
    /// than `window` pixels along either axis.
    pub open spec fn fits(self, window: Size, image: Size) -> bool {
        &&& self.num * image.width <= window.width * self.den
        &&& self.num * image.height <= window.height * self.den
    }
}

/// The zoom at which `image` fills `window` along one axis and does not
/// overflow it along the other: the smaller of the two quotients
/// `window.width / image.width` and `window.height / image.height`, the
/// vertical one where they are equal.
pub open spec fn initial_zoom_spec(window: Size, image: Size) -> Ratio {
    if window.width * image.height < window.height * image.width {
        Ratio { num: window.width as u64, den: image.width as u64 }
    } else {
        Ratio { num: window.height as u64, den: image.height as u64 }
    }
}

/// The product of two pixel counts fits in sixty-four bits.
proof fn lemma_pixel_product_fits(a: u32, b: u32)
    ensures
        a * b <= 0xffff_fffe_0000_0001,
{
    assert(a * b <= 0xffff_ffff * 0xffff_ffff) by (nonlinear_arith)
        requires
            0 <= a <= 0xffff_ffff,
            0 <= b <= 0xffff_ffff,
    ;
}

/// Computes the fitted zoom of `image` in `window`.
pub fn initial_zoom(window: Size, image: Size) -> (zoom: Ratio)
    requires
        image.positive(),
    ensures
        zoom == initial_zoom_spec(window, image),
        zoom.wf(),
{
    proof {
        lemma_pixel_product_fits(window.width, image.height);
        lemma_pixel_product_fits(window.height, image.width);
    }
    let across: u64 = (window.width as u64) * (image.height as u64);
    let down: u64 = (window.height as u64) * (image.width as u64);
    if across < down {
        Ratio { num: window.width as u64, den: image.width as u64 }
    } else {
        Ratio { num: window.height as u64, den: image.height as u64 }
    }
}

/// The fitted zoom with the bounds between which the wheel may move the
/// zoom.
#[derive(Clone, Copy, Debug, PartialEq, Eq)]
pub struct ZoomRange {
    pub initial: Ratio,
    pub min: Ratio,
    pub max: Ratio,
}

/// The range that belongs to a fitted zoom: a tenth of it below, a hundred
/// times it above.
pub open spec fn range_around(initial: Ratio) -> ZoomRange {
    ZoomRange {
        initial,
        min: Ratio { num: initial.num, den: (initial.den * MIN_ZOOM_DIVISOR) as u64 },
        max: Ratio { num: (initial.num * MAX_ZOOM_FACTOR) as u64, den: initial.den },
    }
}

/// The zoom range of `image` in `window`.
pub open spec fn zoom_range_spec(window: Size, image: Size) -> ZoomRange {
    range_around(initial_zoom_spec(window, image))
}

/// Computes the fitted zoom of `image` in `window` and its bounds.
pub fn zoom_range(window: Size, image: Size) -> (range: ZoomRange)
    requires
        image.positive(),
    ensures
        range == zoom_range_spec(window, image),
        range.initial.wf(),
        range.min.wf(),
        range.max.wf(),
{
    let initial: Ratio = initial_zoom(window, image);
    ZoomRange {
        initial,
        min: Ratio { num: initial.num, den: initial.den * MIN_ZOOM_DIVISOR },
        max: Ratio { num: initial.num * MAX_ZOOM_FACTOR, den: initial.den },
    }
}

/// At the fitted zoom the whole image lies inside the window: scaled by
/// it, the image is no wider and no taller than the window.
pub proof fn lemma_initial_zoom_fits(window: Size, image: Size)
    requires
        image.positive(),
    ensures
        initial_zoom_spec(window, image).wf(),
        initial_zoom_spec(window, image).fits(window, image),
{
    let zoom = initial_zoom_spec(window, image);
    assert(zoom.num * image.width <= window.width * zoom.den
        && zoom.num * image.height <= window.height * zoom.den) by (nonlinear_arith)
        requires
            zoom == initial_zoom_spec(window, image),
    ;
}

/// No zoom at which the image lies inside the window is larger than the
/// fitted zoom.
pub proof fn lemma_initial_zoom_is_largest(window: Size, image: Size, other: Ratio)
    requires
        image.positive(),
        other.wf(),
        other.fits(window, image),
    ensures
        other.le(initial_zoom_spec(window, image)),
{
    let zoom = initial_zoom_spec(window, image);
    assert(other.num * zoom.den <= zoom.num * other.den) by (nonlinear_arith)
        requires
            zoom == initial_zoom_spec(window, image),
            other.num * image.width <= window.width * other.den,
            other.num * image.height <= window.height * other.den,
    ;
}

/// A window that is at least as wide and at least as tall gives a fitted
/// zoom that is at least as large.  In particular the fitted zoom never
/// drops when one side of the window grows and the other stays.
pub proof fn lemma_initial_zoom_monotone(window: Size, larger: Size, image: Size)
    requires
        image.positive(),
        window.width <= larger.width,
        window.height <= larger.height,
    ensures
        initial_zoom_spec(window, image).le(initial_zoom_spec(larger, image)),
{
    let before = initial_zoom_spec(window, image);
    let after = initial_zoom_spec(larger, image);
    assert(before.num * after.den <= after.num * before.den) by (nonlinear_arith)
        requires
            before == initial_zoom_spec(window, image),
            after == initial_zoom_spec(larger, image),
            image.width > 0,
            image.height > 0,
            window.width <= larger.width,
            window.height <= larger.height,
    ;
}

/// The bounds of a zoom range are the fitted zoom divided by ten and
/// multiplied by a hundred, and the fitted zoom lies between them.
pub proof fn lemma_zoom_range_bounds(window: Size, image: Size)
    requires
        image.positive(),
    ensures
        ({
            let range = zoom_range_spec(window, image);
            &&& range.initial == initial_zoom_spec(window, image)
            &&& range.initial.wf() && range.min.wf() && range.max.wf()
            &&& range.initial.is_multiple(MIN_ZOOM_DIVISOR as int, range.min)
            &&& range.max.is_multiple(MAX_ZOOM_FACTOR as int, range.initial)
            &&& range.min.le(range.initial)
            &&& range.initial.le(range.max)
        }),
{
    let range = zoom_range_spec(window, image);
    let n = range.initial.num as int;
    let d = range.initial.den as int;
    assert(range.min.num == n && range.min.den == 10 * d);
    assert(range.max.num == 100 * n && range.max.den == d);
    assert(n * (10 * d) == 10 * n * d && (100 * n) * d == 100 * n * d && n * d <= n * (10 * d)
        && n * d <= (100 * n) * d) by (nonlinear_arith)
        requires
            n >= 0,
            d > 0,
    ;
}

} // verus!
