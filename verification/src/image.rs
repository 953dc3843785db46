//! What is on show: a decoded image or the built-in placeholder.

use vstd::prelude::*;
use crate::geometry::Size;

verus! {

/// The side of the placeholder texture, in texels.
pub const PLACEHOLDER_SIDE: u32 = 2;

/// How a texture is sampled between its texels.
#[derive(Clone, Copy, Debug, PartialEq, Eq)]
pub enum TextureFilter {
    /// The closest texel wins: crisp when the image is shown smaller.
    Nearest,
    /// Neighbouring texels are blended: smooth when it is shown larger.
    Linear,
}

/// Where the texels of a texture come from.
#[derive(Debug, PartialEq, Eq)]
pub enum TextureSource {
    /// The image that the host has just decoded.
    Decoded,
    /// Rows of red, green, blue and alpha bytes, top row first.
    Rgba { width: u32, height: u32, pixels: Vec<u8> },
}

/// What the host needs to know to build the texture of a binding.
#[derive(Debug, PartialEq, Eq)]
pub struct TextureRequest {
    pub source: TextureSource,
    /// The filter for an image shown smaller than it is.
    pub minify: TextureFilter,
    /// The filter for an image shown larger than it is.
    pub magnify: TextureFilter,
}

/// An opaque magenta texel.
pub open spec fn magenta() -> Seq<u8> {
    seq![255u8, 0u8, 255u8, 255u8]
}

/// An opaque black texel.
pub open spec fn black() -> Seq<u8> {
    seq![0u8, 0u8, 0u8, 255u8]
}

/// The placeholder: a checkerboard of two by two texels, magenta in the
/// top left and bottom right corners and black in the other two.
pub open spec fn placeholder_rgba() -> Seq<u8> {
    magenta() + black() + black() + magenta()
}

/// Builds the texels of the placeholder.
pub fn placeholder_pixels() -> (pixels: Vec<u8>)
    ensures
        pixels@ == placeholder_rgba(),
{
    let pixels: Vec<u8> = vec![255, 0, 255, 255, 0, 0, 0, 255, 0, 0, 0, 255, 255, 0, 255, 255];
    assert(pixels@ =~= placeholder_rgba());
    pixels
}

/// The image bound to a viewer, with the size at which it is drawn.
///
/// The placeholder is drawn one unit wide and one unit tall; a decoded
/// image is drawn one unit per pixel.  Either way both sides are positive.
#[derive(Clone, Copy, Debug, PartialEq, Eq)]
pub struct ImageBinding {
    placeholder: bool,
    size: Size,
}

impl ImageBinding {
    /// Both sides of the binding are positive, and the placeholder is one
    /// unit wide and one unit tall.
    #[verifier::type_invariant]
    pub closed spec fn wf(self) -> bool {
        &&& self.size.positive()
        &&& self.placeholder ==> self.size == (Size { width: 1, height: 1 })
    }

    /// The size at which the image is drawn.
    pub closed spec fn spec_size(&self) -> Size {
        self.size
    }

    /// The binding shows the placeholder, not a decoded image.
    pub closed spec fn spec_is_placeholder(&self) -> bool {
        self.placeholder
    }

    /// The binding of the placeholder.
    pub fn placeholder() -> (binding: ImageBinding)
        ensures
            binding.wf(),
            binding.is_placeholder(),
            binding.size() == (Size { width: 1, height: 1 }),
    {
        ImageBinding { placeholder: true, size: Size { width: 1, height: 1 } }
    }

    /// The binding of a decoded image of `size` pixels.  An image with an
    /// empty side cannot be shown and yields no binding.
    pub fn loaded(size: Size) -> (binding: Option<ImageBinding>)
        ensures
            binding is Some <==> size.positive(),
            binding matches Some(b) ==> b.wf() && !b.is_placeholder() && b.size() == size,
    {
        if size.is_positive() {
            Some(ImageBinding { placeholder: false, size })
        } else {
            None
        }
    }

    /// The size at which the image is drawn.
    #[verifier::when_used_as_spec(spec_size)]
    pub fn size(&self) -> (size: Size)
        ensures
            size == self.spec_size(),
            size.positive(),
    {
        proof {
            use_type_invariant(self);
        }
        self.size
    }

    /// Tells whether the binding shows the placeholder.
    #[verifier::when_used_as_spec(spec_is_placeholder)]
    pub fn is_placeholder(&self) -> (b: bool)
        ensures
            b == self.spec_is_placeholder(),
    {
        self.placeholder
    }

    /// Describes the texture of the binding: the placeholder brings its
    /// own texels, a decoded image is taken as the host decoded it.  Both
    /// are sampled to the nearest texel when shown smaller and blended
    /// when shown larger.
    pub fn texture(&self) -> (request: TextureRequest)
        ensures
            request.minify == TextureFilter::Nearest,
            request.magnify == TextureFilter::Linear,
            self.is_placeholder() ==> (request.source matches TextureSource::Rgba {
                width,
                height,
                pixels,
            } && width == PLACEHOLDER_SIDE && height == PLACEHOLDER_SIDE && pixels@
                == placeholder_rgba()),
            !self.is_placeholder() ==> request.source == TextureSource::Decoded,
    {
        let source: TextureSource = if self.placeholder {
            TextureSource::Rgba {
                width: PLACEHOLDER_SIDE,
                height: PLACEHOLDER_SIDE,
                pixels: placeholder_pixels(),
            }
        } else {
            TextureSource::Decoded
        };
        TextureRequest { source, minify: TextureFilter::Nearest, magnify: TextureFilter::Linear }
    }

    /// A well-formed binding has positive sides, and the placeholder is
    /// one unit wide and one unit tall.
    pub proof fn lemma_sides_positive(self)
        requires
            self.wf(),
        ensures
            self.size().positive(),
            self.is_placeholder() ==> self.size() == (Size { width: 1, height: 1 }),
    {
    }

    /// A binding is known by its size and by whether it shows the
    /// placeholder: two bindings that agree on both are the same.
    pub proof fn lemma_same_binding(self, other: ImageBinding)
        requires
            self.size() == other.size(),
            self.is_placeholder() == other.is_placeholder(),
        ensures
            self == other,
    {
    }
}

} // verus!
