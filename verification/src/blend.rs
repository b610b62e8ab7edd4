//! Compositing a solid colour over one image into another of equal size.

use vstd::prelude::*;
use vstd::slice::{slice_subrange, slice_to_vec};
use crate::dimension::{fits_c_int, to_c_int};
use crate::error::{ImageError, ImageErrorKind};
use crate::image::{Image, ImageView};

verus! {

/// The arguments of the engine's blend: it composites `color` over each
/// of the first `pixel_count` source pixels, weighted by `opacity / 255`.
#[derive(Debug, Clone, Copy, PartialEq, Eq)]
pub struct BlendRequest {
    pub pixel_count: i32,
    /// Packed colour, eight bits per channel.
    pub color: u32,
    /// 0 leaves the source pixel as it is, 255 replaces it by `color`.
    pub opacity: u8,
}

/// Why `source` cannot be blended into `destination`, if it cannot.
pub open spec fn blend_error(destination: ImageView, source: ImageView) -> Option<ImageErrorKind> {
    if destination.width != source.width || destination.height != source.height {
        Some(ImageErrorKind::MismatchedDimensions)
    } else if !fits_c_int((destination.width * destination.height) as int) {
        Some(ImageErrorKind::DimensionOverflow)
    } else {
        None
    }
}

/// The message that accompanies each refusal of a blend.
pub open spec fn blend_text(kind: ImageErrorKind) -> Seq<char> {
    match kind {
        ImageErrorKind::MismatchedDimensions => "Mismatched dimensions"@,
        ImageErrorKind::InsufficientPixelData => "Not enough pixels"@,
        _ => "out of range integral type conversion attempted"@,
    }
}

impl Image {
    /// Checks the two images against each other.
    fn check_blend(&self, source: &Image) -> (r: Result<i32, ImageError>)
        ensures
            match r {
                Ok(count) => blend_error(self@, source@) is None && count == self@.width
                    * self@.height,
                Err(e) => blend_error(self@, source@) == Some(e.kind) && e.message@ == blend_text(
                    e.kind,
                ),
            },
    {
        if self.width() != source.width() || self.height() != source.height() {
            return Err(
                ImageError::new(ImageErrorKind::MismatchedDimensions, "Mismatched dimensions"),
            );
        }
        to_c_int(self.pixels().len())
    }

    /// Prepares the blend of `color` over `source` into this image. The
    /// images must agree in size, and their pixel count must be
    /// representable for the engine.
    pub fn blend_request(&self, source: &Image, color: u32, opacity: u8) -> (r: Result<
        BlendRequest,
        ImageError,
    >)
        ensures
            match r {
                Ok(request) => {
                    &&& blend_error(self@, source@) is None
                    &&& request.pixel_count == self@.width * self@.height
                    &&& request.color == color
                    &&& request.opacity == opacity
                },
                Err(e) => {
                    &&& blend_error(self@, source@) == Some(e.kind)
                    &&& e.message@ == blend_text(e.kind)
                },
            },
    {
        let pixel_count: i32 = self.check_blend(source)?;
        Ok(BlendRequest { pixel_count, color, opacity })
    }

    /// Stores the pixels that the engine blended from `source` into this
    /// image, entry by entry in raster order. On any refusal this image
    /// is left exactly as it was.
    pub fn blend_with(&mut self, source: &Image, blended: &[u32]) -> (r: Result<(), ImageError>)
        ensures
            final(self).wf(),
            old(self)@.width != source@.width || old(self)@.height != source@.height ==> {
                &&& r matches Err(e) && e.kind == ImageErrorKind::MismatchedDimensions
                &&& *final(self) == *old(self)
            },
            match r {
                Ok(_) => {
                    &&& blend_error(old(self)@, source@) is None
                    &&& blended@.len() >= old(self)@.pixels.len()
                    &&& final(self)@ == (ImageView {
                        pixels: blended@.take(old(self)@.pixels.len() as int),
                        ..old(self)@
                    })
                },
                Err(e) => {
                    &&& *final(self) == *old(self)
                    &&& e.message@ == blend_text(e.kind)
                    &&& match blend_error(old(self)@, source@) {
                        Some(kind) => e.kind == kind,
                        None => e.kind == ImageErrorKind::InsufficientPixelData && blended@.len()
                            < old(self)@.pixels.len(),
                    }
                },
            },
    {
        proof {
            use_type_invariant(&*self);
        }
        let _count: i32 = self.check_blend(source)?;
        let count: usize = self.pixels().len();
        if blended.len() < count {
            return Err(ImageError::new(ImageErrorKind::InsufficientPixelData, "Not enough pixels"));
        }
        self.set_pixels(slice_to_vec(slice_subrange(blended, 0, count)));
        Ok(())
    }
}

} // verus!
