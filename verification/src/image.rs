//! The image resource: dimensions plus a buffer of packed 32-bit pixels.

use vstd::prelude::*;
use vstd::slice::{slice_subrange, slice_to_vec};
use crate::bytes::{
    buffer_bytes, buffer_pixels, encode_pixels, lemma_buffer_round_trip, native_byte_order,
    ByteOrder,
};
use crate::dimension::{fits_c_int, to_c_int};
use crate::error::{ImageError, ImageErrorKind};

verus! {

/// The mathematical content of an image.
pub struct ImageView {
    pub width: nat,
    pub height: nat,
    /// Pixels in raster order, one packed 32-bit entry each.
    pub pixels: Seq<u32>,
}

impl ImageView {
    /// Both dimensions are positive and representable for the engine, and
    /// the buffer holds exactly `width * height` entries.
    pub open spec fn wf(self) -> bool {
        &&& 0 < self.width && fits_c_int(self.width as int)
        &&& 0 < self.height && fits_c_int(self.height as int)
        &&& self.pixels.len() == self.width * self.height
    }

    /// An image of the given size whose entries are all zero.
    pub open spec fn blank(width: nat, height: nat) -> ImageView {
        ImageView { width, height, pixels: Seq::new(width * height, |i: int| 0u32) }
    }

    /// An image of the given size filled from the front of `pixels`.
    pub open spec fn ingested(width: nat, height: nat, pixels: Seq<u32>) -> ImageView {
        ImageView { width, height, pixels: pixels.take((width * height) as int) }
    }
}

/// A bitmap that owns its pixel buffer. It can be moved but not duplicated;
/// copying pixel content takes a new ingestion through `new_from_pixels`.
pub struct Image {
    width: usize,
    height: usize,
    pixels: Vec<u32>,
}

impl View for Image {
    type V = ImageView;

    closed spec fn view(&self) -> ImageView {
        ImageView {
            width: self.width as nat,
            height: self.height as nat,
            pixels: self.pixels@,
        }
    }
}

/// A buffer of `count` pixels, four bytes each, is within the size that
/// one allocation can have.
pub open spec fn allocatable(count: nat) -> bool {
    4 * count <= isize::MAX
}

/// Why `Image::new` refuses a size, if it does.
pub open spec fn creation_error(width: nat, height: nat) -> Option<ImageErrorKind> {
    if width == 0 || height == 0 {
        Some(ImageErrorKind::EmptyImage)
    } else if !fits_c_int(width as int) || !fits_c_int(height as int) || !allocatable(
        width * height,
    ) {
        Some(ImageErrorKind::DimensionOverflow)
    } else {
        None
    }
}

/// Why `Image::new_from_pixels` refuses its input, if it does. `count` is
/// the number of pixel entries supplied.
pub open spec fn ingestion_error(width: nat, height: nat, count: nat) -> Option<ImageErrorKind> {
    if width == 0 || height == 0 {
        Some(ImageErrorKind::EmptyImage)
    } else if count < width * height {
        Some(ImageErrorKind::InsufficientPixelData)
    } else if !fits_c_int(width as int) || !fits_c_int(height as int) {
        Some(ImageErrorKind::DimensionOverflow)
    } else {
        None
    }
}

/// The message that accompanies each locally detected error of the two
/// constructors.
pub open spec fn constructor_text(kind: ImageErrorKind) -> Seq<char> {
    match kind {
        ImageErrorKind::EmptyImage => "Empty image"@,
        ImageErrorKind::InsufficientPixelData => "Not enough pixels"@,
        _ => "out of range integral type conversion attempted"@,
    }
}

/// Ingesting pixels and exporting the raw bytes is a round trip: an input
/// of at least `width * height` entries is accepted, the bytes number
/// four per pixel, and read back they are the first `width * height`
/// entries of the input.
pub proof fn lemma_ingest_export_round_trip(
    width: nat,
    height: nat,
    pixels: Seq<u32>,
    order: ByteOrder,
)
    requires
        0 < width <= i32::MAX,
        0 < height <= i32::MAX,
        pixels.len() >= width * height,
    ensures
        ingestion_error(width, height, pixels.len()) is None,
        ({
            let image = ImageView::ingested(width, height, pixels);
            let bytes = buffer_bytes(image.pixels, order);
            &&& image.wf()
            &&& bytes.len() == width * height * 4
            &&& buffer_pixels(bytes, order) == pixels.take((width * height) as int)
            &&& pixels.len() == width * height ==> buffer_pixels(bytes, order) == pixels
        }),
{
    let image = ImageView::ingested(width, height, pixels);
    lemma_buffer_round_trip(image.pixels, order);
}

impl Image {
    /// Every live image satisfies this.
    #[verifier::type_invariant]
    pub open spec fn wf(&self) -> bool {
        self@.wf()
    }

    /// Allocates a zero-filled image. Fails with `EmptyImage` when either
    /// dimension is zero, and with `DimensionOverflow` when a dimension is
    /// beyond the engine's range or the buffer beyond what can be
    /// allocated; nothing is allocated then.
    pub fn new(width: usize, height: usize) -> (r: Result<Image, ImageError>)
        ensures
            match r {
                Ok(img) => {
                    &&& creation_error(width as nat, height as nat) is None
                    &&& img.wf()
                    &&& img@ == ImageView::blank(width as nat, height as nat)
                },
                Err(e) => {
                    &&& creation_error(width as nat, height as nat) == Some(e.kind)
                    &&& e.message@ == constructor_text(e.kind)
                },
            },
            width == 0 || height == 0 ==> (r matches Err(e) && e.kind
                == ImageErrorKind::EmptyImage),
            0 < width <= i32::MAX && 0 < height <= i32::MAX && allocatable(
                (width * height) as nat,
            ) ==> r is Ok,
            r matches Ok(img) ==> img@.width == width && img@.height == height,
    {
        if width > 0 && height > 0 {
            let _w: i32 = to_c_int(width)?;
            let _h: i32 = to_c_int(height)?;
            match width.checked_mul(height) {
                Some(count) if count <= isize::MAX as usize / 4 => {
                    let pixels: Vec<u32> = vec![0u32; count];
                    assert(pixels@ =~= ImageView::blank(width as nat, height as nat).pixels);
                    Ok(Image { width, height, pixels })
                },
                _ => Err(
                    ImageError::new(
                        ImageErrorKind::DimensionOverflow,
                        "out of range integral type conversion attempted",
                    ),
                ),
            }
        } else {
            Err(ImageError::new(ImageErrorKind::EmptyImage, "Empty image"))
        }
    }

    /// Builds an image from the first `width * height` entries of `pixels`;
    /// entries beyond that are ignored.
    pub fn new_from_pixels(width: usize, height: usize, pixels: &[u32]) -> (r: Result<
        Image,
        ImageError,
    >)
        ensures
            match r {
                Ok(img) => {
                    &&& ingestion_error(width as nat, height as nat, pixels@.len()) is None
                    &&& img.wf()
                    &&& img@ == ImageView::ingested(width as nat, height as nat, pixels@)
                },
                Err(e) => {
                    &&& ingestion_error(width as nat, height as nat, pixels@.len()) == Some(
                        e.kind,
                    )
                    &&& e.message@ == constructor_text(e.kind)
                },
            },
            pixels@.len() < width * height ==> (r matches Err(e) && e.kind
                == ImageErrorKind::InsufficientPixelData),
            0 < width <= i32::MAX && 0 < height <= i32::MAX && pixels@.len() >= width * height
                ==> r is Ok,
    {
        if width == 0 || height == 0 {
            return Err(ImageError::new(ImageErrorKind::EmptyImage, "Empty image"));
        }
        let supplied: usize = pixels.len();
        let count: usize = match width.checked_mul(height) {
            Some(count) if count <= supplied => count,
            _ => {
                return Err(
                    ImageError::new(ImageErrorKind::InsufficientPixelData, "Not enough pixels"),
                );
            },
        };
        let _w: i32 = to_c_int(width)?;
        let _h: i32 = to_c_int(height)?;
        let copied: Vec<u32> = slice_to_vec(slice_subrange(pixels, 0, count));
        Ok(Image { width, height, pixels: copied })
    }

    /// The width in pixels.
    pub fn width(&self) -> (w: usize)
        ensures
            w == self@.width,
            0 < w <= i32::MAX,
    {
        proof {
            use_type_invariant(self);
        }
        self.width
    }

    /// The height in pixels.
    pub fn height(&self) -> (h: usize)
        ensures
            h == self@.height,
            0 < h <= i32::MAX,
    {
        proof {
            use_type_invariant(self);
        }
        self.height
    }

    /// The pixel buffer in raster order.
    pub fn pixels(&self) -> (p: &[u32])
        ensures
            p@ == self@.pixels,
            p@.len() == self@.width * self@.height,
    {
        proof {
            use_type_invariant(self);
        }
        self.pixels.as_slice()
    }

    /// The bytes of the pixel buffer in the given byte order: four per
    /// pixel, `width * height * 4` in all.
    pub fn raw_bytes_in(&self, order: ByteOrder) -> (bytes: Vec<u8>)
        ensures
            bytes@ == buffer_bytes(self@.pixels, order),
            bytes@.len() == 4 * (self@.width * self@.height),
    {
        proof {
            use_type_invariant(self);
        }
        encode_pixels(self.pixels.as_slice(), order)
    }

    /// The bytes of the pixel buffer as they lie in memory, that is in
    /// the byte order of the machine.
    pub fn raw_bytes(&self) -> (bytes: Vec<u8>)
        ensures
            bytes@ == buffer_bytes(self@.pixels, ByteOrder::LittleEndian) || bytes@
                == buffer_bytes(self@.pixels, ByteOrder::BigEndian),
            bytes@.len() == 4 * (self@.width * self@.height),
    {
        self.raw_bytes_in(native_byte_order())
    }

    /// Writes the raw bytes of the pixel buffer to the end of `sink`,
    /// verbatim.
    pub fn dump(&self, sink: &mut Vec<u8>)
        ensures
            final(sink)@ == old(sink)@ + buffer_bytes(self@.pixels, ByteOrder::LittleEndian)
                || final(sink)@ == old(sink)@ + buffer_bytes(
                self@.pixels,
                ByteOrder::BigEndian,
            ),
            final(sink)@.len() == old(sink)@.len() + 4 * (self@.width * self@.height),
    {
        let mut bytes: Vec<u8> = self.raw_bytes();
        sink.append(&mut bytes);
    }

    /// Replaces the whole pixel buffer.
    pub(crate) fn set_pixels(&mut self, pixels: Vec<u32>)
        requires
            pixels@.len() == old(self)@.width * old(self)@.height,
        ensures
            final(self)@ == (ImageView { pixels: pixels@, ..old(self)@ }),
    {
        proof {
            use_type_invariant(&*self);
        }
        self.pixels = pixels;
    }
}

} // verus!
