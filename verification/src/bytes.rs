//! The byte image of a pixel buffer.

use vstd::prelude::*;

verus! {

/// The order in which the four bytes of a pixel lie in memory.
#[derive(Debug, Clone, Copy, PartialEq, Eq, Structural)]
pub enum ByteOrder {
    /// Least significant byte first.
    LittleEndian,
    /// Most significant byte first.
    BigEndian,
}

/// The four bytes of one pixel.
pub open spec fn pixel_bytes(pixel: u32, order: ByteOrder) -> Seq<u8> {
    let b0 = (pixel % 0x100) as u8;
    let b1 = (pixel / 0x100 % 0x100) as u8;
    let b2 = (pixel / 0x1_0000 % 0x100) as u8;
    let b3 = (pixel / 0x100_0000) as u8;
    match order {
        ByteOrder::LittleEndian => seq![b0, b1, b2, b3],
        ByteOrder::BigEndian => seq![b3, b2, b1, b0],
    }
}

/// The pixel that four bytes stand for.
pub open spec fn pixel_from_bytes(bytes: Seq<u8>, order: ByteOrder) -> u32
    recommends
        bytes.len() == 4,
{
    match order {
        ByteOrder::LittleEndian => (bytes[0] + 0x100 * bytes[1] + 0x1_0000 * bytes[2] + 0x100_0000
            * bytes[3]) as u32,
        ByteOrder::BigEndian => (bytes[3] + 0x100 * bytes[2] + 0x1_0000 * bytes[1] + 0x100_0000
            * bytes[0]) as u32,
    }
}

/// A pixel buffer as bytes: four per pixel, pixels in raster order.
pub open spec fn buffer_bytes(pixels: Seq<u32>, order: ByteOrder) -> Seq<u8> {
    Seq::new(4 * pixels.len(), |i: int| pixel_bytes(pixels[i / 4], order)[i % 4])
}

/// The pixels that a byte buffer stands for. Trailing bytes that do not
/// make up a whole pixel are ignored.
pub open spec fn buffer_pixels(bytes: Seq<u8>, order: ByteOrder) -> Seq<u32> {
    Seq::new(bytes.len() / 4, |i: int| pixel_from_bytes(bytes.subrange(4 * i, 4 * i + 4), order))
}

/// Reading back the bytes of a pixel gives the pixel.
pub proof fn lemma_pixel_round_trip(pixel: u32, order: ByteOrder)
    ensures
        pixel_bytes(pixel, order).len() == 4,
        pixel_from_bytes(pixel_bytes(pixel, order), order) == pixel,
{
}

/// The byte image of a buffer has four bytes per pixel, and reading it
/// back in the same order gives the buffer.
pub proof fn lemma_buffer_round_trip(pixels: Seq<u32>, order: ByteOrder)
    ensures
        buffer_bytes(pixels, order).len() == 4 * pixels.len(),
        buffer_pixels(buffer_bytes(pixels, order), order) == pixels,
{
    let bytes = buffer_bytes(pixels, order);
    let back = buffer_pixels(bytes, order);
    assert forall|i: int| 0 <= i < pixels.len() implies back[i] == pixels[i] by {
        let group = bytes.subrange(4 * i, 4 * i + 4);
        let expected = pixel_bytes(pixels[i], order);
        assert forall|k: int| 0 <= k < 4 implies group[k] == expected[k] by {
            assert((4 * i + k) / 4 == i);
            assert((4 * i + k) % 4 == k);
        }
        assert(group =~= expected);
        lemma_pixel_round_trip(pixels[i], order);
    }
}

/// `u32::to_ne_bytes`: the bytes of `value` as they lie in this machine's
/// memory. Which of the two orders that is depends on the target, so the
/// contract allows either and nothing else.
#[verifier::external_body]
fn memory_bytes(value: u32) -> (bytes: [u8; 4])
    ensures
        bytes@ == pixel_bytes(value, ByteOrder::LittleEndian) || bytes@ == pixel_bytes(
            value,
            ByteOrder::BigEndian,
        ),
{
    value.to_ne_bytes()
}

/// The byte order of the machine this runs on.
pub(crate) fn native_byte_order() -> ByteOrder {
    let probe: [u8; 4] = memory_bytes(1);
    let order: ByteOrder = byte_order_of(probe);
    proof {
        assert(probe@ == pixel_bytes(1u32, order));
    }
    order
}

/// The byte order that a memory image of the pixel 1 shows: its least
/// significant byte comes first exactly when the first byte is 1.
pub open spec fn shown_order(probe: Seq<u8>) -> ByteOrder {
    if probe[0] == 1u8 {
        ByteOrder::LittleEndian
    } else {
        ByteOrder::BigEndian
    }
}

/// Reads the byte order off `probe`, the four bytes of the pixel 1 as
/// some machine holds them. For either of the two images that a machine
/// can hold, the result is the order that lays the pixel out that way.
pub fn byte_order_of(probe: [u8; 4]) -> (order: ByteOrder)
    ensures
        order == shown_order(probe@),
        probe@ == pixel_bytes(1u32, ByteOrder::LittleEndian) || probe@ == pixel_bytes(
            1u32,
            ByteOrder::BigEndian,
        ) ==> probe@ == pixel_bytes(1u32, order),
{
    if probe[0] == 1 {
        ByteOrder::LittleEndian
    } else {
        ByteOrder::BigEndian
    }
}

/// Lays a pixel buffer out as bytes in the given order.
pub(crate) fn encode_pixels(pixels: &[u32], order: ByteOrder) -> (bytes: Vec<u8>)
    ensures
        bytes@ == buffer_bytes(pixels@, order),
{
    let mut bytes: Vec<u8> = Vec::new();
    let mut i: usize = 0;
    while i < pixels.len()
        invariant
            i <= pixels@.len(),
            bytes@ == buffer_bytes(pixels@.take(i as int), order),
        decreases pixels@.len() - i,
    {
        let pixel: u32 = pixels[i];
        let b0: u8 = (pixel % 0x100) as u8;
        let b1: u8 = (pixel / 0x100 % 0x100) as u8;
        let b2: u8 = (pixel / 0x1_0000 % 0x100) as u8;
        let b3: u8 = (pixel / 0x100_0000) as u8;
        match order {
            ByteOrder::LittleEndian => {
                bytes.push(b0);
                bytes.push(b1);
                bytes.push(b2);
                bytes.push(b3);
            },
            ByteOrder::BigEndian => {
                bytes.push(b3);
                bytes.push(b2);
                bytes.push(b1);
                bytes.push(b0);
            },
        }
        proof {
            let grown = buffer_bytes(pixels@.take(i + 1), order);
            assert forall|j: int| 0 <= j < grown.len() implies bytes@[j] == grown[j] by {
                if j < 4 * i {
                    assert(pixels@.take(i as int)[j / 4] == pixels@.take(i + 1)[j / 4]);
                } else {
                    assert(j / 4 == i);
                }
            }
            assert(bytes@ =~= grown);
        }
        i += 1;
    }
    bytes
}

} // verus!
