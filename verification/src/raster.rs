//! Rendered map images, and how they are read from the bytes the engine hands back.

use vstd::prelude::*;
use vstd::endian::{Endian, endianness};

verus! {

/// A rendered map image, stored as RGBA pixel data.
///
/// The pixel buffer is an `image::ImageBuffer`; the library sees it through
/// [`image_dimensions`] and [`image_samples`].
#[verifier::external_body]
#[derive(Debug, Hash, PartialEq, Eq)]
pub struct Image(pub image::ImageBuffer<image::Rgba<u8>, Vec<u8>>);

/// The sample bytes that the image's buffer holds (four per pixel, row by row).
pub uninterp spec fn image_samples(image: Image) -> Seq<u8>;

/// The width and height, in pixels, that the image's buffer was made with.
pub uninterp spec fn image_dimensions(image: Image) -> (u32, u32);

/// The value of four bytes read as an unsigned integer in the given byte order.
pub open spec fn u32_from_bytes(order: Endian, b: Seq<u8>) -> int
    recommends
        b.len() == 4,
{
    match order {
        Endian::Little => b[0] + 256 * b[1] + 65536 * b[2] + 16777216 * b[3],
        Endian::Big => b[3] + 256 * b[2] + 65536 * b[1] + 16777216 * b[0],
    }
}

/// Whether a buffer of `len` sample bytes holds an RGBA image of the given size:
/// the byte count of a row, `4 * width`, is a `usize`, and the byte count of the
/// image, `4 * width * height`, is at most `len`.
pub open spec fn image_fits(width: u32, height: u32, len: int) -> bool {
    &&& 4 * width <= usize::MAX
    &&& 4 * width * height <= len
}

/// What the engine's raw image bytes stand for: `None` for fewer than eight bytes,
/// else the image whose width and height are the first two native-order `u32`
/// values and whose samples are the remaining bytes, when they suffice.
pub open spec fn decoded_frame(bytes: Seq<u8>) -> Option<(u32, u32, Seq<u8>)> {
    if bytes.len() < 8 {
        None
    } else {
        let width = u32_from_bytes(endianness(), bytes.subrange(0, 4)) as u32;
        let height = u32_from_bytes(endianness(), bytes.subrange(4, 8)) as u32;
        let data = bytes.subrange(8, bytes.len() as int);
        if image_fits(width, height, data.len() as int) {
            Some((width, height, data))
        } else {
            None
        }
    }
}

/// Whether `image` is the image with the given size and samples.
pub open spec fn image_is(image: Image, width: u32, height: u32, data: Seq<u8>) -> bool {
    &&& image_dimensions(image) == (width, height)
    &&& image_samples(image) == data
}

/// `u32::from_ne_bytes`: the integer whose bytes, in the machine's own order,
/// are the four given ones.
#[verifier::external_body]
fn u32_from_ne_bytes(bytes: [u8; 4]) -> (r: u32)
    ensures
        r == u32_from_bytes(endianness(), bytes@),
{
    u32::from_ne_bytes(bytes)
}

impl Clone for Image {
    /// `ImageBuffer::clone`: a buffer with the same size and the same samples.
    #[verifier::external_body]
    fn clone(&self) -> (r: Image)
        ensures
            image_dimensions(r) == image_dimensions(*self),
            image_samples(r) == image_samples(*self),
    {
        Image(self.0.clone())
    }
}

impl Image {
    /// `image::ImageBuffer::from_vec`: the image of the given size over `data`,
    /// when `4 * width` does not overflow a `usize` and `data` holds at least four
    /// bytes per pixel; `None` otherwise.
    #[verifier::external_body]
    fn from_vec(width: u32, height: u32, data: Vec<u8>) -> (r: Option<Image>)
        ensures
            r is Some <==> image_fits(width, height, data@.len() as int),
            r matches Some(img) ==> image_dimensions(img) == (width, height)
                && image_samples(img) == data@,
    {
        image::ImageBuffer::from_vec(width, height, data).map(Image)
    }

    /// Create an image from the raw bytes that the engine renders: a native-order
    /// `u32` width, a native-order `u32` height, then the RGBA samples.
    pub fn from_raw(bytes: &[u8]) -> (r: Option<Image>)
        ensures
            match decoded_frame(bytes@) {
                Some((w, h, data)) => r matches Some(img) && image_is(img, w, h, data),
                None => r is None,
            },
    {
        if bytes.len() < 8 {
            return None;
        }
        let width = u32_from_ne_bytes([bytes[0], bytes[1], bytes[2], bytes[3]]);
        let height = u32_from_ne_bytes([bytes[4], bytes[5], bytes[6], bytes[7]]);
        assert([bytes[0], bytes[1], bytes[2], bytes[3]]@ =~= bytes@.subrange(0, 4));
        assert([bytes[4], bytes[5], bytes[6], bytes[7]]@ =~= bytes@.subrange(4, 8));
        let mut data: Vec<u8> = Vec::new();
        let mut i: usize = 8;
        while i < bytes.len()
            invariant
                8 <= i <= bytes@.len(),
                data@ == bytes@.subrange(8, i as int),
            decreases bytes@.len() - i,
        {
            data.push(bytes[i]);
            i = i + 1;
            assert(data@ =~= bytes@.subrange(8, i as int));
        }
        Image::from_vec(width, height, data)
    }
}

/// The four bytes of `v` in the given byte order.
pub open spec fn u32_to_bytes(order: Endian, v: u32) -> Seq<u8> {
    let b0 = (v & 0xff) as u8;
    let b1 = ((v >> 8u32) & 0xff) as u8;
    let b2 = ((v >> 16u32) & 0xff) as u8;
    let b3 = ((v >> 24u32) & 0xff) as u8;
    match order {
        Endian::Little => seq![b0, b1, b2, b3],
        Endian::Big => seq![b3, b2, b1, b0],
    }
}

/// The raw bytes of an image as the engine lays them out: the native-order width,
/// the native-order height, then the samples.
pub open spec fn encoded_frame(width: u32, height: u32, data: Seq<u8>) -> Seq<u8> {
    u32_to_bytes(endianness(), width) + u32_to_bytes(endianness(), height) + data
}

proof fn u32_bytes_round_trip(order: Endian, v: u32)
    ensures
        u32_to_bytes(order, v).len() == 4,
        u32_from_bytes(order, u32_to_bytes(order, v)) == v,
{
    let b0 = v & 0xff;
    let b1 = (v >> 8u32) & 0xff;
    let b2 = (v >> 16u32) & 0xff;
    let b3 = (v >> 24u32) & 0xff;
    assert(b0 < 256 && b1 < 256 && b2 < 256 && b3 < 256) by (bit_vector)
        requires
            b0 == v & 0xff,
            b1 == (v >> 8u32) & 0xff,
            b2 == (v >> 16u32) & 0xff,
            b3 == (v >> 24u32) & 0xff,
    ;
    assert(b0 + 256 * b1 + 65536 * b2 + 16777216 * b3 == v) by (bit_vector)
        requires
            b0 == v & 0xff,
            b1 == (v >> 8u32) & 0xff,
            b2 == (v >> 16u32) & 0xff,
            b3 == (v >> 24u32) & 0xff,
    ;
}

/// Reading the engine's raw bytes gives back the image they were laid out from,
/// whenever its samples cover its size; and fewer than eight bytes hold no image.
pub proof fn frame_round_trip(width: u32, height: u32, data: Seq<u8>, short: Seq<u8>)
    requires
        image_fits(width, height, data.len() as int),
        short.len() < 8,
    ensures
        decoded_frame(encoded_frame(width, height, data)) == Some((width, height, data)),
        decoded_frame(short) is None,
{
    let order = endianness();
    u32_bytes_round_trip(order, width);
    u32_bytes_round_trip(order, height);
    let bytes = encoded_frame(width, height, data);
    assert(bytes.subrange(0, 4) =~= u32_to_bytes(order, width));
    assert(bytes.subrange(4, 8) =~= u32_to_bytes(order, height));
    assert(bytes.subrange(8, bytes.len() as int) =~= data);
}

/// In little-endian order the first byte is the least significant and the last
/// the most significant; big-endian order reads the bytes the other way round.
pub proof fn byte_order_law(b: Seq<u8>)
    requires
        b.len() == 4,
    ensures
        u32_from_bytes(Endian::Little, b) % 256 == b[0],
        u32_from_bytes(Endian::Little, b) / 16777216 == b[3],
        u32_from_bytes(Endian::Big, b) == u32_from_bytes(Endian::Little, b.reverse()),
        0 <= u32_from_bytes(Endian::Little, b) < 0x1_0000_0000,
{
    let v = u32_from_bytes(Endian::Little, b);
    assert(v == b[0] + 256 * (b[1] + 256 * b[2] + 65536 * b[3]));
    assert(b[1] + 256 * b[2] + 65536 * b[3] < 16777216);
    assert(v == 16777216 * b[3] + (b[0] + 256 * b[1] + 65536 * b[2]));
}

} // verus!
