//! The boundary to the `image` crate, which decodes, resamples and encodes.
//!
//! The contracts of the functions marked `external_body` in this file are
//! not proved. Each states what the `image` crate does, as its source shows
//! it; the rest of the library is verified against these statements.

use vstd::prelude::*;
use crate::png::opens_as_png;
use crate::png::png_header_size;
use crate::png::png_is_closed;

verus! {

/// `image::DynamicImage`, a decoded image in any pixel layout; nothing is
/// known of what it holds.
#[verifier::external_type_specification]
#[verifier::external_body]
pub struct ExDynamicImage(image::DynamicImage);

/// What the library reads of a decoded image: its size in pixels, and how a
/// pixel is laid out.
#[derive(Clone, Copy, Debug, PartialEq, Eq, Structural)]
pub struct Shape {
    pub width: u32,
    pub height: u32,
    /// The number of channels of a pixel.
    pub channels: u8,
    /// The number of bytes of a pixel, all channels together.
    pub bytes_per_pixel: u8,
}

/// A decoded image. The pixels stay with the `image` crate; `shape` is what
/// that crate reports of them.
#[derive(Debug)]
pub struct Picture {
    shape: Shape,
    pixels: image::DynamicImage,
}

impl Picture {
    /// The shape of this picture.
    pub closed spec fn shape(&self) -> Shape {
        self.shape
    }

    /// The shape of this picture.
    pub fn measure(&self) -> (shape: Shape)
        ensures
            shape == self.shape(),
    {
        self.shape
    }
}

/// What `image::load_from_memory` makes of `data`: the shape of the image
/// that it decodes, or the wording of the error with which it fails.
pub uninterp spec fn decoded(data: Seq<u8>) -> Result<Shape, Seq<char>>;

/// What `image::io::Reader::into_dimensions` finds in `data` once the format
/// is guessed from the content: the width and height, or the wording of the
/// error with which it fails.
pub uninterp spec fn probed(data: Seq<u8>) -> Result<(u32, u32), Seq<char>>;

/// The wording of the error with which the PNG encoder refuses a picture of
/// `shape`.
pub uninterp spec fn png_refusal(shape: Shape) -> Seq<char>;

/// The pictures that the PNG encoder takes: those that have pixels, in
/// samples of one or two bytes. It refuses floating-point samples, which
/// take four bytes.
pub open spec fn png_takes(shape: Shape) -> bool {
    &&& shape.width > 0
    &&& shape.height > 0
    &&& shape.bytes_per_pixel <= 2 * shape.channels
}

/// The most bytes of pixels for which a written stream is stated to decode
/// again: half of what the decoder is willing to allocate by default.
pub const DECODED_BYTES_LIMIT: u64 = 0x1000_0000;

/// Whether the pixels of a picture of `shape` are few enough for the decoder.
pub open spec fn decodes_again(shape: Shape) -> bool {
    shape.width as nat * shape.height as nat * shape.bytes_per_pixel as nat
        <= DECODED_BYTES_LIMIT as nat
}

/// The most bytes of a raster that `resample` is asked for. A vector holds
/// this many on every machine.
pub const MAX_RASTER_BYTES: u64 = 0x7fff_ffff;

/// The longest side of a source that `resample` takes.
pub const MAX_SOURCE_SIDE: u32 = 0x40_0000;

/// The most source pixels that are averaged into one pixel where a sample is
/// one byte.
pub const BLOCK_LIMIT_BYTE_SAMPLES: u64 = 0x100_0000;

/// The most source pixels that are averaged into one pixel where a sample is
/// wider than one byte.
pub const BLOCK_LIMIT_WIDE_SAMPLES: u64 = 0x1_0000;

/// The most source pixels that may be averaged into one pixel of a picture
/// of `shape`.
pub open spec fn block_limit(shape: Shape) -> nat {
    if shape.bytes_per_pixel == shape.channels {
        BLOCK_LIMIT_BYTE_SAMPLES as nat
    } else {
        BLOCK_LIMIT_WIDE_SAMPLES as nat
    }
}

/// No more source pixels than this are averaged into one pixel when a
/// picture of `shape` is resampled to `width` x `height`.
pub open spec fn averaged_block(shape: Shape, width: nat, height: nat) -> nat
    recommends
        width > 0,
        height > 0,
{
    (shape.width as nat / width + 3) * (shape.height as nat / height + 3)
}

/// The pictures and target sizes that `resample` takes: the target raster
/// fits in a vector, and, unless the source or the target is empty, the
/// source's sides and the blocks that are averaged are within the limits.
pub open spec fn resample_supported(shape: Shape, width: nat, height: nat) -> bool {
    &&& width * height * shape.bytes_per_pixel as nat <= MAX_RASTER_BYTES as nat
    &&& (shape.width == 0 || shape.height == 0 || width == 0 || height == 0 || {
        &&& shape.width <= MAX_SOURCE_SIDE
        &&& shape.height <= MAX_SOURCE_SIDE
        &&& averaged_block(shape, width, height) <= block_limit(shape)
    })
}

/// Calls `image::load_from_memory`, which guesses the format from the first
/// bytes and decodes the whole image, and words its error with `Display`.
///
/// The contract names the outcome `decoded(data)`. It adds two facts.
/// - A decoded image has the size that the header reader finds in the same
///   bytes: both guess the format from the same table of signatures, set up
///   the same decoder, and take its `dimensions()`.
/// - Bytes that open with the PNG signature go to the PNG decoder, which
///   gives samples of one or two bytes and never floating-point ones.
#[verifier::external_body]
pub(crate) fn load_picture(data: &[u8]) -> (r: Result<Picture, String>)
    ensures
        match r {
            Ok(picture) => {
                &&& decoded(data@) == Ok::<Shape, Seq<char>>(picture.shape())
                &&& probed(data@) == Ok::<(u32, u32), Seq<char>>(
                    (picture.shape().width, picture.shape().height),
                )
                &&& opens_as_png(data@) ==> picture.shape().bytes_per_pixel <= 2
                    * picture.shape().channels
            },
            Err(text) => decoded(data@) == Err::<Shape, Seq<char>>(text@),
        },
{
    let pixels = image::load_from_memory(data).map_err(|error| error.to_string())?;
    let shape = Shape {
        width: pixels.width(),
        height: pixels.height(),
        channels: pixels.color().channel_count(),
        bytes_per_pixel: pixels.color().bytes_per_pixel(),
    };
    Ok(Picture { shape, pixels })
}

/// Calls `image::io::Reader::into_dimensions` on a reader over `data` whose
/// format was guessed from the content, and words its error with `Display`.
/// It reads the container's header and decodes no pixels where the codec can
/// tell the size without.
///
/// The contract names the outcome `probed(data)`.
#[verifier::external_body]
pub(crate) fn probe_size(data: &[u8]) -> (r: Result<(u32, u32), String>)
    ensures
        match r {
            Ok(size) => probed(data@) == Ok::<(u32, u32), Seq<char>>(size),
            Err(text) => probed(data@) == Err::<(u32, u32), Seq<char>>(text@),
        },
{
    let reader = image::io::Reader::new(std::io::Cursor::new(data))
        .with_guessed_format()
        .map_err(|error| error.to_string())?;
    reader.into_dimensions().map_err(|error| error.to_string())
}

/// Calls `image::DynamicImage::thumbnail_exact`, which makes a new image of
/// exactly `width` x `height` pixels in the pixel layout of the source.
///
/// The `requires` leaves out what makes it panic: a target raster longer
/// than a vector can be on a 32-bit machine, and blocks of source pixels so
/// large that the
/// 32-bit sums in which 8- and 16-bit samples are averaged would overflow.
/// A block is at most `averaged_block` pixels as long as no side of the
/// source exceeds `MAX_SOURCE_SIDE`, up to which its single-precision
/// coordinates are exact to half a pixel.
#[verifier::external_body]
pub(crate) fn resample(picture: &Picture, width: u32, height: u32) -> (r: Picture)
    requires
        resample_supported(picture.shape(), width as nat, height as nat),
    ensures
        r.shape() == (Shape { width, height, ..picture.shape() }),
{
    let pixels = picture.pixels.thumbnail_exact(width, height);
    let shape = Shape {
        width: pixels.width(),
        height: pixels.height(),
        channels: pixels.color().channel_count(),
        bytes_per_pixel: pixels.color().bytes_per_pixel(),
    };
    Picture { shape, pixels }
}

/// Calls `image::DynamicImage::write_to` with `ImageOutputFormat::Png` on an
/// empty buffer in memory, and words its error with `Display`.
///
/// - Writing to memory cannot fail, so the encoder alone decides: it refuses
///   a picture without pixels and one of floating-point samples, and takes
///   every other. `png_refusal` names the wording of the refusal, which
///   depends on which side is zero and on the pixel layout.
/// - A stream that it writes opens with the PNG signature and the header
///   chunk, which states the picture's size, and ends with the trailer
///   chunk, which the writer adds when it is dropped.
/// - The decoder reads the stream back as a picture of the same shape: the
///   header holds the size, bit depth and colour type, and the decoder maps
///   them back to the layout they were written from. This is stated for
///   pictures within `DECODED_BYTES_LIMIT`, beyond which the decoder's
///   allocation limit may stop it.
#[verifier::external_body]
pub(crate) fn write_png(picture: &Picture) -> (r: Result<Vec<u8>, String>)
    ensures
        match r {
            Ok(bytes) => {
                &&& png_takes(picture.shape())
                &&& png_header_size(bytes@) == Some((picture.shape().width, picture.shape().height))
                &&& png_is_closed(bytes@)
                &&& decodes_again(picture.shape()) ==> {
                    &&& decoded(bytes@) == Ok::<Shape, Seq<char>>(picture.shape())
                    &&& probed(bytes@) == Ok::<(u32, u32), Seq<char>>(
                        (picture.shape().width, picture.shape().height),
                    )
                }
            },
            Err(text) => !png_takes(picture.shape()) && text@ == png_refusal(picture.shape()),
        },
{
    let mut bytes = Vec::new();
    let mut cursor = std::io::Cursor::new(&mut bytes);
    picture
        .pixels
        .write_to(&mut cursor, image::ImageOutputFormat::Png)
        .map_err(|error| error.to_string())?;
    Ok(bytes)
}

} // verus!
