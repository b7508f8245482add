//! Thumbnails: decode, scale into a bounding box, encode as PNG.

use vstd::prelude::*;
use vstd::string::StringExecFns;
use crate::codec::decoded;
use crate::codec::decodes_again;
use crate::codec::load_picture;
use crate::codec::png_refusal;
use crate::codec::png_takes;
use crate::codec::probed;
use crate::codec::resample;
use crate::codec::resample_supported;
use crate::codec::write_png;
use crate::codec::Picture;
use crate::codec::Shape;
use crate::codec::BLOCK_LIMIT_BYTE_SAMPLES;
use crate::codec::BLOCK_LIMIT_WIDE_SAMPLES;
use crate::codec::MAX_RASTER_BYTES;
use crate::codec::MAX_SOURCE_SIDE;
use crate::error::report;
use crate::error::ErrorKind;
use crate::error::ProcessError;
use crate::geometry::fit_within;
use crate::geometry::lemma_fit_is_visible;
use crate::geometry::lemma_fit_keeps_aspect;
use crate::geometry::lemma_fit_settles;
use crate::geometry::lemma_fit_within_bounds;
use crate::geometry::thumbnail_dimensions;
use crate::png::opens_as_png;
use crate::png::png_header_size;
use crate::png::png_is_closed;

verus! {

/// The shape of the thumbnail of a picture of shape `source` within a
/// `max_width` x `max_height` box: the size that `fit_within` gives, in the
/// pixel layout of the source.
pub open spec fn thumbnail_shape(source: Shape, max_width: u32, max_height: u32) -> Shape {
    let size = fit_within(
        source.width as nat,
        source.height as nat,
        max_width as nat,
        max_height as nat,
    );
    Shape { width: size.0 as u32, height: size.1 as u32, ..source }
}

/// Whether a picture of shape `source` can be scaled into a `max_width` x
/// `max_height` box within the limits of the resampler.
pub open spec fn can_scale(source: Shape, max_width: u32, max_height: u32) -> bool {
    let target = thumbnail_shape(source, max_width, max_height);
    resample_supported(source, target.width as nat, target.height as nat)
}

/// The cause that an error carries when a thumbnail is beyond the limits of
/// the resampler.
pub open spec fn beyond_limits() -> Seq<char> {
    "thumbnail is beyond the limits of the resampler"@
}

/// Within positive bounds the thumbnail of a picture that has pixels fits the
/// box, is not empty, has one side at its bound, and keeps the aspect ratio
/// of its source to within one pixel: the side that is not at its bound
/// differs by less than one from the exact scaled length.
pub proof fn lemma_thumbnail_fits_and_keeps_aspect(source: Shape, max_width: u32, max_height: u32)
    requires
        source.width > 0,
        source.height > 0,
        max_width > 0,
        max_height > 0,
    ensures
        ({
            let thumbnail = thumbnail_shape(source, max_width, max_height);
            &&& 1 <= thumbnail.width <= max_width
            &&& 1 <= thumbnail.height <= max_height
            &&& thumbnail.channels == source.channels
            &&& thumbnail.bytes_per_pixel == source.bytes_per_pixel
            &&& if max_width * source.height <= max_height * source.width {
                &&& thumbnail.width == max_width
                &&& (thumbnail.height - 1) * source.width < source.height * max_width
                &&& source.height * max_width < (thumbnail.height + 1) * source.width
            } else {
                &&& thumbnail.height == max_height
                &&& (thumbnail.width - 1) * source.height < source.width * max_height
                &&& source.width * max_height < (thumbnail.width + 1) * source.height
            }
        }),
{
    let (w, h) = (source.width as nat, source.height as nat);
    let (mw, mh) = (max_width as nat, max_height as nat);
    lemma_fit_within_bounds(w, h, mw, mh);
    lemma_fit_is_visible(w, h, mw, mh);
    lemma_fit_keeps_aspect(w, h, mw, mh);
}

/// Within positive bounds the encoder takes the thumbnail of every picture
/// of one- or two-byte samples, so such a thumbnail is owed wherever it is
/// within the limits of the resampler.
pub proof fn lemma_encoder_takes_thumbnail(source: Shape, max_width: u32, max_height: u32)
    requires
        max_width > 0,
        max_height > 0,
        source.bytes_per_pixel <= 2 * source.channels,
    ensures
        png_takes(thumbnail_shape(source, max_width, max_height)),
{
    lemma_fit_within_bounds(
        source.width as nat,
        source.height as nat,
        max_width as nat,
        max_height as nat,
    );
}

/// Every ordinary thumbnail is within all limits: one of at most 1024
/// pixels a side, of a source of at most `MAX_SOURCE_SIDE` pixels a side
/// that is at most 252 times the thumbnail in each direction. The
/// resampler takes it, and its PNG stream decodes again.
pub proof fn lemma_ordinary_thumbnail_is_within_limits(
    source: Shape,
    max_width: u32,
    max_height: u32,
)
    requires
        ({
            let thumbnail = thumbnail_shape(source, max_width, max_height);
            &&& 0 < thumbnail.width <= 1024
            &&& 0 < thumbnail.height <= 1024
            &&& source.width <= MAX_SOURCE_SIDE
            &&& source.height <= MAX_SOURCE_SIDE
            &&& source.width <= 252 * thumbnail.width
            &&& source.height <= 252 * thumbnail.height
        }),
    ensures
        can_scale(source, max_width, max_height),
        decodes_again(thumbnail_shape(source, max_width, max_height)),
{
    let thumbnail = thumbnail_shape(source, max_width, max_height);
    let (w, h) = (source.width as nat, source.height as nat);
    let (tw, th) = (thumbnail.width as nat, thumbnail.height as nat);
    let bytes = source.bytes_per_pixel as nat;
    assert(tw * th * bytes <= 1024 * 1024 * 255) by (nonlinear_arith)
        requires
            tw <= 1024,
            th <= 1024,
            bytes <= 255,
    ;
    assert(w / tw <= 252 && h / th <= 252) by (nonlinear_arith)
        requires
            0 < tw,
            0 < th,
            w <= 252 * tw,
            h <= 252 * th,
    ;
    let (across, down) = (w / tw + 3, h / th + 3);
    assert(across * down <= 255 * 255) by (nonlinear_arith)
        requires
            0 <= across <= 255,
            0 <= down <= 255,
    ;
}

/// Within positive bounds a thumbnail is its own thumbnail: scaled into the
/// same box again it keeps its shape, and the resampler takes it as long as
/// no side of it exceeds `MAX_SOURCE_SIDE`.
pub proof fn lemma_thumbnail_settles(source: Shape, max_width: u32, max_height: u32)
    requires
        max_width > 0,
        max_height > 0,
    ensures
        ({
            let thumbnail = thumbnail_shape(source, max_width, max_height);
            &&& thumbnail_shape(thumbnail, max_width, max_height) == thumbnail
            &&& can_scale(source, max_width, max_height) && thumbnail.width <= MAX_SOURCE_SIDE
                && thumbnail.height <= MAX_SOURCE_SIDE ==> can_scale(
                thumbnail,
                max_width,
                max_height,
            )
        }),
{
    let (w, h) = (source.width as nat, source.height as nat);
    let (mw, mh) = (max_width as nat, max_height as nat);
    lemma_fit_within_bounds(w, h, mw, mh);
    lemma_fit_is_visible(w, h, mw, mh);
    lemma_fit_settles(w, h, mw, mh);
    let thumbnail = thumbnail_shape(source, max_width, max_height);
    assert(thumbnail_shape(thumbnail, max_width, max_height) == thumbnail);
    let (tw, th) = (thumbnail.width as nat, thumbnail.height as nat);
    assert(tw / tw == 1 && th / th == 1) by (nonlinear_arith)
        requires
            tw > 0,
            th > 0,
    ;
    assert((tw / tw + 3) * (th / th + 3) == 16) by (nonlinear_arith)
        requires
            tw / tw == 1,
            th / th == 1,
    ;
}

/// Whether a raster of `pixels` pixels of `bytes` bytes each is within
/// `MAX_RASTER_BYTES`.
fn raster_fits(pixels: u64, bytes: u8) -> (fits: bool)
    ensures
        fits == (pixels * bytes <= MAX_RASTER_BYTES),
{
    if pixels > MAX_RASTER_BYTES {
        assert(bytes == 0 || pixels * bytes >= pixels) by (nonlinear_arith);
        assert(bytes == 0 ==> pixels * bytes == 0) by (nonlinear_arith);
        return bytes == 0;
    }
    assert(pixels * bytes <= 0x7fff_ffff * 255) by (nonlinear_arith)
        requires
            pixels <= 0x7fff_ffff,
            bytes <= 255,
    ;
    pixels * (bytes as u64) <= MAX_RASTER_BYTES
}

/// Whether the resampler takes a picture of `shape` to `width` x `height`.
pub fn can_resample(shape: Shape, width: u32, height: u32) -> (ok: bool)
    ensures
        ok == resample_supported(shape, width as nat, height as nat),
{
    assert(width * height <= 0xffff_ffff * 0xffff_ffff) by (nonlinear_arith)
        requires
            width <= 0xffff_ffff,
            height <= 0xffff_ffff,
    ;
    let pixels: u64 = (width as u64) * (height as u64);
    if !raster_fits(pixels, shape.bytes_per_pixel) {
        return false;
    }
    if shape.width == 0 || shape.height == 0 || width == 0 || height == 0 {
        return true;
    }
    if shape.width > MAX_SOURCE_SIDE || shape.height > MAX_SOURCE_SIDE {
        return false;
    }
    let across: u64 = (shape.width / width) as u64 + 3;
    let down: u64 = (shape.height / height) as u64 + 3;
    assert(across * down <= 0x40_0003 * 0x40_0003) by (nonlinear_arith)
        requires
            across <= 0x40_0003,
            down <= 0x40_0003,
    ;
    let limit: u64 = if shape.bytes_per_pixel == shape.channels {
        BLOCK_LIMIT_BYTE_SAMPLES
    } else {
        BLOCK_LIMIT_WIDE_SAMPLES
    };
    across * down <= limit
}

/// Decodes `data`, whose format is told from its content.
///
/// It succeeds exactly where the decoder makes an image of `data`, and the
/// picture then has the size that `get_image_dimensions` reports for the
/// same bytes; a PNG stream gives samples of one or two bytes. Otherwise the
/// error is a `Decode` error about `path` that carries the decoder's wording.
pub fn decode_image(path: &str, data: &[u8]) -> (r: Result<Picture, ProcessError>)
    ensures
        match decoded(data@) {
            Ok(shape) => {
                &&& r matches Ok(picture) && picture.shape() == shape
                &&& probed(data@) == Ok::<(u32, u32), Seq<char>>((shape.width, shape.height))
                &&& opens_as_png(data@) ==> shape.bytes_per_pixel <= 2 * shape.channels
            },
            Err(text) => r matches Err(e) && e.kind == ErrorKind::Decode && e.path@ == path@
                && e.cause@ == text,
        },
{
    report(ErrorKind::Decode, path, load_picture(data))
}

/// Scales `picture` into a `max_width` x `max_height` box, keeping its
/// aspect ratio: the result has the shape `thumbnail_shape`.
///
/// It fails, with an `Encode` error about `path`, exactly where the
/// thumbnail is beyond the limits of the resampler.
pub fn scale_to_fit(path: &str, picture: &Picture, max_width: u32, max_height: u32) -> (r: Result<
    Picture,
    ProcessError,
>)
    ensures
        match r {
            Ok(thumbnail) => can_scale(picture.shape(), max_width, max_height)
                && thumbnail.shape() == thumbnail_shape(picture.shape(), max_width, max_height),
            Err(e) => !can_scale(picture.shape(), max_width, max_height) && e.kind
                == ErrorKind::Encode && e.path@ == path@ && e.cause@ == beyond_limits(),
        },
        r matches Ok(thumbnail) ==> thumbnail.shape().width <= max_width
            && thumbnail.shape().height <= max_height,
{
    let source = picture.measure();
    let (width, height) = thumbnail_dimensions(source.width, source.height, max_width, max_height);
    if can_resample(source, width, height) {
        Ok(resample(picture, width, height))
    } else {
        let cause = String::from_str("thumbnail is beyond the limits of the resampler");
        Err(ProcessError::new(ErrorKind::Encode, path, cause))
    }
}

/// What a PNG stream `bytes` written from a picture of `shape` holds: it
/// opens with the signature and the header chunk, which states the
/// picture's size, and ends with the trailer chunk. Unless the picture is
/// larger than the decoder allows for, the stream decodes to a picture of
/// the same shape, and the header reader finds its size.
pub open spec fn is_png_of(bytes: Seq<u8>, shape: Shape) -> bool {
    &&& png_header_size(bytes) == Some((shape.width, shape.height))
    &&& png_is_closed(bytes)
    &&& decodes_again(shape) ==> {
        &&& decoded(bytes) == Ok::<Shape, Seq<char>>(shape)
        &&& probed(bytes) == Ok::<(u32, u32), Seq<char>>((shape.width, shape.height))
    }
}

/// Encodes `picture` as a PNG stream.
///
/// It succeeds exactly on the pictures that the encoder takes: those that
/// have pixels, in samples of one or two bytes. Otherwise the error is an
/// `Encode` error about `path` that carries the encoder's wording.
pub fn encode_png(path: &str, picture: &Picture) -> (r: Result<Vec<u8>, ProcessError>)
    ensures
        (r is Ok) == png_takes(picture.shape()),
        match r {
            Ok(bytes) => is_png_of(bytes@, picture.shape()),
            Err(e) => e.kind == ErrorKind::Encode && e.path@ == path@ && e.cause@ == png_refusal(
                picture.shape(),
            ),
        },
{
    report(ErrorKind::Encode, path, write_png(picture))
}

/// What `create_thumbnail_fast` returns for bytes that decode to a picture
/// of shape `source`.
///
/// - Where the thumbnail is beyond the limits of the resampler: an `Encode`
///   error that says so.
/// - Where the encoder does not take the thumbnail: an `Encode` error that
///   carries the encoder's wording.
/// - Otherwise: a PNG stream of the thumbnail's shape.
pub open spec fn is_thumbnail_of(
    r: Result<Vec<u8>, ProcessError>,
    path: Seq<char>,
    source: Shape,
    width: u32,
    height: u32,
) -> bool {
    let target = thumbnail_shape(source, width, height);
    if !can_scale(source, width, height) {
        r matches Err(e) && e.kind == ErrorKind::Encode && e.path@ == path && e.cause@
            == beyond_limits()
    } else if !png_takes(target) {
        r matches Err(e) && e.kind == ErrorKind::Encode && e.path@ == path && e.cause@
            == png_refusal(target)
    } else {
        r matches Ok(png) && is_png_of(png@, target)
    }
}

/// The thumbnail, as a PNG stream, of the image in the file at `path`, given
/// what reading the file gave: its bytes, or the text of the failure.
///
/// - A failed read is a `Decode` error that carries the failure's text.
/// - Bytes that the decoder makes no image of are a `Decode` error that
///   carries the decoder's wording.
/// - For bytes that decode, the result is what `is_thumbnail_of` says. It
///   is a PNG stream of the size `fit_within` of the source within `width` x
///   `height` exactly where the thumbnail is within the limits of the
///   resampler and the encoder takes it; so for every picture of one- or
///   two-byte samples within positive bounds and those limits.
/// - A PNG stream decodes to samples of one or two bytes, so its thumbnail
///   within positive bounds is owed wherever it is within the limits of the
///   resampler.
/// - A bound of zero is always an error, since the encoder takes no picture
///   without pixels.
pub fn create_thumbnail_fast(
    path: &str,
    read: Result<Vec<u8>, String>,
    width: u32,
    height: u32,
) -> (r: Result<Vec<u8>, ProcessError>)
    ensures
        match read {
            Err(cause) => r matches Err(e) && e.kind == ErrorKind::Decode && e.path@ == path@
                && e.cause@ == cause@,
            Ok(data) => match decoded(data@) {
                Err(text) => r matches Err(e) && e.kind == ErrorKind::Decode && e.path@ == path@
                    && e.cause@ == text,
                Ok(source) => {
                    &&& is_thumbnail_of(r, path@, source, width, height)
                    &&& opens_as_png(data@) ==> source.bytes_per_pixel <= 2 * source.channels
                },
            },
        },
        r matches Ok(png) ==> png_header_size(png@) matches Some(size) && 1 <= size.0 <= width
            && 1 <= size.1 <= height,
        width == 0 || height == 0 ==> r is Err,
{
    let data = report(ErrorKind::Decode, path, read)?;
    let picture = decode_image(path, data.as_slice())?;
    let thumbnail = scale_to_fit(path, &picture, width, height)?;
    encode_png(path, &thumbnail)
}

} // verus!
