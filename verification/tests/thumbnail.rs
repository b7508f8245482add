use rust_image_processor::codec::Picture;
use rust_image_processor::codec::Shape;
use rust_image_processor::error::ErrorKind;
use rust_image_processor::png::is_closed_png;
use rust_image_processor::png::read_png_size;
use rust_image_processor::thumbnail::can_resample;
use rust_image_processor::thumbnail::create_thumbnail_fast;
use rust_image_processor::thumbnail::decode_image;
use rust_image_processor::thumbnail::encode_png;
use rust_image_processor::thumbnail::scale_to_fit;

fn encoded(picture: image::DynamicImage, format: image::ImageOutputFormat) -> Vec<u8> {
    let mut bytes: Vec<u8> = Vec::new();
    picture.write_to(&mut std::io::Cursor::new(&mut bytes), format).unwrap();
    bytes
}

fn colour_picture(width: u32, height: u32) -> image::DynamicImage {
    let mut pixels = image::RgbImage::new(width, height);
    for (x, y, pixel) in pixels.enumerate_pixels_mut() {
        *pixel = image::Rgb([(x % 251) as u8, (y % 241) as u8, 128]);
    }
    image::DynamicImage::ImageRgb8(pixels)
}

fn colour_png(width: u32, height: u32) -> Vec<u8> {
    encoded(colour_picture(width, height), image::ImageOutputFormat::Png)
}

fn grey_png(width: u32, height: u32) -> Vec<u8> {
    let pixels = image::GrayImage::new(width, height);
    encoded(image::DynamicImage::ImageLuma8(pixels), image::ImageOutputFormat::Png)
}

fn deep_grey_png(width: u32, height: u32) -> Vec<u8> {
    let pixels = image::ImageBuffer::<image::Luma<u16>, Vec<u16>>::new(width, height);
    encoded(image::DynamicImage::ImageLuma16(pixels), image::ImageOutputFormat::Png)
}

fn size_of_decoded(bytes: &[u8]) -> (u32, u32) {
    let picture = image::load_from_memory(bytes).unwrap();
    (picture.width(), picture.height())
}

#[test]
fn large_landscape_photo_fits_the_box() {
    let source: Vec<u8> = grey_png(4000, 3000);
    let png: Vec<u8> = create_thumbnail_fast("photo.png", Ok(source), 200, 200).unwrap();
    assert_eq!(read_png_size(&png), Some((200, 150)));
    assert_eq!(size_of_decoded(&png), (200, 150));
}

#[test]
fn thumbnail_is_a_png_of_the_fitted_size() {
    let png: Vec<u8> = create_thumbnail_fast("a.png", Ok(colour_png(400, 300)), 200, 200).unwrap();
    assert_eq!(&png[..8], &[0x89, 0x50, 0x4e, 0x47, 0x0d, 0x0a, 0x1a, 0x0a]);
    assert_eq!(read_png_size(&png), Some((200, 150)));
    assert_eq!(image::guess_format(&png).unwrap(), image::ImageFormat::Png);
    assert_eq!(size_of_decoded(&png), (200, 150));
}

#[test]
fn portrait_source_fits_by_height() {
    let png: Vec<u8> = create_thumbnail_fast("a.png", Ok(colour_png(300, 400)), 200, 200).unwrap();
    assert_eq!(size_of_decoded(&png), (150, 200));
}

#[test]
fn small_source_is_enlarged() {
    let png: Vec<u8> = create_thumbnail_fast("a.png", Ok(colour_png(100, 100)), 500, 500).unwrap();
    assert_eq!(read_png_size(&png), Some((500, 500)));
    assert_eq!(size_of_decoded(&png), (500, 500));
}

#[test]
fn scaled_side_of_thumbnail_is_rounded_down() {
    let png: Vec<u8> = create_thumbnail_fast("a.png", Ok(colour_png(5, 3)), 3, 3).unwrap();
    assert_eq!(size_of_decoded(&png), (3, 1));
}

#[test]
fn thin_source_gives_a_thumbnail_one_pixel_high() {
    let png: Vec<u8> = create_thumbnail_fast("a.png", Ok(colour_png(1000, 10)), 50, 50).unwrap();
    assert_eq!(size_of_decoded(&png), (50, 1));
}

#[test]
fn thumbnail_keeps_the_pixel_layout() {
    let png: Vec<u8> = create_thumbnail_fast("a.png", Ok(grey_png(64, 64)), 16, 16).unwrap();
    let picture = image::load_from_memory(&png).unwrap();
    assert_eq!(picture.color(), image::ColorType::L8);
    let png: Vec<u8> = create_thumbnail_fast("a.png", Ok(deep_grey_png(64, 64)), 16, 16).unwrap();
    let picture = image::load_from_memory(&png).unwrap();
    assert_eq!(picture.color(), image::ColorType::L16);
    assert_eq!((picture.width(), picture.height()), (16, 16));
}

#[test]
fn thumbnail_averages_the_source() {
    let mut pixels = image::GrayImage::new(4, 4);
    for (x, _, pixel) in pixels.enumerate_pixels_mut() {
        *pixel = image::Luma([if x < 2 { 10 } else { 200 }]);
    }
    let source: Vec<u8> =
        encoded(image::DynamicImage::ImageLuma8(pixels), image::ImageOutputFormat::Png);
    let png: Vec<u8> = create_thumbnail_fast("a.png", Ok(source), 2, 2).unwrap();
    let thumbnail = image::load_from_memory(&png).unwrap().to_luma8();
    assert_eq!(thumbnail.dimensions(), (2, 2));
    assert_eq!(thumbnail.get_pixel(0, 0).0, [10]);
    assert_eq!(thumbnail.get_pixel(1, 0).0, [200]);
    assert_eq!(thumbnail.get_pixel(0, 1).0, [10]);
    assert_eq!(thumbnail.get_pixel(1, 1).0, [200]);
}

#[test]
fn format_is_told_from_the_content() {
    let jpeg: Vec<u8> = encoded(colour_picture(80, 60), image::ImageOutputFormat::Jpeg(90));
    let png: Vec<u8> = create_thumbnail_fast("misnamed.png", Ok(jpeg), 40, 40).unwrap();
    assert_eq!(size_of_decoded(&png), (40, 30));
    let bmp: Vec<u8> = encoded(colour_picture(80, 60), image::ImageOutputFormat::Bmp);
    let png: Vec<u8> = create_thumbnail_fast("no_extension", Ok(bmp), 40, 40).unwrap();
    assert_eq!(size_of_decoded(&png), (40, 30));
    let gif: Vec<u8> = encoded(colour_picture(80, 60), image::ImageOutputFormat::Gif);
    let png: Vec<u8> = create_thumbnail_fast("picture.jpg", Ok(gif), 40, 40).unwrap();
    assert_eq!(size_of_decoded(&png), (40, 30));
}

#[test]
fn file_that_could_not_be_read_is_a_decode_error() {
    let cause: String = String::from("No such file or directory (os error 2)");
    let e = create_thumbnail_fast("missing.png", Err(cause.clone()), 200, 200).unwrap_err();
    assert_eq!(e.kind, ErrorKind::Decode);
    assert_eq!(e.path, "missing.png");
    assert_eq!(e.cause, cause);
    assert_eq!(
        e.message(),
        "cannot decode image: missing.png: No such file or directory (os error 2)"
    );
}

#[test]
fn text_file_is_a_decode_error() {
    let text: Vec<u8> = b"This is a text file, not an image.\n".to_vec();
    let e = create_thumbnail_fast("notes.txt", Ok(text), 200, 200).unwrap_err();
    assert_eq!(e.kind, ErrorKind::Decode);
    assert_eq!(e.path, "notes.txt");
    assert!(!e.cause.is_empty());
}

#[test]
fn empty_file_is_a_decode_error() {
    let e = create_thumbnail_fast("empty.png", Ok(Vec::new()), 200, 200).unwrap_err();
    assert_eq!(e.kind, ErrorKind::Decode);
}

#[test]
fn truncated_image_is_a_decode_error() {
    let mut source: Vec<u8> = colour_png(40, 30);
    source.truncate(60);
    let e = create_thumbnail_fast("cut.png", Ok(source), 20, 20).unwrap_err();
    assert_eq!(e.kind, ErrorKind::Decode);
    assert_eq!(e.path, "cut.png");
}

#[test]
fn zero_bound_is_an_encode_error() {
    let e = create_thumbnail_fast("a.png", Ok(colour_png(40, 30)), 0, 20).unwrap_err();
    assert_eq!(e.kind, ErrorKind::Encode);
    assert_eq!(e.path, "a.png");
    assert!(!e.cause.is_empty());
    let e = create_thumbnail_fast("a.png", Ok(colour_png(40, 30)), 20, 0).unwrap_err();
    assert_eq!(e.kind, ErrorKind::Encode);
    let e = create_thumbnail_fast("a.png", Ok(colour_png(40, 30)), 0, 0).unwrap_err();
    assert_eq!(e.kind, ErrorKind::Encode);
}

#[test]
fn thumbnail_beyond_the_limits_is_an_encode_error() {
    let e = create_thumbnail_fast("deep.png", Ok(deep_grey_png(600, 600)), 1, 1).unwrap_err();
    assert_eq!(e.kind, ErrorKind::Encode);
    assert_eq!(e.path, "deep.png");
    assert_eq!(e.cause, "thumbnail is beyond the limits of the resampler");
    let png: Vec<u8> = create_thumbnail_fast("flat.png", Ok(grey_png(600, 600)), 1, 1).unwrap();
    assert_eq!(size_of_decoded(&png), (1, 1));
}

#[test]
fn resampler_limits_depend_on_sample_width() {
    let bytes: Shape = Shape { width: 600, height: 600, channels: 3, bytes_per_pixel: 3 };
    let wide: Shape = Shape { width: 600, height: 600, channels: 3, bytes_per_pixel: 6 };
    // (600 / 1 + 3) * (600 / 1 + 3) = 363_609
    assert!(can_resample(bytes, 1, 1));
    assert!(!can_resample(wide, 1, 1));
    // (600 / 3 + 3) * (600 / 3 + 3) = 41_209
    assert!(can_resample(wide, 3, 3));
    // (4092 / 1 + 3) * (4093 / 1 + 3) = 16_773_120, one row more is 16_777_215, one column more is above
    let large: Shape = Shape { width: 4092, height: 4093, channels: 1, bytes_per_pixel: 1 };
    assert!(can_resample(large, 1, 1));
    let larger: Shape = Shape { width: 4093, height: 4094, channels: 1, bytes_per_pixel: 1 };
    assert!(!can_resample(larger, 1, 1));
}

#[test]
fn thumbnail_is_a_whole_stream() {
    let png: Vec<u8> = create_thumbnail_fast("a.png", Ok(colour_png(400, 300)), 200, 200).unwrap();
    assert!(is_closed_png(&png));
    assert_eq!(&png[png.len() - 8..png.len() - 4], b"IEND");
    assert!(!is_closed_png(&png[..png.len() - 1]));
    assert!(!is_closed_png(&png[..24]));
    assert!(!is_closed_png(&[]));
}

#[test]
fn thumbnail_of_floating_point_samples_is_an_encode_error() {
    let pixels = image::Rgb32FImage::new(6, 4);
    let source: Vec<u8> =
        encoded(image::DynamicImage::ImageRgb32F(pixels), image::ImageOutputFormat::OpenExr);
    let picture: Picture = decode_image("sky.exr", &source).unwrap();
    assert_eq!(
        picture.measure(),
        Shape { width: 6, height: 4, channels: 3, bytes_per_pixel: 12 }
    );
    let e = create_thumbnail_fast("sky.exr", Ok(source), 3, 3).unwrap_err();
    assert_eq!(e.kind, ErrorKind::Encode);
    assert_eq!(e.path, "sky.exr");
    let refused = image::DynamicImage::ImageRgb32F(image::Rgb32FImage::new(3, 2))
        .write_to(&mut std::io::Cursor::new(Vec::new()), image::ImageOutputFormat::Png)
        .unwrap_err();
    assert_eq!(e.cause, refused.to_string());
}

#[test]
fn decode_error_carries_the_wording_of_the_decoder() {
    let text: Vec<u8> = b"This is a text file, not an image.\n".to_vec();
    let expected: String = image::load_from_memory(&text).unwrap_err().to_string();
    let e = decode_image("notes.txt", &text).unwrap_err();
    assert_eq!(e.cause, expected);
    assert_eq!(e.message(), format!("cannot decode image: notes.txt: {}", expected));
    let mut cut: Vec<u8> = colour_png(40, 30);
    cut.truncate(60);
    let expected: String = image::load_from_memory(&cut).unwrap_err().to_string();
    let e = create_thumbnail_fast("cut.png", Ok(cut), 20, 20).unwrap_err();
    assert_eq!(e.cause, expected);
}

#[test]
fn encode_error_carries_the_wording_of_the_encoder() {
    let picture: Picture = decode_image("a.png", &colour_png(4, 4)).unwrap();
    let nothing: Picture = scale_to_fit("a.png", &picture, 0, 5).unwrap();
    let e = encode_png("a.png", &nothing).unwrap_err();
    let refused = image::DynamicImage::ImageRgb8(image::RgbImage::new(0, 1))
        .write_to(&mut std::io::Cursor::new(Vec::new()), image::ImageOutputFormat::Png)
        .unwrap_err();
    assert_eq!(e.cause, refused.to_string());
}

#[test]
fn thumbnail_decodes_to_the_shape_it_was_written_from() {
    let png: Vec<u8> = create_thumbnail_fast("a.png", Ok(deep_grey_png(90, 60)), 30, 30).unwrap();
    let again: Picture = decode_image("thumbnail.png", &png).unwrap();
    assert_eq!(
        again.measure(),
        Shape { width: 30, height: 20, channels: 1, bytes_per_pixel: 2 }
    );
    let twice: Vec<u8> = create_thumbnail_fast("thumbnail.png", Ok(png), 30, 30).unwrap();
    assert_eq!(read_png_size(&twice), Some((30, 20)));
}

#[test]
fn resampler_limits_bound_the_raster() {
    let small: Shape = Shape { width: 2, height: 2, channels: 1, bytes_per_pixel: 1 };
    assert!(can_resample(small, 0x7fff_ffff, 1));
    assert!(!can_resample(small, 0x8000_0000, 1));
    let wide: Shape = Shape { width: 2, height: 2, channels: 4, bytes_per_pixel: 8 };
    // 0x0fff_ffff * 8 = 0x7fff_fff8
    assert!(can_resample(wide, 0x0fff_ffff, 1));
    assert!(!can_resample(wide, 0x1000_0000, 1));
    assert!(!can_resample(wide, 0x1_0000, 0x1_0000));
}

#[test]
fn resampler_limits_bound_the_source_and_the_target() {
    let long: Shape = Shape { width: 0x40_0001, height: 1, channels: 1, bytes_per_pixel: 1 };
    assert!(!can_resample(long, 0x40_0001, 1));
    let longest: Shape = Shape { width: 0x40_0000, height: 1, channels: 1, bytes_per_pixel: 1 };
    assert!(can_resample(longest, 0x40_0000, 1));
    let small: Shape = Shape { width: 2, height: 2, channels: 4, bytes_per_pixel: 16 };
    assert!(!can_resample(small, u32::MAX, u32::MAX));
    assert!(can_resample(small, 0, u32::MAX));
    let empty: Shape = Shape { width: 0, height: 0x50_0000, channels: 1, bytes_per_pixel: 1 };
    assert!(can_resample(empty, 10, 10));
}

#[test]
fn decoded_picture_has_the_shape_of_the_source() {
    let picture: Picture = decode_image("a.png", &colour_png(37, 21)).unwrap();
    assert_eq!(
        picture.measure(),
        Shape { width: 37, height: 21, channels: 3, bytes_per_pixel: 3 }
    );
    let picture: Picture = decode_image("a.png", &deep_grey_png(8, 9)).unwrap();
    assert_eq!(
        picture.measure(),
        Shape { width: 8, height: 9, channels: 1, bytes_per_pixel: 2 }
    );
}

#[test]
fn undecodable_bytes_are_a_decode_error() {
    let e = decode_image("a.bin", &[1, 2, 3, 4, 5]).unwrap_err();
    assert_eq!(e.kind, ErrorKind::Decode);
    assert_eq!(e.path, "a.bin");
    assert!(!e.cause.is_empty());
}

#[test]
fn scaled_picture_has_the_fitted_shape() {
    let picture: Picture = decode_image("a.png", &colour_png(400, 300)).unwrap();
    let thumbnail: Picture = scale_to_fit("a.png", &picture, 200, 200).unwrap();
    assert_eq!(
        thumbnail.measure(),
        Shape { width: 200, height: 150, channels: 3, bytes_per_pixel: 3 }
    );
    assert_eq!(picture.measure().width, 400);
}

#[test]
fn scaling_beyond_the_limits_is_an_encode_error() {
    let picture: Picture = decode_image("a.png", &deep_grey_png(600, 600)).unwrap();
    let e = scale_to_fit("a.png", &picture, 1, 1).unwrap_err();
    assert_eq!(e.kind, ErrorKind::Encode);
    assert_eq!(e.cause, "thumbnail is beyond the limits of the resampler");
    assert_eq!(
        e.message(),
        "cannot encode thumbnail: a.png: thumbnail is beyond the limits of the resampler"
    );
}

#[test]
fn encoded_picture_states_its_size() {
    let picture: Picture = decode_image("a.bmp", &colour_png(37, 21)).unwrap();
    let png: Vec<u8> = encode_png("a.bmp", &picture).unwrap();
    assert_eq!(read_png_size(&png), Some((37, 21)));
    assert_eq!(size_of_decoded(&png), (37, 21));
}

#[test]
fn empty_picture_is_not_encoded() {
    let picture: Picture = decode_image("a.png", &colour_png(4, 4)).unwrap();
    let nothing: Picture = scale_to_fit("a.png", &picture, 0, 0).unwrap();
    assert_eq!(nothing.measure().width, 0);
    assert_eq!(nothing.measure().height, 0);
    let e = encode_png("a.png", &nothing).unwrap_err();
    assert_eq!(e.kind, ErrorKind::Encode);
    assert_eq!(e.path, "a.png");
}
