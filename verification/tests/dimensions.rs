use rust_image_processor::dimensions::get_image_dimensions;
use rust_image_processor::error::ErrorKind;
use rust_image_processor::thumbnail::decode_image;

fn stored(width: u32, height: u32, format: image::ImageOutputFormat) -> Vec<u8> {
    let mut pixels = image::RgbImage::new(width, height);
    for (x, y, pixel) in pixels.enumerate_pixels_mut() {
        *pixel = image::Rgb([(x % 256) as u8, (y % 256) as u8, 7]);
    }
    let mut bytes: Vec<u8> = Vec::new();
    image::DynamicImage::ImageRgb8(pixels)
        .write_to(&mut std::io::Cursor::new(&mut bytes), format)
        .unwrap();
    bytes
}

#[test]
fn dimensions_of_a_png() {
    let bytes: Vec<u8> = stored(37, 21, image::ImageOutputFormat::Png);
    assert_eq!(get_image_dimensions("a.png", Ok(bytes)).unwrap(), (37, 21));
}

#[test]
fn dimensions_do_not_depend_on_the_path() {
    let bytes: Vec<u8> = stored(37, 21, image::ImageOutputFormat::Png);
    assert_eq!(get_image_dimensions("a.jpg", Ok(bytes.clone())).unwrap(), (37, 21));
    assert_eq!(get_image_dimensions("", Ok(bytes)).unwrap(), (37, 21));
}

#[test]
fn dimensions_agree_with_a_full_decode() {
    let formats = [
        image::ImageOutputFormat::Png,
        image::ImageOutputFormat::Jpeg(80),
        image::ImageOutputFormat::Gif,
        image::ImageOutputFormat::Bmp,
        image::ImageOutputFormat::Tiff,
        image::ImageOutputFormat::Qoi,
    ];
    for format in formats {
        let bytes: Vec<u8> = stored(48, 31, format);
        let probed: (u32, u32) = get_image_dimensions("picture", Ok(bytes.clone())).unwrap();
        let decoded = decode_image("picture", &bytes).unwrap().measure();
        assert_eq!(probed, (48, 31));
        assert_eq!(probed, (decoded.width, decoded.height));
        let whole = image::load_from_memory(&bytes).unwrap();
        assert_eq!(probed, (whole.width(), whole.height()));
    }
}

#[test]
fn dimensions_of_an_icon_agree_with_a_full_decode() {
    let pixels = image::RgbaImage::new(32, 16);
    let mut bytes: Vec<u8> = Vec::new();
    image::DynamicImage::ImageRgba8(pixels)
        .write_to(&mut std::io::Cursor::new(&mut bytes), image::ImageOutputFormat::Ico)
        .unwrap();
    let probed: (u32, u32) = get_image_dimensions("favicon", Ok(bytes.clone())).unwrap();
    let decoded = decode_image("favicon", &bytes).unwrap().measure();
    assert_eq!(probed, (32, 16));
    assert_eq!(probed, (decoded.width, decoded.height));
}

#[test]
fn dimensions_need_no_pixels() {
    let mut bytes: Vec<u8> = stored(640, 480, image::ImageOutputFormat::Png);
    bytes.truncate(60);
    assert_eq!(get_image_dimensions("cut.png", Ok(bytes.clone())).unwrap(), (640, 480));
    assert_eq!(decode_image("cut.png", &bytes).unwrap_err().kind, ErrorKind::Decode);
}

#[test]
fn file_that_could_not_be_opened_is_an_open_error() {
    let cause: String = String::from("Permission denied (os error 13)");
    let e = get_image_dimensions("locked.png", Err(cause.clone())).unwrap_err();
    assert_eq!(e.kind, ErrorKind::Open);
    assert_eq!(e.path, "locked.png");
    assert_eq!(e.cause, cause);
    assert_eq!(e.message(), "cannot open file: locked.png: Permission denied (os error 13)");
}

#[test]
fn text_file_has_no_dimensions() {
    let text: Vec<u8> = b"width=10 height=20\n".to_vec();
    let e = get_image_dimensions("notes.txt", Ok(text)).unwrap_err();
    assert_eq!(e.kind, ErrorKind::DimensionRead);
    assert_eq!(e.path, "notes.txt");
    assert!(!e.cause.is_empty());
}

#[test]
fn dimension_error_carries_the_wording_of_the_reader() {
    let text: Vec<u8> = b"width=10 height=20\n".to_vec();
    let expected: String = image::io::Reader::new(std::io::Cursor::new(&text))
        .with_guessed_format()
        .unwrap()
        .into_dimensions()
        .unwrap_err()
        .to_string();
    let e = get_image_dimensions("notes.txt", Ok(text)).unwrap_err();
    assert_eq!(e.cause, expected);
    assert_eq!(
        e.message(),
        format!("cannot read image dimensions: notes.txt: {}", expected)
    );
}

#[test]
fn empty_file_has_no_dimensions() {
    let e = get_image_dimensions("empty.png", Ok(Vec::new())).unwrap_err();
    assert_eq!(e.kind, ErrorKind::DimensionRead);
}

#[test]
fn corrupt_header_has_no_dimensions() {
    let mut bytes: Vec<u8> = stored(37, 21, image::ImageOutputFormat::Png);
    bytes.truncate(12);
    let e = get_image_dimensions("cut.png", Ok(bytes)).unwrap_err();
    assert_eq!(e.kind, ErrorKind::DimensionRead);
    assert_eq!(e.path, "cut.png");
}
