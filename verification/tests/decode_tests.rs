use image_preview::decode::{DecodeError, PreviewImage};
use image_preview::messages::{CompressedImage, Header, RawImage};

fn header() -> Header {
    Header { sec: 7, nanosec: 500, frame_id: String::from("camera") }
}

fn raw(width: u32, height: u32, encoding: &str, data: Vec<u8>) -> RawImage {
    RawImage {
        header: header(),
        height,
        width,
        encoding: String::from(encoding),
        is_bigendian: 0,
        step: width * 3,
        data,
    }
}

fn png_bytes(width: u32, height: u32) -> Vec<u8> {
    let img = image::RgbImage::from_fn(width, height, |x, y| {
        image::Rgb([(x % 256) as u8, (y % 256) as u8, 200])
    });
    let mut cursor = std::io::Cursor::new(Vec::new());
    img.write_to(&mut cursor, image::ImageFormat::Png).unwrap();
    cursor.into_inner()
}

#[test]
fn raw_bgr8_pixels_are_swapped() {
    let msg = raw(2, 1, "bgr8", vec![1, 2, 3, 4, 5, 6]);
    let bmp = msg.to_image().unwrap();
    assert_eq!(bmp.width, 2);
    assert_eq!(bmp.height, 1);
    assert_eq!(bmp.data, vec![3, 2, 1, 6, 5, 4]);
}

#[test]
fn raw_channel_swap_twice_is_identity() {
    let data = vec![9, 8, 7, 1, 2, 3, 250, 0, 33, 5, 5, 5];
    let once = raw(2, 2, "bgr8", data.clone()).to_image().unwrap();
    assert_ne!(once.data, data);
    let twice = raw(2, 2, "bgr8", once.data).to_image().unwrap();
    assert_eq!(twice.data, data);
}

#[test]
fn raw_middle_channel_is_untouched() {
    let msg = raw(1, 2, "bgr8", vec![10, 20, 30, 40, 50, 60]);
    let bmp = msg.to_image().unwrap();
    assert_eq!(bmp.data[1], 20);
    assert_eq!(bmp.data[4], 50);
}

#[test]
fn raw_unsupported_encoding_is_an_error() {
    let msg = raw(1, 1, "rgb8", vec![1, 2, 3]);
    assert_eq!(msg.to_image().unwrap_err(), DecodeError::UnsupportedEncoding);
    let msg = raw(1, 1, "mono8", vec![1, 2, 3]);
    assert_eq!(msg.to_image().unwrap_err(), DecodeError::UnsupportedEncoding);
}

#[test]
fn raw_short_buffer_is_an_error() {
    let msg = raw(2, 2, "bgr8", vec![1, 2, 3]);
    assert_eq!(msg.to_image().unwrap_err(), DecodeError::InsufficientBuffer);
}

#[test]
fn raw_buffer_shorter_than_row_stride_is_an_error() {
    let mut msg = raw(1, 1, "bgr8", vec![1, 2, 3]);
    msg.step = 100;
    assert_eq!(msg.to_image().unwrap_err(), DecodeError::InsufficientBuffer);
}

#[test]
fn raw_padded_row_stride_is_accepted() {
    // One 1x1 pixel, declared with a padded 8-byte row: the buffer covers
    // height * step, and only the packed pixel bytes are read.
    let mut msg = raw(1, 1, "bgr8", vec![1, 2, 3, 0, 0, 0, 0, 0]);
    msg.step = 8;
    let bmp = msg.to_image().unwrap();
    assert_eq!(bmp.data, vec![3, 2, 1]);
}

#[test]
fn raw_empty_buffer_zero_size_is_accepted() {
    let msg = raw(0, 0, "bgr8", Vec::new());
    let bmp = msg.to_image().unwrap();
    assert_eq!((bmp.width, bmp.height), (0, 0));
    assert!(bmp.data.is_empty());
}

#[test]
fn raw_oversized_buffer_uses_declared_pixels_only() {
    let msg = raw(1, 1, "bgr8", vec![5, 6, 7, 8, 9]);
    let bmp = msg.to_image().unwrap();
    assert_eq!(bmp.data, vec![7, 6, 5]);
}

#[test]
fn compressed_png_keeps_dimensions_and_pixels() {
    let msg = CompressedImage { header: header(), format: String::from("png"), data: png_bytes(5, 3) };
    let bmp = msg.to_image().unwrap();
    assert_eq!((bmp.width, bmp.height), (5, 3));
    assert_eq!(bmp.data.len(), 5 * 3 * 3);
    let idx = ((2 * 5 + 1) * 3) as usize;
    assert_eq!(&bmp.data[idx..idx + 3], &[1, 2, 200]);
}

#[test]
fn compressed_jpeg_keeps_dimensions() {
    let img = image::RgbImage::from_fn(8, 4, |_, _| image::Rgb([120, 60, 30]));
    let mut cursor = std::io::Cursor::new(Vec::new());
    img.write_to(&mut cursor, image::ImageFormat::Jpeg).unwrap();
    let msg = CompressedImage { header: header(), format: String::from("jpeg"), data: cursor.into_inner() };
    let bmp = msg.to_image().unwrap();
    assert_eq!((bmp.width, bmp.height), (8, 4));
    assert_eq!(bmp.data.len(), 8 * 4 * 3);
}

#[test]
fn compressed_format_tag_is_informational_only() {
    let msg = CompressedImage { header: header(), format: String::from("jpeg"), data: png_bytes(4, 4) };
    let bmp = msg.to_image().unwrap();
    assert_eq!((bmp.width, bmp.height), (4, 4));
}

#[test]
fn compressed_garbage_is_an_error() {
    let msg = CompressedImage {
        header: header(),
        format: String::from("png"),
        data: vec![0x13, 0x37, 0x00, 0xAB, 0xCD, 0xEF, 0x42, 0x42],
    };
    assert_eq!(msg.to_image().unwrap_err(), DecodeError::CodecFailure);
}

#[test]
fn compressed_truncated_buffer_is_an_error() {
    let mut data = png_bytes(5, 3);
    data.truncate(data.len() / 2);
    let msg = CompressedImage { header: header(), format: String::from("png"), data };
    assert_eq!(msg.to_image().unwrap_err(), DecodeError::CodecFailure);
}

#[test]
fn compressed_empty_buffer_is_an_error() {
    let msg = CompressedImage { header: header(), format: String::from("png"), data: Vec::new() };
    assert_eq!(msg.to_image().unwrap_err(), DecodeError::CodecFailure);
}

#[test]
fn topic_type_names() {
    assert_eq!(<RawImage as PreviewImage>::as_str(), "Image");
    assert_eq!(<CompressedImage as PreviewImage>::as_str(), "CompressedImage");
}
