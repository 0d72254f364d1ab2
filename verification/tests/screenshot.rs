use ironrdp::session::image::DecodedImage;
use ironrdp_graphics::image_processing::PixelFormat;
use rdp_screenshot::screenshot::{new_frame_buffer, InvalidImage, Screenshot};

#[test]
fn new_buffer_is_black_and_transparent() {
    let image = new_frame_buffer(7, 5);
    assert_eq!(image.width(), 7);
    assert_eq!(image.height(), 5);
    assert_eq!(image.data(), [0u8; 140]);
    assert_eq!(image.pixel_format(), PixelFormat::RgbA32);
}

#[test]
fn new_buffer_can_be_captured() {
    let screenshot = Screenshot::capture(&new_frame_buffer(1280, 1024)).unwrap();
    assert_eq!(screenshot.width, 1280);
    assert_eq!(screenshot.height, 1024);
    assert_eq!(screenshot.pixels.len(), 1280 * 1024 * 4);
}

#[test]
fn buffer_of_no_pixels_can_be_captured() {
    let screenshot = Screenshot::capture(&new_frame_buffer(0, 9)).unwrap();
    assert_eq!(screenshot.width, 0);
    assert_eq!(screenshot.height, 9);
    assert!(screenshot.pixels.is_empty());
}

#[test]
fn capture_reads_any_buffer() {
    let image = DecodedImage::new(PixelFormat::BgrX32, 3, 2);
    let screenshot = Screenshot::capture(&image).unwrap();
    assert_eq!(screenshot.pixels, image.data());
    assert_eq!((screenshot.width, screenshot.height), (3, 2));
}

#[test]
fn bytes_for_every_pixel_are_needed() {
    let screenshot = Screenshot::from_raw(2, 3, vec![5; 24]).unwrap();
    assert_eq!(screenshot.pixels, [5; 24]);
    assert_eq!((screenshot.width, screenshot.height), (2, 3));
    let screenshot = Screenshot::from_raw(2, 3, vec![5; 30]).unwrap();
    assert_eq!(screenshot.pixels, [5; 30]);
    assert_eq!(Screenshot::from_raw(2, 3, vec![5; 23]).unwrap_err(), InvalidImage);
    assert_eq!(Screenshot::from_raw(u32::MAX, u32::MAX, vec![5; 23]).unwrap_err(), InvalidImage);
}
