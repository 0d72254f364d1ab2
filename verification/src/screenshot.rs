//! The picture of the remote desktop.
//!
//! Graphics updates are decoded into a frame buffer of the size that the
//! server granted. A screenshot is the content of that buffer as an RGBA
//! image.

use ironrdp::session::image::DecodedImage;
use vstd::prelude::*;

verus! {

/// The frame buffer of the graphics decoder.
#[verifier::external_type_specification]
#[verifier::external_body]
pub struct ExDecodedImage(ironrdp::session::image::DecodedImage);

/// The order of the four channels of a pixel.
#[derive(Clone, Copy, Debug, PartialEq, Eq, Structural)]
pub enum PixelFormat {
    ARgb32,
    XRgb32,
    ABgr32,
    XBgr32,
    BgrA32,
    BgrX32,
    RgbA32,
    RgbX32,
}

/// The bytes of the pixels that a frame buffer holds, row by row.
pub uninterp spec fn image_data(image: &DecodedImage) -> Seq<u8>;

/// The width of a frame buffer in pixels.
pub uninterp spec fn image_width(image: &DecodedImage) -> u16;

/// The height of a frame buffer in pixels.
pub uninterp spec fn image_height(image: &DecodedImage) -> u16;

/// The channel order of the pixels in a frame buffer.
pub uninterp spec fn image_format(image: &DecodedImage) -> PixelFormat;

/// `DecodedImage::new`: a frame buffer of the given size and channel order
/// with four bytes for each pixel, all of them zero.
#[verifier::external_body]
fn new_image(format: PixelFormat, width: u16, height: u16) -> (image: DecodedImage)
    requires
        4 * width * height <= isize::MAX,
    ensures
        image_format(&image) == format,
        image_width(&image) == width,
        image_height(&image) == height,
        image_data(&image) == Seq::new((4 * width * height) as nat, |i: int| 0u8),
{
    let format = match format {
        PixelFormat::ARgb32 => ironrdp_graphics::image_processing::PixelFormat::ARgb32,
        PixelFormat::XRgb32 => ironrdp_graphics::image_processing::PixelFormat::XRgb32,
        PixelFormat::ABgr32 => ironrdp_graphics::image_processing::PixelFormat::ABgr32,
        PixelFormat::XBgr32 => ironrdp_graphics::image_processing::PixelFormat::XBgr32,
        PixelFormat::BgrA32 => ironrdp_graphics::image_processing::PixelFormat::BgrA32,
        PixelFormat::BgrX32 => ironrdp_graphics::image_processing::PixelFormat::BgrX32,
        PixelFormat::RgbA32 => ironrdp_graphics::image_processing::PixelFormat::RgbA32,
        PixelFormat::RgbX32 => ironrdp_graphics::image_processing::PixelFormat::RgbX32,
    };
    DecodedImage::new(format, width, height)
}

/// `DecodedImage::width`: the width of the frame buffer.
pub assume_specification[ ironrdp::session::image::DecodedImage::width ](
    image: &DecodedImage,
) -> (width: u16)
    ensures
        width == image_width(image),
;

/// `DecodedImage::height`: the height of the frame buffer.
pub assume_specification[ ironrdp::session::image::DecodedImage::height ](
    image: &DecodedImage,
) -> (height: u16)
    ensures
        height == image_height(image),
;

/// `DecodedImage::data`: the bytes of the pixels.
pub assume_specification[ ironrdp::session::image::DecodedImage::data ](
    image: &DecodedImage,
) -> (data: &[u8])
    ensures
        data@ == image_data(image),
;

/// This many bytes are enough for an RGBA image of this size, whose rows have a
/// length that the machine can count.
pub open spec fn image_fits(width: u32, height: u32, bytes: nat) -> bool {
    &&& 4 * width <= usize::MAX
    &&& 4 * width * height <= bytes
}

/// `ImageBuffer::from_raw` for RGBA pixels of one byte per channel, and
/// `ImageBuffer::into_raw` back: the image takes the bytes as they are when
/// there are enough of them for its size, and is refused otherwise. It is
/// refused too where the length of a row does not fit in `usize`, even if there
/// are no rows.
#[verifier::external_body]
fn rgba_from_raw(width: u32, height: u32, data: Vec<u8>) -> (pixels: Option<Vec<u8>>)
    ensures
        match pixels {
            Some(pixels) => image_fits(width, height, data@.len()) && pixels@ == data@,
            None => !image_fits(width, height, data@.len()),
        },
{
    image::RgbaImage::from_raw(width, height, data).map(|image| image.into_raw())
}

/// A frame buffer has four bytes for every pixel of its size.
pub open spec fn is_complete(image: &DecodedImage) -> bool {
    4 * image_width(image) * image_height(image) <= image_data(image).len()
}

/// A frame buffer has too few bytes for its size.
#[derive(Clone, Copy, Debug, PartialEq, Eq, Structural)]
pub struct InvalidImage;

/// An RGBA picture of the remote desktop, one byte per channel.
#[derive(Debug)]
pub struct Screenshot {
    pub width: u32,
    pub height: u32,
    pub pixels: Vec<u8>,
}

impl Screenshot {
    /// There are bytes for every pixel.
    pub open spec fn wf(self) -> bool {
        4 * self.width * self.height <= self.pixels@.len()
    }

    /// The picture of this size that these bytes hold, row by row.
    pub fn from_raw(width: u32, height: u32, data: Vec<u8>) -> (screenshot: Result<
        Screenshot,
        InvalidImage,
    >)
        ensures
            match screenshot {
                Ok(screenshot) => {
                    &&& image_fits(width, height, data@.len())
                    &&& screenshot.wf()
                    &&& screenshot.width == width
                    &&& screenshot.height == height
                    &&& screenshot.pixels@ == data@
                },
                Err(InvalidImage) => !image_fits(width, height, data@.len()),
            },
    {
        match rgba_from_raw(width, height, data) {
            Some(pixels) => Ok(Screenshot { width, height, pixels }),
            None => Err(InvalidImage),
        }
    }

    /// The picture that a frame buffer holds.
    pub fn capture(image: &DecodedImage) -> (screenshot: Result<Screenshot, InvalidImage>)
        ensures
            match screenshot {
                Ok(screenshot) => {
                    &&& is_complete(image)
                    &&& screenshot.wf()
                    &&& screenshot.width == image_width(image)
                    &&& screenshot.height == image_height(image)
                    &&& screenshot.pixels@ == image_data(image)
                },
                Err(InvalidImage) => !is_complete(image),
            },
    {
        Screenshot::from_raw(
            image.width() as u32,
            image.height() as u32,
            vstd::slice::slice_to_vec(image.data()),
        )
    }
}

/// The frame buffer for a desktop of the given size: RGBA pixels, black and
/// transparent until the server draws them. A screenshot can be taken of it
/// from the start.
pub fn new_frame_buffer(width: u16, height: u16) -> (image: DecodedImage)
    requires
        4 * width * height <= isize::MAX,
    ensures
        image_format(&image) == PixelFormat::RgbA32,
        image_width(&image) == width,
        image_height(&image) == height,
        image_data(&image) == Seq::new((4 * width * height) as nat, |i: int| 0u8),
        is_complete(&image),
{
    new_image(PixelFormat::RgbA32, width, height)
}

/// A picture is made of bytes exactly where they are enough for its size, four
/// for each pixel, and a row has a length that the machine can count. It has
/// that size, and the bytes are all kept as they are.
pub proof fn law_picture_keeps_bytes(
    width: u32,
    height: u32,
    data: Vec<u8>,
    screenshot: Result<Screenshot, InvalidImage>,
)
    requires
        call_ensures(Screenshot::from_raw, (width, height, data), screenshot),
    ensures
        (screenshot is Ok) == (4 * width <= usize::MAX && data@.len() >= 4 * width * height),
        screenshot matches Ok(screenshot) ==> {
            &&& screenshot.width == width
            &&& screenshot.height == height
            &&& screenshot.pixels@ == data@
        },
{
}

/// A screenshot of a frame buffer succeeds exactly where the buffer has four
/// bytes for each pixel, and has its size and all of its bytes.
pub proof fn law_capture_keeps_bytes(
    image: &DecodedImage,
    screenshot: Result<Screenshot, InvalidImage>,
)
    requires
        call_ensures(Screenshot::capture, (image,), screenshot),
    ensures
        (screenshot is Ok) == (image_data(image).len() >= 4 * image_width(image) * image_height(
            image,
        )),
        screenshot matches Ok(screenshot) ==> {
            &&& screenshot.width == image_width(image)
            &&& screenshot.height == image_height(image)
            &&& screenshot.pixels@ == image_data(image)
        },
{
}

/// A new frame buffer has the size that was asked for, four bytes for each
/// pixel in the order red, green, blue and alpha, and nothing drawn. A
/// screenshot of it succeeds and shows just that.
pub proof fn law_new_frame_buffer(
    width: u16,
    height: u16,
    image: DecodedImage,
    screenshot: Result<Screenshot, InvalidImage>,
)
    requires
        call_ensures(new_frame_buffer, (width, height), image),
        call_ensures(Screenshot::capture, (&image,), screenshot),
    ensures
        image_format(&image) == PixelFormat::RgbA32,
        screenshot matches Ok(screenshot) && {
            &&& screenshot.width == width
            &&& screenshot.height == height
            &&& screenshot.pixels@.len() == 4 * width * height
            &&& forall|i: int| 0 <= i < screenshot.pixels@.len() ==> #[trigger] screenshot.pixels@[i] == 0
        },
{
    assert(4 * width * height >= 0) by (nonlinear_arith);
}

/// A frame buffer can be made for every size that memory can hold.
pub proof fn law_frame_buffer_sizes(width: u16, height: u16)
    requires
        4 * width * height <= isize::MAX,
    ensures
        call_requires(new_frame_buffer, (width, height)),
{
}

} // verus!
