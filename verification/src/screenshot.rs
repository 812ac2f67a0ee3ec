//! The PNG still that the Direct3D 9 capture path writes of a frame.

use vstd::prelude::*;
use crate::capture::rgba_frame_len;

verus! {

/// The bytes of the PNG file that the `png` crate writes for an RGBA image
/// with eight bits per channel of the given size and pixels, with the
/// encoder's default options; `None` when it refuses to encode.
pub uninterp spec fn png_rgba8_file(width: u32, height: u32, pixels: Seq<u8>) -> Option<Seq<u8>>;

/// Encodes `pixels` with `png::Encoder` (colour type RGBA, bit depth eight,
/// all other options at their defaults) into memory. The crate refuses a zero
/// width or height and pixel data whose length is not `width * height * 4`;
/// on any other input it succeeds, since writing into a `Vec` does not fail.
/// Which bytes it writes is only named, not stated.
#[verifier::external_body]
fn encode_png_rgba8(width: u32, height: u32, pixels: &[u8]) -> (r: Option<Vec<u8>>)
    requires
        width * height * 4 <= u32::MAX,
    ensures
        r is Some <==> png_rgba8_file(width, height, pixels@) is Some,
        r matches Some(bytes) ==> png_rgba8_file(width, height, pixels@) == Some(bytes@),
        (width == 0 || height == 0 || pixels@.len() != width * height * 4) ==> r is None,
        (width > 0 && height > 0 && pixels@.len() == width * height * 4) ==> r is Some,
{
    let mut out: Vec<u8> = Vec::new();
    let mut encoder = png::Encoder::new(&mut out, width, height);
    encoder.set_color(png::ColorType::Rgba);
    encoder.set_depth(png::BitDepth::Eight);
    let mut writer = match encoder.write_header() {
        Ok(writer) => writer,
        Err(_) => return None,
    };
    if writer.write_image_data(pixels).is_err() {
        return None;
    }
    if writer.finish().is_err() {
        return None;
    }
    Some(out)
}

/// The PNG file of a captured frame of `width` by `height` RGBA pixels, or
/// `None` exactly when the frame is empty or `pixels` does not hold exactly
/// one frame.
pub fn encode_screenshot(width: u32, height: u32, pixels: &[u8]) -> (r: Option<Vec<u8>>)
    requires
        width * height * 4 <= u32::MAX,
    ensures
        r is Some <==> (width > 0 && height > 0 && pixels@.len() == width * height * 4),
        r matches Some(bytes) ==> png_rgba8_file(width, height, pixels@) == Some(bytes@),
{
    let frame_len = rgba_frame_len(width, height);
    if width == 0 || height == 0 || pixels.len() != frame_len as usize {
        return None;
    }
    encode_png_rgba8(width, height, pixels)
}

} // verus!
