//! The image that a worker answers with: pixels written as a PNG file by the
//! `image` crate, the file carried in base 64.

use vstd::prelude::*;
use crate::error::ManagerError;
use crate::task::{B64Image, Inference};
use crate::transcode::{base64_text, can_encode, encodable, encode_standard};

verus! {

/// The error that `image` reports.
#[verifier::external_type_specification]
#[verifier::external_body]
pub struct ExImageError(image::ImageError);

/// The PNG file that `image` writes for an image of `width` by `height`
/// pixels, each of three bytes: red, green, blue. `None` where it refuses to
/// write the file.
pub uninterp spec fn png_file(width: u32, height: u32, rgb: Seq<u8>) -> Option<Seq<u8>>;

/// The number of bytes that the pixels of an image take, three for each.
pub open spec fn rgb_len(width: u32, height: u32) -> nat {
    (3 * (width * height)) as nat
}

/// Calls `write_buffer_with_format` of `image` for the format PNG and the
/// colour type `Rgb8`, on a buffer in memory.
///
/// Believed, not proved: the call writes the file named `png_file`, and
/// fails exactly where that name is `None`. The encoder panics where the
/// number of bytes is not that of the pixels; those inputs are left out.
#[verifier::external_body]
pub(crate) fn write_png(rgb: &Vec<u8>, width: u32, height: u32) -> (r: Result<
    Vec<u8>,
    image::ImageError,
>)
    requires
        rgb@.len() == rgb_len(width, height),
    ensures
        match r {
            Ok(file) => png_file(width, height, rgb@) == Some(file@),
            Err(_) => png_file(width, height, rgb@) is None,
        },
{
    let mut file: Vec<u8> = Vec::new();
    let done = image::write_buffer_with_format(
        &mut std::io::Cursor::new(&mut file),
        rgb,
        width,
        height,
        image::ColorType::Rgb8,
        image::ImageOutputFormat::Png,
    );
    match done {
        Ok(_) => Ok(file),
        Err(e) => Err(e),
    }
}

/// Why no image came of the pixels, if none did.
pub open spec fn render_fault(width: u32, height: u32, pixels: Seq<u8>) -> Option<Seq<char>> {
    if pixels.len() < rgb_len(width, height) {
        Some("the pixels do not fill the image"@)
    } else {
        match png_file(width, height, pixels.take(rgb_len(width, height) as int)) {
            None => Some("the image could not be written as PNG"@),
            Some(file) => if encodable(file.len()) {
                None
            } else {
                Some("the image is too large for base 64"@)
            },
        }
    }
}

/// The result of image-to-image inference from the pixels that the model
/// gave: three bytes for each pixel, row by row. Bytes beyond the last
/// pixel are left out. The image is a PNG file in base 64, with its size.
pub fn render_image(width: u32, height: u32, pixels: Vec<u8>) -> (r: Result<
    Inference,
    ManagerError,
>)
    ensures
        match r {
            Ok(inference) => {
                &&& render_fault(width, height, pixels@) is None
                &&& inference matches Inference::B64Image(b)
                &&& Some(b.image@) == match png_file(
                    width,
                    height,
                    pixels@.take(rgb_len(width, height) as int),
                ) {
                    Some(file) => Some(base64_text(file)),
                    None => None,
                }
                &&& b.height == Some(height)
                &&& b.width == Some(width)
            },
            Err(e) => {
                &&& e matches ManagerError::InferenceFailure(text)
                &&& Some(text@) == render_fault(width, height, pixels@)
            },
        },
{
    let mut pixels = pixels;
    let ghost given = pixels@;
    assert(width * height <= 0xffff_ffff * 0xffff_ffff) by (nonlinear_arith)
        requires
            0 <= width <= 0xffff_ffff,
            0 <= height <= 0xffff_ffff,
    ;
    let area: u64 = (width as u64) * (height as u64);
    if (pixels.len() as u64) / 3 < area {
        return Err(ManagerError::InferenceFailure("the pixels do not fill the image".to_owned()));
    }
    let len: usize = (3 * area) as usize;
    pixels.truncate(len);
    assert(pixels@ == given.take(len as int));
    let file = match write_png(&pixels, width, height) {
        Ok(file) => file,
        Err(_) => {
            return Err(
                ManagerError::InferenceFailure("the image could not be written as PNG".to_owned()),
            );
        },
    };
    if !can_encode(file.len()) {
        return Err(ManagerError::InferenceFailure("the image is too large for base 64".to_owned()));
    }
    let image = encode_standard(&file);
    Ok(Inference::B64Image(B64Image { image, height: Some(height), width: Some(width) }))
}

} // verus!
