//! The picture that visitors can replace. An upload is taken only where it
//! decodes as a picture of exactly the size of the canvas. Decoding is the
//! `image` crate's.

use crate::http::Status;
use image::DynamicImage;
use image::ImageReader;
use std::io::Cursor;
use vstd::prelude::*;

verus! {

/// Width of the canvas, in pixels.
pub const PAINT_WIDTH: u32 = 1920;

/// Height of the canvas, in pixels.
pub const PAINT_HEIGHT: u32 = 1080;

/// Name of the file that the picture is kept in, as a PNG.
pub const PAINT_FILE: &'static str = "paint.png";

#[verifier::external_type_specification]
#[verifier::external_body]
pub struct ExDynamicImage(image::DynamicImage);

/// The width of a decoded picture, in pixels.
pub uninterp spec fn width_of(picture: DynamicImage) -> u32;

/// The height of a decoded picture, in pixels.
pub uninterp spec fn height_of(picture: DynamicImage) -> u32;

/// Decodes bytes as a picture: `ImageReader::new` on the bytes, then
/// `with_guessed_format` and `decode`, an error of either giving nothing.
/// Which bytes decode depends on the formats that the `image` crate was built
/// with and on the decoders registered with it, so nothing is claimed of the
/// outcome.
#[verifier::external_body]
fn decode(bytes: &[u8]) -> Option<DynamicImage> {
    ImageReader::new(Cursor::new(bytes)).with_guessed_format().ok().and_then(
        |reader| reader.decode().ok(),
    )
}

/// Calls `DynamicImage::width`.
#[verifier::external_body]
fn width(picture: &DynamicImage) -> (pixels: u32)
    ensures
        pixels == width_of(*picture),
{
    picture.width()
}

/// Calls `DynamicImage::height`.
#[verifier::external_body]
fn height(picture: &DynamicImage) -> (pixels: u32)
    ensures
        pixels == height_of(*picture),
{
    picture.height()
}

/// Whether a picture has exactly the size of the canvas.
pub open spec fn fits_canvas(picture: DynamicImage) -> bool {
    height_of(picture) == PAINT_HEIGHT && width_of(picture) == PAINT_WIDTH
}

/// The picture to store for an upload that decoded as `decoded`: the picture
/// itself where there is one and it fits the canvas.
pub open spec fn accepted(decoded: Option<DynamicImage>) -> Option<DynamicImage> {
    match decoded {
        Some(picture) if fits_canvas(picture) => Some(picture),
        _ => None,
    }
}

/// The status that an upload is answered with: a bad request where it was not
/// accepted, else created or a server error as storing it went.
pub open spec fn upload_status(was_accepted: bool, stored: bool) -> Status {
    if !was_accepted {
        Status::BadRequest
    } else if stored {
        Status::Created
    } else {
        Status::InternalServerError
    }
}

/// Decides `fits_canvas`.
pub fn has_canvas_size(picture: &DynamicImage) -> (fits: bool)
    ensures
        fits == fits_canvas(*picture),
{
    height(picture) == PAINT_HEIGHT && width(picture) == PAINT_WIDTH
}

/// Takes a decoded upload where it fits the canvas.
pub fn accept_picture(decoded: Option<DynamicImage>) -> (picture: Option<DynamicImage>)
    ensures
        picture == accepted(decoded),
{
    match decoded {
        Some(picture) => {
            if has_canvas_size(&picture) {
                Some(picture)
            } else {
                None
            }
        },
        None => None,
    }
}

/// Decodes an upload and takes it where it fits the canvas. What comes back
/// is the picture to store in `PAINT_FILE`.
pub fn accept_upload(bytes: &[u8]) -> (picture: Option<DynamicImage>)
    ensures
        picture matches Some(p) ==> fits_canvas(p),
{
    accept_picture(decode(bytes))
}

/// The status to answer an upload with.
pub fn update_status(was_accepted: bool, stored: bool) -> (status: Status)
    ensures
        status == upload_status(was_accepted, stored),
{
    if !was_accepted {
        Status::BadRequest
    } else if stored {
        Status::Created
    } else {
        Status::InternalServerError
    }
}

} // verus!
