use image::DynamicImage;
use image::ImageFormat;
use site_backend::http::Status;
use site_backend::paint::accept_picture;
use site_backend::paint::accept_upload;
use site_backend::paint::has_canvas_size;
use site_backend::paint::update_status;
use site_backend::paint::PAINT_FILE;
use site_backend::paint::PAINT_HEIGHT;
use site_backend::paint::PAINT_WIDTH;
use std::io::Cursor;

fn encoded(width: u32, height: u32, format: ImageFormat) -> Vec<u8> {
    let mut bytes = Vec::new();
    DynamicImage::new_rgb8(width, height).write_to(&mut Cursor::new(&mut bytes), format).unwrap();
    bytes
}

#[test]
fn canvas() {
    assert_eq!(PAINT_WIDTH, 1920);
    assert_eq!(PAINT_HEIGHT, 1080);
    assert_eq!(PAINT_FILE, "paint.png");
}

#[test]
fn a_picture_of_the_canvas_size_fits() {
    assert!(has_canvas_size(&DynamicImage::new_rgb8(1920, 1080)));
    assert!(has_canvas_size(&DynamicImage::new_luma8(1920, 1080)));
}

#[test]
fn a_picture_of_another_size_does_not_fit() {
    assert!(!has_canvas_size(&DynamicImage::new_rgb8(1080, 1920)));
    assert!(!has_canvas_size(&DynamicImage::new_rgb8(1920, 1079)));
    assert!(!has_canvas_size(&DynamicImage::new_rgb8(1919, 1080)));
    assert!(!has_canvas_size(&DynamicImage::new_rgb8(1080, 1080)));
    assert!(!has_canvas_size(&DynamicImage::new_rgb8(1920, 1920)));
    assert!(!has_canvas_size(&DynamicImage::new_rgb8(0, 0)));
}

#[test]
fn accept_picture_keeps_a_fitting_picture() {
    let picture = accept_picture(Some(DynamicImage::new_rgb8(1920, 1080))).unwrap();
    assert_eq!((picture.width(), picture.height()), (1920, 1080));
}

#[test]
fn accept_picture_drops_the_rest() {
    assert!(accept_picture(Some(DynamicImage::new_rgb8(1080, 1920))).is_none());
    assert!(accept_picture(Some(DynamicImage::new_rgb8(1, 1))).is_none());
    assert!(accept_picture(None).is_none());
}

#[test]
fn accept_upload_takes_a_png_of_the_canvas_size() {
    let picture = accept_upload(&encoded(1920, 1080, ImageFormat::Png)).unwrap();
    assert_eq!((picture.width(), picture.height()), (1920, 1080));
}

#[test]
fn accept_upload_takes_other_formats_too() {
    let picture = accept_upload(&encoded(1920, 1080, ImageFormat::Bmp)).unwrap();
    assert_eq!((picture.width(), picture.height()), (1920, 1080));
}

#[test]
fn accept_upload_refuses_another_size() {
    assert!(accept_upload(&encoded(1080, 1920, ImageFormat::Png)).is_none());
    assert!(accept_upload(&encoded(64, 64, ImageFormat::Png)).is_none());
}

#[test]
fn accept_upload_refuses_what_is_no_picture() {
    assert!(accept_upload(b"").is_none());
    assert!(accept_upload(b"not a picture at all").is_none());
    let mut cut = encoded(1920, 1080, ImageFormat::Png);
    cut.truncate(40);
    assert!(accept_upload(&cut).is_none());
}

#[test]
fn update_status_of_each_outcome() {
    assert_eq!(update_status(true, true), Status::Created);
    assert_eq!(update_status(true, false), Status::InternalServerError);
    assert_eq!(update_status(false, false), Status::BadRequest);
    assert_eq!(update_status(false, true), Status::BadRequest);
}
