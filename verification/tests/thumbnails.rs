use std::io::Cursor;

use slimjelly::thumbnails::{thumbnail_outcome, ThumbnailOutcome};

#[test]
fn png_bytes_decode_to_rgba_pixels() {
    let mut img = image::RgbaImage::new(2, 1);
    img.put_pixel(1, 0, image::Rgba([10, 20, 30, 255]));
    let mut bytes = Cursor::new(Vec::new());
    img.write_to(&mut bytes, image::ImageFormat::Png).expect("png encodes");
    match thumbnail_outcome(&bytes.into_inner()) {
        ThumbnailOutcome::Ready(d) => {
            assert_eq!((d.width, d.height), (2, 1));
            assert_eq!(d.rgba, vec![0, 0, 0, 0, 10, 20, 30, 255]);
        }
        ThumbnailOutcome::Failed => panic!("a png must decode"),
    }
}

#[test]
fn bytes_that_are_no_image_fail() {
    assert!(matches!(thumbnail_outcome(&b"not an image".to_vec()), ThumbnailOutcome::Failed));
}
