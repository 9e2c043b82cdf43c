use sc2f::{apply_orientation, load_image_from_bytes, DecodeError, ExifOrientation, Orientation, PixelBuffer, Turn};
use std::io::Cursor;

fn px(v: u8) -> [u8; 4] {
    [v, v, v, 255]
}

/// A 3 by 2 picture whose pixels are numbered row by row.
fn sample() -> PixelBuffer {
    PixelBuffer::from_rows(3, vec![vec![px(1), px(2), px(3)], vec![px(4), px(5), px(6)]]).unwrap()
}

fn rows_of(p: &PixelBuffer) -> Vec<Vec<[u8; 4]>> {
    p.rows().clone()
}

fn png_bytes() -> Vec<u8> {
    let data: Vec<u8> = (0..6u8).flat_map(|i| [10 * i, 1, 2, 255]).collect();
    let img = image::RgbaImage::from_raw(3, 2, data).unwrap();
    let mut out = Vec::new();
    image::DynamicImage::ImageRgba8(img)
        .write_to(&mut Cursor::new(&mut out), image::ImageOutputFormat::Png)
        .unwrap();
    out
}

/// A 4 by 2 JPEG whose EXIF data gives orientation `tag`.
fn jpeg_with_orientation(tag: u8) -> Vec<u8> {
    let data = vec![128u8; 4 * 2 * 3];
    let mut jpeg = Vec::new();
    image::codecs::jpeg::JpegEncoder::new(&mut jpeg)
        .encode(&data, 4, 2, image::ColorType::Rgb8)
        .unwrap();
    let mut app1 = vec![0xff, 0xe1, 0x00, 0x22];
    app1.extend_from_slice(b"Exif\0\0");
    app1.extend_from_slice(&[b'M', b'M', 0, 42, 0, 0, 0, 8]);
    app1.extend_from_slice(&[0, 1]);
    app1.extend_from_slice(&[0x01, 0x12, 0, 3, 0, 0, 0, 1, 0, tag, 0, 0]);
    app1.extend_from_slice(&[0, 0, 0, 0]);
    let mut out = jpeg[..2].to_vec();
    out.extend_from_slice(&app1);
    out.extend_from_slice(&jpeg[2..]);
    out
}

#[test]
fn from_rows_rejects_ragged_rows() {
    assert!(PixelBuffer::from_rows(2, vec![vec![px(1), px(2)], vec![px(3)]]).is_none());
    let p = sample();
    assert_eq!((p.width(), p.height()), (3, 2));
    assert_eq!(p.pixel(2, 1), px(6));
}

#[test]
fn flip_horizontal_mirrors_rows() {
    let p = sample().turn(Turn::FlipHorizontal);
    assert_eq!(rows_of(&p), vec![vec![px(3), px(2), px(1)], vec![px(6), px(5), px(4)]]);
}

#[test]
fn flip_vertical_swaps_rows() {
    let p = sample().turn(Turn::FlipVertical);
    assert_eq!(rows_of(&p), vec![vec![px(4), px(5), px(6)], vec![px(1), px(2), px(3)]]);
}

#[test]
fn rotate90_turns_clockwise() {
    let p = sample().turn(Turn::Rotate90);
    assert_eq!((p.width(), p.height()), (2, 3));
    assert_eq!(rows_of(&p), vec![vec![px(4), px(1)], vec![px(5), px(2)], vec![px(6), px(3)]]);
}

#[test]
fn rotate270_turns_counterclockwise() {
    let p = sample().turn(Turn::Rotate270);
    assert_eq!(rows_of(&p), vec![vec![px(3), px(6)], vec![px(2), px(5)], vec![px(1), px(4)]]);
}

#[test]
fn rotate180_twice_gives_original() {
    let p = sample().turn(Turn::Rotate180);
    assert_eq!(rows_of(&p), vec![vec![px(6), px(5), px(4)], vec![px(3), px(2), px(1)]]);
    assert_eq!(rows_of(&p.turn(Turn::Rotate180)), rows_of(&sample()));
}

#[test]
fn mirror_twice_gives_original() {
    let p = apply_orientation(sample(), Orientation::MirrorHorizontal);
    let q = apply_orientation(p, Orientation::MirrorHorizontal);
    assert_eq!(rows_of(&q), rows_of(&sample()));
}

#[test]
fn rotate90_then_270_gives_original() {
    let p = apply_orientation(sample(), Orientation::Rotate90);
    let q = apply_orientation(p, Orientation::Rotate270);
    assert_eq!(rows_of(&q), rows_of(&sample()));
}

#[test]
fn mirrored_rotations_compose() {
    let p = apply_orientation(sample(), Orientation::MirrorHorizontalRotate90);
    assert_eq!(rows_of(&p), vec![vec![px(6), px(3)], vec![px(5), px(2)], vec![px(4), px(1)]]);
    let q = apply_orientation(sample(), Orientation::MirrorHorizontalRotate270);
    assert_eq!(rows_of(&q), vec![vec![px(1), px(4)], vec![px(2), px(5)], vec![px(3), px(6)]]);
}

#[test]
fn png_decodes_to_its_pixels() {
    let d = load_image_from_bytes(&png_bytes()).unwrap();
    assert!(matches!(d.orientation, ExifOrientation::Absent));
    assert_eq!((d.image.width(), d.image.height()), (3, 2));
    assert_eq!(d.image.pixel(0, 0), [0, 1, 2, 255]);
    assert_eq!(d.image.pixel(2, 1), [50, 1, 2, 255]);
}

#[test]
fn orientation_six_swaps_dimensions() {
    let d = load_image_from_bytes(&jpeg_with_orientation(6)).unwrap();
    assert!(matches!(d.orientation, ExifOrientation::Known(Orientation::Rotate90)));
    assert_eq!((d.image.width(), d.image.height()), (2, 4));
}

#[test]
fn orientation_one_keeps_dimensions() {
    let d = load_image_from_bytes(&jpeg_with_orientation(1)).unwrap();
    assert!(matches!(d.orientation, ExifOrientation::Known(Orientation::Normal)));
    assert_eq!((d.image.width(), d.image.height()), (4, 2));
}

#[test]
fn unknown_orientation_is_kept_as_stored() {
    let d = load_image_from_bytes(&jpeg_with_orientation(9)).unwrap();
    match d.orientation {
        ExifOrientation::Unrecognized(v) => assert_eq!(v, vec![9]),
        _ => panic!("orientation 9 should be unrecognized"),
    }
    assert_eq!((d.image.width(), d.image.height()), (4, 2));
}

#[test]
fn garbage_is_a_format_error() {
    assert_eq!(load_image_from_bytes(b"not an image at all").err(), Some(DecodeError::Format));
    assert_eq!(load_image_from_bytes(&[]).err(), Some(DecodeError::Format));
}
