use std::io::Cursor;

use surreal_plugin::picture::{placeholder_hash, process_image, ImageFailure, Pixels};

fn solid(width: u32, height: u32, rgba: [u8; 4]) -> Pixels {
    let mut bytes = Vec::new();
    for _ in 0..width * height {
        bytes.extend_from_slice(&rgba);
    }
    Pixels { width, height, rgba: bytes }
}

fn png(width: u32, height: u32) -> Vec<u8> {
    let img = image::RgbaImage::from_fn(width, height, |x, y| {
        image::Rgba([(x * 7 % 256) as u8, (y * 5 % 256) as u8, 90, 255])
    });
    let mut out = Cursor::new(Vec::new());
    img.write_to(&mut out, image::ImageFormat::Png).expect("png encoding");
    out.into_inner()
}

#[test]
fn placeholder_has_the_blurhash_length_for_four_by_four() {
    let s = placeholder_hash(&solid(8, 8, [200, 30, 30, 255])).unwrap();
    assert_eq!(s.len(), 1 + 1 + 4 + 2 * 15);
}

#[test]
fn placeholder_depends_on_the_pixels() {
    let red = placeholder_hash(&solid(8, 8, [220, 20, 20, 255])).unwrap();
    let blue = placeholder_hash(&solid(8, 8, [20, 20, 220, 255])).unwrap();
    assert_ne!(red, blue);
}

#[test]
fn short_or_empty_pixels_are_a_size_error() {
    let mut p = solid(4, 4, [0, 0, 0, 255]);
    p.rgba.truncate(10);
    assert_eq!(placeholder_hash(&p), Err(ImageFailure::Size));
    assert_eq!(placeholder_hash(&solid(0, 3, [0, 0, 0, 0])), Err(ImageFailure::Size));
}

#[test]
fn garbage_bytes_are_a_decode_error() {
    assert_eq!(process_image(b"definitely not an image"), Err(ImageFailure::Decode));
}

#[test]
fn picture_becomes_jpeg_with_placeholder() {
    let data = process_image(&png(1200, 300)).unwrap();
    assert_eq!(&data.bytes[..2], &[0xFF, 0xD8]);
    assert_eq!(data.blurhash.len(), 36);
    let decoded = image::load_from_memory(&data.bytes).unwrap();
    assert_eq!((decoded.width(), decoded.height()), (600, 150));
}

#[test]
fn placeholder_uses_base83_digits_and_states_its_size() {
    let digits = "0123456789ABCDEFGHIJKLMNOPQRSTUVWXYZabcdefghijklmnopqrstuvwxyz#$%*+,-.:;=?@[]^_{|}~";
    let s = placeholder_hash(&solid(5, 3, [10, 200, 90, 255])).unwrap();
    assert!(s.chars().all(|c| digits.contains(c)));
    assert_eq!(s.chars().next(), digits.chars().nth(3 + 3 * 9));
}
