use std::io::Cursor;

use the_code::texture::{rgb_to_rgba, texture_bytes_per_row, texture_rgba, PixelFormat};

#[test]
fn rgb_pixels_gain_an_opaque_alpha() {
    assert_eq!(rgb_to_rgba(&[1, 2, 3, 4, 5, 6]), vec![1, 2, 3, 255, 4, 5, 6, 255]);
}

#[test]
fn rgb_incomplete_pixel_is_dropped() {
    assert_eq!(rgb_to_rgba(&[9, 8, 7, 6, 5]), vec![9, 8, 7, 255]);
    assert_eq!(rgb_to_rgba(&[9, 8]), Vec::<u8>::new());
    assert_eq!(rgb_to_rgba(&[]), Vec::<u8>::new());
}

#[test]
fn rgb_expansion_keeps_every_channel() {
    let pixels: Vec<u8> = (0..300u32).map(|i| (i % 251) as u8).collect();
    let rgba = rgb_to_rgba(&pixels);
    assert_eq!(rgba.len(), 400);
    for k in 0..100 {
        assert_eq!(&rgba[4 * k..4 * k + 3], &pixels[3 * k..3 * k + 3]);
        assert_eq!(rgba[4 * k + 3], 255);
    }
}

#[test]
fn texture_rgb_is_expanded() {
    assert_eq!(texture_rgba(PixelFormat::R8G8B8, &[1, 2, 3]), Some(vec![1, 2, 3, 255]));
}

#[test]
fn texture_rgba_is_kept() {
    assert_eq!(
        texture_rgba(PixelFormat::R8G8B8A8, &[1, 2, 3, 4, 5, 6, 7, 8]),
        Some(vec![1, 2, 3, 4, 5, 6, 7, 8])
    );
}

#[test]
fn texture_other_format_is_decoded() {
    let img = image::RgbImage::from_raw(2, 1, vec![10, 20, 30, 40, 50, 60]).unwrap();
    let mut png: Vec<u8> = Vec::new();
    img.write_to(&mut Cursor::new(&mut png), image::ImageFormat::Png).unwrap();
    assert_eq!(
        texture_rgba(PixelFormat::Other, &png),
        Some(vec![10, 20, 30, 255, 40, 50, 60, 255])
    );
}

#[test]
fn texture_undecodable_bytes_give_nothing() {
    assert_eq!(texture_rgba(PixelFormat::Other, &[1, 2, 3, 4]), None);
    assert_eq!(texture_rgba(PixelFormat::Other, &[]), None);
}

#[test]
fn rows_are_four_bytes_per_pixel() {
    assert_eq!(texture_bytes_per_row(0), 0);
    assert_eq!(texture_bytes_per_row(512), 2048);
    assert_eq!(texture_bytes_per_row(u32::MAX / 4), u32::MAX - 3);
}

#[test]
fn texture_jpeg_is_decoded_to_rgba() {
    let img = image::RgbImage::from_raw(2, 2, vec![200; 12]).unwrap();
    let mut jpeg: Vec<u8> = Vec::new();
    img.write_to(&mut Cursor::new(&mut jpeg), image::ImageFormat::Jpeg).unwrap();
    let rgba = texture_rgba(PixelFormat::Other, &jpeg).unwrap();
    assert_eq!(rgba.len(), 16);
    for k in 0..4 {
        assert_eq!(rgba[4 * k + 3], 255);
    }
}

#[test]
fn texture_of_a_format_without_decoder_gives_nothing() {
    let mut gif = b"GIF89a".to_vec();
    gif.extend_from_slice(&[1, 0, 1, 0, 0, 0, 0]);
    assert_eq!(texture_rgba(PixelFormat::Other, &gif), None);
}
