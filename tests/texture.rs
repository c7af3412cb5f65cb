use image::{codecs::png::PngEncoder, ColorType, ImageEncoder};
use kaffee::{ErrorKind, FilterMode, Texture};

fn png(width: u32, height: u32, pixels: &[u8]) -> Vec<u8> {
    let mut out = Vec::new();
    PngEncoder::new(&mut out).write_image(pixels, width, height, ColorType::Rgba8).unwrap();
    out
}

#[test]
fn encoded_two_by_two_texture_round_trip() {
    let pixels: Vec<u8> = vec![255, 0, 0, 255, 0, 255, 0, 255, 0, 0, 255, 255, 9, 8, 7, 6];
    let t = Texture::from_memory(&png(2, 2, &pixels), FilterMode::Linear).unwrap();
    assert_eq!((t.width(), t.height()), (2, 2));
    assert_eq!(t.pixels(), &pixels[..]);
    assert_eq!(t.filter_mode(), FilterMode::Linear);
    assert_eq!(t.bytes_per_row(), 8);
}

#[test]
fn wide_png_keeps_its_dimensions() {
    let pixels = vec![1u8; 3 * 1 * 4];
    let t = Texture::from_memory(&png(3, 1, &pixels), FilterMode::Nearest).unwrap();
    assert_eq!((t.width(), t.height()), (3, 1));
}

#[test]
fn undecodable_bytes_are_an_image_error() {
    assert_eq!(Texture::from_memory(&[1, 2, 3, 4], FilterMode::Nearest).err(), Some(ErrorKind::ImageError));
    assert_eq!(Texture::from_memory(&[], FilterMode::Nearest).err(), Some(ErrorKind::ImageError));
}

#[test]
fn raw_two_by_two_texture() {
    let pixels: Vec<u8> = (0..16).collect();
    let t = Texture::from_raw(2, 2, pixels.clone(), FilterMode::Nearest).unwrap();
    assert_eq!((t.width(), t.height()), (2, 2));
    assert_eq!(t.pixels(), &pixels[..]);
    assert_eq!(Texture::from_raw(2, 2, vec![0; 15], FilterMode::Nearest).err(), Some(ErrorKind::ImageError));
}

#[test]
fn default_white_texture_from_four_bytes() {
    let t = Texture::from_bytes(vec![255, 255, 255, 255], FilterMode::Nearest).unwrap();
    assert_eq!((t.width(), t.height()), (1, 1));
    assert_eq!(t.pixels(), &[255, 255, 255, 255]);
    assert_eq!(Texture::from_bytes(vec![255, 255, 255], FilterMode::Nearest).err(), Some(ErrorKind::ImageError));
}
