use niri_shot::config::{Config, ImageFormat};
use niri_shot::png::png_dims;

fn png_header(w: u32, h: u32) -> Vec<u8> {
    let mut d = vec![137u8, 80, 78, 71, 13, 10, 26, 10];
    d.extend_from_slice(&[0, 0, 0, 13]);
    d.extend_from_slice(&[73, 72, 68, 82]);
    d.extend_from_slice(&w.to_be_bytes());
    d.extend_from_slice(&h.to_be_bytes());
    d
}

#[test]
fn well_formed_header_yields_the_dimensions() {
    assert_eq!(png_dims(&png_header(1920, 1080)), Some((1920, 1080)));
    assert_eq!(png_dims(&png_header(1, 1)), Some((1, 1)));
}

#[test]
fn short_or_corrupt_headers_yield_nothing() {
    assert_eq!(png_dims(&[]), None);
    assert_eq!(png_dims(&png_header(10, 10)[..20]), None);
    let mut bad_sig = png_header(10, 10);
    bad_sig[1] = b'Q';
    assert_eq!(png_dims(&bad_sig), None);
    let mut bad_chunk = png_header(10, 10);
    bad_chunk[12] = b'X';
    assert_eq!(png_dims(&bad_chunk), None);
}

#[test]
fn zero_sized_images_are_rejected() {
    assert_eq!(png_dims(&png_header(0, 10)), None);
    assert_eq!(png_dims(&png_header(10, 0)), None);
}

#[test]
fn default_config_uses_a_timestamped_png_template() {
    let c = Config::with_save_directory("/home/someone/Pictures/Screenshots".to_string());
    assert_eq!(c.save_directory, "/home/someone/Pictures/Screenshots");
    assert_eq!(c.filename_template, "screenshot-%Y-%m-%d-%H%M%S");
    assert_eq!(c.default_format, ImageFormat::Png);
}
