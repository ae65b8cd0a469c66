use std::cell::Cell;

use camera_man::frame::{Frame, PixelFormat};
use camera_man::frame_export::{encode_ppm, encode_ppm_header};

#[test]
fn a_frame_encodes_as_binary_ppm_with_alpha_dropped() {
    let frame = Frame::new_checked(2, 1, PixelFormat::Bgra8, vec![1, 2, 3, 4, 5, 6, 7, 8], None, None).unwrap();
    let bytes = encode_ppm(&frame, || false).unwrap();
    let mut expected = b"P6\n2 1\n255\n".to_vec();
    expected.extend_from_slice(&[3, 2, 1, 7, 6, 5]);
    assert_eq!(bytes, expected);
}

#[test]
fn a_cancelled_export_stops_with_the_cancelled_error() {
    let frame = Frame::new_checked(2, 1, PixelFormat::Bgra8, vec![0; 8], None, None).unwrap();
    assert_eq!(encode_ppm(&frame, || true), Err(String::from("cancelled")));
}

#[test]
fn the_header_spells_the_geometry_in_decimal() {
    assert_eq!(encode_ppm_header(1920, 1080), b"P6\n1920 1080\n255\n".to_vec());
    assert_eq!(encode_ppm_header(0, 7), b"P6\n0 7\n255\n".to_vec());
}

#[test]
fn cancellation_is_polled_once_per_block_of_pixels() {
    let frame = Frame::solid_bgra(16385, 1, [0, 0, 0, 255], None, None).unwrap();
    let polls = Cell::new(0);
    let bytes = encode_ppm(&frame, || {
        polls.set(polls.get() + 1);
        false
    })
    .unwrap();
    assert_eq!(polls.get(), 2);
    assert_eq!(bytes.len(), b"P6\n16385 1\n255\n".len() + 16385 * 3);
}
