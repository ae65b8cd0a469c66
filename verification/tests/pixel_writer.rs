use camera_man::config::{VIRTUAL_CAMERA_HEIGHT, VIRTUAL_CAMERA_WIDTH};
use camera_man::frame::{Frame, FrameView, PixelFormat};
use camera_man::pixel_writer::{
    fill_from_frame_view, fill_placeholder_frame, nearest_source_coordinate,
};

#[test]
fn unsafe_pixel_writers_respect_the_validated_padded_destination() {
    let row_bytes = VIRTUAL_CAMERA_WIDTH as usize * 4 + 32;
    let mut destination = vec![0_u8; row_bytes * VIRTUAL_CAMERA_HEIGHT as usize];
    let source = Frame::solid_bgra(2, 2, [7, 11, 13, 255], None, None).unwrap();

    fill_from_frame_view(&mut destination, row_bytes, source.as_view());
    assert_eq!(&destination[..4], &[7, 11, 13, 255]);
    let last =
        (VIRTUAL_CAMERA_HEIGHT as usize - 1) * row_bytes + (VIRTUAL_CAMERA_WIDTH as usize - 1) * 4;
    assert_eq!(&destination[last..last + 4], &[7, 11, 13, 255]);

    fill_placeholder_frame(&mut destination, row_bytes, 9);
    assert_eq!(destination[3], 255);
    assert_eq!(destination[last + 3], 255);
}

#[test]
fn nearest_sampling_stretches_each_source_pixel_evenly() {
    assert_eq!(nearest_source_coordinate(0, 2, 1920), 0);
    assert_eq!(nearest_source_coordinate(959, 2, 1920), 0);
    assert_eq!(nearest_source_coordinate(960, 2, 1920), 1);
    assert_eq!(nearest_source_coordinate(1919, 2, 1920), 1);
    assert_eq!(nearest_source_coordinate(1079, 1080, 1080), 1079);
    assert_eq!(nearest_source_coordinate(5, 3840, 1920), 10);
}

#[test]
fn row_padding_and_trailing_bytes_are_left_alone() {
    let row_bytes = VIRTUAL_CAMERA_WIDTH as usize * 4 + 8;
    let total = row_bytes * VIRTUAL_CAMERA_HEIGHT as usize + 5;
    let mut destination = vec![0xAB_u8; total];
    let source = Frame::solid_bgra(1, 1, [1, 2, 3, 4], None, None).unwrap();
    fill_from_frame_view(&mut destination, row_bytes, source.as_view());
    let padding = VIRTUAL_CAMERA_WIDTH as usize * 4;
    assert_eq!(&destination[padding..row_bytes], &[0xAB; 8]);
    assert_eq!(&destination[total - 5..], &[0xAB; 5]);
    assert_eq!(&destination[row_bytes..row_bytes + 4], &[1, 2, 3, 4]);
}

#[test]
fn a_padded_source_view_is_copied_row_by_row_at_full_size() {
    let width = VIRTUAL_CAMERA_WIDTH;
    let height = VIRTUAL_CAMERA_HEIGHT;
    let stride = width as usize * 4 + 4;
    let mut data = vec![0_u8; stride * height as usize];
    for y in 0..height as usize {
        data[y * stride] = (y % 251) as u8;
    }
    let view = FrameView::new_checked(width, height, PixelFormat::Bgra8, stride, &data).unwrap();
    let row_bytes = width as usize * 4;
    let mut destination = vec![0xFF_u8; row_bytes * height as usize];
    fill_from_frame_view(&mut destination, row_bytes, view);
    assert_eq!(destination[0], 0);
    assert_eq!(destination[row_bytes * 300], (300 % 251) as u8);
    assert_eq!(destination[row_bytes * 300 + 1], 0);
}

#[test]
fn the_placeholder_scrolls_with_the_sequence() {
    let row_bytes = VIRTUAL_CAMERA_WIDTH as usize * 4;
    let mut first = vec![0_u8; row_bytes * VIRTUAL_CAMERA_HEIGHT as usize];
    fill_placeholder_frame(&mut first, row_bytes, 0);
    // Pixel (0, 0) with sequence 0: band and vertical agree, pulse 0.
    assert_eq!(&first[..4], &[0, 58, 96, 255]);
    // Pixel (160, 0): the vertical band flips, pulse 160 plus 40.
    assert_eq!(&first[640..644], &[48, 132, 200, 255]);
    let mut shifted = vec![0_u8; first.len()];
    fill_placeholder_frame(&mut shifted, row_bytes, 160);
    // Sequence 160 moves the band boundary left by 160 pixels.
    assert_eq!(&shifted[..3], &[48, 132, 255]);
}
