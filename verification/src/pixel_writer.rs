//! Filling the virtual camera's padded output rows: the animated
//! placeholder shown without a producer frame, and producer frames copied
//! or scaled (nearest neighbour) to the output size.
use vstd::prelude::*;

use crate::config::{VIRTUAL_CAMERA_HEIGHT, VIRTUAL_CAMERA_WIDTH};
use crate::frame::{view_row, FrameView, FrameViewModel};

verus! {

/// Output width in pixels.
pub const OUTPUT_WIDTH: usize = 1920;

/// Output height in pixels.
pub const OUTPUT_HEIGHT: usize = 1080;

/// Bytes of pixel data in one output row.
pub const OUTPUT_ROW_BYTES: usize = 7680;

/// The output geometry matches the virtual camera's format.
pub proof fn lemma_output_geometry()
    ensures
        OUTPUT_WIDTH == VIRTUAL_CAMERA_WIDTH,
        OUTPUT_HEIGHT == VIRTUAL_CAMERA_HEIGHT,
        OUTPUT_ROW_BYTES == OUTPUT_WIDTH * 4,
{
}

/// A destination that holds every output row at `bytes_per_row` spacing.
pub open spec fn destination_fits(len: nat, bytes_per_row: nat) -> bool {
    bytes_per_row >= OUTPUT_ROW_BYTES && len >= OUTPUT_HEIGHT * bytes_per_row
}

/// The placeholder's colour at (`x`, `y`) for frame `sequence`: alternating
/// vertical bands that scroll with the sequence, crossed with horizontal
/// bands, and a slow pulse.
pub open spec fn placeholder_pixel(x: int, y: int, sequence: u64) -> Seq<u8> {
    let phase = (sequence % (OUTPUT_WIDTH as u64)) as int;
    let band = ((x + phase) / 160) % 2 == 0;
    let vertical = (y / 120) % 2 == 0;
    let pulse = ((sequence * 3 + x + y) % 255) as u8;
    if band != vertical {
        seq![48u8, 132u8, if pulse + 40 > 255 {
            255u8
        } else {
            (pulse + 40) as u8
        }, 255u8]
    } else {
        seq![pulse / 3, 58u8, 96u8, 255u8]
    }
}

/// The destination byte `i` after filling, given its value before.
pub open spec fn placeholder_byte(i: int, before: u8, bytes_per_row: int, sequence: u64) -> u8 {
    let y = i / bytes_per_row;
    let column = i % bytes_per_row;
    if 0 <= i && y < OUTPUT_HEIGHT && column < OUTPUT_ROW_BYTES {
        placeholder_pixel(column / 4, y, sequence)[column % 4]
    } else {
        before
    }
}

proof fn lemma_position(i: int, y: int, column: int, bytes_per_row: int)
    requires
        bytes_per_row > 0,
        0 <= column < bytes_per_row,
        0 <= y,
        i == y * bytes_per_row + column,
    ensures
        i / bytes_per_row == y,
        i % bytes_per_row == column,
{
    vstd::arithmetic::div_mod::lemma_fundamental_div_mod_converse(i, bytes_per_row, y, column);
}

/// Writes the animated placeholder into every output pixel of `destination`,
/// leaving row padding and anything past the last row untouched.
pub fn fill_placeholder_frame(destination: &mut Vec<u8>, bytes_per_row: usize, sequence: u64)
    requires
        destination_fits(old(destination)@.len(), bytes_per_row as nat),
        sequence <= (u64::MAX - 4000) / 3,
    ensures
        final(destination)@.len() == old(destination)@.len(),
        forall|i: int|
            0 <= i < final(destination)@.len() ==> #[trigger] final(destination)@[i]
                == placeholder_byte(i, old(destination)@[i], bytes_per_row as int, sequence),
{
    let ghost before = destination@;
    let total = destination.len();
    let phase = (sequence % (OUTPUT_WIDTH as u64)) as usize;
    let mut y: usize = 0;
    while y < OUTPUT_HEIGHT
        invariant
            y <= OUTPUT_HEIGHT,
            total == before.len(),
            destination_fits(before.len(), bytes_per_row as nat),
            sequence <= (u64::MAX - 4000) / 3,
            phase == sequence % (OUTPUT_WIDTH as u64),
            destination@.len() == before.len(),
            forall|i: int|
                0 <= i < destination@.len() ==> #[trigger] destination@[i] == (if i < y
                    * bytes_per_row {
                    placeholder_byte(i, before[i], bytes_per_row as int, sequence)
                } else {
                    before[i]
                }),
        decreases OUTPUT_HEIGHT - y,
    {
        assert(y * bytes_per_row + bytes_per_row <= OUTPUT_HEIGHT * bytes_per_row) by (
        nonlinear_arith)
            requires
                y < OUTPUT_HEIGHT,
        ;
        assert(y * bytes_per_row + bytes_per_row <= total);
        let row = y * bytes_per_row;
        let mut x: usize = 0;
        while x < OUTPUT_WIDTH
            invariant
                x <= OUTPUT_WIDTH,
                y < OUTPUT_HEIGHT,
                row == y * bytes_per_row,
                row + bytes_per_row <= before.len(),
                total == before.len(),
                destination_fits(before.len(), bytes_per_row as nat),
                sequence <= (u64::MAX - 4000) / 3,
                phase == sequence % (OUTPUT_WIDTH as u64),
                destination@.len() == before.len(),
                forall|i: int|
                    0 <= i < destination@.len() ==> #[trigger] destination@[i] == (if i < row + 4
                        * x {
                        placeholder_byte(i, before[i], bytes_per_row as int, sequence)
                    } else {
                        before[i]
                    }),
            decreases OUTPUT_WIDTH - x,
        {
            let band = ((x + phase) / 160) % 2 == 0;
            let vertical = (y / 120) % 2 == 0;
            let pulse = ((sequence * 3 + x as u64 + y as u64) % 255) as u8;
            let (b, g, r) = if band != vertical {
                (48u8, 132u8, pulse.saturating_add(40))
            } else {
                (pulse / 3, 58u8, 96u8)
            };
            let pixel = [b, g, r, 255u8];
            assert(pixel@ =~= placeholder_pixel(x as int, y as int, sequence));
            let offset = row + x * 4;
            let mut c: usize = 0;
            while c < 4
                invariant
                    c <= 4,
                    x < OUTPUT_WIDTH,
                    y < OUTPUT_HEIGHT,
                    row == y * bytes_per_row,
                    offset == row + x * 4,
                    row + bytes_per_row <= before.len(),
                    total == before.len(),
                    bytes_per_row >= OUTPUT_ROW_BYTES,
                    pixel@ == placeholder_pixel(x as int, y as int, sequence),
                    destination@.len() == before.len(),
                    forall|i: int|
                        0 <= i < destination@.len() ==> #[trigger] destination@[i] == (if i
                            < offset + c {
                            placeholder_byte(i, before[i], bytes_per_row as int, sequence)
                        } else {
                            before[i]
                        }),
                decreases 4 - c,
            {
                proof {
                    lemma_position(
                        (offset + c) as int,
                        y as int,
                        (x * 4 + c) as int,
                        bytes_per_row as int,
                    );
                    assert((x * 4 + c) / 4 == x && (x * 4 + c) % 4 == c);
                }
                destination.set(offset + c, pixel[c]);
                c = c + 1;
            }
            x = x + 1;
        }
        proof {
            assert forall|i: int|
                row + 4 * OUTPUT_WIDTH <= i < row + bytes_per_row implies placeholder_byte(
                i,
                before[i],
                bytes_per_row as int,
                sequence,
            ) == before[i] by {
                lemma_position(i, y as int, i - row, bytes_per_row as int);
            }
            assert((y + 1) * bytes_per_row == row + bytes_per_row) by (nonlinear_arith)
                requires
                    row == y * bytes_per_row,
            ;
        }
        y = y + 1;
    }
    proof {
        assert forall|i: int|
            OUTPUT_HEIGHT * bytes_per_row <= i < before.len() implies placeholder_byte(
            i,
            before[i],
            bytes_per_row as int,
            sequence,
        ) == before[i] by {
            if i / (bytes_per_row as int) < OUTPUT_HEIGHT {
                vstd::arithmetic::div_mod::lemma_fundamental_div_mod(i, bytes_per_row as int);
                assert((i / (bytes_per_row as int)) * bytes_per_row + bytes_per_row <= OUTPUT_HEIGHT
                    * bytes_per_row) by (nonlinear_arith)
                    requires
                        i / (bytes_per_row as int) < OUTPUT_HEIGHT,
                        i / (bytes_per_row as int) >= 0,
                ;
            }
        }
    }
}


/// The source coordinate that output coordinate `target` samples when a
/// source axis of `source_len` is stretched over `output_len`.
pub open spec fn nearest_source(target: int, source_len: int, output_len: int) -> int {
    target * source_len / output_len
}

/// Nearest-neighbour sampling along one axis: the source coordinate for
/// output coordinate `target`.
pub fn nearest_source_coordinate(target: u32, source_len: u32, output_len: u32) -> (s: u32)
    requires
        target < output_len,
    ensures
        s == nearest_source(target as int, source_len as int, output_len as int),
        source_len > 0 ==> s < source_len,
{
    assert((target as int) * (source_len as int) <= 0xffff_ffff * 0xffff_ffff) by (
    nonlinear_arith)
        requires
            target <= 0xffff_ffff,
            source_len <= 0xffff_ffff,
    ;
    let product = (target as u64) * (source_len as u64);
    proof {
        if source_len == 0 {
            assert(product == 0);
        }
        if source_len > 0 {
            assert(product < (source_len as int) * (output_len as int)) by (nonlinear_arith)
                requires
                    product == target * source_len,
                    target < output_len,
                    source_len > 0,
            ;
            vstd::arithmetic::div_mod::lemma_div_by_multiple_is_strongly_ordered(
                product as int,
                (source_len as int) * (output_len as int),
                source_len as int,
                output_len as int,
            );
            vstd::arithmetic::div_mod::lemma_div_by_multiple(source_len as int, output_len as int);
        }
    }
    (product / (output_len as u64)) as u32
}

/// The destination byte `i` after the producer frame `source` was written,
/// given its value before: output pixel (x, y) takes the source pixel that
/// the nearest-neighbour sampler picks on each axis.
pub open spec fn frame_byte(i: int, before: u8, bytes_per_row: int, source: FrameViewModel) -> u8 {
    let y = i / bytes_per_row;
    let column = i % bytes_per_row;
    if 0 <= i && y < OUTPUT_HEIGHT && column < OUTPUT_ROW_BYTES {
        let source_y = nearest_source(y, source.height as int, OUTPUT_HEIGHT as int);
        let source_x = nearest_source(column / 4, source.width as int, OUTPUT_WIDTH as int);
        view_row(source, source_y)[source_x * 4 + column % 4]
    } else {
        before
    }
}

/// Copies or scales (nearest neighbour) a validated BGRA producer frame
/// into every output pixel of `destination`, leaving row padding and
/// anything past the last row untouched.
pub fn fill_from_frame_view(destination: &mut Vec<u8>, bytes_per_row: usize, frame: FrameView)
    requires
        destination_fits(old(destination)@.len(), bytes_per_row as nat),
        frame.wf(),
    ensures
        final(destination)@.len() == old(destination)@.len(),
        forall|i: int|
            0 <= i < final(destination)@.len() ==> #[trigger] final(destination)@[i]
                == frame_byte(i, old(destination)@[i], bytes_per_row as int, frame@),
{
    let ghost before = destination@;
    let total = destination.len();
    let source_width = frame.width();
    let source_height = frame.height();
    let mut y: usize = 0;
    while y < OUTPUT_HEIGHT
        invariant
            y <= OUTPUT_HEIGHT,
            total == before.len(),
            destination_fits(before.len(), bytes_per_row as nat),
            frame.wf(),
            source_width == frame@.width,
            source_height == frame@.height,
            destination@.len() == before.len(),
            forall|i: int|
                0 <= i < destination@.len() ==> #[trigger] destination@[i] == (if i < y
                    * bytes_per_row {
                    frame_byte(i, before[i], bytes_per_row as int, frame@)
                } else {
                    before[i]
                }),
        decreases OUTPUT_HEIGHT - y,
    {
        assert(y * bytes_per_row + bytes_per_row <= OUTPUT_HEIGHT * bytes_per_row) by (
        nonlinear_arith)
            requires
                y < OUTPUT_HEIGHT,
        ;
        let row = y * bytes_per_row;
        let source_y = nearest_source_coordinate(y as u32, source_height, OUTPUT_HEIGHT as u32);
        let source_row = match frame.row(source_y) {
            Some(r) => r,
            None => {
                return;
            },
        };
        proof {
            crate::frame::lemma_row_in_view(frame@, source_y as int);
        }
        let mut x: usize = 0;
        while x < OUTPUT_WIDTH
            invariant
                x <= OUTPUT_WIDTH,
                y < OUTPUT_HEIGHT,
                row == y * bytes_per_row,
                row + bytes_per_row <= before.len(),
                total == before.len(),
                destination_fits(before.len(), bytes_per_row as nat),
                frame.wf(),
                source_width == frame@.width,
                source_height == frame@.height,
                source_y == nearest_source(y as int, source_height as int, OUTPUT_HEIGHT as int),
                source_row@ == view_row(frame@, source_y as int),
                source_row@.len() == source_width * 4,
                destination@.len() == before.len(),
                forall|i: int|
                    0 <= i < destination@.len() ==> #[trigger] destination@[i] == (if i < row + 4
                        * x {
                        frame_byte(i, before[i], bytes_per_row as int, frame@)
                    } else {
                        before[i]
                    }),
            decreases OUTPUT_WIDTH - x,
        {
            let source_x = nearest_source_coordinate(x as u32, source_width, OUTPUT_WIDTH as u32);
            let source_offset = source_x as usize * 4;
            let offset = row + x * 4;
            let mut c: usize = 0;
            while c < 4
                invariant
                    c <= 4,
                    x < OUTPUT_WIDTH,
                    y < OUTPUT_HEIGHT,
                    row == y * bytes_per_row,
                    offset == row + x * 4,
                    row + bytes_per_row <= before.len(),
                    total == before.len(),
                    bytes_per_row >= OUTPUT_ROW_BYTES,
                    source_y == nearest_source(
                        y as int,
                        source_height as int,
                        OUTPUT_HEIGHT as int,
                    ),
                    source_offset == 4 * nearest_source(
                        x as int,
                        source_width as int,
                        OUTPUT_WIDTH as int,
                    ),
                    source_offset + 4 <= source_row@.len(),
                    source_row@ == view_row(frame@, source_y as int),
                    source_width == frame@.width,
                    source_height == frame@.height,
                    destination@.len() == before.len(),
                    forall|i: int|
                        0 <= i < destination@.len() ==> #[trigger] destination@[i] == (if i
                            < offset + c {
                            frame_byte(i, before[i], bytes_per_row as int, frame@)
                        } else {
                            before[i]
                        }),
                decreases 4 - c,
            {
                proof {
                    lemma_position(
                        (offset + c) as int,
                        y as int,
                        (x * 4 + c) as int,
                        bytes_per_row as int,
                    );
                    assert((x * 4 + c) / 4 == x && (x * 4 + c) % 4 == c);
                }
                destination.set(offset + c, source_row[source_offset + c]);
                c = c + 1;
            }
            x = x + 1;
        }
        proof {
            assert forall|i: int|
                row + 4 * OUTPUT_WIDTH <= i < row + bytes_per_row implies frame_byte(
                i,
                before[i],
                bytes_per_row as int,
                frame@,
            ) == before[i] by {
                lemma_position(i, y as int, i - row, bytes_per_row as int);
            }
            assert((y + 1) * bytes_per_row == row + bytes_per_row) by (nonlinear_arith)
                requires
                    row == y * bytes_per_row,
            ;
        }
        y = y + 1;
    }
    proof {
        assert forall|i: int|
            OUTPUT_HEIGHT * bytes_per_row <= i < before.len() implies frame_byte(
            i,
            before[i],
            bytes_per_row as int,
            frame@,
        ) == before[i] by {
            if i / (bytes_per_row as int) < OUTPUT_HEIGHT {
                vstd::arithmetic::div_mod::lemma_fundamental_div_mod(i, bytes_per_row as int);
                assert((i / (bytes_per_row as int)) * bytes_per_row + bytes_per_row <= OUTPUT_HEIGHT
                    * bytes_per_row) by (nonlinear_arith)
                    requires
                        i / (bytes_per_row as int) < OUTPUT_HEIGHT,
                        i / (bytes_per_row as int) >= 0,
                ;
            }
        }
    }
}

} // verus!
