//! Encoding a captured BGRA frame as a binary PPM (`P6`) image for export,
//! with cooperative cancellation between blocks of pixels.
use vstd::prelude::*;

use crate::frame::Frame;
use crate::text::{decimal, owned};

verus! {

/// Pixels encoded between two cancellation polls.
pub const PIXELS_PER_CANCELLATION_POLL: usize = 16384;

/// ASCII bytes of a character sequence.
pub open spec fn ascii_bytes(s: Seq<char>) -> Seq<u8> {
    s.map_values(|c: char| c as u8)
}

/// The `P6` header: magic, width and height, and the maximum sample value.
pub open spec fn ppm_header(width: u32, height: u32) -> Seq<u8> {
    ascii_bytes(seq!['P', '6', '\n']) + ascii_bytes(decimal(width as nat)) + ascii_bytes(
        seq![' '],
    ) + ascii_bytes(decimal(height as nat)) + ascii_bytes(seq!['\n', '2', '5', '5', '\n'])
}

/// Red, green and blue of every complete BGRA pixel of `data`, in order;
/// alpha is dropped.
pub open spec fn rgb_samples(data: Seq<u8>) -> Seq<u8> {
    Seq::new((data.len() / 4) * 3, |i: int| data[(i / 3) * 4 + 2 - i % 3])
}

/// The complete PPM file for a frame with the given geometry and pixels.
pub open spec fn ppm_bytes(width: u32, height: u32, data: Seq<u8>) -> Seq<u8> {
    ppm_header(width, height) + rgb_samples(data)
}

/// Appends the ASCII decimal spelling of `n` to `out`.
fn push_decimal_bytes(out: &mut Vec<u8>, n: u64)
    ensures
        final(out)@ == old(out)@ + ascii_bytes(decimal(n as nat)),
    decreases n,
{
    if n >= 10 {
        push_decimal_bytes(out, n / 10);
    }
    let d: u8 = (n % 10) as u8;
    let b: u8 = d + 48;
    out.push(b);
    proof {
        let m = n as nat;
        assert((b as char) as u8 == b);
        if m >= 10 {
            assert(decimal(m) == decimal(m / 10).push(crate::text::digit_char(m % 10)));
            assert(ascii_bytes(decimal(m)) =~= ascii_bytes(decimal(m / 10)).push(b));
        } else {
            assert(ascii_bytes(decimal(m)) =~= seq![b]);
        }
    }
    assert(out@ =~= old(out)@ + ascii_bytes(decimal(n as nat)));
}

/// Appends ASCII bytes to `out`.
fn push_ascii(out: &mut Vec<u8>, bytes: &[u8])
    ensures
        final(out)@ == old(out)@ + bytes@,
{
    let mut i: usize = 0;
    while i < bytes.len()
        invariant
            i <= bytes.len(),
            out@ == old(out)@ + bytes@.subrange(0, i as int),
        decreases bytes.len() - i,
    {
        out.push(bytes[i]);
        i = i + 1;
        assert(out@ =~= old(out)@ + bytes@.subrange(0, i as int));
    }
    assert(bytes@.subrange(0, bytes.len() as int) =~= bytes@);
}

/// The PPM header for `width` by `height`.
pub fn encode_ppm_header(width: u32, height: u32) -> (bytes: Vec<u8>)
    ensures
        bytes@ == ppm_header(width, height),
{
    let mut bytes: Vec<u8> = Vec::new();
    push_ascii(&mut bytes, &[80u8, 54u8, 10u8]);
    assert(bytes@ =~= ascii_bytes(seq!['P', '6', '\n']));
    push_decimal_bytes(&mut bytes, width as u64);
    push_ascii(&mut bytes, &[32u8]);
    assert(seq![32u8] =~= ascii_bytes(seq![' ']));
    push_decimal_bytes(&mut bytes, height as u64);
    push_ascii(&mut bytes, &[10u8, 50u8, 53u8, 53u8, 10u8]);
    assert(seq![10u8, 50u8, 53u8, 53u8, 10u8] =~= ascii_bytes(seq!['\n', '2', '5', '5', '\n']));
    bytes
}

/// Encodes `frame` as a binary PPM: the header, then red, green and blue of
/// each pixel. Before every block of `PIXELS_PER_CANCELLATION_POLL` pixels
/// it asks `is_cancelled`, and stops with the error `cancelled` on the
/// first `true`.
pub fn encode_ppm<F: Fn() -> bool>(frame: &Frame, is_cancelled: F) -> (r: Result<Vec<u8>, String>)
    requires
        frame.wf(),
        call_requires(is_cancelled, ()),
    ensures
        r matches Ok(bytes) ==> bytes@ == ppm_bytes(frame@.width, frame@.height, frame@.data),
        r matches Err(e) ==> e@ == "cancelled"@ && call_ensures(is_cancelled, (), true),
        (forall|c: bool| call_ensures(is_cancelled, (), c) ==> !c) ==> r is Ok,
{
    let data = frame.data();
    let total = data.len();
    let pixel_count = total / 4;
    let mut bytes = encode_ppm_header(frame.width(), frame.height());
    let ghost header = bytes@;
    let mut p: usize = 0;
    while p < pixel_count
        invariant
            p <= pixel_count,
            total == data@.len(),
            pixel_count == total / 4,
            data@ == frame@.data,
            call_requires(is_cancelled, ()),
            header == ppm_header(frame@.width, frame@.height),
            bytes@ == header + rgb_samples(data@).subrange(0, 3 * p as int),
        decreases pixel_count - p,
    {
        if p % PIXELS_PER_CANCELLATION_POLL == 0 {
            let cancelled = is_cancelled();
            if cancelled {
                return Err(owned("cancelled"));
            }
        }
        assert(p * 4 + 4 <= data@.len()) by (nonlinear_arith)
            requires
                p < total / 4,
                total == data@.len(),
        ;
        let base = p * 4;
        bytes.push(data[base + 2]);
        bytes.push(data[base + 1]);
        bytes.push(data[base]);
        proof {
            let rgb = rgb_samples(data@);
            assert(rgb.len() == pixel_count * 3);
            assert forall|k: int| 3 * p <= k < 3 * p + 3 implies rgb[k] == data@[(p * 4 + 2
                - (k - 3 * p)) as int] by {
                assert(k / 3 == p && k % 3 == k - 3 * p) by (nonlinear_arith)
                    requires
                        3 * p <= k < 3 * p + 3,
                ;
            }
            assert(rgb.subrange(0, 3 * (p + 1)) =~= rgb.subrange(0, 3 * p).push(
                data@[base + 2],
            ).push(data@[base + 1]).push(data@[base as int]));
        }
        p = p + 1;
    }
    proof {
        assert(rgb_samples(data@).subrange(0, 3 * p as int) =~= rgb_samples(data@));
    }
    Ok(bytes)
}

} // verus!
