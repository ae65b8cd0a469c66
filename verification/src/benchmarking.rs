//! Deterministic benchmark inputs and the integer parts of report
//! bookkeeping: seeded case orders, stable seeds, percentile positions and
//! the representative fixture frames.
use vstd::prelude::*;

use crate::error::CameraManError;
use crate::frame::{byte_len_result, new_frame_result_ok, Frame, FrameLimits, FrameModel, PixelFormat};
use crate::media_contract::{Colorimetry, FrameContract};

verus! {

pub const COMPOSITOR_BENCHMARK_SCHEMA_VERSION: u32 = 3;

pub const DEFAULT_FIXTURE_PROFILE: &'static str = "synthetic-solid-v1";

pub const REPRESENTATIVE_FIXTURE_PROFILE: &'static str = "representative-patterned-v1";

pub const DEFAULT_BOOTSTRAP_RESAMPLES: u32 = 10000;

/// One xorshift64 step (shifts 13, 7, 17).
pub open spec fn xorshift64(value: u64) -> u64 {
    let a = value ^ (value << 13u64);
    let b = a ^ (a >> 7u64);
    b ^ (b << 17u64)
}

/// The small deterministic generator behind case orders and resampling.
#[derive(Debug, Clone, Copy, PartialEq, Eq, Structural)]
pub struct XorShift64(pub u64);

impl XorShift64 {
    /// A generator seeded with `seed`, or with 1 for a zero seed (zero is a
    /// fixed point of xorshift).
    pub fn new(seed: u64) -> (g: Self)
        ensures
            g.0 == (if seed == 0 {
                1
            } else {
                seed
            }),
    {
        XorShift64(if seed > 1 {
            seed
        } else {
            1
        })
    }

    /// Advances the state and returns it.
    pub fn next(&mut self) -> (v: u64)
        ensures
            v == xorshift64(old(self).0),
            final(self).0 == v,
    {
        let mut value = self.0;
        value = value ^ (value << 13u64);
        value = value ^ (value >> 7u64);
        value = value ^ (value << 17u64);
        self.0 = value;
        value
    }

    /// The next value reduced to `0..len`.
    pub fn index(&mut self, len: usize) -> (i: usize)
        requires
            len > 0,
        ensures
            final(self).0 == xorshift64(old(self).0),
            i == (xorshift64(old(self).0) as usize) % len,
            i < len,
    {
        (self.next() as usize) % len
    }
}

/// `order` with the entries at `i` and `j` exchanged.
pub open spec fn swapped(order: Seq<usize>, i: int, j: int) -> Seq<usize> {
    order.update(i, order[j]).update(j, order[i])
}

/// The Fisher-Yates passes from `upper` down to 1, drawing each position
/// from a generator in state `state`.
pub open spec fn shuffle_from(order: Seq<usize>, state: u64, upper: nat) -> Seq<usize>
    decreases upper,
{
    if upper == 0 {
        order
    } else {
        let next = xorshift64(state);
        let selected = ((#[verifier::truncate] (next as usize)) % ((upper + 1) as usize)) as int;
        shuffle_from(swapped(order, upper as int, selected), next, (upper - 1) as nat)
    }
}

/// The case order for `case_count` cases under `seed`.
pub open spec fn seeded_order(case_count: nat, seed: u64) -> Seq<usize> {
    let identity = Seq::new(case_count, |i: int| i as usize);
    if case_count == 0 {
        identity
    } else {
        shuffle_from(
            identity,
            if seed == 0 {
                1
            } else {
                seed
            },
            (case_count - 1) as nat,
        )
    }
}

/// The passes from `upper` down never move an entry above `upper`.
proof fn lemma_shuffle_keeps_tail(order: Seq<usize>, state: u64, upper: nat, k: int)
    requires
        upper < k < order.len(),
        order.len() <= usize::MAX,
    ensures
        shuffle_from(order, state, upper).len() == order.len(),
        shuffle_from(order, state, upper)[k] == order[k],
    decreases upper,
{
    if upper > 0 {
        let next = xorshift64(state);
        let selected = ((#[verifier::truncate] (next as usize)) % ((upper + 1) as usize)) as int;
        assert((upper + 1) as usize == upper + 1);
        assert(selected <= upper);
        let s = swapped(order, upper as int, selected);
        assert(s.len() == order.len());
        assert(s[k] == order[k]);
        lemma_shuffle_keeps_tail(s, next, (upper - 1) as nat, k);
    }
}

/// Under seed 42 the order of sixteen cases is not the identity: the first
/// pass moves case 10 into the last position, which no later pass touches.
pub proof fn law_seed_42_reorders_sixteen_cases()
    ensures
        seeded_order(16, 42) != Seq::new(16, |i: int| i as usize),
{
    let identity = Seq::new(16, |i: int| i as usize);
    let next = xorshift64(42);
    assert(xorshift64(42) == 45454805674u64) by (bit_vector);
    assert((45454805674u64 as usize) % 16usize == 10usize) by (bit_vector);
    let selected = ((#[verifier::truncate] (next as usize)) % (16 as usize)) as int;
    assert(selected == 10);
    let s = swapped(identity, 15, 10);
    assert(s[15] == 10);
    lemma_shuffle_keeps_tail(s, next, 14, 15);
    assert(seeded_order(16, 42) == shuffle_from(s, next, 14));
    assert(seeded_order(16, 42)[15] == 10);
    assert(identity[15] == 15);
}

/// `order` lists each of `0..n` exactly once.
pub open spec fn is_permutation(order: Seq<usize>, n: nat) -> bool {
    &&& order.len() == n
    &&& forall|i: int| 0 <= i < order.len() ==> order[i] < n
    &&& forall|i: int, j: int| 0 <= i < j < order.len() ==> order[i] != order[j]
}

proof fn lemma_swap_keeps_permutation(order: Seq<usize>, n: nat, i: int, j: int)
    requires
        is_permutation(order, n),
        0 <= i < n,
        0 <= j < n,
    ensures
        is_permutation(swapped(order, i, j), n),
{
    let s = swapped(order, i, j);
    assert forall|a: int, b: int| 0 <= a < b < s.len() implies s[a] != s[b] by {
        let pa = if a == j {
            i
        } else if a == i {
            j
        } else {
            a
        };
        let pb = if b == j {
            i
        } else if b == i {
            j
        } else {
            b
        };
        assert(s[a] == order[pa]);
        assert(s[b] == order[pb]);
        assert(pa != pb);
        if pa < pb {
            assert(order[pa] != order[pb]);
        } else {
            assert(order[pb] != order[pa]);
        }
    }
}

proof fn lemma_shuffle_keeps_permutation(order: Seq<usize>, n: nat, state: u64, upper: nat)
    requires
        is_permutation(order, n),
        upper < n,
        n <= usize::MAX,
    ensures
        is_permutation(shuffle_from(order, state, upper), n),
    decreases upper,
{
    if upper > 0 {
        let next = xorshift64(state);
        let m = (upper + 1) as usize;
        assert(m == upper + 1);
        let selected = ((#[verifier::truncate] (next as usize)) % m) as int;
        assert(0 <= selected < m);
        lemma_swap_keeps_permutation(order, n, upper as int, selected);
        lemma_shuffle_keeps_permutation(
            swapped(order, upper as int, selected),
            n,
            next,
            (upper - 1) as nat,
        );
    }
}

/// Every seeded case order runs every case exactly once.
pub proof fn law_seeded_order_is_a_permutation(case_count: nat, seed: u64)
    requires
        case_count <= usize::MAX,
    ensures
        is_permutation(seeded_order(case_count, seed), case_count),
{
    let identity = Seq::new(case_count, |i: int| i as usize);
    assert forall|i: int| 0 <= i < identity.len() implies identity[i] < case_count by {}
    assert forall|i: int, j: int| 0 <= i < j < identity.len() implies identity[i] != identity[j] by {}
    if case_count > 0 {
        lemma_shuffle_keeps_permutation(
            identity,
            case_count,
            if seed == 0 {
                1
            } else {
                seed
            },
            (case_count - 1) as nat,
        );
    }
}

/// A deterministic shuffle of `0..case_count` driven by `seed`.
pub fn seeded_case_order(case_count: usize, seed: u64) -> (order: Vec<usize>)
    ensures
        order@ == seeded_order(case_count as nat, seed),
        is_permutation(order@, case_count as nat),
{
    let mut order: Vec<usize> = Vec::new();
    let mut i: usize = 0;
    while i < case_count
        invariant
            i <= case_count,
            order@ == Seq::new(i as nat, |k: int| k as usize),
        decreases case_count - i,
    {
        order.push(i);
        i = i + 1;
        assert(order@ =~= Seq::new(i as nat, |k: int| k as usize));
    }
    proof {
        law_seeded_order_is_a_permutation(case_count as nat, seed);
    }
    if case_count == 0 {
        return order;
    }
    let mut generator = XorShift64::new(seed);
    let mut upper: usize = case_count - 1;
    while upper >= 1
        invariant
            upper < case_count,
            order@.len() == case_count,
            shuffle_from(order@, generator.0, upper as nat) == seeded_order(case_count as nat, seed),
        decreases upper,
    {
        let ghost before = order@;
        let ghost state = generator.0;
        let selected = generator.index(upper + 1);
        let a = order[upper];
        let b = order[selected];
        order.set(upper, b);
        order.set(selected, a);
        assert(order@ =~= swapped(before, upper as int, selected as int));
        assert(shuffle_from(before, state, upper as nat) == shuffle_from(
            swapped(before, upper as int, selected as int),
            generator.0,
            (upper - 1) as nat,
        ));
        upper = upper - 1;
    }
    order
}

/// An FNV-style fold over `bytes`: start from the 64-bit FNV offset basis,
/// then for each byte xor it in and multiply by `0x1000_0000_01b3`, wrapping.
pub open spec fn byte_hash(bytes: Seq<u8>) -> u64
    decreases bytes.len(),
{
    if bytes.len() == 0 {
        0xcbf2_9ce4_8422_2325
    } else {
        vstd::wrapping::u64_specs::wrapping_mul(
            byte_hash(bytes.drop_last()) ^ (bytes.last() as u64),
            0x1000_0000_01b3,
        )
    }
}

/// A seed that depends only on the UTF-8 bytes of `value`.
pub fn stable_seed(value: &str) -> (seed: u64)
    ensures
        seed == byte_hash(vstd::utf8::encode_utf8(value@)),
{
    let bytes = value.as_bytes();
    let mut hash: u64 = 0xcbf2_9ce4_8422_2325;
    let mut i: usize = 0;
    while i < bytes.len()
        invariant
            i <= bytes@.len(),
            bytes@ == vstd::utf8::encode_utf8(value@),
            hash == byte_hash(bytes@.take(i as int)),
        decreases bytes@.len() - i,
    {
        assert(bytes@.take(i + 1).drop_last() =~= bytes@.take(i as int));
        hash = (hash ^ (bytes[i] as u64)).wrapping_mul(0x1000_0000_01b3);
        i = i + 1;
    }
    assert(bytes@.take(bytes@.len() as int) =~= bytes@);
    hash
}

/// Index of a percentile given in thousandths (clamped to 1000) among
/// `sample_count` sorted samples.
pub fn percentile_index_thousandths(sample_count: usize, percentile: usize) -> (index: usize)
    requires
        sample_count > 0,
    ensures
        index == (sample_count - 1) * (if percentile > 1000 {
            1000
        } else {
            percentile
        }) / 1000,
        index < sample_count,
{
    let clamped: u128 = if percentile > 1000 {
        1000
    } else {
        percentile as u128
    };
    let last = (sample_count - 1) as u128;
    assert(last * clamped <= last * 1000) by (nonlinear_arith)
        requires
            clamped <= 1000,
    ;
    assert(last * clamped / 1000 <= last) by (nonlinear_arith)
        requires
            clamped <= 1000,
    ;
    (last * clamped / 1000) as usize
}

/// The fixture profile of reports written before profiles were recorded.
pub fn default_fixture_profile() -> (s: String)
    ensures
        s@ == DEFAULT_FIXTURE_PROFILE@,
{
    crate::text::owned(DEFAULT_FIXTURE_PROFILE)
}

/// The case order mode of reports written before modes were recorded.
pub fn default_case_order_mode() -> (s: String)
    ensures
        s@ == "rotation"@,
{
    crate::text::owned("rotation")
}

/// How a case compares with its fixed baseline.
#[derive(Debug, Clone, Copy, PartialEq, Eq, Structural)]
pub enum BaselineDecision {
    Improvement,
    NoSignificantChange,
    Regression,
    EnvironmentMismatch,
    NotCompared,
}

/// Why a set of benchmark reports could not be summarized.
#[derive(Debug, Clone, PartialEq, Eq)]
pub struct BenchmarkSummaryError(pub String);

impl BenchmarkSummaryError {
    /// The message, as `Display` shows it.
    pub fn message(&self) -> (s: String)
        ensures
            s@ == self.0@,
    {
        self.0.clone()
    }
}

/// One xorshift32 step (shifts 13, 17, 5), the fixture's noise source.
pub open spec fn xorshift32(value: u32) -> u32 {
    let a = value ^ (value << 13u32);
    let b = a ^ (a >> 17u32);
    b ^ (b << 5u32)
}

/// The noise state after `steps` steps from `seed`.
pub open spec fn noise_after(seed: u32, steps: nat) -> u32
    decreases steps,
{
    if steps == 0 {
        seed
    } else {
        xorshift32(noise_after(seed, (steps - 1) as nat))
    }
}

/// The initial noise state of fixture source `source`.
pub open spec fn noise_seed(source: u32) -> u32 {
    0x9e37_79b9u32 ^ vstd::wrapping::u32_specs::wrapping_mul(source, 0x85eb_ca6b)
}

/// The BGRA bytes of fixture pixel (`x`, `y`) drawn with noise value `noise`:
/// gradients, a checkerboard tint, sparse noise flips, white borders and
/// grid lines, and dark text-like bands.
pub open spec fn pattern_pixel(
    x: u32,
    y: u32,
    width: u32,
    height: u32,
    source: u32,
    noise: u32,
) -> Seq<u8> {
    let edge = x % 47 == 0 || y % 43 == 0 || x + 1 == width || y + 1 == height;
    let text_like = (y / 9) % 7 == 2 && ((x / 5) ^ (x / 17) ^ source) % 3 == 0;
    let checker = ((x / 16) + (y / 16) + source) % 2 == 0;
    let blue0 = vstd::wrapping::u32_specs::wrapping_add(
        vstd::wrapping::u32_specs::wrapping_mul(x, 17),
        (y * 3) as u32,
    ) as u8;
    let green0 = vstd::wrapping::u32_specs::wrapping_add(
        vstd::wrapping::u32_specs::wrapping_mul(y, 11),
        (x * 5) as u32,
    ) as u8;
    let red0 = vstd::wrapping::u32_specs::wrapping_add(
        x,
        vstd::wrapping::u32_specs::wrapping_mul(y, 7),
    ) as u8;
    let green1 = if checker {
        if green0 + 31 > 255 {
            255u8
        } else {
            (green0 + 31) as u8
        }
    } else {
        green0
    };
    let flip = noise & 0x1f == 0;
    let blue1 = if flip {
        blue0 ^ 0x3f
    } else {
        blue0
    };
    let red1 = if flip {
        red0 ^ 0x1f
    } else {
        red0
    };
    if edge {
        seq![255u8, 255u8, 255u8, 255u8]
    } else if text_like {
        seq![8u8, 8u8, 8u8, 255u8]
    } else {
        seq![blue1, green1, red1, 255u8]
    }
}

/// The first `count` pixels of a fixture, row by row.
pub open spec fn pattern_prefix(width: u32, height: u32, source: u32, count: nat) -> Seq<u8>
    decreases count,
{
    if count == 0 || width == 0 {
        Seq::empty()
    } else {
        let k = count - 1;
        pattern_prefix(width, height, source, k as nat) + pattern_pixel(
            (k % (width as int)) as u32,
            (k / (width as int)) as u32,
            width,
            height,
            source,
            noise_after(noise_seed(source), count),
        )
    }
}

/// Every fixture pixel is four bytes.
pub proof fn lemma_pattern_prefix_len(width: u32, height: u32, source: u32, count: nat)
    requires
        width > 0,
    ensures
        pattern_prefix(width, height, source, count).len() == 4 * count,
    decreases count,
{
    if count > 0 {
        lemma_pattern_prefix_len(width, height, source, (count - 1) as nat);
    }
}

/// All pixels of a `width` x `height` fixture for `source`.
pub open spec fn pattern_bytes(width: u32, height: u32, source: u32) -> Seq<u8> {
    pattern_prefix(width, height, source, (width * height) as nat)
}

/// The arithmetic of every fixture pixel stays in range.
pub open spec fn pattern_fits(width: u32, height: u32, source: u32) -> bool {
    &&& width > 0 ==> (width - 1) * 5 <= u32::MAX
    &&& height > 0 ==> (height - 1) * 3 <= u32::MAX
    &&& width > 0 && height > 0 ==> (width - 1) / 16 + (height - 1) / 16 + source <= u32::MAX
    &&& width * height * 4 <= isize::MAX
}

fn pattern_pixel_at(x: u32, y: u32, width: u32, height: u32, source: u32, noise: u32) -> (p: [u8; 4])
    requires
        x < width,
        y < height,
        pattern_fits(width, height, source),
    ensures
        p@ == pattern_pixel(x, y, width, height, source, noise),
{
    assert(x * 5 <= (width - 1) * 5) by (nonlinear_arith)
        requires
            x <= width - 1,
    ;
    assert(y * 3 <= (height - 1) * 3) by (nonlinear_arith)
        requires
            y <= height - 1,
    ;
    assert(x / 16 <= (width - 1) / 16 && y / 16 <= (height - 1) / 16) by (nonlinear_arith)
        requires
            x <= width - 1,
            y <= height - 1,
    ;
    let edge = x % 47 == 0 || y % 43 == 0 || x + 1 == width || y + 1 == height;
    let text_like = (y / 9) % 7 == 2 && ((x / 5) ^ (x / 17) ^ source) % 3 == 0;
    let checker = ((x / 16) + (y / 16) + source) % 2 == 0;
    let mut blue = x.wrapping_mul(17).wrapping_add(y * 3) as u8;
    let mut green = y.wrapping_mul(11).wrapping_add(x * 5) as u8;
    let mut red = x.wrapping_add(y.wrapping_mul(7)) as u8;
    if checker {
        green = green.saturating_add(31);
    }
    if noise & 0x1f == 0 {
        blue = blue ^ 0x3f;
        red = red ^ 0x1f;
    }
    if edge {
        blue = 255;
        green = 255;
        red = 255;
    } else if text_like {
        blue = 8;
        green = 8;
        red = 8;
    }
    let p = [blue, green, red, 255];
    assert(p@ =~= pattern_pixel(x, y, width, height, source, noise));
    p
}

proof fn lemma_row_major(k: int, x: int, y: int, width: int)
    requires
        width > 0,
        0 <= x < width,
        0 <= y,
        k == y * width + x,
    ensures
        k % width == x,
        k / width == y,
{
    vstd::arithmetic::div_mod::lemma_fundamental_div_mod_converse(k, width, y, x);
}

/// A deterministic, odd-sized and visually busy fixture frame: gradients,
/// texture and edges, so that scaling and copying have real work to do.
pub fn representative_patterned_frame(
    width: u32,
    height: u32,
    source: u32,
    limits: FrameLimits,
) -> (r: Result<Frame, CameraManError>)
    requires
        pattern_fits(width, height, source),
    ensures
        new_frame_result_ok(
            r,
            width,
            height,
            PixelFormat::Bgra8,
            pattern_bytes(width, height, source),
            limits,
        ),
        r matches Ok(f) ==> f.wf(),
{
    let mut pixels: Vec<u8> = Vec::new();
    let mut noise: u32 = 0x9e37_79b9u32 ^ source.wrapping_mul(0x85eb_ca6b);
    let mut y: u32 = 0;
    while y < height
        invariant
            y <= height,
            pattern_fits(width, height, source),
            pixels@ == pattern_prefix(width, height, source, (y * width) as nat),
            noise == noise_after(noise_seed(source), (y * width) as nat),
        decreases height - y,
    {
        let mut x: u32 = 0;
        while x < width
            invariant
                x <= width,
                y < height,
                pattern_fits(width, height, source),
                pixels@ == pattern_prefix(width, height, source, (y * width + x) as nat),
                noise == noise_after(noise_seed(source), (y * width + x) as nat),
            decreases width - x,
        {
            let ghost k: int = y * width + x;
            noise = noise ^ (noise << 13u32);
            noise = noise ^ (noise >> 17u32);
            noise = noise ^ (noise << 5u32);
            assert(noise == noise_after(noise_seed(source), (k + 1) as nat));
            let p = pattern_pixel_at(x, y, width, height, source, noise);
            pixels.push(p[0]);
            pixels.push(p[1]);
            pixels.push(p[2]);
            pixels.push(p[3]);
            proof {
                lemma_row_major(k, x as int, y as int, width as int);
                assert(pixels@ =~= pattern_prefix(width, height, source, k as nat) + p@);
                assert(pattern_prefix(width, height, source, (k + 1) as nat) == pattern_prefix(
                    width,
                    height,
                    source,
                    k as nat,
                ) + pattern_pixel(x, y, width, height, source, noise));
            }
            x = x + 1;
        }
        proof {
            assert(y * width + width == (y + 1) * width) by (nonlinear_arith);
        }
        y = y + 1;
    }
    proof {
        assert(height * width == width * height) by (nonlinear_arith);
    }
    Frame::new_checked_with_limits(width, height, PixelFormat::Bgra8, pixels, limits)
}

/// The odd frame sizes the representative fixtures cycle through.
pub open spec fn fixture_dimensions(index: int) -> (u32, u32) {
    if index == 0 {
        (641, 479)
    } else if index == 1 {
        (853, 481)
    } else if index == 2 {
        (1279, 719)
    } else if index == 3 {
        (515, 773)
    } else if index == 4 {
        (959, 539)
    } else if index == 5 {
        (1023, 577)
    } else if index == 6 {
        (631, 355)
    } else {
        (777, 437)
    }
}

/// The odd frame sizes the representative fixtures cycle through.
pub fn representative_fixture_dimensions() -> (d: [(u32, u32); 8])
    ensures
        forall|i: int| 0 <= i < 8 ==> #[trigger] d@[i] == fixture_dimensions(i),
{
    [
        (641, 479),
        (853, 481),
        (1279, 719),
        (515, 773),
        (959, 539),
        (1023, 577),
        (631, 355),
        (777, 437),
    ]
}

/// Fixture `index`: the size cycles through [`fixture_dimensions`] and the
/// index seeds the pattern.
pub open spec fn fixture_frame_matches(frame: Frame, index: int) -> bool {
    let (width, height) = fixture_dimensions(index % 8);
    frame@ == (FrameModel {
        width,
        height,
        pixel_format: PixelFormat::Bgra8,
        contract: FrameContract { width, height, colorimetry: Colorimetry::Bt709FullOpaque },
        data: pattern_bytes(width, height, index as u32),
    }) && frame.wf()
}

/// Fixture `index` fits the memory policy `limits`.
pub open spec fn fixture_fits(index: int, limits: FrameLimits) -> bool {
    let (width, height) = fixture_dimensions(index % 8);
    byte_len_result(width, height, PixelFormat::Bgra8, limits) is Ok
}

/// Fixture generation is deterministic: two runs that fill every slot hold
/// frames of equal content, slot by slot.
pub proof fn law_fixture_frames_deterministic(
    first: Seq<Option<Frame>>,
    second: Seq<Option<Frame>>,
    count: nat,
)
    requires
        first.len() == count,
        second.len() == count,
        forall|i: int|
            0 <= i < count ==> (#[trigger] first[i] matches Some(f) && fixture_frame_matches(f, i)),
        forall|i: int|
            0 <= i < count ==> (#[trigger] second[i] matches Some(f) && fixture_frame_matches(f, i)),
    ensures
        forall|i: int|
            0 <= i < count ==> (#[trigger] first[i] matches Some(a) && second[i] matches Some(b)
                && a@ == b@),
{
    assert forall|i: int| 0 <= i < count implies (#[trigger] first[i] matches Some(a)
        && second[i] matches Some(b) && a@ == b@) by {
        assert(first[i] matches Some(f) && fixture_frame_matches(f, i));
        assert(second[i] matches Some(f) && fixture_frame_matches(f, i));
    }
}

/// `count` representative fixture frames under the memory policy `limits`,
/// every slot filled; the first fixture that exceeds the policy ends the
/// run with its sizing error.
pub fn representative_fixture_frames(count: usize, limits: FrameLimits) -> (r: Result<
    Vec<Option<Frame>>,
    CameraManError,
>)
    requires
        count < 0xFFFF_FF00,
    ensures
        r is Ok <==> forall|i: int| 0 <= i < count ==> #[trigger] fixture_fits(i, limits),
        r matches Ok(frames) ==> frames@.len() == count && forall|i: int|
            0 <= i < count ==> (#[trigger] frames@[i] matches Some(f) && fixture_frame_matches(f, i)),
        r matches Err(e) ==> exists|i: int|
            0 <= i < count && !#[trigger] fixture_fits(i, limits) && (forall|j: int|
                0 <= j < i ==> fixture_fits(j, limits)) && byte_len_result(
                fixture_dimensions(i % 8).0,
                fixture_dimensions(i % 8).1,
                PixelFormat::Bgra8,
                limits,
            ) == Err::<usize, CameraManError>(e),
{
    let dimensions = representative_fixture_dimensions();
    let mut frames: Vec<Option<Frame>> = Vec::new();
    let mut index: usize = 0;
    while index < count
        invariant
            index <= count < 0xFFFF_FF00,
            frames@.len() == index,
            forall|i: int| 0 <= i < 8 ==> #[trigger] dimensions@[i] == fixture_dimensions(i),
            forall|i: int|
                0 <= i < index ==> (#[trigger] frames@[i] matches Some(f) && fixture_frame_matches(
                    f,
                    i,
                )),
            forall|i: int| 0 <= i < index ==> #[trigger] fixture_fits(i, limits),
        decreases count - index,
    {
        let (width, height) = dimensions[index % 8];
        assert((width, height) == fixture_dimensions((index % 8) as int));
        let source = index as u32;
        assert(source == index);
        assert(width * height * 4 <= 1279 * 719 * 4) by (nonlinear_arith)
            requires
                width <= 1279,
                height <= 773,
                width * height <= 1279 * 719,
        ;
        proof {
            lemma_pattern_prefix_len(width, height, source, (width * height) as nat);
        }
        let frame = match representative_patterned_frame(width, height, source, limits) {
            Ok(frame) => frame,
            Err(e) => {
                assert(!fixture_fits(index as int, limits));
                return Err(e);
            },
        };
        assert(fixture_fits(index as int, limits));
        frames.push(Some(frame));
        index = index + 1;
    }
    Ok(frames)
}

} // verus!
