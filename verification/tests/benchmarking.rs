use camera_man::benchmarking::{
    default_case_order_mode, default_fixture_profile, percentile_index_thousandths,
    representative_fixture_frames, representative_patterned_frame, seeded_case_order,
    stable_seed, XorShift64, DEFAULT_FIXTURE_PROFILE,
};
use camera_man::frame::{default_frame_limits, FrameLimits};
use camera_man::error::CameraManError;

#[test]
fn seeded_case_order_is_a_stable_permutation() {
    let first = seeded_case_order(16, 42);
    let second = seeded_case_order(16, 42);
    assert_eq!(first, second);
    assert_ne!(first, (0..16).collect::<Vec<_>>());
    let mut sorted = first;
    sorted.sort_unstable();
    assert_eq!(sorted, (0..16).collect::<Vec<_>>());
}

#[test]
fn representative_fixture_is_deterministic_and_odd_sized() {
    let first = representative_fixture_frames(2, default_frame_limits(None, None)).unwrap();
    let second = representative_fixture_frames(2, default_frame_limits(None, None)).unwrap();

    assert_eq!(first, second);
    assert_eq!(first[0].as_ref().unwrap().width(), 641);
    assert_eq!(first[0].as_ref().unwrap().height(), 479);
    assert_ne!(
        first[0].as_ref().unwrap().bgra_at(1, 1),
        first[0].as_ref().unwrap().bgra_at(48, 1)
    );
}

#[test]
fn fixture_edges_are_white_and_sizes_cycle() {
    let frames = representative_fixture_frames(9, default_frame_limits(None, None)).unwrap();
    assert_eq!(frames.len(), 9);
    let second = frames[1].as_ref().unwrap();
    assert_eq!((second.width(), second.height()), (853, 481));
    let ninth = frames[8].as_ref().unwrap();
    assert_eq!((ninth.width(), ninth.height()), (641, 479));
    assert_eq!(ninth.bgra_at(0, 0), Some([255, 255, 255, 255]));
    assert_eq!(ninth.bgra_at(640, 100), Some([255, 255, 255, 255]));
    assert!(representative_patterned_frame(0, 4, 0, default_frame_limits(None, None)).is_err());
}

#[test]
fn zero_sized_case_lists_are_empty_and_single_cases_stay_put() {
    assert!(seeded_case_order(0, 7).is_empty());
    assert_eq!(seeded_case_order(1, 0), vec![0]);
}

#[test]
fn xorshift_never_starts_from_zero() {
    assert_eq!(XorShift64::new(0).0, 1);
    let mut generator = XorShift64::new(1);
    let value = generator.next();
    let mut expected: u64 = 1;
    expected ^= expected << 13;
    expected ^= expected >> 7;
    expected ^= expected << 17;
    assert_eq!(value, expected);
    assert!(generator.index(5) < 5);
}

#[test]
fn stable_seed_folds_every_byte() {
    assert_eq!(stable_seed(""), 0xcbf2_9ce4_8422_2325);
    let mut expected: u64 = 0xcbf2_9ce4_8422_2325;
    for byte in "case".bytes() {
        expected = (expected ^ u64::from(byte)).wrapping_mul(0x1000_0000_01b3);
    }
    assert_eq!(stable_seed("case"), expected);
    assert_eq!(stable_seed("a"), 0xaf74_d84c_8601_ec8c);
}

#[test]
fn thousandth_percentiles_clamp_and_round_down() {
    assert_eq!(percentile_index_thousandths(1000, 25), 24);
    assert_eq!(percentile_index_thousandths(1000, 975), 974);
    assert_eq!(percentile_index_thousandths(10, 5000), 9);
    assert_eq!(percentile_index_thousandths(1, 500), 0);
}

#[test]
fn legacy_reports_default_their_profile_and_order() {
    assert_eq!(default_fixture_profile(), DEFAULT_FIXTURE_PROFILE);
    assert_eq!(default_case_order_mode(), "rotation");
}

#[test]
fn fixtures_stop_at_the_first_frame_over_the_policy() {
    let error = representative_fixture_frames(3, FrameLimits::new(1_000_000)).unwrap_err();
    assert_eq!(
        error,
        CameraManError::FrameLimitExceeded {
            bytes: 641 * 479 * 4,
            limit: 1_000_000
        }
    );
    assert_eq!(representative_fixture_frames(0, FrameLimits::new(1)).unwrap().len(), 0);
}
