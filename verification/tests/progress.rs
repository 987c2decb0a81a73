use empress::progress::{progress_ratio, Progress};

#[test]
fn half_way_through() {
    assert_eq!(progress_ratio(Some(30), Some(60)), Progress { part: 30, whole: 60 });
}

#[test]
fn position_beyond_the_length_is_cut_off_at_the_whole() {
    assert_eq!(progress_ratio(Some(90), Some(60)), Progress { part: 60, whole: 60 });
    assert_eq!(progress_ratio(Some(u64::MAX), Some(1)), Progress { part: 1, whole: 1 });
}

#[test]
fn position_at_the_length_is_the_whole() {
    assert_eq!(progress_ratio(Some(60), Some(60)), Progress { part: 60, whole: 60 });
}

#[test]
fn zero_length_gives_exactly_zero() {
    assert_eq!(progress_ratio(Some(30), Some(0)), Progress { part: 0, whole: 1 });
    assert_eq!(progress_ratio(Some(0), Some(0)), Progress { part: 0, whole: 1 });
}

#[test]
fn absent_length_gives_exactly_zero() {
    assert_eq!(progress_ratio(Some(30), None), Progress { part: 0, whole: 1 });
}

#[test]
fn absent_position_gives_exactly_zero() {
    assert_eq!(progress_ratio(None, Some(60)), Progress { part: 0, whole: 1 });
    assert_eq!(progress_ratio(None, None), Progress { part: 0, whole: 1 });
}

#[test]
fn length_below_one_second_still_counts() {
    assert_eq!(progress_ratio(Some(250_000), Some(500_000)), Progress { part: 250_000, whole: 500_000 });
}

#[test]
fn ratio_stays_between_zero_and_one() {
    let samples: [Option<u64>; 6] = [None, Some(0), Some(1), Some(59), Some(60), Some(u64::MAX)];
    for position in samples {
        for length in samples {
            let ratio = progress_ratio(position, length);
            assert!(ratio.whole > 0);
            assert!(ratio.part <= ratio.whole);
            let value = ratio.part as f64 / ratio.whole as f64;
            assert!((0.0..=1.0).contains(&value));
            if length.is_none() || length == Some(0) {
                assert_eq!(value, 0.0);
            }
        }
    }
}
