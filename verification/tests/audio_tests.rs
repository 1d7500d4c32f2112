use caption_mux::audio::downmix;

#[test]
fn downmix_cancelling_pair_is_zero() {
    // (100, -100) -> 100/2 + (-100)/2 = 50 - 50 = 0
    assert_eq!(downmix(&[100, -100]), vec![0]);
}

#[test]
fn downmix_truncates_toward_zero() {
    // (3, 0) -> 3/2 + 0/2 = 1, not a rounding average
    assert_eq!(downmix(&[3, 0]), vec![1]);
    // (-3, 0) -> -(3/2) + 0 = -1, truncation toward zero, not flooring
    assert_eq!(downmix(&[-3, 0]), vec![-1]);
}

#[test]
fn downmix_pairs_consecutive_samples() {
    assert_eq!(downmix(&[100, -100, 50, -50]), vec![0, 0]);
    assert_eq!(downmix(&[10, 20, 30, 40]), vec![15, 35]);
}

#[test]
fn downmix_drops_trailing_unpaired_sample() {
    assert_eq!(downmix(&[10, 20, 99]), vec![15]);
}

#[test]
fn downmix_empty_input() {
    assert_eq!(downmix(&[]), Vec::<i16>::new());
}

#[test]
fn downmix_extreme_samples_do_not_overflow() {
    assert_eq!(downmix(&[i16::MIN, i16::MIN]), vec![-32768]);
    assert_eq!(downmix(&[i16::MAX, i16::MAX]), vec![32766]);
    assert_eq!(downmix(&[i16::MIN, i16::MAX]), vec![-16384 + 16383]);
}
