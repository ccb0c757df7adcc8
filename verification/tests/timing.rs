use morset::timing::{wpm_to_dit_duration, MAX_WPM, MIN_WPM};

#[test]
fn dit_duration_at_ten_wpm() {
    assert_eq!(wpm_to_dit_duration(10), 120);
}

#[test]
fn dit_duration_at_bounds() {
    assert_eq!(wpm_to_dit_duration(MIN_WPM), 1200);
    assert_eq!(wpm_to_dit_duration(MAX_WPM), 30);
}

#[test]
fn dit_duration_rounds_up() {
    // 1200 / 7 = 171.43..., so the dit lasts 172 ms.
    assert_eq!(wpm_to_dit_duration(7), 172);
    // 1200 / 13 = 92.3..., so 93 ms.
    assert_eq!(wpm_to_dit_duration(13), 93);
    // 1200 / 24 = 50 exactly.
    assert_eq!(wpm_to_dit_duration(24), 50);
}

#[test]
fn dit_duration_is_least_sufficient() {
    let mut wpm: u8 = 1;
    while wpm <= 40 {
        let d: u64 = wpm_to_dit_duration(wpm);
        assert!(d * (wpm as u64) >= 1200);
        assert!((d - 1) * (wpm as u64) < 1200);
        wpm += 1;
    }
}
