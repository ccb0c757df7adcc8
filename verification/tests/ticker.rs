use morset::ticker::Ticker;

#[test]
fn ticks_accumulate_one_dit_at_a_time() {
    let mut t = Ticker::new(120);
    assert_eq!(t.tick(119), None);
    assert_eq!(t.tick(1), Some(1));
    assert_eq!(t.tick(120), Some(2));
    assert_eq!(t.tick(60), None);
    assert_eq!(t.tick(60), Some(3));
}

#[test]
fn ticks_saturate_at_seven() {
    // Deltas summing to k dit durations leave the count at min(k, 7).
    let mut t = Ticker::new(100);
    assert_eq!(t.tick(500), Some(5));
    assert_eq!(t.tick(200), Some(7));
    assert_eq!(t.tick(300), None);
    assert_eq!(t.ticks, 7);
}

#[test]
fn one_large_delta_counts_all_its_dits() {
    let mut t = Ticker::new(100);
    assert_eq!(t.tick(700), Some(7));
}

#[test]
fn irregular_deltas_summing_to_k_dits() {
    let mut t = Ticker::new(120);
    let deltas: [u64; 5] = [37, 203, 1, 99, 140];
    let mut total: u64 = 0;
    let mut last: Option<usize> = None;
    for d in deltas {
        total += d;
        last = t.tick(d);
    }
    assert_eq!(total, 480);
    assert_eq!(t.ticks, 4);
    assert_eq!(last, Some(4));
}

#[test]
fn wrap_cycles_through_eight_phases() {
    let mut t = Ticker::new(100);
    t.wrap = true;
    assert_eq!(t.tick(700), Some(7));
    assert_eq!(t.tick(100), Some(0));
    assert_eq!(t.tick(100), Some(1));
    assert_eq!(t.tick(800), None);
    assert_eq!(t.ticks, 1);
}

#[test]
fn reset_reports_a_change_even_at_the_same_count() {
    let mut t = Ticker::new(100);
    assert_eq!(t.tick(50), None);
    t.reset();
    // The count is still zero, but a fresh cycle must be reported.
    assert_eq!(t.tick(10), Some(0));
    assert_eq!(t.tick(10), None);
}

#[test]
fn reset_zeroes_count_and_accumulator() {
    let mut t = Ticker::new(100);
    assert_eq!(t.tick(350), Some(3));
    t.reset();
    assert_eq!(t.ticks, 0);
    assert_eq!(t.tick(99), Some(0));
    assert_eq!(t.tick(1), Some(1));
}
