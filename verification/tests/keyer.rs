use morset::keyer::{IambicKey, IambicScheduler, KeyerMode, ToneCommand};

fn collect_emissions(sched: &mut IambicScheduler, start_tick: usize, steps: usize) -> Vec<char> {
    let mut out: Vec<char> = Vec::new();
    let mut tick: usize = start_tick;
    let mut i: usize = 0;
    while i < steps {
        tick = (tick + 1) % 8;
        let (emitted, _tone) = sched.handle_tick(tick);
        if let Some(sym) = emitted {
            out.push(sym);
        }
        i += 1;
    }
    out
}

#[test]
fn keyer_modes_classify() {
    assert!(KeyerMode::IambicA.is_iambic());
    assert!(KeyerMode::IambicB.is_iambic());
    assert!(!KeyerMode::Straight.is_iambic());
}

#[test]
fn squeeze_alternates_dot_first() {
    let mut s = IambicScheduler::default();
    s.press_key(IambicKey::Dot, 0);
    s.press_key(IambicKey::Dash, 0);
    let emitted = collect_emissions(&mut s, 0, 40);
    assert!(emitted.len() >= 8);
    for (i, sym) in emitted.iter().enumerate() {
        let expected = if i % 2 == 0 { '.' } else { '-' };
        assert_eq!(*sym, expected);
    }
    assert!(s.any_active());
}

#[test]
fn squeeze_alternates_dash_first() {
    let mut s = IambicScheduler::default();
    s.press_key(IambicKey::Dash, 0);
    s.press_key(IambicKey::Dot, 0);
    let emitted = collect_emissions(&mut s, 0, 40);
    assert!(emitted.len() >= 8);
    for (i, sym) in emitted.iter().enumerate() {
        let expected = if i % 2 == 0 { '-' } else { '.' };
        assert_eq!(*sym, expected);
    }
}

#[test]
fn releasing_dash_leaves_only_dots() {
    let mut s = IambicScheduler::default();
    s.press_key(IambicKey::Dot, 0);
    s.press_key(IambicKey::Dash, 0);
    // Let the squeeze run a little, then release the dash paddle.
    let head = collect_emissions(&mut s, 0, 10);
    assert!(head.len() >= 2);
    s.release_key(IambicKey::Dash);
    let tail = collect_emissions(&mut s, 10 % 8, 40);
    // The already-scheduled dash still completes once; after that, only
    // the held dot re-arms, so the stream continues as dot, dot, dot.
    assert_eq!(tail[0], '-');
    assert!(tail.len() >= 10);
    for sym in tail.iter().skip(1) {
        assert_eq!(*sym, '.');
    }
    assert!(s.any_active());
}

#[test]
fn releasing_both_stops_the_stream() {
    let mut s = IambicScheduler::default();
    s.press_key(IambicKey::Dot, 0);
    s.press_key(IambicKey::Dash, 0);
    let _ = collect_emissions(&mut s, 0, 6);
    s.release_key(IambicKey::Dot);
    s.release_key(IambicKey::Dash);
    // Scheduled elements finish, then everything goes quiet.
    let _ = collect_emissions(&mut s, 6 % 8, 16);
    assert!(!s.any_active());
    let silence = collect_emissions(&mut s, 6 % 8, 16);
    assert_eq!(silence.len(), 0);
}

#[test]
fn single_dot_paddle_repeats_dots() {
    let mut s = IambicScheduler::default();
    s.press_key(IambicKey::Dot, 0);
    let emitted = collect_emissions(&mut s, 0, 16);
    // A dot claims two ticks, so sixteen ticks hold eight dots.
    assert_eq!(emitted.len(), 8);
    assert!(emitted.iter().all(|c| *c == '.'));
}

#[test]
fn single_dash_paddle_repeats_dashes() {
    let mut s = IambicScheduler::default();
    s.press_key(IambicKey::Dash, 0);
    let emitted = collect_emissions(&mut s, 0, 16);
    // A dash claims four ticks, so sixteen ticks hold four dashes.
    assert_eq!(emitted.len(), 4);
    assert!(emitted.iter().all(|c| *c == '-'));
}

#[test]
fn pressing_a_scheduled_paddle_is_a_no_op() {
    let mut s = IambicScheduler::default();
    s.press_key(IambicKey::Dot, 3);
    let before = s.clone();
    s.press_key(IambicKey::Dot, 6);
    assert_eq!(s, before);
}

#[test]
fn repeat_press_does_not_revive_a_released_element() {
    let mut s = IambicScheduler::default();
    s.press_key(IambicKey::Dot, 0);
    s.release_key(IambicKey::Dot);
    // A press while the element is still scheduled is a full no-op: the
    // released flag stays set, so the element completes once and stops.
    s.press_key(IambicKey::Dot, 0);
    let (emitted, _tone) = s.handle_tick(1);
    assert_eq!(emitted, Some('.'));
    assert!(!s.any_active());
}

#[test]
fn completion_stops_the_tone_and_activity_starts_it() {
    let mut s = IambicScheduler::default();
    s.press_key(IambicKey::Dot, 0);
    // Tick 1 completes the dot: the audible window ends.
    let (emitted, tone) = s.handle_tick(1);
    assert_eq!(emitted, Some('.'));
    assert_eq!(tone, Some(ToneCommand::Stop));
    // Tick 2 is inside the next element's window: the tone runs.
    let (emitted, tone) = s.handle_tick(2);
    assert_eq!(emitted, None);
    assert_eq!(tone, Some(ToneCommand::Start));
}

#[test]
fn idle_scheduler_is_silent() {
    let mut s = IambicScheduler::default();
    let (emitted, tone) = s.handle_tick(5);
    assert_eq!(emitted, None);
    assert_eq!(tone, None);
    assert!(!s.any_active());
}
