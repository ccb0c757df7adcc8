use morset::keyer::{IambicKey, KeyerMode, ToneCommand};
use morset::writing::{InputEvent, WritingScreen};

const DIT: u64 = 120;

fn idle_dits(e: &mut WritingScreen, n: usize) {
    let none: Vec<InputEvent> = Vec::new();
    let mut i: usize = 0;
    while i < n {
        e.update(DIT, &none);
        i += 1;
    }
}

fn key_for_ticks(e: &mut WritingScreen, ticks: u64) {
    let none: Vec<InputEvent> = Vec::new();
    e.update(0, &vec![InputEvent::KeyDown]);
    e.update(ticks * DIT, &none);
    e.update(0, &vec![InputEvent::KeyUp]);
}

fn key_pattern(e: &mut WritingScreen, pattern: &str) {
    for sym in pattern.chars() {
        if sym == '.' {
            key_for_ticks(e, 1);
        } else {
            key_for_ticks(e, 3);
        }
    }
}

fn text_of(e: &WritingScreen) -> String {
    e.text.iter().collect()
}

#[test]
fn short_press_keys_a_dot() {
    let mut e = WritingScreen::new();
    key_for_ticks(&mut e, 1);
    assert_eq!(e.buffer, vec!['.']);
}

#[test]
fn three_tick_press_keys_a_dash() {
    let mut e = WritingScreen::new();
    key_for_ticks(&mut e, 3);
    assert_eq!(e.buffer, vec!['-']);
}

#[test]
fn two_dots_idle_to_tick_three_decode_to_i() {
    let mut e = WritingScreen::new();
    key_pattern(&mut e, "..");
    assert_eq!(e.buffer, vec!['.', '.']);
    idle_dits(&mut e, 3);
    assert_eq!(text_of(&e), "I");
    assert_eq!(e.buffer.len(), 0);
}

#[test]
fn appending_a_dash_before_resolution_decodes_to_u() {
    let mut e = WritingScreen::new();
    key_pattern(&mut e, "..-");
    assert_eq!(e.buffer, vec!['.', '.', '-']);
    idle_dits(&mut e, 3);
    assert_eq!(text_of(&e), "U");
}

#[test]
fn commit_reports_the_committed_delta() {
    let mut e = WritingScreen::new();
    key_pattern(&mut e, "..");
    let none: Vec<InputEvent> = Vec::new();
    e.update(DIT, &none);
    e.update(DIT, &none);
    let out = e.update(DIT, &none);
    assert_eq!(out.committed, vec!['I']);
    assert_eq!(out.ticks, 3);
    assert_eq!(out.buffer.len(), 0);
}

#[test]
fn word_boundary_appends_exactly_one_space() {
    let mut e = WritingScreen::new();
    key_pattern(&mut e, "..");
    // Seven ticks of idle time from the key release: the character
    // commits at tick 3 and one space follows at tick 7.
    idle_dits(&mut e, 7);
    assert_eq!(text_of(&e), "I ");
    // Further idle time appends nothing more.
    idle_dits(&mut e, 25);
    assert_eq!(text_of(&e), "I ");
}

#[test]
fn no_space_on_empty_text() {
    let mut e = WritingScreen::new();
    idle_dits(&mut e, 20);
    assert_eq!(text_of(&e), "");
}

#[test]
fn unmatched_buffer_is_dropped_silently() {
    let mut e = WritingScreen::new();
    key_pattern(&mut e, ".......");
    idle_dits(&mut e, 3);
    assert_eq!(text_of(&e), "");
    assert_eq!(e.buffer.len(), 0);
}

#[test]
fn character_wins_over_prosign_with_shared_pattern() {
    // ")" and the KN prosign share a pattern; the character table is
    // consulted first, so exactly one rendering is committed.
    let mut e = WritingScreen::new();
    key_pattern(&mut e, "-.--.");
    idle_dits(&mut e, 3);
    assert_eq!(text_of(&e), ")");
}

#[test]
fn sos_commits_its_prosign_rendering() {
    let mut e = WritingScreen::new();
    key_pattern(&mut e, "...---...");
    idle_dits(&mut e, 3);
    assert_eq!(text_of(&e), "SOS (Distress Signal)");
}

#[test]
fn straight_key_drives_the_tone() {
    let mut e = WritingScreen::new();
    let out = e.update(0, &vec![InputEvent::KeyDown]);
    assert_eq!(out.tone_commands, vec![ToneCommand::Start]);
    let out = e.update(DIT, &vec![InputEvent::KeyUp]);
    assert_eq!(out.tone_commands, vec![ToneCommand::Stop]);
}

#[test]
fn paddle_events_are_ignored_in_straight_mode() {
    let mut e = WritingScreen::new();
    e.update(0, &vec![InputEvent::PaddleDown(IambicKey::Dot)]);
    idle_dits(&mut e, 10);
    assert_eq!(e.buffer.len(), 0);
    assert_eq!(text_of(&e), "");
}

#[test]
fn straight_key_is_ignored_in_iambic_mode() {
    let mut e = WritingScreen::new();
    e.set_keyer_mode(KeyerMode::IambicA);
    e.update(0, &vec![InputEvent::KeyDown]);
    e.update(DIT, &vec![InputEvent::KeyUp]);
    assert_eq!(e.buffer.len(), 0);
}

#[test]
fn iambic_squeeze_fills_the_buffer_alternately() {
    let mut e = WritingScreen::new();
    e.set_keyer_mode(KeyerMode::IambicB);
    e.update(0, &vec![InputEvent::PaddleDown(IambicKey::Dot)]);
    e.update(0, &vec![InputEvent::PaddleDown(IambicKey::Dash)]);
    idle_dits(&mut e, 30);
    assert!(e.buffer.len() >= 6);
    for (i, sym) in e.buffer.iter().enumerate() {
        let expected = if i % 2 == 0 { '.' } else { '-' };
        assert_eq!(*sym, expected);
    }
}

#[test]
fn wpm_is_clamped_and_resets_the_clock() {
    let mut e = WritingScreen::new();
    e.set_wpm(0);
    assert_eq!(e.wpm, 1);
    assert_eq!(e.ticker.dit_duration, 1200);
    e.set_wpm(255);
    assert_eq!(e.wpm, 40);
    assert_eq!(e.ticker.dit_duration, 30);
    let none: Vec<InputEvent> = Vec::new();
    e.update(45, &none);
    assert_eq!(e.ticker.ticks, 1);
    // An unchanged speed leaves the running measurement alone.
    e.set_wpm(40);
    assert_eq!(e.ticker.ticks, 1);
    // A changed speed resets it.
    e.set_wpm(10);
    assert_eq!(e.ticker.ticks, 0);
}

#[test]
fn frequency_and_volume_are_clamped() {
    let mut e = WritingScreen::new();
    assert_eq!(e.set_frequency(10), ToneCommand::SetFrequency(300));
    assert_eq!(e.frequency, 300);
    assert_eq!(e.set_frequency(9999), ToneCommand::SetFrequency(1200));
    assert_eq!(e.frequency, 1200);
    assert_eq!(e.set_frequency(700), ToneCommand::SetFrequency(700));
    assert_eq!(e.set_volume(1000), ToneCommand::SetVolume(100));
    assert_eq!(e.volume, 100);
    assert_eq!(e.set_volume(35), ToneCommand::SetVolume(35));
    assert_eq!(e.volume, 35);
}

#[test]
fn clear_empties_text_and_buffer() {
    let mut e = WritingScreen::new();
    key_pattern(&mut e, "..");
    idle_dits(&mut e, 3);
    key_for_ticks(&mut e, 1);
    assert_eq!(text_of(&e), "I");
    assert_eq!(e.buffer, vec!['.']);
    e.clear();
    assert_eq!(text_of(&e), "");
    assert_eq!(e.buffer.len(), 0);
}

#[test]
fn switching_mode_recreates_the_scheduler_and_clock() {
    let mut e = WritingScreen::new();
    e.set_keyer_mode(KeyerMode::IambicA);
    e.update(0, &vec![InputEvent::PaddleDown(IambicKey::Dot)]);
    idle_dits(&mut e, 3);
    assert!(e.iambic_scheduler.any_active());
    e.set_keyer_mode(KeyerMode::Straight);
    assert!(!e.iambic_scheduler.any_active());
    assert_eq!(e.ticker.ticks, 0);
}
