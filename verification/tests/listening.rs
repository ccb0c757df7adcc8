use morset::listening::{encode_phrase, ListeningScreen, Segment};

const DIT: u64 = 120;

#[test]
fn encodes_a_single_letter() {
    // 'A' is ".-": a dit tone, a dit of silence, a dah tone.
    let segments = encode_phrase("A", DIT, false);
    assert_eq!(
        segments,
        vec![
            Segment::Tone(DIT),
            Segment::Silence(DIT),
            Segment::Tone(3 * DIT),
        ]
    );
}

#[test]
fn separates_characters_by_three_dits() {
    // "AB" holds a three-dit gap between the two characters.
    let segments = encode_phrase("AB", DIT, false);
    let expected = vec![
        Segment::Tone(DIT),
        Segment::Silence(DIT),
        Segment::Tone(3 * DIT),
        Segment::Silence(3 * DIT),
        Segment::Tone(3 * DIT),
        Segment::Silence(DIT),
        Segment::Tone(DIT),
        Segment::Silence(DIT),
        Segment::Tone(DIT),
        Segment::Silence(DIT),
        Segment::Tone(DIT),
    ];
    assert_eq!(segments, expected);
}

#[test]
fn separates_words_by_seven_dits() {
    let segments = encode_phrase("E E", DIT, false);
    assert_eq!(
        segments,
        vec![
            Segment::Tone(DIT),
            Segment::Silence(7 * DIT),
            Segment::Tone(DIT),
        ]
    );
}

#[test]
fn farnsworth_doubles_the_gaps_between_characters_and_words() {
    let segments = encode_phrase("EE", DIT, true);
    assert_eq!(
        segments,
        vec![
            Segment::Tone(DIT),
            Segment::Silence(6 * DIT),
            Segment::Tone(DIT),
        ]
    );
    let segments = encode_phrase("E E", DIT, true);
    assert_eq!(
        segments,
        vec![
            Segment::Tone(DIT),
            Segment::Silence(14 * DIT),
            Segment::Tone(DIT),
        ]
    );
}

#[test]
fn unknown_characters_are_skipped_without_error() {
    assert_eq!(
        encode_phrase("A#B", DIT, false),
        encode_phrase("AB", DIT, false)
    );
    assert_eq!(
        encode_phrase("xyz", DIT, false),
        Vec::<Segment>::new()
    );
}

#[test]
fn stray_spaces_add_no_segments() {
    assert_eq!(
        encode_phrase("  A  ", DIT, false),
        encode_phrase("A", DIT, false)
    );
    assert_eq!(encode_phrase("   ", DIT, false), Vec::<Segment>::new());
    assert_eq!(
        encode_phrase("A  B", DIT, false),
        encode_phrase("A B", DIT, false)
    );
}

#[test]
fn empty_phrase_encodes_to_nothing() {
    assert_eq!(encode_phrase("", DIT, false), Vec::<Segment>::new());
}

#[test]
fn encoding_is_deterministic_on_repeat() {
    let first = encode_phrase("PARIS PARIS", 100, false);
    let second = encode_phrase("PARIS PARIS", 100, false);
    assert_eq!(first, second);
    assert!(!first.is_empty());
}

#[test]
fn paris_takes_fifty_dit_units() {
    // The calibration word: PARIS plus its trailing word gap spans
    // exactly 50 dit units.
    let segments = encode_phrase("PARIS", 1, false);
    let mut total: u64 = 0;
    for s in segments {
        match s {
            Segment::Tone(ms) => total += ms,
            Segment::Silence(ms) => total += ms,
        }
    }
    // 43 units of tones and gaps inside the word; the inter-word gap of 7
    // completes the 50.
    assert_eq!(total + 7, 50);
}

#[test]
fn listening_screen_constructs() {
    let _screen = ListeningScreen::new();
}
