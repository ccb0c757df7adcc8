use morset::codes::{char_code, decode_symbols, morse_to_char, prosign_labels, ProSign};

#[test]
fn decodes_single_letters() {
    assert_eq!(morse_to_char(".."), Some('I'));
    assert_eq!(morse_to_char("..-"), Some('U'));
    assert_eq!(morse_to_char(".-"), Some('A'));
    assert_eq!(morse_to_char("-"), Some('T'));
    assert_eq!(morse_to_char("."), Some('E'));
}

#[test]
fn decodes_digits_and_punctuation() {
    assert_eq!(morse_to_char("-----"), Some('0'));
    assert_eq!(morse_to_char(".----"), Some('1'));
    assert_eq!(morse_to_char("..--.."), Some('?'));
    assert_eq!(morse_to_char(".-.-.-"), Some('.'));
}

#[test]
fn unknown_patterns_decode_to_nothing() {
    assert_eq!(morse_to_char(""), None);
    assert_eq!(morse_to_char("......."), None);
    assert_eq!(morse_to_char("x"), None);
}

#[test]
fn close_bracket_wins_over_prosign_with_same_pattern() {
    // ")" and the KN prosign share the pattern "-.--."; the character
    // table is consulted first.
    assert_eq!(morse_to_char("-.--."), Some(')'));
}

#[test]
fn decode_round_trips_every_encodable_character() {
    let all = "ABCDEFGHIJKLMNOPQRSTUVWXYZ1234567890.!',?/-()@&";
    for c in all.chars() {
        let code = char_code(c).expect("every character of the table encodes");
        assert_eq!(morse_to_char(code), Some(c));
    }
}

#[test]
fn unencodable_characters_have_no_code() {
    assert_eq!(char_code(' '), None);
    assert_eq!(char_code('a'), None);
    assert_eq!(char_code('#'), None);
}

#[test]
fn decode_symbols_matches_string_decoding() {
    let buffer: Vec<char> = vec!['.', '.', '-'];
    assert_eq!(decode_symbols(&buffer), Some('U'));
    let empty: Vec<char> = Vec::new();
    assert_eq!(decode_symbols(&empty), None);
}

#[test]
fn prosign_labels_render_matches() {
    let sos: Vec<char> = "...---...".chars().collect();
    let rendered: String = prosign_labels(&sos).into_iter().collect();
    assert_eq!(rendered, "SOS (Distress Signal)");

    let kn: Vec<char> = "-.--.".chars().collect();
    let rendered: String = prosign_labels(&kn).into_iter().collect();
    assert_eq!(rendered, "<KN> (Invitation to Transmit to Specific Station)");

    let none: Vec<char> = "..".chars().collect();
    assert_eq!(prosign_labels(&none).len(), 0);
}

#[test]
fn prosign_label_texts() {
    assert_eq!(ProSign::AR.label(), "<AR> (End of Message)");
    assert_eq!(ProSign::ERR.label(), "<ERR> (Erroneous Transmission)");
    assert_eq!(ProSign::AA.label(), "<AA>\n");
}

#[test]
fn six_uses_a_dash_led_pattern() {
    assert_eq!(char_code('6'), Some("-...."));
    assert_eq!(morse_to_char("-...."), Some('6'));
}
