//! The Morse code tables: a bidirectional mapping between characters
//! (letters, digits, punctuation) and dot/dash strings, plus the procedural
//! signs (prosigns) with their textual renderings. The combined
//! letter/digit/punctuation table is keyed by dot/dash string for decoding
//! and by character for encoding; its dot/dash strings are unique, so
//! decoding is unambiguous.

use vstd::prelude::*;

verus! {

broadcast use vstd::string::group_string_axioms;

/// Number of entries in the combined letter/digit/punctuation table.
pub const TABLE_LEN: usize = 47;

/// The character of combined-table entry `i`.
pub open spec fn table_char(i: int) -> char {
    if i == 0 {
        'A'
    } else if i == 1 {
        'B'
    } else if i == 2 {
        'C'
    } else if i == 3 {
        'D'
    } else if i == 4 {
        'E'
    } else if i == 5 {
        'F'
    } else if i == 6 {
        'G'
    } else if i == 7 {
        'H'
    } else if i == 8 {
        'I'
    } else if i == 9 {
        'J'
    } else if i == 10 {
        'K'
    } else if i == 11 {
        'L'
    } else if i == 12 {
        'M'
    } else if i == 13 {
        'N'
    } else if i == 14 {
        'O'
    } else if i == 15 {
        'P'
    } else if i == 16 {
        'Q'
    } else if i == 17 {
        'R'
    } else if i == 18 {
        'S'
    } else if i == 19 {
        'T'
    } else if i == 20 {
        'U'
    } else if i == 21 {
        'V'
    } else if i == 22 {
        'W'
    } else if i == 23 {
        'X'
    } else if i == 24 {
        'Y'
    } else if i == 25 {
        'Z'
    } else if i == 26 {
        '1'
    } else if i == 27 {
        '2'
    } else if i == 28 {
        '3'
    } else if i == 29 {
        '4'
    } else if i == 30 {
        '5'
    } else if i == 31 {
        '6'
    } else if i == 32 {
        '7'
    } else if i == 33 {
        '8'
    } else if i == 34 {
        '9'
    } else if i == 35 {
        '0'
    } else if i == 36 {
        '.'
    } else if i == 37 {
        '!'
    } else if i == 38 {
        '\''
    } else if i == 39 {
        ','
    } else if i == 40 {
        '?'
    } else if i == 41 {
        '/'
    } else if i == 42 {
        '-'
    } else if i == 43 {
        '('
    } else if i == 44 {
        ')'
    } else if i == 45 {
        '@'
    } else if i == 46 {
        '&'
    } else {
        ' '
    }
}

/// The dot/dash string of combined-table entry `i`: the letters, then
/// the digits, then the punctuation, in table order.
pub open spec fn table_code(i: int) -> Seq<char> {
    if i == 0 {
        ".-"@
    } else if i == 1 {
        "-..."@
    } else if i == 2 {
        "-.-."@
    } else if i == 3 {
        "-.."@
    } else if i == 4 {
        "."@
    } else if i == 5 {
        "..-."@
    } else if i == 6 {
        "--."@
    } else if i == 7 {
        "...."@
    } else if i == 8 {
        ".."@
    } else if i == 9 {
        ".---"@
    } else if i == 10 {
        "-.-"@
    } else if i == 11 {
        ".-.."@
    } else if i == 12 {
        "--"@
    } else if i == 13 {
        "-."@
    } else if i == 14 {
        "---"@
    } else if i == 15 {
        ".--."@
    } else if i == 16 {
        "--.-"@
    } else if i == 17 {
        ".-."@
    } else if i == 18 {
        "..."@
    } else if i == 19 {
        "-"@
    } else if i == 20 {
        "..-"@
    } else if i == 21 {
        "...-"@
    } else if i == 22 {
        ".--"@
    } else if i == 23 {
        "-..-"@
    } else if i == 24 {
        "-.--"@
    } else if i == 25 {
        "--.."@
    } else if i == 26 {
        ".----"@
    } else if i == 27 {
        "..---"@
    } else if i == 28 {
        "...--"@
    } else if i == 29 {
        "....-"@
    } else if i == 30 {
        "....."@
    } else if i == 31 {
        "-...."@
    } else if i == 32 {
        "--..."@
    } else if i == 33 {
        "---.."@
    } else if i == 34 {
        "----."@
    } else if i == 35 {
        "-----"@
    } else if i == 36 {
        ".-.-.-"@
    } else if i == 37 {
        "-.-.--"@
    } else if i == 38 {
        ".----."@
    } else if i == 39 {
        "--..--"@
    } else if i == 40 {
        "..--.."@
    } else if i == 41 {
        "-..-."@
    } else if i == 42 {
        "-....-"@
    } else if i == 43 {
        "-.--.-"@
    } else if i == 44 {
        "-.--."@
    } else if i == 45 {
        ".--.-."@
    } else if i == 46 {
        ".-..."@
    } else {
        ""@
    }
}

/// The combined-table entry at `i`.
fn table_entry(i: usize) -> (r: (char, &'static str))
    requires
        i < 47,
    ensures
        r.0 == table_char(i as int),
        r.1@ == table_code(i as int),
{
    if i == 0 {
        ('A', ".-")
    } else if i == 1 {
        ('B', "-...")
    } else if i == 2 {
        ('C', "-.-.")
    } else if i == 3 {
        ('D', "-..")
    } else if i == 4 {
        ('E', ".")
    } else if i == 5 {
        ('F', "..-.")
    } else if i == 6 {
        ('G', "--.")
    } else if i == 7 {
        ('H', "....")
    } else if i == 8 {
        ('I', "..")
    } else if i == 9 {
        ('J', ".---")
    } else if i == 10 {
        ('K', "-.-")
    } else if i == 11 {
        ('L', ".-..")
    } else if i == 12 {
        ('M', "--")
    } else if i == 13 {
        ('N', "-.")
    } else if i == 14 {
        ('O', "---")
    } else if i == 15 {
        ('P', ".--.")
    } else if i == 16 {
        ('Q', "--.-")
    } else if i == 17 {
        ('R', ".-.")
    } else if i == 18 {
        ('S', "...")
    } else if i == 19 {
        ('T', "-")
    } else if i == 20 {
        ('U', "..-")
    } else if i == 21 {
        ('V', "...-")
    } else if i == 22 {
        ('W', ".--")
    } else if i == 23 {
        ('X', "-..-")
    } else if i == 24 {
        ('Y', "-.--")
    } else if i == 25 {
        ('Z', "--..")
    } else if i == 26 {
        ('1', ".----")
    } else if i == 27 {
        ('2', "..---")
    } else if i == 28 {
        ('3', "...--")
    } else if i == 29 {
        ('4', "....-")
    } else if i == 30 {
        ('5', ".....")
    } else if i == 31 {
        ('6', "-....")
    } else if i == 32 {
        ('7', "--...")
    } else if i == 33 {
        ('8', "---..")
    } else if i == 34 {
        ('9', "----.")
    } else if i == 35 {
        ('0', "-----")
    } else if i == 36 {
        ('.', ".-.-.-")
    } else if i == 37 {
        ('!', "-.-.--")
    } else if i == 38 {
        ('\'', ".----.")
    } else if i == 39 {
        (',', "--..--")
    } else if i == 40 {
        ('?', "..--..")
    } else if i == 41 {
        ('/', "-..-.")
    } else if i == 42 {
        ('-', "-....-")
    } else if i == 43 {
        ('(', "-.--.-")
    } else if i == 44 {
        (')', "-.--.")
    } else if i == 45 {
        ('@', ".--.-.")
    } else if i == 46 {
        ('&', ".-...")
    } else {
        (' ', "")
    }
}

/// The dot/dash strings of the combined table are pairwise distinct, so
/// decoding is unambiguous: revealing every pattern gives the solver the
/// length and characters that tell any two apart.
proof fn lemma_table_codes_distinct()
    ensures
        forall|i: int, j: int| 0 <= i < j < 47 ==> table_code(i) != table_code(j),
{
    reveal_strlit(".-");
    reveal_strlit("-...");
    reveal_strlit("-.-.");
    reveal_strlit("-..");
    reveal_strlit(".");
    reveal_strlit("..-.");
    reveal_strlit("--.");
    reveal_strlit("....");
    reveal_strlit("..");
    reveal_strlit(".---");
    reveal_strlit("-.-");
    reveal_strlit(".-..");
    reveal_strlit("--");
    reveal_strlit("-.");
    reveal_strlit("---");
    reveal_strlit(".--.");
    reveal_strlit("--.-");
    reveal_strlit(".-.");
    reveal_strlit("...");
    reveal_strlit("-");
    reveal_strlit("..-");
    reveal_strlit("...-");
    reveal_strlit(".--");
    reveal_strlit("-..-");
    reveal_strlit("-.--");
    reveal_strlit("--..");
    reveal_strlit(".----");
    reveal_strlit("..---");
    reveal_strlit("...--");
    reveal_strlit("....-");
    reveal_strlit(".....");
    reveal_strlit("-....");
    reveal_strlit("--...");
    reveal_strlit("---..");
    reveal_strlit("----.");
    reveal_strlit("-----");
    reveal_strlit(".-.-.-");
    reveal_strlit("-.-.--");
    reveal_strlit(".----.");
    reveal_strlit("--..--");
    reveal_strlit("..--..");
    reveal_strlit("-..-.");
    reveal_strlit("-....-");
    reveal_strlit("-.--.-");
    reveal_strlit("-.--.");
    reveal_strlit(".--.-.");
    reveal_strlit(".-...");
    assert(".-"@.len() == 2);
    assert("-..."@.len() == 4);
    assert("-.-."@.len() == 4);
    assert("-.."@.len() == 3);
    assert("."@.len() == 1);
    assert("..-."@.len() == 4);
    assert("--."@.len() == 3);
    assert("...."@.len() == 4);
    assert(".."@.len() == 2);
    assert(".---"@.len() == 4);
    assert("-.-"@.len() == 3);
    assert(".-.."@.len() == 4);
    assert("--"@.len() == 2);
    assert("-."@.len() == 2);
    assert("---"@.len() == 3);
    assert(".--."@.len() == 4);
    assert("--.-"@.len() == 4);
    assert(".-."@.len() == 3);
    assert("..."@.len() == 3);
    assert("-"@.len() == 1);
    assert("..-"@.len() == 3);
    assert("...-"@.len() == 4);
    assert(".--"@.len() == 3);
    assert("-..-"@.len() == 4);
    assert("-.--"@.len() == 4);
    assert("--.."@.len() == 4);
    assert(".----"@.len() == 5);
    assert("..---"@.len() == 5);
    assert("...--"@.len() == 5);
    assert("....-"@.len() == 5);
    assert("....."@.len() == 5);
    assert("-...."@.len() == 5);
    assert("--..."@.len() == 5);
    assert("---.."@.len() == 5);
    assert("----."@.len() == 5);
    assert("-----"@.len() == 5);
    assert(".-.-.-"@.len() == 6);
    assert("-.-.--"@.len() == 6);
    assert(".----."@.len() == 6);
    assert("--..--"@.len() == 6);
    assert("..--.."@.len() == 6);
    assert("-..-."@.len() == 5);
    assert("-....-"@.len() == 6);
    assert("-.--.-"@.len() == 6);
    assert("-.--."@.len() == 5);
    assert(".--.-."@.len() == 6);
    assert(".-..."@.len() == 5);
    assert(".-"@[0] == '.');
    assert(".-"@[1] == '-');
    assert("-..."@[0] == '-');
    assert("-..."@[1] == '.');
    assert("-..."@[2] == '.');
    assert("-..."@[3] == '.');
    assert("-.-."@[0] == '-');
    assert("-.-."@[1] == '.');
    assert("-.-."@[2] == '-');
    assert("-.-."@[3] == '.');
    assert("-.."@[0] == '-');
    assert("-.."@[1] == '.');
    assert("-.."@[2] == '.');
    assert("."@[0] == '.');
    assert("..-."@[0] == '.');
    assert("..-."@[1] == '.');
    assert("..-."@[2] == '-');
    assert("..-."@[3] == '.');
    assert("--."@[0] == '-');
    assert("--."@[1] == '-');
    assert("--."@[2] == '.');
    assert("...."@[0] == '.');
    assert("...."@[1] == '.');
    assert("...."@[2] == '.');
    assert("...."@[3] == '.');
    assert(".."@[0] == '.');
    assert(".."@[1] == '.');
    assert(".---"@[0] == '.');
    assert(".---"@[1] == '-');
    assert(".---"@[2] == '-');
    assert(".---"@[3] == '-');
    assert("-.-"@[0] == '-');
    assert("-.-"@[1] == '.');
    assert("-.-"@[2] == '-');
    assert(".-.."@[0] == '.');
    assert(".-.."@[1] == '-');
    assert(".-.."@[2] == '.');
    assert(".-.."@[3] == '.');
    assert("--"@[0] == '-');
    assert("--"@[1] == '-');
    assert("-."@[0] == '-');
    assert("-."@[1] == '.');
    assert("---"@[0] == '-');
    assert("---"@[1] == '-');
    assert("---"@[2] == '-');
    assert(".--."@[0] == '.');
    assert(".--."@[1] == '-');
    assert(".--."@[2] == '-');
    assert(".--."@[3] == '.');
    assert("--.-"@[0] == '-');
    assert("--.-"@[1] == '-');
    assert("--.-"@[2] == '.');
    assert("--.-"@[3] == '-');
    assert(".-."@[0] == '.');
    assert(".-."@[1] == '-');
    assert(".-."@[2] == '.');
    assert("..."@[0] == '.');
    assert("..."@[1] == '.');
    assert("..."@[2] == '.');
    assert("-"@[0] == '-');
    assert("..-"@[0] == '.');
    assert("..-"@[1] == '.');
    assert("..-"@[2] == '-');
    assert("...-"@[0] == '.');
    assert("...-"@[1] == '.');
    assert("...-"@[2] == '.');
    assert("...-"@[3] == '-');
    assert(".--"@[0] == '.');
    assert(".--"@[1] == '-');
    assert(".--"@[2] == '-');
    assert("-..-"@[0] == '-');
    assert("-..-"@[1] == '.');
    assert("-..-"@[2] == '.');
    assert("-..-"@[3] == '-');
    assert("-.--"@[0] == '-');
    assert("-.--"@[1] == '.');
    assert("-.--"@[2] == '-');
    assert("-.--"@[3] == '-');
    assert("--.."@[0] == '-');
    assert("--.."@[1] == '-');
    assert("--.."@[2] == '.');
    assert("--.."@[3] == '.');
    assert(".----"@[0] == '.');
    assert(".----"@[1] == '-');
    assert(".----"@[2] == '-');
    assert(".----"@[3] == '-');
    assert(".----"@[4] == '-');
    assert("..---"@[0] == '.');
    assert("..---"@[1] == '.');
    assert("..---"@[2] == '-');
    assert("..---"@[3] == '-');
    assert("..---"@[4] == '-');
    assert("...--"@[0] == '.');
    assert("...--"@[1] == '.');
    assert("...--"@[2] == '.');
    assert("...--"@[3] == '-');
    assert("...--"@[4] == '-');
    assert("....-"@[0] == '.');
    assert("....-"@[1] == '.');
    assert("....-"@[2] == '.');
    assert("....-"@[3] == '.');
    assert("....-"@[4] == '-');
    assert("....."@[0] == '.');
    assert("....."@[1] == '.');
    assert("....."@[2] == '.');
    assert("....."@[3] == '.');
    assert("....."@[4] == '.');
    assert("-...."@[0] == '-');
    assert("-...."@[1] == '.');
    assert("-...."@[2] == '.');
    assert("-...."@[3] == '.');
    assert("-...."@[4] == '.');
    assert("--..."@[0] == '-');
    assert("--..."@[1] == '-');
    assert("--..."@[2] == '.');
    assert("--..."@[3] == '.');
    assert("--..."@[4] == '.');
    assert("---.."@[0] == '-');
    assert("---.."@[1] == '-');
    assert("---.."@[2] == '-');
    assert("---.."@[3] == '.');
    assert("---.."@[4] == '.');
    assert("----."@[0] == '-');
    assert("----."@[1] == '-');
    assert("----."@[2] == '-');
    assert("----."@[3] == '-');
    assert("----."@[4] == '.');
    assert("-----"@[0] == '-');
    assert("-----"@[1] == '-');
    assert("-----"@[2] == '-');
    assert("-----"@[3] == '-');
    assert("-----"@[4] == '-');
    assert(".-.-.-"@[0] == '.');
    assert(".-.-.-"@[1] == '-');
    assert(".-.-.-"@[2] == '.');
    assert(".-.-.-"@[3] == '-');
    assert(".-.-.-"@[4] == '.');
    assert(".-.-.-"@[5] == '-');
    assert("-.-.--"@[0] == '-');
    assert("-.-.--"@[1] == '.');
    assert("-.-.--"@[2] == '-');
    assert("-.-.--"@[3] == '.');
    assert("-.-.--"@[4] == '-');
    assert("-.-.--"@[5] == '-');
    assert(".----."@[0] == '.');
    assert(".----."@[1] == '-');
    assert(".----."@[2] == '-');
    assert(".----."@[3] == '-');
    assert(".----."@[4] == '-');
    assert(".----."@[5] == '.');
    assert("--..--"@[0] == '-');
    assert("--..--"@[1] == '-');
    assert("--..--"@[2] == '.');
    assert("--..--"@[3] == '.');
    assert("--..--"@[4] == '-');
    assert("--..--"@[5] == '-');
    assert("..--.."@[0] == '.');
    assert("..--.."@[1] == '.');
    assert("..--.."@[2] == '-');
    assert("..--.."@[3] == '-');
    assert("..--.."@[4] == '.');
    assert("..--.."@[5] == '.');
    assert("-..-."@[0] == '-');
    assert("-..-."@[1] == '.');
    assert("-..-."@[2] == '.');
    assert("-..-."@[3] == '-');
    assert("-..-."@[4] == '.');
    assert("-....-"@[0] == '-');
    assert("-....-"@[1] == '.');
    assert("-....-"@[2] == '.');
    assert("-....-"@[3] == '.');
    assert("-....-"@[4] == '.');
    assert("-....-"@[5] == '-');
    assert("-.--.-"@[0] == '-');
    assert("-.--.-"@[1] == '.');
    assert("-.--.-"@[2] == '-');
    assert("-.--.-"@[3] == '-');
    assert("-.--.-"@[4] == '.');
    assert("-.--.-"@[5] == '-');
    assert("-.--."@[0] == '-');
    assert("-.--."@[1] == '.');
    assert("-.--."@[2] == '-');
    assert("-.--."@[3] == '-');
    assert("-.--."@[4] == '.');
    assert(".--.-."@[0] == '.');
    assert(".--.-."@[1] == '-');
    assert(".--.-."@[2] == '-');
    assert(".--.-."@[3] == '.');
    assert(".--.-."@[4] == '-');
    assert(".--.-."@[5] == '.');
    assert(".-..."@[0] == '.');
    assert(".-..."@[1] == '-');
    assert(".-..."@[2] == '.');
    assert(".-..."@[3] == '.');
    assert(".-..."@[4] == '.');
}

/// The first table entry at or after `i` whose dot/dash string is `m`, if
/// any: the decoding of `m` considering only entries `i..`.
pub open spec fn decode_from(i: int, m: Seq<char>) -> Option<char>
    decreases TABLE_LEN - i,
{
    if i < 0 || i >= 47 {
        None
    } else if table_code(i) == m {
        Some(table_char(i))
    } else {
        decode_from(i + 1, m)
    }
}

/// The character that the dot/dash string `m` decodes to, if any.
pub open spec fn decode_spec(m: Seq<char>) -> Option<char> {
    decode_from(0, m)
}

/// The first table entry at or after `i` whose character is `c`, if any:
/// the encoding of `c` considering only entries `i..`.
pub open spec fn encode_from(i: int, c: char) -> Option<Seq<char>>
    decreases TABLE_LEN - i,
{
    if i < 0 || i >= 47 {
        None
    } else if table_char(i) == c {
        Some(table_code(i))
    } else {
        encode_from(i + 1, c)
    }
}

/// The dot/dash string for the character `c`, if the table holds one.
pub open spec fn char_code_spec(c: char) -> Option<Seq<char>> {
    encode_from(0, c)
}

/// Decoding runs over the table in order, so if no entry before `i` matches
/// `m`, decoding from the start agrees with decoding from `i`.
proof fn lemma_decode_reaches(j: int, i: int)
    requires
        0 <= j <= i < 47,
        forall|k: int| j <= k < i ==> table_code(k) != table_code(i),
    ensures
        decode_from(j, table_code(i)) == Some(table_char(i)),
    decreases i - j,
{
    if j < i {
        lemma_decode_reaches(j + 1, i);
    }
}

/// Decode round-trip over the table: the dot/dash string of every entry in
/// the combined table decodes back to that entry's character.
pub proof fn lemma_decode_roundtrip(i: int)
    requires
        0 <= i < 47,
    ensures
        decode_spec(table_code(i)) == Some(table_char(i)),
{
    lemma_table_codes_distinct();
    lemma_decode_reaches(0, i);
}

/// Whatever entry encoding picks for a character, its dot/dash string is
/// that entry's own.
proof fn lemma_encode_picks_entry(j: int, c: char, m: Seq<char>)
    requires
        0 <= j,
        encode_from(j, c) == Some(m),
    ensures
        exists|i: int| j <= i < 47 && table_char(i) == c && table_code(i) == m,
    decreases 47 - j,
{
    if j < 47 && table_char(j) != c {
        lemma_encode_picks_entry(j + 1, c, m);
    }
}

/// Encode/decode round-trip: encoding any character via the code table and
/// then decoding the resulting dot/dash string returns the original
/// character.
pub proof fn lemma_encode_decode_roundtrip(c: char, m: Seq<char>)
    requires
        char_code_spec(c) == Some(m),
    ensures
        decode_spec(m) == Some(c),
{
    lemma_encode_picks_entry(0, c, m);
    let i = choose|i: int| 0 <= i < 47 && table_char(i) == c && table_code(i) == m;
    lemma_decode_roundtrip(i);
}

/// No entry at or after `i` decodes to a word space.
proof fn lemma_decode_not_space_from(i: int, m: Seq<char>)
    requires
        0 <= i,
    ensures
        decode_from(i, m) matches Some(c) ==> c != ' ',
    decreases 47 - i,
{
    if i < 47 && table_code(i) != m {
        lemma_decode_not_space_from(i + 1, m);
    }
}

/// A decoded character is never a word space: the combined table holds no
/// entry for the space character.
pub proof fn lemma_decoded_not_space(m: Seq<char>)
    ensures
        decode_spec(m) matches Some(c) ==> c != ' ',
{
    lemma_decode_not_space_from(0, m);
}

/// Whether the string `s` holds exactly the characters of `v`.
fn str_matches_chars(s: &str, v: &Vec<char>) -> (r: bool)
    ensures
        r == (s@ == v@),
{
    let n = s.unicode_len();
    if n != v.len() {
        return false;
    }
    let mut i: usize = 0;
    while i < n
        invariant
            0 <= i <= n,
            n == s@.len(),
            n == v@.len(),
            forall|k: int| 0 <= k < i ==> s@[k] == v@[k],
        decreases n - i,
    {
        if s.get_char(i) != v[i] {
            return false;
        }
        i = i + 1;
    }
    proof {
        assert(s@ =~= v@);
    }
    true
}

/// The characters of `s`, collected into a vector.
fn str_chars(s: &str) -> (v: Vec<char>)
    ensures
        v@ == s@,
{
    let n = s.unicode_len();
    let mut v: Vec<char> = Vec::new();
    let mut i: usize = 0;
    while i < n
        invariant
            0 <= i <= n,
            n == s@.len(),
            v@ == s@.subrange(0, i as int),
        decreases n - i,
    {
        v.push(s.get_char(i));
        i = i + 1;
        proof {
            assert(v@ =~= s@.subrange(0, i as int));
        }
    }
    proof {
        assert(v@ =~= s@);
    }
    v
}

/// Appends the characters of `s` to `out`.
fn push_str_chars(out: &mut Vec<char>, s: &str)
    ensures
        final(out)@ == old(out)@ + s@,
{
    let n = s.unicode_len();
    let mut i: usize = 0;
    while i < n
        invariant
            0 <= i <= n,
            n == s@.len(),
            out@ == old(out)@ + s@.subrange(0, i as int),
        decreases n - i,
    {
        out.push(s.get_char(i));
        i = i + 1;
        proof {
            assert(out@ =~= old(out)@ + s@.subrange(0, i as int));
        }
    }
    proof {
        assert(out@ =~= old(out)@ + s@);
    }
}

/// Decodes a buffer of dot/dash symbols against the combined table,
/// returning the matching character if the table holds one.
pub fn decode_symbols(buffer: &Vec<char>) -> (r: Option<char>)
    ensures
        r == decode_spec(buffer@),
{
    let mut i: usize = 0;
    while i < TABLE_LEN
        invariant
            0 <= i <= 47,
            decode_spec(buffer@) == decode_from(i as int, buffer@),
        decreases 47 - i,
    {
        let (c, code) = table_entry(i);
        if str_matches_chars(code, buffer) {
            return Some(c);
        }
        i = i + 1;
    }
    None
}

/// Decodes a dot/dash string against the combined table, returning the
/// matching character if the table holds one.
pub fn morse_to_char(morse: &str) -> (r: Option<char>)
    ensures
        r == decode_spec(morse@),
{
    let chars = str_chars(morse);
    decode_symbols(&chars)
}

/// Looks up the dot/dash string for a character, for encoding.
pub fn char_code(c: char) -> (r: Option<&'static str>)
    ensures
        r is Some <==> char_code_spec(c) is Some,
        r matches Some(s) ==> char_code_spec(c) == Some(s@),
{
    let mut i: usize = 0;
    while i < TABLE_LEN
        invariant
            0 <= i <= 47,
            char_code_spec(c) == encode_from(i as int, c),
        decreases 47 - i,
    {
        let (ch, code) = table_entry(i);
        if ch == c {
            return Some(code);
        }
        i = i + 1;
    }
    None
}

/// A procedural signal: a fixed dot/dash pattern with a textual rendering
/// of its own, committed to the text alongside ordinary characters.
#[derive(Debug, Clone, Copy, PartialEq, Eq, Structural)]
pub enum ProSign {
    /// New line.
    AA,
    /// End of message.
    AR,
    /// Start copying.
    CT,
    /// Change to WABUN code.
    DO,
    /// Invitation to transmit.
    KA,
    /// Invitation to transmit to a specific station.
    KN,
    /// End of contact.
    SK,
    /// Understood.
    SN,
    /// Distress signal.
    SOS,
    /// Erroneous transmission.
    ERR,
}

/// The textual rendering of a prosign, as committed to the text.
pub open spec fn prosign_label_spec(p: ProSign) -> Seq<char> {
    match p {
        ProSign::AA => "<AA>\n"@,
        ProSign::AR => "<AR> (End of Message)"@,
        ProSign::CT => "<CT> (Start Copying)"@,
        ProSign::DO => "<DO> (Change to WABUN Code)"@,
        ProSign::KA => "<KA> (Invitation to Transmit)"@,
        ProSign::KN => "<KN> (Invitation to Transmit to Specific Station)"@,
        ProSign::SK => "<SK> (End of Contact)"@,
        ProSign::SN => "<SN> (Understood)"@,
        ProSign::SOS => "SOS (Distress Signal)"@,
        ProSign::ERR => "<ERR> (Erroneous Transmission)"@,
    }
}

impl ProSign {
    /// The textual rendering of this prosign.
    pub fn label(&self) -> (r: &'static str)
        ensures
            r@ == prosign_label_spec(*self),
    {
        match self {
            ProSign::AA => "<AA>\n",
            ProSign::AR => "<AR> (End of Message)",
            ProSign::CT => "<CT> (Start Copying)",
            ProSign::DO => "<DO> (Change to WABUN Code)",
            ProSign::KA => "<KA> (Invitation to Transmit)",
            ProSign::KN => "<KN> (Invitation to Transmit to Specific Station)",
            ProSign::SK => "<SK> (End of Contact)",
            ProSign::SN => "<SN> (Understood)",
            ProSign::SOS => "SOS (Distress Signal)",
            ProSign::ERR => "<ERR> (Erroneous Transmission)",
        }
    }
}

/// Number of prosign table entries.
pub const PROSIGN_LEN: usize = 10;

/// The prosign of table entry `i`.
pub open spec fn prosign_sign(i: int) -> ProSign {
    if i == 0 {
        ProSign::AA
    } else if i == 1 {
        ProSign::AR
    } else if i == 2 {
        ProSign::CT
    } else if i == 3 {
        ProSign::DO
    } else if i == 4 {
        ProSign::KA
    } else if i == 5 {
        ProSign::KN
    } else if i == 6 {
        ProSign::SK
    } else if i == 7 {
        ProSign::SN
    } else if i == 8 {
        ProSign::SOS
    } else {
        ProSign::ERR
    }
}

/// The dot/dash pattern of prosign table entry `i`.
pub open spec fn prosign_code(i: int) -> Seq<char> {
    if i == 0 {
        ".-.-"@
    } else if i == 1 {
        ".-.-."@
    } else if i == 2 {
        "-.-.-"@
    } else if i == 3 {
        "-..---"@
    } else if i == 4 {
        "-.-.-."@
    } else if i == 5 {
        "-.--."@
    } else if i == 6 {
        "...-.-"@
    } else if i == 7 {
        "...-."@
    } else if i == 8 {
        "...---..."@
    } else {
        "........"@
    }
}

/// The prosign table entry at `i`.
fn prosign_entry(i: usize) -> (r: (ProSign, &'static str))
    requires
        i < 10,
    ensures
        r.0 == prosign_sign(i as int),
        r.1@ == prosign_code(i as int),
{
    if i == 0 {
        (ProSign::AA, ".-.-")
    } else if i == 1 {
        (ProSign::AR, ".-.-.")
    } else if i == 2 {
        (ProSign::CT, "-.-.-")
    } else if i == 3 {
        (ProSign::DO, "-..---")
    } else if i == 4 {
        (ProSign::KA, "-.-.-.")
    } else if i == 5 {
        (ProSign::KN, "-.--.")
    } else if i == 6 {
        (ProSign::SK, "...-.-")
    } else if i == 7 {
        (ProSign::SN, "...-.")
    } else if i == 8 {
        (ProSign::SOS, "...---...")
    } else {
        (ProSign::ERR, "........")
    }
}

/// The concatenated renderings of every prosign entry at or after `i` whose
/// pattern is `m`, in table order. The patterns are pairwise distinct, so at
/// most one entry contributes.
pub open spec fn prosign_labels_from(i: int, m: Seq<char>) -> Seq<char>
    decreases PROSIGN_LEN - i,
{
    if i < 0 || i >= 10 {
        Seq::empty()
    } else {
        (if prosign_code(i) == m {
            prosign_label_spec(prosign_sign(i))
        } else {
            Seq::empty()
        }) + prosign_labels_from(i + 1, m)
    }
}

/// The concatenated renderings of every prosign whose pattern is `m`.
pub open spec fn prosign_labels_spec(m: Seq<char>) -> Seq<char> {
    prosign_labels_from(0, m)
}

/// Collects the textual renderings of every prosign whose pattern matches
/// the buffer, in table order.
pub fn prosign_labels(buffer: &Vec<char>) -> (r: Vec<char>)
    ensures
        r@ == prosign_labels_spec(buffer@),
{
    let mut out: Vec<char> = Vec::new();
    let mut i: usize = 0;
    while i < PROSIGN_LEN
        invariant
            0 <= i <= 10,
            out@ + prosign_labels_from(i as int, buffer@) == prosign_labels_spec(buffer@),
        decreases 10 - i,
    {
        let (sign, code) = prosign_entry(i);
        let ghost prev = out@;
        if str_matches_chars(code, buffer) {
            push_str_chars(&mut out, sign.label());
        }
        i = i + 1;
        proof {
            assert(out@ + prosign_labels_from(i as int, buffer@) =~= prev + prosign_labels_from(
                i - 1,
                buffer@,
            ));
        }
    }
    proof {
        assert(out@ =~= out@ + prosign_labels_from(10, buffer@));
    }
    out
}

} // verus!
