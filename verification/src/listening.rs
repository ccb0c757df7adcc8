//! The listening trainer's side: an encoder that turns a word or phrase
//! into the ordered sequence of tone and silence segments that play it at a
//! given speed. Elements of one character are separated by one dit of
//! silence, characters by three dits, and words by seven; the Farnsworth
//! option doubles the character and word gaps while keeping element speed.
//! Unknown characters are skipped without error, and the same phrase always
//! encodes to the same segments.

use vstd::prelude::*;

use crate::codes;

verus! {

/// One segment of the playback: sound the tone, or stay silent, for the
/// given number of milliseconds.
#[derive(Debug, Clone, Copy, PartialEq, Eq, Structural)]
pub enum Segment {
    /// Sound the tone for this many milliseconds.
    Tone(u64),
    /// Stay silent for this many milliseconds.
    Silence(u64),
}

/// The silence owed before the next encoded character: none at the start
/// of the phrase, a character gap within a word, a word gap after a space.
#[derive(Debug, Clone, Copy, PartialEq, Eq, Structural)]
pub enum PendingGap {
    /// Nothing has been emitted yet; no gap is owed.
    Start,
    /// A character was emitted; a three-dit gap is owed.
    Character,
    /// A word ended; a seven-dit gap is owed.
    Word,
}

/// How long one element sounds: one dit for a dot, three for anything
/// else.
pub open spec fn element_ms(sym: char, dit: u64) -> u64 {
    if sym == '.' {
        dit
    } else {
        (3 * dit) as u64
    }
}

/// The silence owed for a pending gap, with character and word gaps
/// doubled under Farnsworth spacing.
pub open spec fn gap_ms(gap: PendingGap, dit: u64, farnsworth: bool) -> u64 {
    match gap {
        PendingGap::Start => 0,
        PendingGap::Character => if farnsworth {
            (6 * dit) as u64
        } else {
            (3 * dit) as u64
        },
        PendingGap::Word => if farnsworth {
            (14 * dit) as u64
        } else {
            (7 * dit) as u64
        },
    }
}

/// The segments for the first `i` elements of one character's dot/dash
/// string: its elements' tones with one dit of silence between them.
pub open spec fn code_segments_upto(code: Seq<char>, i: int, dit: u64) -> Seq<Segment>
    decreases i,
{
    if i <= 0 || i > code.len() {
        Seq::empty()
    } else if i == 1 {
        seq![Segment::Tone(element_ms(code[0], dit))]
    } else {
        code_segments_upto(code, i - 1, dit) + seq![
            Segment::Silence(dit),
            Segment::Tone(element_ms(code[i - 1], dit)),
        ]
    }
}

/// The segments for one character's whole dot/dash string.
pub open spec fn code_segments(code: Seq<char>, dit: u64) -> Seq<Segment> {
    code_segments_upto(code, code.len() as int, dit)
}

/// The silence a pending gap contributes: nothing at the start of the
/// phrase, one silence segment otherwise.
pub open spec fn gap_segments(gap: PendingGap, dit: u64, farnsworth: bool) -> Seq<Segment> {
    match gap {
        PendingGap::Start => Seq::empty(),
        _ => seq![Segment::Silence(gap_ms(gap, dit, farnsworth))],
    }
}

/// The gap state after one character of the phrase: a space turns the owed
/// gap into a word gap (unless nothing was emitted yet), an unknown
/// character leaves it alone, and an encoded character leaves a character
/// gap owed.
pub open spec fn gap_after(gap: PendingGap, ch: char) -> PendingGap {
    if ch == ' ' {
        match gap {
            PendingGap::Start => PendingGap::Start,
            _ => PendingGap::Word,
        }
    } else {
        match codes::char_code_spec(ch) {
            Some(code) => PendingGap::Character,
            None => gap,
        }
    }
}

/// The segments for a phrase, starting with `gap` owed before the next
/// encoded character.
pub open spec fn encode_chars(phrase: Seq<char>, dit: u64, farnsworth: bool, gap: PendingGap) -> Seq<
    Segment,
>
    decreases phrase.len(),
{
    if phrase.len() == 0 {
        Seq::empty()
    } else {
        let ch = phrase[0];
        let head: Seq<Segment> = if ch == ' ' {
            Seq::empty()
        } else {
            match codes::char_code_spec(ch) {
                Some(code) => gap_segments(gap, dit, farnsworth) + code_segments(code, dit),
                None => Seq::empty(),
            }
        };
        head + encode_chars(phrase.drop_first(), dit, farnsworth, gap_after(gap, ch))
    }
}

/// The timed tone/silence segments that play a phrase at the speed whose
/// dit duration is `dit`.
pub open spec fn encode_spec(phrase: Seq<char>, dit: u64, farnsworth: bool) -> Seq<Segment> {
    encode_chars(phrase, dit, farnsworth, PendingGap::Start)
}

/// Appends the segments of one character's dot/dash string.
fn push_code_segments(out: &mut Vec<Segment>, code: &str, dit: u64)
    requires
        1 <= dit <= 1200,
    ensures
        final(out)@ == old(out)@ + code_segments(code@, dit),
{
    let n = code.unicode_len();
    let mut i: usize = 0;
    proof {
        assert(out@ =~= old(out)@ + code_segments_upto(code@, 0, dit));
    }
    while i < n
        invariant
            0 <= i <= n,
            n == code@.len(),
            1 <= dit <= 1200,
            out@ == old(out)@ + code_segments_upto(code@, i as int, dit),
        decreases n - i,
    {
        let sym = code.get_char(i);
        let tone = if sym == '.' {
            dit
        } else {
            3 * dit
        };
        if i > 0 {
            out.push(Segment::Silence(dit));
        }
        out.push(Segment::Tone(tone));
        i = i + 1;
        proof {
            assert(out@ =~= old(out)@ + code_segments_upto(code@, i as int, dit));
        }
    }
}

/// Encodes a phrase into the tone and silence segments that play it, using
/// the given dit duration in milliseconds. Characters outside the code
/// table are skipped without error, and encoding the same phrase always
/// yields the same segments.
pub fn encode_phrase(phrase: &str, dit: u64, farnsworth: bool) -> (r: Vec<Segment>)
    requires
        1 <= dit <= 1200,
    ensures
        r@ == encode_spec(phrase@, dit, farnsworth),
{
    let n = phrase.unicode_len();
    let mut out: Vec<Segment> = Vec::new();
    let mut gap = PendingGap::Start;
    let mut i: usize = 0;
    let ghost whole = encode_spec(phrase@, dit, farnsworth);
    proof {
        assert(phrase@.skip(0) =~= phrase@);
    }
    while i < n
        invariant
            0 <= i <= n,
            n == phrase@.len(),
            1 <= dit <= 1200,
            whole == out@ + encode_chars(phrase@.skip(i as int), dit, farnsworth, gap),
        decreases n - i,
    {
        let ch = phrase.get_char(i);
        let ghost gap0 = gap;
        let ghost out0 = out@;
        proof {
            assert(phrase@.skip(i as int)[0] == phrase@[i as int]);
            assert(phrase@.skip(i as int).drop_first() =~= phrase@.skip(i as int + 1));
        }
        if ch == ' ' {
            gap = match gap {
                PendingGap::Start => PendingGap::Start,
                _ => PendingGap::Word,
            };
        } else {
            match codes::char_code(ch) {
                Some(code) => {
                    match gap {
                        PendingGap::Start => {},
                        PendingGap::Character => {
                            let g = if farnsworth {
                                6 * dit
                            } else {
                                3 * dit
                            };
                            out.push(Segment::Silence(g));
                        },
                        PendingGap::Word => {
                            let g = if farnsworth {
                                14 * dit
                            } else {
                                7 * dit
                            };
                            out.push(Segment::Silence(g));
                        },
                    }
                    proof {
                        assert(out@ =~= out0 + gap_segments(gap0, dit, farnsworth));
                    }
                    push_code_segments(&mut out, code, dit);
                    gap = PendingGap::Character;
                },
                None => {},
            }
        }
        i = i + 1;
        proof {
            assert(out@ + encode_chars(phrase@.skip(i as int), dit, farnsworth, gap) =~= out0
                + encode_chars(phrase@.skip(i - 1), dit, farnsworth, gap0));
        }
    }
    proof {
        assert(phrase@.skip(n as int) =~= Seq::<char>::empty());
        assert(out@ =~= whole);
    }
    out
}

/// The listening trainer's screen state. The trainer plays a known target
/// phrase — encoded with [`encode_phrase`] — and compares what the operator
/// types against it; it does not decode audio.
pub struct ListeningScreen;

impl ListeningScreen {
    /// Creates the listening screen.
    pub fn new() -> (s: ListeningScreen) {
        ListeningScreen
    }
}

} // verus!
