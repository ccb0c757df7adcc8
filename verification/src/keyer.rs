//! The iambic keyer scheduler: resolves overlapping dual-paddle input into a
//! correctly ordered dot/dash stream over an 8-phase tick cycle. A dot
//! occupies two ticks (element plus trailing gap) and a dash four; holding
//! both paddles alternates the two elements ("squeeze" keying), and a
//! released paddle finishes its already-scheduled element but does not
//! re-arm.

use vstd::prelude::*;

verus! {

/// How key input is interpreted: a single straight key, or one of the two
/// iambic dual-paddle modes. The A and B variants differ only in how the
/// operator uses the release timing; both share the same scheduling core.
#[derive(Debug, Clone, Copy, PartialEq, Eq, Structural)]
pub enum KeyerMode {
    IambicA,
    IambicB,
    Straight,
}

/// Whether a keyer mode drives the dual-paddle scheduler.
pub open spec fn is_iambic_spec(mode: KeyerMode) -> bool {
    mode == KeyerMode::IambicA || mode == KeyerMode::IambicB
}

impl KeyerMode {
    /// Whether this mode drives the dual-paddle scheduler.
    pub fn is_iambic(&self) -> (r: bool)
        ensures
            r == is_iambic_spec(*self),
    {
        matches!(self, KeyerMode::IambicA | KeyerMode::IambicB)
    }
}

/// One of the two iambic paddles.
#[derive(Debug, Clone, Copy, PartialEq, Eq, Structural)]
pub enum IambicKey {
    Dot,
    Dash,
}

/// A command for the audio collaborator. The engine only emits these; it
/// never depends on the audio side effect taking place.
#[derive(Debug, Clone, Copy, PartialEq, Eq, Structural)]
pub enum ToneCommand {
    /// Begin sounding the tone.
    Start,
    /// Stop sounding the tone.
    Stop,
    /// Change the tone frequency, in hertz.
    SetFrequency(usize),
    /// Change the volume, in percent of full scale.
    SetVolume(usize),
}

/// Paddle press/release state and the lookahead schedule: for each paddle,
/// the tick phase at which its next element starts (`None` if idle), and a
/// flag recording that the paddle was released while an element was still
/// scheduled.
#[derive(Debug, Clone, Copy, PartialEq, Eq, Structural)]
pub struct IambicScheduler {
    /// Start phase of the next dot element, if one is scheduled.
    pub dot_next_tick: Option<usize>,
    /// Start phase of the next dash element, if one is scheduled.
    pub dash_next_tick: Option<usize>,
    /// The dot paddle was released; its element may still complete.
    pub dot_released: bool,
    /// The dash paddle was released; its element may still complete.
    pub dash_released: bool,
}

impl Default for IambicScheduler {
    /// A scheduler with both paddles idle.
    fn default() -> (r: Self)
        ensures
            r.dot_next_tick is None,
            r.dash_next_tick is None,
            r.dot_released == false,
            r.dash_released == false,
    {
        IambicScheduler {
            dot_next_tick: None,
            dash_next_tick: None,
            dot_released: false,
            dash_released: false,
        }
    }
}

impl IambicScheduler {
    /// Well-formedness: every scheduled phase lies within the 8-tick cycle.
    pub open spec fn wf(self) -> bool {
        &&& (self.dot_next_tick matches Some(t) ==> t < 8)
        &&& (self.dash_next_tick matches Some(t) ==> t < 8)
    }

    /// Whether either paddle has a scheduled element.
    pub open spec fn any_active_spec(self) -> bool {
        self.dot_next_tick is Some || self.dash_next_tick is Some
    }

    /// The scheduler state after a press of `key` at `tick`: a press of an
    /// already-scheduled paddle is a complete no-op (debounce against
    /// repeated press events while held); otherwise the paddle's released
    /// flag is cleared and it is scheduled right after the other paddle's
    /// pending element completes, or immediately if the other paddle is
    /// idle.
    pub open spec fn press_spec(self, key: IambicKey, tick: usize) -> IambicScheduler {
        match key {
            IambicKey::Dot => {
                if self.dot_next_tick is Some {
                    self
                } else {
                    match self.dash_next_tick {
                        Some(t) => IambicScheduler {
                            dot_released: false,
                            dot_next_tick: Some((((t + 4) % 8) as usize)),
                            ..self
                        },
                        None => IambicScheduler {
                            dot_released: false,
                            dot_next_tick: Some(tick),
                            ..self
                        },
                    }
                }
            },
            IambicKey::Dash => {
                if self.dash_next_tick is Some {
                    self
                } else {
                    match self.dot_next_tick {
                        Some(t) => IambicScheduler {
                            dash_released: false,
                            dash_next_tick: Some((((t + 2) % 8) as usize)),
                            ..self
                        },
                        None => IambicScheduler {
                            dash_released: false,
                            dash_next_tick: Some(tick),
                            ..self
                        },
                    }
                }
            },
        }
    }

    /// The scheduler state after a release of `key`: only the released flag
    /// is set; an already-scheduled element still completes.
    pub open spec fn release_spec(self, key: IambicKey) -> IambicScheduler {
        match key {
            IambicKey::Dot => IambicScheduler { dot_released: true, ..self },
            IambicKey::Dash => IambicScheduler { dash_released: true, ..self },
        }
    }

    /// Whether the scheduled dot element completes at `tick` (a dot's
    /// audible window is one tick long).
    pub open spec fn dot_due(self, tick: usize) -> bool {
        self.dot_next_tick matches Some(t) && (t + 1) % 8 == tick
    }

    /// Whether the scheduled dash element completes at `tick` (a dash's
    /// audible window is three ticks long). The dot is checked first, so a
    /// dash completion is only acted on when no dot completes at the same
    /// tick.
    pub open spec fn dash_due(self, tick: usize) -> bool {
        self.dash_next_tick matches Some(t) && (t + 3) % 8 == tick
    }

    /// The element emitted at `tick`, if one completes there.
    pub open spec fn tick_emits(self, tick: usize) -> Option<char> {
        if self.dot_due(tick) {
            Some('.')
        } else if self.dash_due(tick) {
            Some('-')
        } else {
            None
        }
    }

    /// The scheduler state after handling `tick`: a completing element is
    /// dropped if its paddle was released, re-scheduled right after the
    /// other paddle's pending element completes — the other's start phase
    /// offset by its whole claim, four ticks past a pending dash, two past
    /// a pending dot (the alternation that makes squeeze keying work) —
    /// and otherwise re-armed to repeat immediately.
    pub open spec fn tick_next(self, tick: usize) -> IambicScheduler {
        if self.dot_due(tick) {
            if self.dot_released {
                IambicScheduler { dot_next_tick: None, ..self }
            } else {
                match self.dash_next_tick {
                    Some(h) => IambicScheduler {
                        dot_next_tick: Some((((h + 4) % 8) as usize)),
                        ..self
                    },
                    None => IambicScheduler {
                        dot_next_tick: Some((((tick + 1) % 8) as usize)),
                        ..self
                    },
                }
            }
        } else if self.dash_due(tick) {
            if self.dash_released {
                IambicScheduler { dash_next_tick: None, ..self }
            } else {
                match self.dot_next_tick {
                    Some(d) => IambicScheduler {
                        dash_next_tick: Some((((d + 2) % 8) as usize)),
                        ..self
                    },
                    None => IambicScheduler {
                        dash_next_tick: Some((((tick + 1) % 8) as usize)),
                        ..self
                    },
                }
            }
        } else {
            self
        }
    }

    /// The tone command issued at `tick`: a completing element ends its
    /// audible window, so the tone stops; otherwise, while any element is
    /// pending, its audible window continues and the tone runs.
    pub open spec fn tick_tone(self, tick: usize) -> Option<ToneCommand> {
        if self.dot_due(tick) || self.dash_due(tick) {
            Some(ToneCommand::Stop)
        } else if self.any_active_spec() {
            Some(ToneCommand::Start)
        } else {
            None
        }
    }

    /// Records a press of `key` at the current tick, scheduling the
    /// paddle's next element. Pressing an already-scheduled paddle is a
    /// complete no-op.
    pub fn press_key(&mut self, key: IambicKey, tick: usize)
        requires
            old(self).wf(),
            tick < 8,
        ensures
            *final(self) == old(self).press_spec(key, tick),
            final(self).wf(),
    {
        match key {
            IambicKey::Dot => {
                if self.dot_next_tick.is_some() {
                    return;
                }
                self.dot_released = false;
                match self.dash_next_tick {
                    Some(t) => {
                        self.dot_next_tick = Some((t + 4) % 8);
                    },
                    None => {
                        self.dot_next_tick = Some(tick);
                    },
                }
            },
            IambicKey::Dash => {
                if self.dash_next_tick.is_some() {
                    return;
                }
                self.dash_released = false;
                match self.dot_next_tick {
                    Some(t) => {
                        self.dash_next_tick = Some((t + 2) % 8);
                    },
                    None => {
                        self.dash_next_tick = Some(tick);
                    },
                }
            },
        }
    }

    /// Records a release of `key`. The released paddle's already-scheduled
    /// element still completes; the release only prevents re-arming.
    pub fn release_key(&mut self, key: IambicKey)
        ensures
            *final(self) == old(self).release_spec(key),
    {
        match key {
            IambicKey::Dot => {
                self.dot_released = true;
            },
            IambicKey::Dash => {
                self.dash_released = true;
            },
        }
    }

    /// Handles the clock advancing to `tick`: emits the element whose
    /// audible window ends here, if any, together with the tone command for
    /// the audio collaborator.
    pub fn handle_tick(&mut self, tick: usize) -> (r: (Option<char>, Option<ToneCommand>))
        requires
            old(self).wf(),
            tick < 8,
        ensures
            *final(self) == old(self).tick_next(tick),
            final(self).wf(),
            r.0 == old(self).tick_emits(tick),
            r.1 == old(self).tick_tone(tick),
    {
        let dot_fires = match self.dot_next_tick {
            Some(t) => (t + 1) % 8 == tick,
            None => false,
        };
        let dash_fires = match self.dash_next_tick {
            Some(t) => (t + 3) % 8 == tick,
            None => false,
        };
        if dot_fires {
            if self.dot_released {
                self.dot_next_tick = None;
            } else {
                match self.dash_next_tick {
                    Some(h) => {
                        self.dot_next_tick = Some((h + 4) % 8);
                    },
                    None => {
                        self.dot_next_tick = Some((tick + 1) % 8);
                    },
                }
            }
            (Some('.'), Some(ToneCommand::Stop))
        } else if dash_fires {
            if self.dash_released {
                self.dash_next_tick = None;
            } else {
                match self.dot_next_tick {
                    Some(d) => {
                        self.dash_next_tick = Some((d + 2) % 8);
                    },
                    None => {
                        self.dash_next_tick = Some((tick + 1) % 8);
                    },
                }
            }
            (Some('-'), Some(ToneCommand::Stop))
        } else {
            if self.any_active() {
                (None, Some(ToneCommand::Start))
            } else {
                (None, None)
            }
        }
    }

    /// Whether either paddle has a scheduled element. Used to suppress
    /// decode boundary actions while the keyer is producing elements.
    pub fn any_active(&self) -> (r: bool)
        ensures
            r == self.any_active_spec(),
    {
        self.dash_next_tick.is_some() || self.dot_next_tick.is_some()
    }

    /// Both paddles scheduled with the dot element completing next, at
    /// `(w + 2) % 8`: the squeeze shape that pressing the dot paddle first
    /// at `(w + 1) % 8` establishes and that a dash completion restores.
    pub open spec fn squeeze_dot_next(self, w: usize) -> bool {
        &&& w < 8
        &&& self.dot_next_tick == Some((((w + 1) % 8) as usize))
        &&& self.dash_next_tick == Some((((w + 3) % 8) as usize))
    }

    /// Both paddles scheduled with the dash element completing next, at
    /// `(u + 4) % 8`: the squeeze shape that pressing the dash paddle
    /// first at `(u + 1) % 8` establishes and that a dot completion
    /// restores.
    pub open spec fn squeeze_dash_next(self, u: usize) -> bool {
        &&& u < 8
        &&& self.dot_next_tick == Some((((u + 5) % 8) as usize))
        &&& self.dash_next_tick == Some((((u + 1) % 8) as usize))
    }

    /// Only the dot paddle scheduled and held: the shape in which dots
    /// repeat indefinitely.
    pub open spec fn dot_only(self, d: usize) -> bool {
        &&& d < 8
        &&& self.dot_next_tick == Some(d)
        &&& self.dash_next_tick is None
        &&& !self.dot_released
    }

    /// Only the dash paddle scheduled and held: the shape in which dashes
    /// repeat indefinitely.
    pub open spec fn dash_only(self, h: usize) -> bool {
        &&& h < 8
        &&& self.dash_next_tick == Some(h)
        &&& self.dot_next_tick is None
        &&& !self.dash_released
    }
}

/// Two offsets below 8 added to the same base land on different residues
/// modulo 8.
pub(crate) proof fn lemma_mod8_offsets_distinct(u: int, a: int, b: int)
    requires
        0 <= u,
        0 <= a < 8,
        0 <= b < 8,
        a != b,
    ensures
        (u + a) % 8 != (u + b) % 8,
{
    vstd::arithmetic::div_mod::lemma_fundamental_div_mod(u + a, 8);
    vstd::arithmetic::div_mod::lemma_fundamental_div_mod(u + b, 8);
    if (u + a) % 8 == (u + b) % 8 {
        let q1 = (u + a) / 8;
        let q2 = (u + b) / 8;
        assert(a - b == 8 * (q1 - q2)) by (nonlinear_arith)
            requires
                u + a == 8 * q1 + (u + a) % 8,
                u + b == 8 * q2 + (u + b) % 8,
                (u + a) % 8 == (u + b) % 8,
        ;
        assert(false) by (nonlinear_arith)
            requires
                a - b == 8 * (q1 - q2),
                -8 < a - b < 8,
                a != b,
        ;
    }
}

/// Reducing the base modulo 8 before adding an offset does not change the
/// residue.
pub(crate) proof fn lemma_mod8_shift(a: int, b: int)
    requires
        0 <= a,
        0 <= b,
    ensures
        ((a % 8) + b) % 8 == (a + b) % 8,
{
    vstd::arithmetic::div_mod::lemma_add_mod_noop(a, b, 8);
    vstd::arithmetic::div_mod::lemma_add_mod_noop(a % 8, b, 8);
    vstd::arithmetic::div_mod::lemma_mod_twice(a, 8);
}

/// Adding a full cycle of eight does not change the residue.
pub(crate) proof fn lemma_mod8_wrap(a: int)
    requires
        0 <= a,
    ensures
        (a + 8) % 8 == a % 8,
{
    vstd::arithmetic::div_mod::lemma_add_mod_noop(a, 8, 8);
    vstd::arithmetic::div_mod::lemma_mod_twice(a, 8);
}

/// Iambic squeeze, first half: pressing the dot paddle and then the dash
/// paddle at `tick`, from an idle scheduler, establishes the squeeze shape
/// in which the dot element completes next and neither paddle is released.
pub proof fn lemma_squeeze_press_dot_first(s: IambicScheduler, tick: usize)
    requires
        s.dot_next_tick is None,
        s.dash_next_tick is None,
        tick < 8,
    ensures
        s.press_spec(IambicKey::Dot, tick).press_spec(IambicKey::Dash, tick).squeeze_dot_next(
            (((tick + 7) % 8) as usize),
        ),
        !s.press_spec(IambicKey::Dot, tick).press_spec(IambicKey::Dash, tick).dot_released,
        !s.press_spec(IambicKey::Dot, tick).press_spec(IambicKey::Dash, tick).dash_released,
{
    lemma_mod8_shift(tick + 7, 1);
    lemma_mod8_shift(tick + 7, 3);
    lemma_mod8_wrap(tick as int);
    lemma_mod8_wrap(tick + 2);
    vstd::arithmetic::div_mod::lemma_small_mod(tick as nat, 8);
}

/// Iambic squeeze, pressed in the other order: the dash paddle and then
/// the dot paddle at `tick`, from an idle scheduler, establishes the
/// squeeze shape in which the dash element completes next.
pub proof fn lemma_squeeze_press_dash_first(s: IambicScheduler, tick: usize)
    requires
        s.dot_next_tick is None,
        s.dash_next_tick is None,
        tick < 8,
    ensures
        s.press_spec(IambicKey::Dash, tick).press_spec(IambicKey::Dot, tick).squeeze_dash_next(
            (((tick + 7) % 8) as usize),
        ),
        !s.press_spec(IambicKey::Dash, tick).press_spec(IambicKey::Dot, tick).dot_released,
        !s.press_spec(IambicKey::Dash, tick).press_spec(IambicKey::Dot, tick).dash_released,
{
    lemma_mod8_shift(tick + 7, 1);
    lemma_mod8_shift(tick + 7, 5);
    lemma_mod8_wrap(tick as int);
    lemma_mod8_wrap(tick + 4);
    vstd::arithmetic::div_mod::lemma_small_mod(tick as nat, 8);
}

/// Iambic squeeze step: with the dot element completing next and the dot
/// paddle held, the tick after `w` emits nothing and changes nothing, and
/// the second completes the dot, re-scheduling it right after the pending
/// dash and leaving the released flags untouched. This and
/// [`lemma_squeeze_dash_step`] together show that holding both paddles
/// yields an alternating dot/dash stream indefinitely.
pub proof fn lemma_squeeze_dot_step(s: IambicScheduler, w: usize, k: usize)
    requires
        s.squeeze_dot_next(w),
        !s.dot_released,
        1 <= k <= 2,
    ensures
        k < 2 ==> s.tick_emits((((w + k) % 8) as usize)) == None::<char> && s.tick_next(
            (((w + k) % 8) as usize),
        ) == s,
        k == 2 ==> s.tick_emits((((w + 2) % 8) as usize)) == Some('.') && s.tick_next(
            (((w + 2) % 8) as usize),
        ).squeeze_dash_next((((w + 2) % 8) as usize)) && s.tick_next(
            (((w + 2) % 8) as usize),
        ).dot_released == s.dot_released && s.tick_next((((w + 2) % 8) as usize)).dash_released
            == s.dash_released,
{
    lemma_mod8_shift(w + 1, 1);
    lemma_mod8_shift(w + 3, 3);
    lemma_mod8_shift(w + 3, 4);
    lemma_mod8_shift(w + 2, 5);
    lemma_mod8_shift(w + 2, 1);
    if k < 2 {
        lemma_mod8_offsets_distinct(w as int, 2, 1);
        lemma_mod8_offsets_distinct(w as int, 6, 1);
    } else {
        lemma_mod8_offsets_distinct(w as int, 6, 2);
    }
}

/// Iambic squeeze step: with the dash element completing next, the three
/// ticks after `u` emit nothing and change nothing, and the fourth
/// completes the dash. If the dash paddle is still held it is
/// re-scheduled right after the pending dot (the alternation continues);
/// if it was released, its element still completes but is not re-armed,
/// and only the held dot keeps repeating.
pub proof fn lemma_squeeze_dash_step(s: IambicScheduler, u: usize, k: usize)
    requires
        s.squeeze_dash_next(u),
        1 <= k <= 4,
    ensures
        k < 4 ==> s.tick_emits((((u + k) % 8) as usize)) == None::<char> && s.tick_next(
            (((u + k) % 8) as usize),
        ) == s,
        k == 4 ==> s.tick_emits((((u + 4) % 8) as usize)) == Some('-'),
        k == 4 && !s.dash_released ==> s.tick_next((((u + 4) % 8) as usize)).squeeze_dot_next(
            (((u + 4) % 8) as usize),
        ) && s.tick_next((((u + 4) % 8) as usize)).dot_released == s.dot_released && s.tick_next(
            (((u + 4) % 8) as usize),
        ).dash_released == s.dash_released,
        k == 4 && s.dash_released && !s.dot_released ==> s.tick_next(
            (((u + 4) % 8) as usize),
        ).dot_only((((u + 5) % 8) as usize)),
{
    lemma_mod8_shift(u + 5, 1);
    lemma_mod8_shift(u + 1, 3);
    lemma_mod8_shift(u + 5, 2);
    lemma_mod8_shift(u + 4, 1);
    lemma_mod8_shift(u + 4, 3);
    if k < 4 {
        lemma_mod8_offsets_distinct(u as int, 6, k as int);
        lemma_mod8_offsets_distinct(u as int, 4, k as int);
    } else {
        lemma_mod8_offsets_distinct(u as int, 6, 4);
    }
}

/// Iambic squeeze, second half: with only the dot paddle scheduled and
/// held, every second tick emits a dot and re-arms it, and every other tick
/// changes nothing — the sequence continues as dot, dot, dot.
pub proof fn lemma_dot_repeats(s: IambicScheduler, d: usize, tick: usize)
    requires
        s.dot_only(d),
        tick < 8,
    ensures
        tick == (d + 1) % 8 ==> s.tick_emits(tick) == Some('.') && s.tick_next(tick).dot_only(
            (((d + 2) % 8) as usize),
        ) && s.tick_next(tick).dash_released == s.dash_released,
        tick != (d + 1) % 8 ==> s.tick_emits(tick) == None::<char> && s.tick_next(tick) == s,
{
    lemma_mod8_shift(d + 1, 1);
}

/// With only the dash paddle scheduled and held, every fourth tick emits a
/// dash and re-arms it, and the ticks between change nothing.
pub proof fn lemma_dash_repeats(s: IambicScheduler, h: usize, tick: usize)
    requires
        s.dash_only(h),
        tick < 8,
    ensures
        tick == (h + 3) % 8 ==> s.tick_emits(tick) == Some('-') && s.tick_next(tick).dash_only(
            (((h + 4) % 8) as usize),
        ) && s.tick_next(tick).dot_released == s.dot_released,
        tick != (h + 3) % 8 ==> s.tick_emits(tick) == None::<char> && s.tick_next(tick) == s,
{
    lemma_mod8_shift(h + 3, 1);
}

/// The scheduler stepped through the `n` consecutive ticks that follow
/// `tick`, with everything it emitted along the way, in order.
pub open spec fn keyer_run(s: IambicScheduler, tick: usize, n: nat) -> (
    IambicScheduler,
    Seq<char>,
)
    decreases n,
{
    if n == 0 {
        (s, Seq::<char>::empty())
    } else {
        let t2 = (((tick + 1) % 8) as usize);
        let head = match s.tick_emits(t2) {
            Some(c) => seq![c],
            None => Seq::<char>::empty(),
        };
        let rest = keyer_run(s.tick_next(t2), t2, (n - 1) as nat);
        (rest.0, head + rest.1)
    }
}

/// The emission stream of a squeeze whose dot completes after `q` more
/// quiet ticks: the dot, then the dash after its four-tick claim, and so
/// on, alternating.
pub open spec fn squeeze_stream_dot(q: nat, n: nat) -> Seq<char>
    decreases n,
{
    if n == 0 {
        Seq::<char>::empty()
    } else if q > 0 {
        squeeze_stream_dot((q - 1) as nat, (n - 1) as nat)
    } else {
        seq!['.'] + squeeze_stream_dash(3, (n - 1) as nat)
    }
}

/// The emission stream of a squeeze whose dash completes after `q` more
/// quiet ticks: the dash, then the dot after the dash's claim ends, and so
/// on, alternating.
pub open spec fn squeeze_stream_dash(q: nat, n: nat) -> Seq<char>
    decreases n,
{
    if n == 0 {
        Seq::<char>::empty()
    } else if q > 0 {
        squeeze_stream_dash((q - 1) as nat, (n - 1) as nat)
    } else {
        seq!['-'] + squeeze_stream_dot(1, (n - 1) as nat)
    }
}

/// A held squeeze whose dot element completes after `q + 1` more ticks
/// emits exactly the corresponding stream.
proof fn lemma_squeeze_run_from_dot(s: IambicScheduler, w: usize, q: nat, n: nat)
    requires
        s.squeeze_dot_next(w),
        !s.dot_released,
        !s.dash_released,
        q <= 1,
    ensures
        keyer_run(s, (((w + 1 - q) % 8) as usize), n).1 == squeeze_stream_dot(q, n),
    decreases n,
{
    if n > 0 {
        let t2 = (((w + 2 - q) % 8) as usize);
        lemma_mod8_shift(w + 1 - q, 1);
        if q > 0 {
            lemma_squeeze_dot_step(s, w, 1);
            lemma_squeeze_run_from_dot(s, w, (q - 1) as nat, (n - 1) as nat);
        } else {
            lemma_squeeze_dot_step(s, w, 2);
            lemma_squeeze_run_from_dash(s.tick_next(t2), t2, 3, (n - 1) as nat);
        }
    }
}

/// A held squeeze whose dash element completes after `q + 1` more ticks
/// emits exactly the corresponding stream.
proof fn lemma_squeeze_run_from_dash(s: IambicScheduler, u: usize, q: nat, n: nat)
    requires
        s.squeeze_dash_next(u),
        !s.dot_released,
        !s.dash_released,
        q <= 3,
    ensures
        keyer_run(s, (((u + 3 - q) % 8) as usize), n).1 == squeeze_stream_dash(q, n),
    decreases n,
{
    if n > 0 {
        let t2 = (((u + 4 - q) % 8) as usize);
        lemma_mod8_shift(u + 3 - q, 1);
        if q > 0 {
            lemma_squeeze_dash_step(s, u, (4 - q) as usize);
            lemma_squeeze_run_from_dash(s, u, (q - 1) as nat, (n - 1) as nat);
        } else {
            lemma_squeeze_dash_step(s, u, 4);
            lemma_squeeze_run_from_dot(s.tick_next(t2), t2, 1, (n - 1) as nat);
        }
    }
}

/// Iambic squeeze, run form: pressing the dot paddle and then the dash
/// paddle at `tick` from an idle scheduler and holding both produces the
/// alternating dot-led stream over every following tick, however many.
pub proof fn lemma_squeeze_stream(s: IambicScheduler, tick: usize, n: nat)
    requires
        s.dot_next_tick is None,
        s.dash_next_tick is None,
        tick < 8,
    ensures
        keyer_run(s.press_spec(IambicKey::Dot, tick).press_spec(IambicKey::Dash, tick), tick, n).1
            == squeeze_stream_dot(0, n),
{
    lemma_squeeze_press_dot_first(s, tick);
    let w = ((tick + 7) % 8) as usize;
    lemma_mod8_wrap(tick as int);
    lemma_mod8_shift(tick + 7, 1);
    vstd::arithmetic::div_mod::lemma_small_mod(tick as nat, 8);
    assert(((w + 1 - 0) % 8) as usize == tick);
    lemma_squeeze_run_from_dot(
        s.press_spec(IambicKey::Dot, tick).press_spec(IambicKey::Dash, tick),
        w,
        0,
        n,
    );
}

/// Iambic squeeze, run form, pressed in the other order: the dash paddle
/// and then the dot paddle, held from idle, produce the alternating
/// dash-led stream.
pub proof fn lemma_squeeze_stream_dash_first(s: IambicScheduler, tick: usize, n: nat)
    requires
        s.dot_next_tick is None,
        s.dash_next_tick is None,
        tick < 8,
    ensures
        keyer_run(s.press_spec(IambicKey::Dash, tick).press_spec(IambicKey::Dot, tick), tick, n).1
            == squeeze_stream_dash(2, n),
{
    lemma_squeeze_press_dash_first(s, tick);
    let u = ((tick + 7) % 8) as usize;
    lemma_mod8_wrap(tick as int);
    lemma_mod8_shift(tick + 7, 1);
    vstd::arithmetic::div_mod::lemma_small_mod(tick as nat, 8);
    assert(((u + 3 - 2) % 8) as usize == tick);
    lemma_squeeze_run_from_dash(
        s.press_spec(IambicKey::Dash, tick).press_spec(IambicKey::Dot, tick),
        u,
        2,
        n,
    );
}

/// The dot-led squeeze stream alternates: dots at the even emission
/// positions, dashes at the odd ones, whatever the quiet lead-in.
pub proof fn lemma_squeeze_stream_alternates(q: nat, n: nat)
    ensures
        forall|i: int|
            0 <= i < squeeze_stream_dot(q, n).len() ==> squeeze_stream_dot(q, n)[i] == (if i % 2
                == 0 {
                '.'
            } else {
                '-'
            }),
    decreases n,
{
    if n > 0 {
        if q > 0 {
            lemma_squeeze_stream_alternates((q - 1) as nat, (n - 1) as nat);
            let whole = squeeze_stream_dot(q, n);
            let rest = squeeze_stream_dot((q - 1) as nat, (n - 1) as nat);
            assert forall|i: int| 0 <= i < whole.len() implies whole[i] == (if i % 2 == 0 {
                '.'
            } else {
                '-'
            }) by {
                assert(whole[i] == rest[i]);
            }
        } else {
            lemma_squeeze_stream_dash_alternates(3, (n - 1) as nat);
            let whole = squeeze_stream_dot(0, n);
            let rest = squeeze_stream_dash(3, (n - 1) as nat);
            assert forall|i: int| 0 <= i < whole.len() implies whole[i] == (if i % 2 == 0 {
                '.'
            } else {
                '-'
            }) by {
                if i >= 1 {
                    assert(whole[i] == rest[i - 1]);
                }
            }
        }
    }
}

/// The dash-led squeeze stream alternates: dashes at the even emission
/// positions, dots at the odd ones.
pub proof fn lemma_squeeze_stream_dash_alternates(q: nat, n: nat)
    ensures
        forall|i: int|
            0 <= i < squeeze_stream_dash(q, n).len() ==> squeeze_stream_dash(q, n)[i] == (if i % 2
                == 0 {
                '-'
            } else {
                '.'
            }),
    decreases n,
{
    if n > 0 {
        if q > 0 {
            lemma_squeeze_stream_dash_alternates((q - 1) as nat, (n - 1) as nat);
            let whole = squeeze_stream_dash(q, n);
            let rest = squeeze_stream_dash((q - 1) as nat, (n - 1) as nat);
            assert forall|i: int| 0 <= i < whole.len() implies whole[i] == (if i % 2 == 0 {
                '-'
            } else {
                '.'
            }) by {
                assert(whole[i] == rest[i]);
            }
        } else {
            lemma_squeeze_stream_alternates(1, (n - 1) as nat);
            let whole = squeeze_stream_dash(0, n);
            let rest = squeeze_stream_dot(1, (n - 1) as nat);
            assert forall|i: int| 0 <= i < whole.len() implies whole[i] == (if i % 2 == 0 {
                '-'
            } else {
                '.'
            }) by {
                if i >= 1 {
                    assert(whole[i] == rest[i - 1]);
                }
            }
        }
    }
}

/// With only the dot paddle scheduled and held, every element the
/// scheduler emits over any number of ticks is a dot, and the dot stays
/// scheduled throughout.
pub proof fn lemma_dot_only_stream(s: IambicScheduler, d: usize, tick: usize, n: nat)
    requires
        s.dot_only(d),
        tick < 8,
    ensures
        forall|i: int|
            0 <= i < keyer_run(s, tick, n).1.len() ==> keyer_run(s, tick, n).1[i] == '.',
        exists|d2: usize| keyer_run(s, tick, n).0.dot_only(d2),
    decreases n,
{
    if n == 0 {
        assert(keyer_run(s, tick, n).0.dot_only(d));
    } else {
        let t2 = (((tick + 1) % 8) as usize);
        lemma_dot_repeats(s, d, t2);
        if t2 == (d + 1) % 8 {
            lemma_dot_only_stream(s.tick_next(t2), (((d + 2) % 8) as usize), t2, (n - 1) as nat);
        } else {
            lemma_dot_only_stream(s.tick_next(t2), d, t2, (n - 1) as nat);
        }
        let whole = keyer_run(s, tick, n).1;
        let rest = keyer_run(s.tick_next(t2), t2, (n - 1) as nat).1;
        let head: int = whole.len() - rest.len();
        assert forall|i: int| 0 <= i < whole.len() implies whole[i] == '.' by {
            if i >= head {
                assert(whole[i] == rest[i - head]);
            }
        }
        assert(keyer_run(s, tick, n).0 == keyer_run(s.tick_next(t2), t2, (n - 1) as nat).0);
        let d2 = choose|d2: usize|
            #[trigger] keyer_run(s.tick_next(t2), t2, (n - 1) as nat).0.dot_only(d2);
        assert(keyer_run(s, tick, n).0.dot_only(d2));
    }
}

/// Once both paddles are idle, no tick emits anything or changes anything:
/// the stream has stopped.
pub proof fn lemma_idle_silent(s: IambicScheduler, tick: usize)
    requires
        s.dot_next_tick is None,
        s.dash_next_tick is None,
    ensures
        s.tick_emits(tick) == None::<char>,
        s.tick_next(tick) == s,
        s.tick_tone(tick) == None::<ToneCommand>,
{
}

} // verus!
