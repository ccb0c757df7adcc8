//! The writing trainer's engine: the decode state machine and its
//! surroundings. Each frame the engine takes a time delta and a batch of
//! discrete key events, advances the tick clock, classifies finished key
//! presses as dots or dashes, commits characters at the three-tick boundary
//! and word spaces at the seven-tick boundary, runs the iambic scheduler in
//! the paddle modes, and reports the tone commands for the audio
//! collaborator. Out-of-range settings are clamped, never rejected.

use vstd::prelude::*;

use crate::codes;
use crate::keyer::{is_iambic_spec, IambicKey, IambicScheduler, KeyerMode, ToneCommand};
use crate::ticker::Ticker;
use crate::timing;

verus! {

/// Lowest accepted tone frequency, in hertz.
pub const MIN_FREQUENCY: usize = 300;

/// Highest accepted tone frequency, in hertz.
pub const MAX_FREQUENCY: usize = 1200;

/// Lowest accepted volume, in percent.
pub const MIN_VOLUME: usize = 0;

/// Highest accepted volume, in percent.
pub const MAX_VOLUME: usize = 100;

/// A discrete input event for one engine frame: a transition of the
/// straight key or of one of the two iambic paddles.
#[derive(Debug, Clone, Copy, PartialEq, Eq, Structural)]
pub enum InputEvent {
    /// The straight key went down.
    KeyDown,
    /// The straight key came up.
    KeyUp,
    /// A paddle went down.
    PaddleDown(IambicKey),
    /// A paddle came up.
    PaddleUp(IambicKey),
}

/// What one engine frame produced: the characters committed during the
/// frame, a snapshot of the symbol buffer and tick count, and the tone
/// commands for the audio collaborator, in order.
pub struct EngineOutput {
    /// Characters appended to the committed text this frame.
    pub committed: Vec<char>,
    /// The symbol buffer after the frame.
    pub buffer: Vec<char>,
    /// The tick count after the frame.
    pub ticks: usize,
    /// Tone commands issued this frame, in order.
    pub tone_commands: Vec<ToneCommand>,
}

/// The mathematical model of the engine state: the committed text and
/// symbol buffer as character sequences, with the clock, scheduler, and
/// settings as plain values.
pub struct EngineModel {
    /// The committed text.
    pub text: Seq<char>,
    /// The symbol buffer being keyed.
    pub buffer: Seq<char>,
    /// The keyer mode in force.
    pub keyer_mode: KeyerMode,
    /// The tick clock.
    pub ticker: Ticker,
    /// The iambic scheduler.
    pub sched: IambicScheduler,
    /// Whether the straight key is held down.
    pub pressed: bool,
    /// The tone frequency setting, in hertz.
    pub frequency: usize,
    /// The volume setting, in percent.
    pub volume: usize,
    /// The speed setting, in words per minute.
    pub wpm: u8,
}

/// Appends the characters of `src` to `dst`.
fn append_chars(dst: &mut Vec<char>, src: &Vec<char>)
    ensures
        final(dst)@ == old(dst)@ + src@,
{
    let mut i: usize = 0;
    proof {
        assert(dst@ =~= old(dst)@ + src@.subrange(0, 0));
    }
    while i < src.len()
        invariant
            0 <= i <= src.len(),
            dst@ == old(dst)@ + src@.subrange(0, i as int),
        decreases src.len() - i,
    {
        dst.push(src[i]);
        i = i + 1;
        proof {
            assert(dst@ =~= old(dst)@ + src@.subrange(0, i as int));
        }
    }
    proof {
        assert(dst@ =~= old(dst)@ + src@);
    }
}

/// The speed clamped to the supported range.
pub open spec fn clamp_wpm_spec(wpm: u8) -> u8 {
    if wpm < 1 {
        1
    } else if wpm > 40 {
        40
    } else {
        wpm
    }
}

/// A setting clamped to `lo..=hi`.
pub open spec fn clamp_range_spec(v: usize, lo: usize, hi: usize) -> usize {
    if v < lo {
        lo
    } else if v > hi {
        hi
    } else {
        v
    }
}

/// The symbol a finished straight-key press stands for: a dot when it
/// lasted at most two ticks, a dash otherwise.
pub open spec fn classify_symbol(ticks: usize) -> char {
    if ticks <= 2 {
        '.'
    } else {
        '-'
    }
}

/// What resolving a symbol buffer commits: the decoded character if the
/// character table holds the buffer's pattern; otherwise the rendering of
/// the prosign with that pattern, if there is one. The two lookups form
/// one set, the character table consulted first, so a pattern commits at
/// most one rendering. An unmatched buffer commits nothing.
pub open spec fn commit_of(buffer: Seq<char>) -> Seq<char> {
    match codes::decode_spec(buffer) {
        Some(c) => seq![c],
        None => codes::prosign_labels_spec(buffer),
    }
}

impl EngineModel {
    /// Well-formedness: clock and scheduler well-formed, settings within
    /// their ranges, and the clock derived from the settings: its dit
    /// duration computed from the speed and its wraparound tracking the
    /// keyer mode.
    pub open spec fn wf(self) -> bool {
        &&& self.ticker.wf()
        &&& self.sched.wf()
        &&& 1 <= self.wpm <= 40
        &&& 300 <= self.frequency <= 1200
        &&& self.volume <= 100
        &&& self.ticker.dit_duration == timing::dit_duration_spec(self.wpm)
        &&& self.ticker.wrap == is_iambic_spec(self.keyer_mode)
    }

    /// The model after one input event, with the tone commands the event
    /// itself issues. Straight-key events matter only in straight mode and
    /// paddle events only in the iambic modes; anything else is ignored.
    pub open spec fn event_step(self, ev: InputEvent) -> (EngineModel, Seq<ToneCommand>) {
        match ev {
            InputEvent::KeyDown => {
                if self.keyer_mode == KeyerMode::Straight {
                    (
                        EngineModel { pressed: true, ticker: self.ticker.reset_spec(), ..self },
                        seq![ToneCommand::Start],
                    )
                } else {
                    (self, Seq::empty())
                }
            },
            InputEvent::KeyUp => {
                if self.keyer_mode == KeyerMode::Straight {
                    (
                        EngineModel {
                            pressed: false,
                            buffer: self.buffer.push(classify_symbol(self.ticker.ticks)),
                            ticker: self.ticker.reset_spec(),
                            ..self
                        },
                        seq![ToneCommand::Stop],
                    )
                } else {
                    (self, Seq::empty())
                }
            },
            InputEvent::PaddleDown(key) => {
                if is_iambic_spec(self.keyer_mode) {
                    let t = if self.sched.any_active_spec() {
                        self.ticker
                    } else {
                        self.ticker.reset_spec()
                    };
                    (
                        EngineModel {
                            ticker: t,
                            sched: self.sched.press_spec(key, t.ticks),
                            ..self
                        },
                        Seq::empty(),
                    )
                } else {
                    (self, Seq::empty())
                }
            },
            InputEvent::PaddleUp(key) => {
                if is_iambic_spec(self.keyer_mode) {
                    (EngineModel { sched: self.sched.release_spec(key), ..self }, Seq::empty())
                } else {
                    (self, Seq::empty())
                }
            },
        }
    }

    /// The model after a sequence of input events, with all their tone
    /// commands in order.
    pub open spec fn events_step(self, evs: Seq<InputEvent>) -> (EngineModel, Seq<ToneCommand>)
        decreases evs.len(),
    {
        if evs.len() == 0 {
            (self, Seq::empty())
        } else {
            let first = self.event_step(evs[0]);
            let rest = first.0.events_step(evs.drop_first());
            (rest.0, first.1 + rest.1)
        }
    }

    /// Whether boundary actions are suspended: while the straight key is
    /// held, or while the iambic scheduler is still producing elements.
    pub open spec fn boundaries_suspended(self) -> bool {
        self.pressed || (is_iambic_spec(self.keyer_mode) && self.sched.any_active_spec())
    }

    /// The model after the clock reports having advanced to `tick`: at
    /// exactly three ticks the symbol buffer is resolved and cleared
    /// (whether or not it matched); at exactly seven, one word space is
    /// appended unless the text is empty or already ends in a space.
    /// Nothing happens while boundaries are suspended.
    pub open spec fn boundary_step(self, tick: usize) -> EngineModel {
        if self.boundaries_suspended() {
            self
        } else if tick == 3 {
            EngineModel { text: self.text + commit_of(self.buffer), buffer: Seq::empty(), ..self }
        } else if tick == 7 && self.text.len() > 0 && self.text.last() != ' ' {
            EngineModel { text: self.text.push(' '), ..self }
        } else {
            self
        }
    }

    /// The model after the clock consumes `delta` milliseconds, with the
    /// tick count the clock reported, if it reported one. Boundary actions
    /// run only on a reported change.
    pub open spec fn timer_step(self, delta: u64) -> (EngineModel, Option<usize>) {
        let reported = self.ticker.reports_change(delta);
        let after = EngineModel { ticker: self.ticker.tick_spec(delta), ..self };
        if reported {
            (after.boundary_step(after.ticker.ticks), Some(after.ticker.ticks))
        } else {
            (after, None)
        }
    }

    /// The model after the iambic scheduler handles a reported tick: an
    /// element whose window ends is appended to the symbol buffer, and the
    /// scheduler's tone command is passed on.
    pub open spec fn keyer_step(self, tick: usize) -> (EngineModel, Seq<ToneCommand>) {
        let emitted = self.sched.tick_emits(tick);
        let buffer = match emitted {
            Some(sym) => self.buffer.push(sym),
            None => self.buffer,
        };
        let tones = match self.sched.tick_tone(tick) {
            Some(t) => seq![t],
            None => Seq::<ToneCommand>::empty(),
        };
        (EngineModel { sched: self.sched.tick_next(tick), buffer, ..self }, tones)
    }

    /// The model after one whole frame — input events, then the clock and
    /// its boundary actions, then the iambic scheduler on a reported tick —
    /// with every tone command the frame issued, in order.
    pub open spec fn update_spec(self, delta: u64, evs: Seq<InputEvent>) -> (
        EngineModel,
        Seq<ToneCommand>,
    ) {
        let after_events = self.events_step(evs);
        let after_timer = after_events.0.timer_step(delta);
        match after_timer.1 {
            Some(tick) => {
                if is_iambic_spec(after_timer.0.keyer_mode) {
                    let after_keyer = after_timer.0.keyer_step(tick);
                    (after_keyer.0, after_events.1 + after_keyer.1)
                } else {
                    (after_timer.0, after_events.1)
                }
            },
            None => (after_timer.0, after_events.1),
        }
    }
}

/// The writing trainer's engine: owns the committed text, the symbol
/// buffer, the tick clock, the iambic scheduler, and the user settings.
/// All state is owned exclusively by the engine; it is advanced once per
/// frame and never blocks.
pub struct WritingScreen {
    /// The committed text.
    pub text: Vec<char>,
    /// The symbol buffer being keyed.
    pub buffer: Vec<char>,
    /// The keyer mode in force.
    pub keyer_mode: KeyerMode,
    /// The tick clock.
    pub ticker: Ticker,
    /// The iambic scheduler.
    pub iambic_scheduler: IambicScheduler,
    /// Whether the straight key is held down.
    pub pressed: bool,
    /// The tone frequency setting, in hertz.
    pub frequency: usize,
    /// The volume setting, in percent.
    pub volume: usize,
    /// The speed setting, in words per minute.
    pub wpm: u8,
}

impl View for WritingScreen {
    type V = EngineModel;

    open spec fn view(&self) -> EngineModel {
        EngineModel {
            text: self.text@,
            buffer: self.buffer@,
            keyer_mode: self.keyer_mode,
            ticker: self.ticker,
            sched: self.iambic_scheduler,
            pressed: self.pressed,
            frequency: self.frequency,
            volume: self.volume,
            wpm: self.wpm,
        }
    }
}

impl WritingScreen {
    /// Well-formedness of the engine state.
    pub open spec fn wf(self) -> bool {
        self@.wf()
    }

    /// Creates an engine with the default settings: straight keying at ten
    /// words per minute, a 550 hertz tone at twenty percent volume, and
    /// everything idle.
    pub fn new() -> (s: WritingScreen)
        ensures
            s.wf(),
            s@.text == Seq::<char>::empty(),
            s@.buffer == Seq::<char>::empty(),
            s@.keyer_mode == KeyerMode::Straight,
            s@.pressed == false,
            s@.wpm == 10,
            s@.frequency == 550,
            s@.volume == 20,
            s@.ticker.ticks == 0,
            s@.ticker.elapsed == 0,
            s@.ticker.was_reset == false,
            !s@.sched.any_active_spec(),
    {
        let wpm: u8 = 10;
        let dit_duration = timing::wpm_to_dit_duration(wpm);
        WritingScreen {
            text: Vec::new(),
            buffer: Vec::new(),
            keyer_mode: KeyerMode::Straight,
            ticker: Ticker::new(dit_duration),
            iambic_scheduler: IambicScheduler::default(),
            pressed: false,
            frequency: 550,
            volume: 20,
            wpm,
        }
    }

    /// Applies one input event, appending any tone command it issues.
    fn handle_event(&mut self, ev: InputEvent, tones: &mut Vec<ToneCommand>)
        requires
            old(self).wf(),
        ensures
            final(self).wf(),
            final(self)@ == old(self)@.event_step(ev).0,
            final(tones)@ == old(tones)@ + old(self)@.event_step(ev).1,
    {
        match ev {
            InputEvent::KeyDown => {
                if matches!(self.keyer_mode, KeyerMode::Straight) {
                    self.pressed = true;
                    self.ticker.reset();
                    tones.push(ToneCommand::Start);
                } else {
                    proof {
                        assert(tones@ =~= tones@ + Seq::<ToneCommand>::empty());
                    }
                }
            },
            InputEvent::KeyUp => {
                if matches!(self.keyer_mode, KeyerMode::Straight) {
                    self.pressed = false;
                    if self.ticker.ticks <= 2 {
                        self.buffer.push('.');
                    } else {
                        self.buffer.push('-');
                    }
                    self.ticker.reset();
                    tones.push(ToneCommand::Stop);
                } else {
                    proof {
                        assert(tones@ =~= tones@ + Seq::<ToneCommand>::empty());
                    }
                }
            },
            InputEvent::PaddleDown(key) => {
                if self.keyer_mode.is_iambic() {
                    if !self.iambic_scheduler.any_active() {
                        self.ticker.reset();
                    }
                    self.iambic_scheduler.press_key(key, self.ticker.ticks);
                }
                proof {
                    assert(tones@ =~= tones@ + Seq::<ToneCommand>::empty());
                }
            },
            InputEvent::PaddleUp(key) => {
                if self.keyer_mode.is_iambic() {
                    self.iambic_scheduler.release_key(key);
                }
                proof {
                    assert(tones@ =~= tones@ + Seq::<ToneCommand>::empty());
                }
            },
        }
    }

    /// Advances the clock and, on a reported tick change, runs the
    /// character and word boundary actions. Returns what the clock
    /// reported.
    fn handle_timers(&mut self, delta: u64) -> (r: Option<usize>)
        requires
            old(self).wf(),
            delta <= u64::MAX - 1200,
        ensures
            final(self).wf(),
            final(self)@ == old(self)@.timer_step(delta).0,
            r == old(self)@.timer_step(delta).1,
    {
        proof {
            timing::lemma_dit_duration_is_ceil(self.wpm);
        }
        let tick = match self.ticker.tick(delta) {
            Some(t) => t,
            None => {
                return None;
            },
        };
        if self.pressed || (self.keyer_mode.is_iambic() && self.iambic_scheduler.any_active()) {
            return Some(tick);
        }
        if tick == 3 {
            let decoded = codes::decode_symbols(&self.buffer);
            let ghost committed = commit_of(self.buffer@);
            let ghost text0 = self.text@;
            match decoded {
                Some(c) => {
                    self.text.push(c);
                },
                None => {
                    let labels = codes::prosign_labels(&self.buffer);
                    append_chars(&mut self.text, &labels);
                },
            }
            self.buffer.clear();
            proof {
                assert(self.text@ =~= text0 + committed);
            }
        } else if tick == 7 && self.text.len() > 0 && self.text[self.text.len() - 1] != ' ' {
            self.text.push(' ');
        }
        Some(tick)
    }

    /// Advances the engine by one frame: applies the input events, then
    /// `delta` milliseconds of time, and reports what the frame produced.
    pub fn update(&mut self, delta: u64, events: &Vec<InputEvent>) -> (r: EngineOutput)
        requires
            old(self).wf(),
            delta <= u64::MAX - 1200,
        ensures
            final(self).wf(),
            final(self)@ == old(self)@.update_spec(delta, events@).0,
            r.tone_commands@ == old(self)@.update_spec(delta, events@).1,
            old(self)@.text.is_prefix_of(final(self)@.text),
            r.committed@ == final(self)@.text.skip(old(self)@.text.len() as int),
            r.buffer@ == final(self)@.buffer,
            r.ticks == final(self)@.ticker.ticks,
    {
        let ghost m0 = self@;
        let text_len_before = self.text.len();
        let mut tones: Vec<ToneCommand> = Vec::new();

        let mut i: usize = 0;
        proof {
            assert(events@.skip(0) =~= events@);
            assert(tones@ + m0.events_step(events@).1 =~= m0.events_step(events@).1);
        }
        while i < events.len()
            invariant
                0 <= i <= events.len(),
                self.wf(),
                m0.events_step(events@).0 == self@.events_step(events@.skip(i as int)).0,
                m0.events_step(events@).1 == tones@ + self@.events_step(events@.skip(i as int)).1,
                self@.text == m0.text,
                self.text.len() == text_len_before,
            decreases events.len() - i,
        {
            let ghost pre = self@;
            let ghost pre_tones = tones@;
            let ev = events[i];
            proof {
                assert(events@.skip(i as int)[0] == events@[i as int]);
                assert(events@.skip(i as int).drop_first() =~= events@.skip(i as int + 1));
            }
            self.handle_event(ev, &mut tones);
            i = i + 1;
            proof {
                assert(pre_tones + (pre.event_step(ev).1 + self@.events_step(
                    events@.skip(i as int),
                ).1) =~= (pre_tones + pre.event_step(ev).1) + self@.events_step(
                    events@.skip(i as int),
                ).1);
            }
        }
        proof {
            assert(events@.skip(events@.len() as int) =~= Seq::<InputEvent>::empty());
            assert(m0.events_step(events@).1 =~= tones@);
        }
        let tick_report = self.handle_timers(delta);

        match tick_report {
            Some(tick) => {
                if self.keyer_mode.is_iambic() {
                    let (emitted, tone) = self.iambic_scheduler.handle_tick(tick);
                    match emitted {
                        Some(sym) => {
                            self.buffer.push(sym);
                        },
                        None => {
                            proof {
                                assert(self.buffer@ =~= self@.buffer);
                            }
                        },
                    }
                    match tone {
                        Some(t) => {
                            tones.push(t);
                            proof {
                                assert(tones@ =~= m0.update_spec(delta, events@).1);
                            }
                        },
                        None => {
                            proof {
                                assert(tones@ =~= tones@ + Seq::<ToneCommand>::empty());
                                assert(tones@ == m0.update_spec(delta, events@).1);
                            }
                        },
                    }
                }
            },
            None => {},
        }

        let mut committed: Vec<char> = Vec::new();
        let mut j: usize = text_len_before;
        proof {
            assert(m0.text.is_prefix_of(self@.text));
        }
        while j < self.text.len()
            invariant
                text_len_before <= j <= self.text.len(),
                committed@ == self@.text.subrange(text_len_before as int, j as int),
            decreases self.text.len() - j,
        {
            committed.push(self.text[j]);
            j = j + 1;
            proof {
                assert(committed@ =~= self@.text.subrange(text_len_before as int, j as int));
            }
        }
        proof {
            assert(committed@ =~= self@.text.skip(text_len_before as int));
        }

        let buffer_snapshot = self.snapshot_buffer();
        EngineOutput { committed, buffer: buffer_snapshot, ticks: self.ticker.ticks, tone_commands: tones }
    }

    /// Sets the keying speed, clamped to the supported range. If the dit
    /// duration changes, the clock is reset so no in-flight measurement is
    /// corrupted; otherwise it is left running.
    pub fn set_wpm(&mut self, wpm: u8)
        requires
            old(self).wf(),
        ensures
            final(self).wf(),
            final(self)@.wpm == clamp_wpm_spec(wpm),
            final(self)@.ticker.dit_duration == timing::dit_duration_spec(clamp_wpm_spec(wpm)),
            timing::dit_duration_spec(clamp_wpm_spec(wpm)) == old(self)@.ticker.dit_duration
                ==> final(self)@.ticker == old(self)@.ticker,
            timing::dit_duration_spec(clamp_wpm_spec(wpm)) != old(self)@.ticker.dit_duration
                ==> final(self)@.ticker.ticks == 0 && final(self)@.ticker.elapsed == 0 && final(
                self)@.ticker.was_reset == true && final(self)@.ticker.wrap == old(
                self)@.ticker.wrap,
            final(self)@.text == old(self)@.text,
            final(self)@.buffer == old(self)@.buffer,
            final(self)@.keyer_mode == old(self)@.keyer_mode,
            final(self)@.sched == old(self)@.sched,
            final(self)@.pressed == old(self)@.pressed,
            final(self)@.frequency == old(self)@.frequency,
            final(self)@.volume == old(self)@.volume,
    {
        let clamped = if wpm < timing::MIN_WPM {
            timing::MIN_WPM
        } else if wpm > timing::MAX_WPM {
            timing::MAX_WPM
        } else {
            wpm
        };
        self.wpm = clamped;
        let dit_duration = timing::wpm_to_dit_duration(clamped);
        if self.ticker.dit_duration != dit_duration {
            self.ticker.dit_duration = dit_duration;
            self.ticker.reset();
        }
    }

    /// Sets the keyer mode. The scheduler is recreated, and the clock is
    /// reset with its wraparound tracking the new mode: the iambic
    /// scheduler cycles through all eight phases, while straight keying
    /// saturates at the word boundary.
    pub fn set_keyer_mode(&mut self, mode: KeyerMode)
        requires
            old(self).wf(),
        ensures
            final(self).wf(),
            final(self)@.keyer_mode == mode,
            !final(self)@.sched.any_active_spec(),
            !final(self)@.sched.dot_released,
            !final(self)@.sched.dash_released,
            final(self)@.ticker.ticks == 0,
            final(self)@.ticker.elapsed == 0,
            final(self)@.ticker.was_reset == true,
            final(self)@.ticker.wrap == is_iambic_spec(mode),
            final(self)@.ticker.dit_duration == old(self)@.ticker.dit_duration,
            final(self)@.text == old(self)@.text,
            final(self)@.buffer == old(self)@.buffer,
            final(self)@.pressed == old(self)@.pressed,
            final(self)@.frequency == old(self)@.frequency,
            final(self)@.volume == old(self)@.volume,
            final(self)@.wpm == old(self)@.wpm,
    {
        self.keyer_mode = mode;
        self.iambic_scheduler = IambicScheduler::default();
        self.ticker.reset();
        self.ticker.wrap = mode.is_iambic();
    }

    /// Sets the tone frequency, clamped to the accepted range, and returns
    /// the command that tells the audio collaborator about it.
    pub fn set_frequency(&mut self, hz: usize) -> (r: ToneCommand)
        requires
            old(self).wf(),
        ensures
            final(self).wf(),
            final(self)@.frequency == clamp_range_spec(hz, 300, 1200),
            r == ToneCommand::SetFrequency(clamp_range_spec(hz, 300, 1200)),
            final(self)@ == (EngineModel { frequency: final(self)@.frequency, ..old(self)@ }),
    {
        let clamped = if hz < MIN_FREQUENCY {
            MIN_FREQUENCY
        } else if hz > MAX_FREQUENCY {
            MAX_FREQUENCY
        } else {
            hz
        };
        self.frequency = clamped;
        ToneCommand::SetFrequency(clamped)
    }

    /// Sets the volume, clamped to the accepted range, and returns the
    /// command that tells the audio collaborator about it.
    pub fn set_volume(&mut self, volume: usize) -> (r: ToneCommand)
        requires
            old(self).wf(),
        ensures
            final(self).wf(),
            final(self)@.volume == clamp_range_spec(volume, 0, 100),
            r == ToneCommand::SetVolume(clamp_range_spec(volume, 0, 100)),
            final(self)@ == (EngineModel { volume: final(self)@.volume, ..old(self)@ }),
    {
        let clamped = if volume > MAX_VOLUME {
            MAX_VOLUME
        } else {
            volume
        };
        self.volume = clamped;
        ToneCommand::SetVolume(clamped)
    }

    /// Clears the committed text and the symbol buffer, on explicit user
    /// request. Nothing else clears the committed text.
    pub fn clear(&mut self)
        requires
            old(self).wf(),
        ensures
            final(self).wf(),
            final(self)@.text == Seq::<char>::empty(),
            final(self)@.buffer == Seq::<char>::empty(),
            final(self)@ == (EngineModel {
                text: Seq::<char>::empty(),
                buffer: Seq::<char>::empty(),
                ..old(self)@
            }),
    {
        self.text.clear();
        self.buffer.clear();
    }

    /// Copies the current symbol buffer.
    pub fn snapshot_buffer(&self) -> (r: Vec<char>)
        ensures
            r@ == self@.buffer,
    {
        let mut r: Vec<char> = Vec::new();
        let mut i: usize = 0;
        while i < self.buffer.len()
            invariant
                0 <= i <= self.buffer.len(),
                r@ == self.buffer@.subrange(0, i as int),
            decreases self.buffer.len() - i,
        {
            r.push(self.buffer[i]);
            i = i + 1;
            proof {
                assert(r@ =~= self.buffer@.subrange(0, i as int));
            }
        }
        proof {
            assert(r@ =~= self.buffer@);
        }
        r
    }
}

/// Word-boundary idempotence: once the committed text ends in a space, a
/// seven-tick notification without new input changes nothing, so repeated
/// notifications never append more than one space.
pub proof fn lemma_space_idempotent(m: EngineModel)
    requires
        m.text.len() > 0,
        m.text.last() == ' ',
    ensures
        m.boundary_step(7) == m,
{
}

/// The engine state after `n` idle frames — no input events, one dit
/// duration of time each.
pub open spec fn run_idle(m: EngineModel, n: nat) -> EngineModel
    decreases n,
{
    if n == 0 {
        m
    } else {
        run_idle(
            m.update_spec(m.ticker.dit_duration, Seq::<InputEvent>::empty()).0,
            (n - 1) as nat,
        )
    }
}

/// One idle frame in straight mode: the clock gains exactly one tick
/// (saturating at seven), the settings and scheduler are untouched, and the
/// text and buffer change only at the three- and seven-tick boundaries, as
/// the decode state machine commits.
pub proof fn lemma_idle_frame(m: EngineModel)
    requires
        m.wf(),
        m.keyer_mode == KeyerMode::Straight,
        !m.pressed,
    ensures
        ({
            let u = m.update_spec(m.ticker.dit_duration, Seq::<InputEvent>::empty());
            let t = m.ticker.ticks;
            let reported = m.ticker.was_reset || t < 7;
            let nt: usize = if t < 7 {
                (t + 1) as usize
            } else {
                7
            };
            &&& u.1 == Seq::<ToneCommand>::empty()
            &&& u.0.ticker == (Ticker {
                ticks: nt,
                dit_duration: m.ticker.dit_duration,
                elapsed: m.ticker.elapsed,
                was_reset: false,
                wrap: m.ticker.wrap,
            })
            &&& u.0.keyer_mode == m.keyer_mode
            &&& u.0.sched == m.sched
            &&& u.0.pressed == m.pressed
            &&& u.0.frequency == m.frequency
            &&& u.0.volume == m.volume
            &&& u.0.wpm == m.wpm
            &&& (reported && nt == 3 ==> u.0.text == m.text + commit_of(m.buffer) && u.0.buffer
                == Seq::<char>::empty())
            &&& (reported && nt == 7 && m.text.len() > 0 && m.text.last() != ' ' ==> u.0.text
                == m.text.push(' ') && u.0.buffer == m.buffer)
            &&& (reported && nt == 7 && !(m.text.len() > 0 && m.text.last() != ' ') ==> u.0.text
                == m.text && u.0.buffer == m.buffer)
            &&& (reported && nt != 3 && nt != 7 ==> u.0.text == m.text && u.0.buffer == m.buffer)
            &&& (!reported ==> u.0.text == m.text && u.0.buffer == m.buffer)
            &&& u.0.wf()
        }),
{
    let d = m.ticker.dit_duration;
    let e = m.ticker.elapsed;
    vstd::arithmetic::div_mod::lemma_fundamental_div_mod_converse(e + d, d as int, 1, e as int);
    assert(m.ticker.new_tick_steps(d) == 1);
    assert(Ticker::advanced_ticks(m.ticker.ticks as int, 1, false) == Ticker::step_ticks(
        Ticker::advanced_ticks(m.ticker.ticks as int, 0, false),
        false,
    ));
}

/// One idle frame in an iambic mode while the scheduler is active: the
/// wrapping clock advances one phase, boundary actions stay suspended, and
/// the frame appends to the symbol buffer exactly what the scheduler emits
/// for the new phase — so the alternating squeeze stream the scheduler
/// produces is what the buffer receives, frame by frame.
pub proof fn lemma_idle_frame_iambic(m: EngineModel)
    requires
        m.wf(),
        is_iambic_spec(m.keyer_mode),
        m.sched.any_active_spec(),
    ensures
        ({
            let u = m.update_spec(m.ticker.dit_duration, Seq::<InputEvent>::empty());
            let t2: usize = (((m.ticker.ticks + 1) % 8) as usize);
            &&& u.0.ticker == (Ticker {
                ticks: t2,
                dit_duration: m.ticker.dit_duration,
                elapsed: m.ticker.elapsed,
                was_reset: false,
                wrap: m.ticker.wrap,
            })
            &&& u.0.text == m.text
            &&& u.0.sched == m.sched.tick_next(t2)
            &&& u.0.buffer == (match m.sched.tick_emits(t2) {
                Some(c) => m.buffer.push(c),
                None => m.buffer,
            })
            &&& u.1 == (match m.sched.tick_tone(t2) {
                Some(t) => seq![t],
                None => Seq::<ToneCommand>::empty(),
            })
            &&& u.0.keyer_mode == m.keyer_mode
            &&& u.0.pressed == m.pressed
            &&& u.0.frequency == m.frequency
            &&& u.0.volume == m.volume
            &&& u.0.wpm == m.wpm
            &&& u.0.wf()
        }),
{
    let d = m.ticker.dit_duration;
    let e = m.ticker.elapsed;
    let t = m.ticker.ticks;
    vstd::arithmetic::div_mod::lemma_fundamental_div_mod_converse(e + d, d as int, 1, e as int);
    assert(m.ticker.new_tick_steps(d) == 1);
    assert(Ticker::advanced_ticks(t as int, 1, true) == Ticker::step_ticks(
        Ticker::advanced_ticks(t as int, 0, true),
        true,
    ));
    if t < 7 {
        vstd::arithmetic::div_mod::lemma_small_mod((t + 1) as nat, 8);
    }
    let u = m.update_spec(d, Seq::<InputEvent>::empty());
    assert(u.1 =~= (match m.sched.tick_tone((((t + 1) % 8) as usize)) {
        Some(tone) => seq![tone],
        None => Seq::<ToneCommand>::empty(),
    }));
}

/// An iambic engine whose scheduler holds a squeeze with the dot element
/// completing next, in step with the clock: over any number of idle
/// frames the symbol buffer receives exactly the alternating dot/dash
/// stream, and the committed text is untouched. Together with the press
/// and alternation lemmas of the keyer this shows the squeeze behavior
/// end to end: holding both paddles fills the buffer with dot, dash, dot,
/// dash, for as long as the run lasts.
pub proof fn lemma_squeeze_frames(m: EngineModel, w: usize, n: nat)
    requires
        m.wf(),
        is_iambic_spec(m.keyer_mode),
        m.sched.squeeze_dot_next(w),
        !m.sched.dot_released,
        !m.sched.dash_released,
        m.ticker.ticks == (w + 1) % 8,
    ensures
        run_idle(m, n).buffer == m.buffer + crate::keyer::squeeze_stream_dot(0, n),
        run_idle(m, n).text == m.text,
{
    lemma_squeeze_frames_from_dot(m, w, 0, n);
}

/// The dot-completing part of the engine squeeze: with `q + 1` frames to
/// go before the dot element completes, the buffer receives exactly the
/// corresponding part of the stream.
proof fn lemma_squeeze_frames_from_dot(m: EngineModel, w: usize, q: nat, n: nat)
    requires
        m.wf(),
        is_iambic_spec(m.keyer_mode),
        m.sched.squeeze_dot_next(w),
        !m.sched.dot_released,
        !m.sched.dash_released,
        q <= 1,
        m.ticker.ticks == (w + 1 - q) % 8,
    ensures
        run_idle(m, n).buffer == m.buffer + crate::keyer::squeeze_stream_dot(q, n),
        run_idle(m, n).text == m.text,
    decreases n,
{
    if n == 0 {
        assert(run_idle(m, n).buffer =~= m.buffer + crate::keyer::squeeze_stream_dot(q, 0));
    } else {
        let t2: usize = (((m.ticker.ticks + 1) % 8) as usize);
        crate::keyer::lemma_mod8_shift(w + 1 - q, 1);
        assert(t2 == ((w + 2 - q) % 8) as usize);
        lemma_idle_frame_iambic(m);
        let m1 = m.update_spec(m.ticker.dit_duration, Seq::<InputEvent>::empty()).0;
        if q > 0 {
            crate::keyer::lemma_squeeze_dot_step(m.sched, w, 1);
            lemma_squeeze_frames_from_dot(m1, w, (q - 1) as nat, (n - 1) as nat);
            assert(run_idle(m1, (n - 1) as nat).buffer =~= m.buffer
                + crate::keyer::squeeze_stream_dot(q, n));
        } else {
            crate::keyer::lemma_squeeze_dot_step(m.sched, w, 2);
            lemma_squeeze_frames_from_dash(m1, t2, 3, (n - 1) as nat);
            assert(run_idle(m1, (n - 1) as nat).buffer =~= m.buffer
                + crate::keyer::squeeze_stream_dot(0, n));
        }
    }
}

/// The dash-completing part of the engine squeeze: with `q + 1` frames to
/// go before the dash element completes, the buffer receives exactly the
/// corresponding part of the stream.
proof fn lemma_squeeze_frames_from_dash(m: EngineModel, u: usize, q: nat, n: nat)
    requires
        m.wf(),
        is_iambic_spec(m.keyer_mode),
        m.sched.squeeze_dash_next(u),
        !m.sched.dot_released,
        !m.sched.dash_released,
        q <= 3,
        m.ticker.ticks == (u + 3 - q) % 8,
    ensures
        run_idle(m, n).buffer == m.buffer + crate::keyer::squeeze_stream_dash(q, n),
        run_idle(m, n).text == m.text,
    decreases n,
{
    if n == 0 {
        assert(run_idle(m, n).buffer =~= m.buffer + crate::keyer::squeeze_stream_dash(q, 0));
    } else {
        let t2: usize = (((m.ticker.ticks + 1) % 8) as usize);
        crate::keyer::lemma_mod8_shift(u + 3 - q, 1);
        assert(t2 == ((u + 4 - q) % 8) as usize);
        lemma_idle_frame_iambic(m);
        let m1 = m.update_spec(m.ticker.dit_duration, Seq::<InputEvent>::empty()).0;
        if q > 0 {
            crate::keyer::lemma_squeeze_dash_step(m.sched, u, (4 - q) as usize);
            lemma_squeeze_frames_from_dash(m1, u, (q - 1) as nat, (n - 1) as nat);
            assert(run_idle(m1, (n - 1) as nat).buffer =~= m.buffer
                + crate::keyer::squeeze_stream_dash(q, n));
        } else {
            crate::keyer::lemma_squeeze_dash_step(m.sched, u, 4);
            vstd::arithmetic::div_mod::lemma_small_mod(t2 as nat, 8);
            lemma_squeeze_frames_from_dot(m1, t2, 1, (n - 1) as nat);
            assert(run_idle(m1, (n - 1) as nat).buffer =~= m.buffer
                + crate::keyer::squeeze_stream_dash(0, n));
        }
    }
}

/// A saturated, idle straight-mode engine does not change at all: the
/// clock reports no further tick changes, so no boundary action runs.
proof fn lemma_idle_saturated(m: EngineModel, n: nat)
    requires
        m.wf(),
        m.keyer_mode == KeyerMode::Straight,
        !m.pressed,
        m.ticker.ticks == 7,
        !m.ticker.was_reset,
    ensures
        run_idle(m, n) == m,
    decreases n,
{
    if n > 0 {
        lemma_idle_frame(m);
        assert(m.update_spec(m.ticker.dit_duration, Seq::<InputEvent>::empty()).0 == m);
        lemma_idle_saturated(m, (n - 1) as nat);
    }
}

/// Word boundary: from the moment the straight key is released with a
/// decodable pattern in the buffer (the clock freshly reset), seven ticks
/// of idle time commit the decoded character and then exactly one word
/// space — and further idle time appends nothing more.
pub proof fn lemma_word_boundary(m: EngineModel, c: char, n: nat)
    requires
        m.wf(),
        m.keyer_mode == KeyerMode::Straight,
        !m.pressed,
        m.ticker.ticks == 0,
        m.ticker.elapsed == 0,
        codes::decode_spec(m.buffer) == Some(c),
        n >= 7,
    ensures
        run_idle(m, n).text == m.text + seq![c, ' '],
        run_idle(m, n).buffer == Seq::<char>::empty(),
{
    let d = m.ticker.dit_duration;
    let evs = Seq::<InputEvent>::empty();
    codes::lemma_decoded_not_space(m.buffer);

    lemma_idle_frame(m);
    let m1 = m.update_spec(d, evs).0;
    lemma_idle_frame(m1);
    let m2 = m1.update_spec(d, evs).0;
    lemma_idle_frame(m2);
    let m3 = m2.update_spec(d, evs).0;
    assert(m3.text =~= m.text + seq![c]);
    assert(m3.text.last() == c);
    lemma_idle_frame(m3);
    let m4 = m3.update_spec(d, evs).0;
    lemma_idle_frame(m4);
    let m5 = m4.update_spec(d, evs).0;
    lemma_idle_frame(m5);
    let m6 = m5.update_spec(d, evs).0;
    lemma_idle_frame(m6);
    let m7 = m6.update_spec(d, evs).0;
    assert(m7.text =~= m.text + seq![c, ' ']);

    lemma_idle_saturated(m7, (n - 7) as nat);
    assert(run_idle(m, n) == run_idle(m1, (n - 1) as nat));
    assert(run_idle(m1, (n - 1) as nat) == run_idle(m2, (n - 2) as nat));
    assert(run_idle(m2, (n - 2) as nat) == run_idle(m3, (n - 3) as nat));
    assert(run_idle(m3, (n - 3) as nat) == run_idle(m4, (n - 4) as nat));
    assert(run_idle(m4, (n - 4) as nat) == run_idle(m5, (n - 5) as nat));
    assert(run_idle(m5, (n - 5) as nat) == run_idle(m6, (n - 6) as nat));
    assert(run_idle(m6, (n - 6) as nat) == run_idle(m7, (n - 7) as nat));
}

} // verus!
