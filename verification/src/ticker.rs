//! The tick clock: accumulates elapsed real time into discrete ticks of one
//! dit duration each. Ticks saturate at 7 (the word boundary) unless the
//! clock is set to wrap, in which case they cycle through the eight phases
//! `0..8` that the iambic keyer schedules over. The clock accepts arbitrary,
//! possibly irregular, time deltas, so it is frame-rate independent.

use vstd::prelude::*;

verus! {

/// Tracks the timing of Morse code elements.
///
/// A freshly performed [`Ticker::reset`] arms `was_reset`, which guarantees
/// that the next [`Ticker::tick`] reports a change even if the numeric tick
/// value happens to equal the one last reported: a fresh cycle is never
/// silently dropped.
pub struct Ticker {
    /// Elapsed whole dits since the last reset, in `0..=7`.
    pub ticks: usize,
    /// Length of one dit in milliseconds; strictly positive.
    pub dit_duration: u64,
    /// Time accumulated toward the next tick, in milliseconds.
    pub elapsed: u64,
    /// Armed by `reset`, consumed by the next `tick`.
    pub was_reset: bool,
    /// When set, ticks cycle `0..8` instead of saturating at 7.
    pub wrap: bool,
}

impl Ticker {
    /// Well-formedness: a positive dit duration, a tick count within the
    /// cycle, and no more than one dit's worth of unconsumed time.
    pub open spec fn wf(self) -> bool {
        &&& 1 <= self.dit_duration
        &&& self.ticks <= 7
        &&& self.elapsed < self.dit_duration
    }

    /// One tick-count step: count up toward 7, then either stay (saturating)
    /// or cycle back to 0 (wrapping).
    pub open spec fn step_ticks(t: int, wrap: bool) -> int {
        if t < 7 {
            t + 1
        } else if wrap {
            0
        } else {
            t
        }
    }

    /// The tick count after `n` steps from `t`.
    pub open spec fn advanced_ticks(t: int, n: nat, wrap: bool) -> int
        decreases n,
    {
        if n == 0 {
            t
        } else {
            Self::step_ticks(Self::advanced_ticks(t, (n - 1) as nat, wrap), wrap)
        }
    }

    /// How many whole dits a call of `tick` with this delta consumes.
    pub open spec fn new_tick_steps(self, delta: u64) -> nat
        recommends
            1 <= self.dit_duration,
    {
        (((self.elapsed + delta) / (self.dit_duration as int))) as nat
    }

    /// The tick count after a call of `tick` with this delta.
    pub open spec fn ticks_after(self, delta: u64) -> int {
        Self::advanced_ticks(self.ticks as int, self.new_tick_steps(delta), self.wrap)
    }

    /// Whether a call of `tick` with this delta reports a change.
    pub open spec fn reports_change(self, delta: u64) -> bool {
        self.was_reset || self.ticks_after(delta) != self.ticks
    }

    /// The whole clock state after a call of `tick` with this delta.
    pub open spec fn tick_spec(self, delta: u64) -> Ticker {
        Ticker {
            ticks: self.ticks_after(delta) as usize,
            dit_duration: self.dit_duration,
            elapsed: ((self.elapsed + delta) % (self.dit_duration as int)) as u64,
            was_reset: false,
            wrap: self.wrap,
        }
    }

    /// The clock state after a sequence of `tick` calls, one per delta.
    pub open spec fn run_spec(self, deltas: Seq<u64>) -> Ticker
        decreases deltas.len(),
    {
        if deltas.len() == 0 {
            self
        } else {
            self.tick_spec(deltas[0]).run_spec(deltas.drop_first())
        }
    }

    /// Creates a clock with the given dit duration, zero ticks, and no
    /// accumulated time, saturating at tick 7.
    pub fn new(dit_duration: u64) -> (t: Ticker)
        requires
            1 <= dit_duration,
        ensures
            t.wf(),
            t.ticks == 0,
            t.dit_duration == dit_duration,
            t.elapsed == 0,
            t.was_reset == false,
            t.wrap == false,
    {
        Ticker { ticks: 0, dit_duration, elapsed: 0, was_reset: false, wrap: false }
    }

    /// The clock state after a reset: zero ticks, no accumulated time, and
    /// the reset flag armed.
    pub open spec fn reset_spec(self) -> Ticker {
        Ticker {
            ticks: 0,
            elapsed: 0,
            was_reset: true,
            dit_duration: self.dit_duration,
            wrap: self.wrap,
        }
    }

    /// Resets the clock to zero ticks and arms the reset flag, so the next
    /// `tick` call is guaranteed to report a change.
    pub fn reset(&mut self)
        ensures
            *final(self) == old(self).reset_spec(),
            final(self).ticks == 0,
            final(self).elapsed == 0,
            final(self).was_reset == true,
            final(self).dit_duration == old(self).dit_duration,
            final(self).wrap == old(self).wrap,
    {
        self.was_reset = true;
        self.ticks = 0;
        self.elapsed = 0;
    }

    /// Advances the clock by `delta` milliseconds, consuming one tick per
    /// whole dit duration accumulated. Returns the new tick count if it
    /// changed since the last call (or if the clock was just reset), and
    /// `None` otherwise.
    pub fn tick(&mut self, delta: u64) -> (r: Option<usize>)
        requires
            old(self).wf(),
            delta <= u64::MAX - old(self).dit_duration,
        ensures
            final(self).wf(),
            final(self).dit_duration == old(self).dit_duration,
            final(self).wrap == old(self).wrap,
            final(self).was_reset == false,
            final(self).ticks == old(self).ticks_after(delta),
            final(self).elapsed == (old(self).elapsed + delta) % (old(self).dit_duration as int),
            *final(self) == old(self).tick_spec(delta),
            r == if old(self).reports_change(delta) {
                Some(final(self).ticks)
            } else {
                None::<usize>
            },
    {
        let was_reset = self.was_reset;
        self.was_reset = false;
        self.elapsed = self.elapsed + delta;
        let old_ticks = self.ticks;

        let ghost total: int = old(self).elapsed + delta;
        let ghost n: nat = 0;
        while self.elapsed >= self.dit_duration
            invariant
                1 <= self.dit_duration,
                self.ticks <= 7,
                self.dit_duration == old(self).dit_duration,
                self.wrap == old(self).wrap,
                self.was_reset == false,
                self.elapsed + n * self.dit_duration == total,
                self.ticks == Self::advanced_ticks(old(self).ticks as int, n, self.wrap),
            decreases self.elapsed,
        {
            self.elapsed = self.elapsed - self.dit_duration;
            if self.ticks < 7 {
                self.ticks = self.ticks + 1;
            } else if self.wrap {
                self.ticks = 0;
            }
            proof {
                n = n + 1;
                assert(n * self.dit_duration == (n - 1) * self.dit_duration + self.dit_duration)
                    by (nonlinear_arith);
                assert(Self::advanced_ticks(old(self).ticks as int, n, self.wrap)
                    == Self::step_ticks(
                    Self::advanced_ticks(old(self).ticks as int, (n - 1) as nat, self.wrap),
                    self.wrap,
                ));
            }
        }
        proof {
            vstd::arithmetic::div_mod::lemma_fundamental_div_mod_converse(
                total,
                self.dit_duration as int,
                n as int,
                self.elapsed as int,
            );
        }

        if was_reset || old_ticks != self.ticks {
            Some(self.ticks)
        } else {
            None
        }
    }
}

/// The total of a sequence of time deltas, in milliseconds.
pub open spec fn seq_sum(deltas: Seq<u64>) -> int
    decreases deltas.len(),
{
    if deltas.len() == 0 {
        0
    } else {
        deltas[0] + seq_sum(deltas.drop_first())
    }
}

/// In saturating mode, `n` tick-count steps from `t <= 7` land on
/// `min(t + n, 7)`.
proof fn lemma_advanced_ticks_saturating(t: int, n: nat)
    requires
        0 <= t <= 7,
    ensures
        Ticker::advanced_ticks(t, n, false) == vstd::math::min(t + n, 7),
    decreases n,
{
    if n > 0 {
        lemma_advanced_ticks_saturating(t, (n - 1) as nat);
    }
}

/// Consuming whole dits commutes with accumulating time: adding `delta` to a
/// remainder `s % d` consumes exactly the dits that `s + delta` holds beyond
/// those of `s`.
proof fn lemma_div_accumulates(s: int, delta: int, d: int)
    requires
        0 <= s,
        0 <= delta,
        1 <= d,
    ensures
        s / d + (s % d + delta) / d == (s + delta) / d,
        (s % d + delta) % d == (s + delta) % d,
{
    vstd::arithmetic::div_mod::lemma_fundamental_div_mod(s, d);
    vstd::arithmetic::div_mod::lemma_mod_bound(s, d);
    vstd::arithmetic::div_mod::lemma_fundamental_div_mod(s % d + delta, d);
    vstd::arithmetic::div_mod::lemma_mod_bound(s % d + delta, d);
    let q = s / d + (s % d + delta) / d;
    let r = (s % d + delta) % d;
    assert(s + delta == d * q + r) by (nonlinear_arith)
        requires
            s == d * (s / d) + s % d,
            s % d + delta == d * ((s % d + delta) / d) + r,
            q == s / d + (s % d + delta) / d,
    ;
    vstd::arithmetic::div_mod::lemma_fundamental_div_mod_converse(s + delta, d, q, r);
}

/// A clock whose state corresponds to `s` milliseconds of saturating
/// accumulation since its last reset still does so after any further
/// sequence of `tick` calls.
proof fn lemma_run_saturating(t: Ticker, deltas: Seq<u64>, s: int)
    requires
        t.wf(),
        t.wrap == false,
        0 <= s,
        t.ticks == vstd::math::min(s / (t.dit_duration as int), 7),
        t.elapsed == s % (t.dit_duration as int),
    ensures
        t.run_spec(deltas).ticks == vstd::math::min(
            (s + seq_sum(deltas)) / (t.dit_duration as int),
            7,
        ),
        t.run_spec(deltas).elapsed == (s + seq_sum(deltas)) % (t.dit_duration as int),
        t.run_spec(deltas).dit_duration == t.dit_duration,
    decreases deltas.len(),
{
    let d = t.dit_duration as int;
    if deltas.len() > 0 {
        let delta = deltas[0];
        let t1 = t.tick_spec(delta);
        lemma_advanced_ticks_saturating(t.ticks as int, t.new_tick_steps(delta));
        lemma_div_accumulates(s, delta as int, d);
        vstd::arithmetic::div_mod::lemma_mod_bound(s % d + delta, d);
        assert(t1.ticks == vstd::math::min((s + delta) / d, 7));
        lemma_run_saturating(t1, deltas.drop_first(), s + delta);
    }
}

/// Repeated `tick` calls whose deltas sum to `k` dit durations, starting
/// from a freshly reset saturating clock, leave the tick count at
/// `min(k, 7)`.
pub proof fn lemma_ticks_after_k_dits(t: Ticker, deltas: Seq<u64>, k: int)
    requires
        t.wf(),
        t.wrap == false,
        t.ticks == 0,
        t.elapsed == 0,
        0 <= k,
        seq_sum(deltas) == k * t.dit_duration,
    ensures
        t.run_spec(deltas).ticks == vstd::math::min(k, 7),
{
    let d = t.dit_duration as int;
    vstd::arithmetic::div_mod::lemma_small_div_converse(0, d);
    lemma_run_saturating(t, deltas, 0);
    assert((k * d) / d == k) by {
        vstd::arithmetic::div_mod::lemma_div_by_multiple(k, d);
    };
}

} // verus!

