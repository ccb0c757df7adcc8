//! The timing model: a words-per-minute speed determines the length of one
//! "dit" (the base Morse time unit), calibrated against the standard word
//! PARIS (50 dit units per word). All other durations are small integer
//! multiples of the dit duration.

use vstd::prelude::*;

verus! {

/// Lowest supported keying speed, in words per minute.
pub const MIN_WPM: u8 = 1;

/// Highest supported keying speed, in words per minute.
pub const MAX_WPM: u8 = 40;

/// The dit duration in milliseconds for a given speed: `ceil(1200 / wpm)`.
///
/// One word is 50 dit units, so a minute holds `50 * wpm` dits, and one dit
/// lasts `60000 / (50 * wpm) = 1200 / wpm` milliseconds, rounded up so the
/// duration is never zero.
pub open spec fn dit_duration_spec(wpm: u8) -> int
    recommends
        1 <= wpm,
{
    (1199 + wpm) / (wpm as int)
}

/// The dit duration is exactly the ceiling of `1200 / wpm`: it is the least
/// integer whose product with `wpm` reaches 1200.
pub proof fn lemma_dit_duration_is_ceil(wpm: u8)
    requires
        1 <= wpm,
    ensures
        dit_duration_spec(wpm) * wpm >= 1200,
        (dit_duration_spec(wpm) - 1) * wpm < 1200,
        1 <= dit_duration_spec(wpm) <= 1200,
{
    let w = wpm as int;
    let d = (1199 + w) / w;
    vstd::arithmetic::div_mod::lemma_fundamental_div_mod(1199 + w, w);
    vstd::arithmetic::div_mod::lemma_mod_bound(1199 + w, w);
    let r = (1199 + w) % w;
    assert(1199 + w == w * d + r);
    assert(d * w == 1199 + w - r) by (nonlinear_arith)
        requires
            1199 + w == w * d + r,
    ;
    assert((d - 1) * w == d * w - w) by (nonlinear_arith);
    assert(d <= 1200) by (nonlinear_arith)
        requires
            d * w == 1199 + w - r,
            1 <= w,
            0 <= r,
    ;
    assert(1 <= d) by (nonlinear_arith)
        requires
            d * w >= 1200,
            1 <= w,
    ;
}

/// Converts a speed in words per minute into the dit duration in
/// milliseconds, `ceil(1200 / wpm)`.
pub fn wpm_to_dit_duration(wpm: u8) -> (d: u64)
    requires
        1 <= wpm,
    ensures
        d == dit_duration_spec(wpm),
        1 <= d <= 1200,
{
    proof {
        lemma_dit_duration_is_ceil(wpm);
    }
    (1199u64 + wpm as u64) / (wpm as u64)
}

} // verus!
