//! Deterministic procedural generator of a "digital rain" animation for
//! character-grid displays.
//!
//! The engine keeps no mutable state across frames: for a given seed,
//! configuration, elapsed time and surface size it recomputes, in closed form,
//! the full set of visible glyphs that a stateful simulation would have
//! produced. Time is measured in microseconds and speeds in micro-rows per
//! second, so every derived quantity is exact integer arithmetic.

use vstd::prelude::*;

pub mod charset;
pub mod drops;
pub mod glyph;
pub mod laws;
pub mod params;
pub mod rain;
pub mod rng;

pub use charset::CharacterSet;
pub use glyph::Color;
pub use glyph::Emphasis;
pub use glyph::Glyph;
pub use params::RainDensity;
pub use params::RainSpeed;
pub use rain::Rain;

verus! {

/// Microseconds in one second: the unit of all durations and elapsed times.
pub const MICROS_PER_SEC: u64 = 1_000_000;

/// Micro-rows in one row: the unit of rain speeds (micro-rows per second).
pub const SPEED_UNIT: u64 = 1_000_000;

/// Product of the time and speed units: rows travelled in `t` microseconds at
/// speed `s` micro-rows per second are `s * t / TIME_SPEED_SCALE`.
pub const TIME_SPEED_SCALE: u64 = 1_000_000_000_000;

/// Map a uniform random integer to a uniform value in the half-open range
/// `[lower, upper)`, by linear scaling over the integer's full domain of
/// 2^64 values. An empty range (`lower == upper`) yields `lower`.
pub open spec fn spec_uniform(entropy: u64, lower: int, upper: int) -> int {
    lower + entropy * (upper - lower) / 0x1_0000_0000_0000_0000
}

/// A uniform draw lands inside its half-open range: never at the upper
/// endpoint unless the range is empty.
pub proof fn lemma_uniform_bounds(entropy: u64, lower: int, upper: int)
    requires
        lower <= upper,
    ensures
        lower <= spec_uniform(entropy, lower, upper) <= upper,
        lower < upper ==> spec_uniform(entropy, lower, upper) < upper,
{
    let span = upper - lower;
    let d = 0x1_0000_0000_0000_0000int;
    vstd::arithmetic::mul::lemma_mul_nonnegative(entropy as int, span);
    vstd::arithmetic::div_mod::lemma_div_pos_is_pos((entropy as int) * span, d);
    if span > 0 {
        vstd::arithmetic::mul::lemma_mul_inequality(entropy as int, u64::MAX as int, span);
        assert((u64::MAX as int) * span < d * span) by (nonlinear_arith)
            requires
                span > 0,
                d == 0x1_0000_0000_0000_0000,
        ;
        vstd::arithmetic::div_mod::lemma_multiply_divide_lt((entropy as int) * span, d, span);
    } else {
        assert((entropy as int) * span == 0) by (nonlinear_arith)
            requires
                span == 0,
        ;
    }
}

/// Map a uniform random `u64` to a uniform value in the half-open range
/// `[lower, upper)` by linear scaling over the integer's full domain of
/// 2^64 values. An empty range (`lower == upper`) yields `lower`.
pub fn uniform(entropy: u64, lower: u64, upper: u64) -> (r: u64)
    requires
        lower <= upper,
    ensures
        r == spec_uniform(entropy, lower as int, upper as int),
        lower <= r <= upper,
        lower < upper ==> r < upper,
{
    let span: u64 = upper - lower;
    proof {
        vstd::arithmetic::mul::lemma_mul_upper_bound(
            entropy as int,
            u64::MAX as int,
            span as int,
            u64::MAX as int,
        );
        lemma_uniform_bounds(entropy, lower as int, upper as int);
    }
    let scaled: u128 = (entropy as u128) * (span as u128) / 0x1_0000_0000_0000_0000u128;
    lower + (scaled as u64)
}

} // verus!
