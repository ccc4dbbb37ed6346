//! Symbolic configuration parameters and their resolution to absolute
//! numeric values.
//!
//! Resolution is pure: the same symbolic value always resolves to the same
//! absolute parameters.

use vstd::prelude::*;

verus! {

/// Largest admitted rain speed: one million rows per second, in micro-rows
/// per second.
pub const SPEED_MAX: u64 = 1_000_000_000_000;

/// Smallest effective per-drop speed (one thousandth of a row per second, in
/// micro-rows per second): a positive floor that keeps every cycle period
/// finite.
pub const SPEED_EPSILON: u64 = 1_000;

/// Speed variance is measured in thousandths of the target speed.
pub const VARIANCE_SCALE: u64 = 1_000;

/// Largest admitted tail lifespan and noise interval, in microseconds
/// (about eleven and a half days).
pub const DURATION_MAX: u64 = 1_000_000_000_000;

/// Largest admitted elapsed time, in microseconds (more than a hundred
/// thousand years): keeps cycle numbers representable in 64 bits.
pub const ELAPSED_MAX: u64 = 0x4000_0000_0000_0000;

/// Largest admitted absolute drop count.
pub const MAX_ABSOLUTE_DROPS: usize = 0x4000_0000;

/// The density of the rain.
#[derive(Debug, Clone, Copy, PartialEq)]
pub enum RainDensity {
    /// An absolute target number of drops to have in the frame.
    ///
    /// The number of drops at any point in time ends up being random
    /// ~ bin(2n, 0.5).
    Absolute { num_drops: usize },
    /// Compute the number of drops based on the frame size. Lower value is
    /// denser.
    ///
    /// Is converted to an absolute value, with 1 drop per `sparseness` cells.
    Relative { sparseness: usize },
    /// A torrential rain. Equivalent to `Relative { sparseness: 20 }`.
    Torrential,
    /// A showering rain. Equivalent to `Relative { sparseness: 50 }`.
    Showering,
    /// A sprinkling rain. Equivalent to `Relative { sparseness: 100 }`.
    Sprinkling,
}

impl RainDensity {
    /// The absolute number of drops for a surface: `Absolute` is taken as
    /// is, and a sparseness of `s > 0` yields one drop per `s` cells,
    /// rounded down. Sparseness 0 yields no drops.
    pub open spec fn spec_num_drops(self, width: u16, height: u16) -> int {
        match self {
            RainDensity::Absolute { num_drops } => num_drops as int,
            RainDensity::Relative { sparseness } => if sparseness == 0 {
                0
            } else {
                (width as int) * (height as int) / (sparseness as int)
            },
            RainDensity::Torrential => (width as int) * (height as int) / 20,
            RainDensity::Showering => (width as int) * (height as int) / 50,
            RainDensity::Sprinkling => (width as int) * (height as int) / 100,
        }
    }

    /// Get the absolute number of drops given an area.
    pub fn num_drops(&self, width: u16, height: u16) -> (r: usize)
        ensures
            r == self.spec_num_drops(width, height),
    {
        proof {
            vstd::arithmetic::mul::lemma_mul_upper_bound(
                width as int,
                0xffff,
                height as int,
                0xffff,
            );
        }
        let area: usize = (width as usize) * (height as usize);
        match self {
            RainDensity::Absolute { num_drops } => *num_drops,
            RainDensity::Relative { sparseness } => if *sparseness == 0 {
                0
            } else {
                area / *sparseness
            },
            RainDensity::Torrential => area / 20,
            RainDensity::Showering => area / 50,
            RainDensity::Sprinkling => area / 100,
        }
    }
}

/// The speed of the rain.
#[derive(Debug, Clone, Copy, PartialEq)]
pub enum RainSpeed {
    /// An absolute target speed, in micro-rows per second (one row per
    /// second is 1,000,000 micro-rows per second).
    Absolute { speed: u64 },
    /// A beating rain. Equivalent to `Absolute { speed: 20_000_000 }`
    /// (twenty rows per second).
    Beating,
    /// A pouring rain. Equivalent to `Absolute { speed: 10_000_000 }`
    /// (ten rows per second).
    Pouring,
    /// A trickling rain. Equivalent to `Absolute { speed: 5_000_000 }`
    /// (five rows per second).
    Trickling,
}

impl RainSpeed {
    /// The absolute speed in micro-rows per second.
    pub open spec fn spec_speed(self) -> int {
        match self {
            RainSpeed::Absolute { speed } => speed as int,
            RainSpeed::Beating => 20_000_000,
            RainSpeed::Pouring => 10_000_000,
            RainSpeed::Trickling => 5_000_000,
        }
    }

    /// A well-formed speed does not exceed [`SPEED_MAX`].
    pub open spec fn wf(self) -> bool {
        self.spec_speed() <= SPEED_MAX
    }

    /// Get the absolute speed.
    pub fn speed(&self) -> (r: u64)
        ensures
            r == self.spec_speed(),
    {
        match self {
            RainSpeed::Absolute { speed } => *speed,
            RainSpeed::Beating => 20_000_000,
            RainSpeed::Pouring => 10_000_000,
            RainSpeed::Trickling => 5_000_000,
        }
    }
}

} // verus!
