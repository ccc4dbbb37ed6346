//! The rain widget: configuration and the per-frame entry point.
//!
//! One call to [`Rain::render_glyphs`] computes a complete frame from the
//! configuration, the elapsed time and the surface size alone. Nothing is
//! carried from frame to frame, so a caller may resize the surface or replay
//! a time freely: the same inputs always yield the same glyphs.

use vstd::prelude::*;

use crate::charset::CharacterSet;
use crate::drops::{build_drop, spec_drop_glyphs};
use crate::glyph::{sort_oldest_first, spec_sort_oldest_first, Color, Glyph};
use crate::params::{
    RainDensity, RainSpeed, DURATION_MAX, ELAPSED_MAX, MAX_ABSOLUTE_DROPS, VARIANCE_SCALE,
};
use crate::rng::{pcg_stream, SeededRng};

verus! {

/// The track length of drop `i`: between one-and-a-half and two-and-a-half
/// surface heights, decided by draw `i` of the seed's sequence. Randomizing
/// each length breaks the visible banding a fixed track length would cause.
pub open spec fn spec_track_len(seed: u64, height: u16, i: int) -> int {
    3 * (height as int) / 2 + pcg_stream(seed, i) as int % (height as int)
}

/// Position in the seed's sequence where drop `i`'s entropy vector begins:
/// the first `ntot` draws are the track lengths, and each drop then consumes
/// one draw per row of its track.
pub open spec fn spec_entropy_start(seed: u64, height: u16, ntot: int, i: int) -> int
    decreases i,
{
    if i <= 0 {
        ntot
    } else {
        spec_entropy_start(seed, height, ntot, i - 1) + spec_track_len(seed, height, i - 1)
    }
}

/// Drop `i`'s entropy vector: one draw of the seed's sequence per row of its
/// track. This vector is the entire state of the drop.
pub open spec fn spec_entropy(seed: u64, height: u16, ntot: int, i: int) -> Seq<u64> {
    Seq::new(
        spec_track_len(seed, height, i) as nat,
        |j: int| pcg_stream(seed, spec_entropy_start(seed, height, ntot, i) + j),
    )
}

/// A digital rain animation, rendered statelessly from elapsed time.
#[derive(Debug, Clone, PartialEq)]
pub struct Rain {
    /// Time since the animation began, in microseconds.
    pub elapsed_micros: u64,
    /// Seed of the random source; fixes the whole animation.
    pub seed: u64,
    /// How many drops the frame aims for.
    pub rain_density: RainDensity,
    /// Target fall speed.
    pub rain_speed: RainSpeed,
    /// Per-drop speed jitter, in thousandths of the target speed.
    pub rain_speed_variance: u64,
    /// How long a trail persists behind the head, in microseconds.
    pub tail_lifespan_micros: u64,
    /// Color of the trail glyphs (heads are white).
    pub color: Color,
    /// Microseconds between character swaps at a fixed row.
    pub noise_interval_micros: u64,
    /// The characters the rain is made of.
    pub character_set: CharacterSet,
}

/// The glyphs of the first `n` drops, in drop order.
pub open spec fn spec_drops_prefix(rain: Rain, width: u16, height: u16, n: int) -> Seq<Glyph>
    decreases n,
{
    let ntot = 2 * rain.rain_density.spec_num_drops(width, height);
    if n <= 0 {
        Seq::empty()
    } else {
        spec_drops_prefix(rain, width, height, n - 1) + spec_drop_glyphs(
            rain.character_set,
            spec_entropy(rain.seed, height, ntot, n - 1),
            rain.elapsed_micros,
            width,
            height,
            rain.rain_speed.spec_speed() as u64,
            rain.rain_speed_variance,
            rain.tail_lifespan_micros,
            rain.noise_interval_micros,
            rain.color,
        )
    }
}

/// Every glyph of the frame, drop by drop, before sorting. An empty surface
/// yields no glyphs. There are twice as many drops as the density resolves
/// to, each visible only part of the time.
pub open spec fn spec_frame(rain: Rain, width: u16, height: u16) -> Seq<Glyph> {
    if width == 0 || height == 0 {
        Seq::empty()
    } else {
        spec_drops_prefix(
            rain,
            width,
            height,
            2 * rain.rain_density.spec_num_drops(width, height),
        )
    }
}

/// The full frame in render order: the frame's glyphs sorted descending by
/// age, oldest first, so that the younger, closer-to-head glyphs are written
/// last and land on top when cells collide.
pub open spec fn spec_render(rain: Rain, width: u16, height: u16) -> Seq<Glyph> {
    spec_sort_oldest_first(spec_frame(rain, width, height))
}

impl Rain {
    /// A well-formed configuration: all durations, speeds and counts within
    /// the documented limits. Checked when a configuration is built, assumed
    /// by the per-frame engine.
    pub open spec fn wf(self) -> bool {
        &&& self.elapsed_micros <= ELAPSED_MAX
        &&& self.rain_speed.wf()
        &&& self.rain_speed_variance <= VARIANCE_SCALE
        &&& self.tail_lifespan_micros <= DURATION_MAX
        &&& 1 <= self.noise_interval_micros <= DURATION_MAX
        &&& self.character_set.wf()
        &&& match self.rain_density {
            RainDensity::Absolute { num_drops } => num_drops <= MAX_ABSOLUTE_DROPS,
            _ => true,
        }
    }

    /// Check well-formedness; `true` exactly for configurations that
    /// [`Rain::wf`] admits.
    pub fn is_well_formed(&self) -> (r: bool)
        ensures
            r == self.wf(),
    {
        let speed_ok = match self.rain_speed {
            RainSpeed::Absolute { speed } => speed <= crate::params::SPEED_MAX,
            _ => true,
        };
        let density_ok = match self.rain_density {
            RainDensity::Absolute { num_drops } => num_drops <= MAX_ABSOLUTE_DROPS,
            _ => true,
        };
        self.elapsed_micros <= ELAPSED_MAX && speed_ok && self.rain_speed_variance
            <= VARIANCE_SCALE && self.tail_lifespan_micros <= DURATION_MAX && 1
            <= self.noise_interval_micros && self.noise_interval_micros <= DURATION_MAX
            && density_ok && self.character_set.is_well_formed()
    }

    /// Construct a new rain widget with defaults for matrix rain.
    pub fn new_matrix(elapsed_micros: u64) -> (r: Rain)
        ensures
            r == (Rain {
                elapsed_micros,
                seed: 1234,
                rain_density: RainDensity::Showering,
                rain_speed: RainSpeed::Trickling,
                rain_speed_variance: 500,
                tail_lifespan_micros: 2_000_000,
                color: Color::LightGreen,
                noise_interval_micros: 5_000_000,
                character_set: CharacterSet::HalfKana,
            }),
    {
        Rain {
            elapsed_micros,
            seed: 1234,
            rain_density: RainDensity::Showering,
            rain_speed: RainSpeed::Trickling,
            rain_speed_variance: 500,
            tail_lifespan_micros: 2_000_000,
            color: Color::LightGreen,
            noise_interval_micros: 5_000_000,
            character_set: CharacterSet::HalfKana,
        }
    }

    /// Construct a new rain widget with defaults for standard rain.
    pub fn new_rain(elapsed_micros: u64) -> (r: Rain)
        ensures
            r == (Rain {
                elapsed_micros,
                seed: 1234,
                rain_density: RainDensity::Torrential,
                rain_speed: RainSpeed::Beating,
                rain_speed_variance: 500,
                tail_lifespan_micros: 250_000,
                color: Color::LightBlue,
                noise_interval_micros: 1_000_000,
                character_set: CharacterSet::UnicodeRange { start: 0x7c, len: 1 },
            }),
    {
        Rain {
            elapsed_micros,
            seed: 1234,
            rain_density: RainDensity::Torrential,
            rain_speed: RainSpeed::Beating,
            rain_speed_variance: 500,
            tail_lifespan_micros: 250_000,
            color: Color::LightBlue,
            noise_interval_micros: 1_000_000,
            character_set: CharacterSet::UnicodeRange { start: 0x7c, len: 1 },
        }
    }

    /// Construct a new rain widget with defaults for snow.
    pub fn new_snow(elapsed_micros: u64) -> (r: Rain)
        ensures
            r == (Rain {
                elapsed_micros,
                seed: 1234,
                rain_density: RainDensity::Torrential,
                rain_speed: RainSpeed::Absolute { speed: 2_000_000 },
                rain_speed_variance: 100,
                tail_lifespan_micros: 500_000,
                color: Color::White,
                noise_interval_micros: 1_000_000,
                character_set: CharacterSet::UnicodeRange { start: 0x2a, len: 1 },
            }),
    {
        Rain {
            elapsed_micros,
            seed: 1234,
            rain_density: RainDensity::Torrential,
            rain_speed: RainSpeed::Absolute { speed: 2_000_000 },
            rain_speed_variance: 100,
            tail_lifespan_micros: 500_000,
            color: Color::White,
            noise_interval_micros: 1_000_000,
            character_set: CharacterSet::UnicodeRange { start: 0x2a, len: 1 },
        }
    }

    /// Construct a new rain widget with defaults for emoji soup.
    ///
    /// Terminals that render emojis as two characters wide will not enjoy
    /// this.
    pub fn new_emoji_soup(elapsed_micros: u64) -> (r: Rain)
        ensures
            r == (Rain {
                elapsed_micros,
                seed: 1234,
                rain_density: RainDensity::Torrential,
                rain_speed: RainSpeed::Pouring,
                rain_speed_variance: 100,
                tail_lifespan_micros: 500_000,
                color: Color::White,
                noise_interval_micros: 1_000_000,
                character_set: CharacterSet::UnicodeRange { start: 0x1f600, len: 80 },
            }),
    {
        Rain {
            elapsed_micros,
            seed: 1234,
            rain_density: RainDensity::Torrential,
            rain_speed: RainSpeed::Pouring,
            rain_speed_variance: 100,
            tail_lifespan_micros: 500_000,
            color: Color::White,
            noise_interval_micros: 1_000_000,
            character_set: CharacterSet::UnicodeRange { start: 0x1f600, len: 80 },
        }
    }

    /// Set the random seed for the generation.
    pub fn with_seed(self, seed: u64) -> (r: Rain)
        ensures
            r == (Rain { seed, ..self }),
    {
        Rain { seed, ..self }
    }

    /// Set the target density for the rain.
    pub fn with_rain_density(self, rain_density: RainDensity) -> (r: Rain)
        ensures
            r == (Rain { rain_density, ..self }),
    {
        Rain { rain_density, ..self }
    }

    /// Set the target speed for the rain.
    pub fn with_rain_speed(self, rain_speed: RainSpeed) -> (r: Rain)
        ensures
            r == (Rain { rain_speed, ..self }),
    {
        Rain { rain_speed, ..self }
    }

    /// Set the rain speed variance, in thousandths.
    ///
    /// A value of 100 means rain will be uniformly distributed within ±10%
    /// of the target speed.
    pub fn with_rain_speed_variance(self, rain_speed_variance: u64) -> (r: Rain)
        ensures
            r == (Rain { rain_speed_variance, ..self }),
    {
        Rain { rain_speed_variance, ..self }
    }

    /// Set the tail lifespan for the rain, in microseconds.
    pub fn with_tail_lifespan(self, tail_lifespan_micros: u64) -> (r: Rain)
        ensures
            r == (Rain { tail_lifespan_micros, ..self }),
    {
        Rain { tail_lifespan_micros, ..self }
    }

    /// Set the color for the rain.
    pub fn with_color(self, color: Color) -> (r: Rain)
        ensures
            r == (Rain { color, ..self }),
    {
        Rain { color, ..self }
    }

    /// Set the interval between random character changes, in microseconds.
    pub fn with_noise_interval(self, noise_interval_micros: u64) -> (r: Rain)
        ensures
            r == (Rain { noise_interval_micros, ..self }),
    {
        Rain { noise_interval_micros, ..self }
    }

    /// Set the character set for the drops.
    pub fn with_character_set(self, character_set: CharacterSet) -> (r: Rain)
        ensures
            r == (Rain { character_set, ..self }),
    {
        Rain { character_set, ..self }
    }

    /// Build the rng. Uses a fast but portable and reproducible rng.
    pub fn build_rng(&self) -> (r: SeededRng)
        ensures
            r.spec_seed() == self.seed,
            r.spec_drawn() == 0,
    {
        SeededRng::build_rng(self.seed)
    }

    /// Compute one frame: every visible glyph for this configuration at this
    /// elapsed time on a `width` by `height` surface, sorted descending by
    /// age so that a host writing the glyphs in order composites the younger,
    /// closer-to-head ones on top. The result is a pure function of the
    /// arguments: identical configuration, elapsed time and size always
    /// yield the identical glyph sequence.
    pub fn render_glyphs(&self, width: u16, height: u16) -> (r: Vec<Glyph>)
        requires
            self.wf(),
            2 * self.rain_density.spec_num_drops(width, height) <= usize::MAX,
        ensures
            r@ == spec_render(*self, width, height),
    {
        if width == 0 || height == 0 {
            let empty: Vec<Glyph> = Vec::new();
            proof {
                assert(spec_render(*self, width, height) =~= Seq::<Glyph>::empty());
            }
            return empty;
        }
        let n: usize = self.rain_density.num_drops(width, height);
        let ntot: usize = 2 * n;
        let s0: u64 = self.rain_speed.speed();
        let mut rng = self.build_rng();

        // Draw all 2n track lengths first, as draws 0 .. 2n of the sequence.
        let mut track_lens: Vec<u64> = Vec::new();
        let mut i: usize = 0;
        while i < ntot
            invariant
                i <= ntot,
                height >= 1,
                rng.spec_seed() == self.seed,
                rng.spec_drawn() == i,
                track_lens@.len() == i,
                forall|j: int|
                    0 <= j < i ==> track_lens@[j] == spec_track_len(self.seed, height, j),
            decreases ntot - i,
        {
            let e = rng.next();
            let tl: u64 = (height as u64) * 3 / 2 + e % (height as u64);
            track_lens.push(tl);
            i += 1;
        }

        // Expand each drop's entropy vector into its glyphs.
        let mut glyphs: Vec<Glyph> = Vec::new();
        let mut i: usize = 0;
        while i < ntot
            invariant
                i <= ntot,
                1 <= width,
                1 <= height,
                self.wf(),
                ntot == 2 * self.rain_density.spec_num_drops(width, height),
                s0 == self.rain_speed.spec_speed(),
                rng.spec_seed() == self.seed,
                rng.spec_drawn() == spec_entropy_start(self.seed, height, ntot as int, i as int),
                track_lens@.len() == ntot,
                forall|j: int|
                    0 <= j < ntot ==> track_lens@[j] == spec_track_len(self.seed, height, j),
                glyphs@ == spec_drops_prefix(*self, width, height, i as int),
            decreases ntot - i,
        {
            let tl: u64 = track_lens[i];
            proof {
                assert(tl == spec_track_len(self.seed, height, i as int));
                assert(pcg_stream(self.seed, i as int) as int % (height as int) < height as int);
                assert(height as int <= 3 * (height as int) / 2);
                assert(tl <= 3 * (height as int));
            }
            let ghost start = spec_entropy_start(self.seed, height, ntot as int, i as int);
            let mut e: Vec<u64> = Vec::new();
            let mut j: u64 = 0;
            while j < tl
                invariant
                    j <= tl,
                    rng.spec_seed() == self.seed,
                    rng.spec_drawn() == start + j,
                    e@.len() == j,
                    forall|m: int| 0 <= m < j ==> e@[m] == pcg_stream(self.seed, start + m),
                decreases tl - j,
            {
                let v = rng.next();
                e.push(v);
                j += 1;
            }
            proof {
                assert(e@ =~= spec_entropy(self.seed, height, ntot as int, i as int));
            }
            let mut drop_glyphs = build_drop(
                &self.character_set,
                &e,
                self.elapsed_micros,
                width,
                height,
                s0,
                self.rain_speed_variance,
                self.tail_lifespan_micros,
                self.noise_interval_micros,
                self.color,
            );
            glyphs.append(&mut drop_glyphs);
            proof {
                assert(spec_entropy_start(self.seed, height, ntot as int, i as int + 1) == start
                    + tl);
                assert(glyphs@ == spec_drops_prefix(*self, width, height, i as int + 1));
            }
            i += 1;
        }

        // Sort the glyphs oldest first so drop heads always render on top.
        sort_oldest_first(glyphs)
    }
}

} // verus!
