//! The engine's laws: frame-level guarantees proved once, for every
//! configuration, elapsed time and surface size.

use vstd::prelude::*;

use crate::drops::lemma_drop_glyphs_props;
use crate::glyph::{lemma_sort_contains, lemma_sort_sorted, spec_sorted_oldest_first, Glyph};
use crate::params::{RainDensity, RainSpeed, SPEED_EPSILON, SPEED_MAX, VARIANCE_SCALE};
use crate::rain::{
    spec_drops_prefix, spec_entropy, spec_frame, spec_render, spec_track_len, Rain,
};
use crate::rng::pcg_stream;
use crate::TIME_SPEED_SCALE;

verus! {

/// Every glyph of a frame keeps the engine's invariants.
proof fn lemma_frame_glyph_props(rain: Rain, width: u16, height: u16, n: int, g: Glyph)
    requires
        rain.wf(),
        1 <= width,
        1 <= height,
        0 <= n,
        spec_drops_prefix(rain, width, height, n).contains(g),
    ensures
        1 <= g.cycle,
        g.x < width,
        g.y < height,
        g.age_rows * (TIME_SPEED_SCALE as int) <= rain.elapsed_micros * g.speed,
        SPEED_EPSILON <= g.speed,
    decreases n,
{
    if n <= 0 {
    } else {
        let ntot = 2 * rain.rain_density.spec_num_drops(width, height);
        let a = spec_drops_prefix(rain, width, height, n - 1);
        let e = spec_entropy(rain.seed, height, ntot, n - 1);
        let b = crate::drops::spec_drop_glyphs(
            rain.character_set,
            e,
            rain.elapsed_micros,
            width,
            height,
            rain.rain_speed.spec_speed() as u64,
            rain.rain_speed_variance,
            rain.tail_lifespan_micros,
            rain.noise_interval_micros,
            rain.color,
        );
        let i = choose|i: int| 0 <= i < (a + b).len() && (a + b)[i] == g;
        if i < a.len() {
            assert(a[i] == g);
            assert(a.contains(g));
            lemma_frame_glyph_props(rain, width, height, n - 1, g);
        } else {
            assert(b[i - a.len()] == g);
            assert(b.contains(g));
            assert(e.len() == spec_track_len(rain.seed, height, n - 1));
            assert(0 <= pcg_stream(rain.seed, n - 1) as int % (height as int) < height as int);
            assert(height as int <= e.len() <= 3 * (height as int));
            assert(rain.rain_speed.spec_speed() as u64 <= SPEED_MAX);
            lemma_drop_glyphs_props(
                rain.character_set,
                e,
                rain.elapsed_micros,
                width,
                height,
                rain.rain_speed.spec_speed() as u64,
                rain.rain_speed_variance,
                rain.tail_lifespan_micros,
                rain.noise_interval_micros,
                rain.color,
                g,
            );
        }
    }
}

/// Every glyph of a rendered frame keeps the engine's invariants.
proof fn lemma_render_glyph_props(rain: Rain, width: u16, height: u16, g: Glyph)
    requires
        rain.wf(),
        spec_render(rain, width, height).contains(g),
    ensures
        1 <= g.cycle,
        g.x < width,
        g.y < height,
        g.age_rows * (TIME_SPEED_SCALE as int) <= rain.elapsed_micros * g.speed,
        SPEED_EPSILON <= g.speed,
{
    lemma_sort_contains(spec_frame(rain, width, height), g);
    if width == 0 || height == 0 {
    } else {
        lemma_frame_glyph_props(
            rain,
            width,
            height,
            2 * rain.rain_density.spec_num_drops(width, height),
            g,
        );
    }
}

/// Determinism: a frame is a pure function of the configuration (seed
/// included), the elapsed time and the surface size — nothing else. Two
/// renders of equal inputs yield the identical glyph sequence, and a call
/// cannot depend on any earlier call's surface size.
pub proof fn lemma_determinism(rain1: Rain, rain2: Rain, width: u16, height: u16)
    requires
        rain1 == rain2,
    ensures
        spec_render(rain1, width, height) == spec_render(rain2, width, height),
{
}

/// Continuity: within one cycle — no modulo boundary between `t1` and `t2` —
/// the head row moves monotonically, and by the elapsed time times the speed
/// to within one row of rounding. It jumps only at cycle boundaries.
pub proof fn lemma_head_row_continuity(t1: u64, t2: u64, phase: int, cycle: int, speed: int)
    requires
        0 <= phase,
        1 <= cycle,
        1 <= speed,
        t1 <= t2,
        (t1 + phase) / cycle == (t2 + phase) / cycle,
    ensures
        crate::drops::spec_head_row(t1, phase, cycle, speed) <= crate::drops::spec_head_row(
            t2,
            phase,
            cycle,
            speed,
        ),
        (crate::drops::spec_head_row(t2, phase, cycle, speed) - crate::drops::spec_head_row(
            t1,
            phase,
            cycle,
            speed,
        )) * (TIME_SPEED_SCALE as int) <= (t2 - t1) * speed + (TIME_SPEED_SCALE as int),
        (crate::drops::spec_head_row(t2, phase, cycle, speed) - crate::drops::spec_head_row(
            t1,
            phase,
            cycle,
            speed,
        )) * (TIME_SPEED_SCALE as int) >= (t2 - t1) * speed - (TIME_SPEED_SCALE as int),
{
    let scale = TIME_SPEED_SCALE as int;
    let o1 = (t1 + phase) % cycle;
    let o2 = (t2 + phase) % cycle;
    vstd::arithmetic::div_mod::lemma_fundamental_div_mod(t1 + phase, cycle);
    vstd::arithmetic::div_mod::lemma_fundamental_div_mod(t2 + phase, cycle);
    assert(o2 - o1 == t2 - t1);
    let h1 = o1 * speed / scale;
    let h2 = o2 * speed / scale;
    assert(o1 * speed <= o2 * speed) by (nonlinear_arith)
        requires
            o1 <= o2,
            speed >= 0,
    ;
    vstd::arithmetic::div_mod::lemma_div_is_ordered(o1 * speed, o2 * speed, scale);
    vstd::arithmetic::div_mod::lemma_fundamental_div_mod(o1 * speed, scale);
    vstd::arithmetic::div_mod::lemma_fundamental_div_mod(o2 * speed, scale);
    assert((o2 - o1) * speed == o2 * speed - o1 * speed) by (nonlinear_arith);
    assert((h2 - h1) * scale == h2 * scale - h1 * scale) by (nonlinear_arith);
    assert(0 <= (o1 * speed) % scale < scale);
    assert(0 <= (o2 * speed) % scale < scale);
}

/// Continuity for a fixed drop: between two times with no cycle boundary of
/// the drop with entropy `e` in between, the head row moves monotonically
/// and at the drop's own speed, to within one row of rounding.
pub proof fn lemma_drop_head_continuity(e: Seq<u64>, t1: u64, t2: u64, speed: u64, variance: u64)
    requires
        1 <= e.len(),
        t1 <= t2,
        speed <= SPEED_MAX,
        variance <= VARIANCE_SCALE,
        ({
            let s = crate::drops::spec_drop_speed(e[0], speed as int, variance as int);
            let cycle = crate::drops::spec_cycle_micros(e.len() as int, s);
            let phase = crate::drops::spec_phase_micros(e[0], cycle);
            (t1 + phase) / cycle == (t2 + phase) / cycle
        }),
    ensures
        ({
            let s = crate::drops::spec_drop_speed(e[0], speed as int, variance as int);
            let cycle = crate::drops::spec_cycle_micros(e.len() as int, s);
            let phase = crate::drops::spec_phase_micros(e[0], cycle);
            let h1 = crate::drops::spec_head_row(t1, phase, cycle, s);
            let h2 = crate::drops::spec_head_row(t2, phase, cycle, s);
            h1 <= h2 && (h2 - h1) * (TIME_SPEED_SCALE as int) <= (t2 - t1) * s + (
            TIME_SPEED_SCALE as int) && (h2 - h1) * (TIME_SPEED_SCALE as int) >= (t2 - t1) * s
                - (TIME_SPEED_SCALE as int)
        }),
{
    let s = crate::drops::spec_drop_speed(e[0], speed as int, variance as int);
    let cycle = crate::drops::spec_cycle_micros(e.len() as int, s);
    let phase = crate::drops::spec_phase_micros(e[0], cycle);
    crate::drops::lemma_drop_speed_bounds(e[0], speed as int, variance as int);
    crate::lemma_uniform_bounds(e[0], 0, cycle);
    lemma_head_row_continuity(t1, t2, phase, cycle, s);
}

/// No premature spawn: no glyph of a rendered frame has cycle number 0, so
/// a drop never appears to spawn mid-screen on its first pass.
pub proof fn lemma_no_premature_spawn(rain: Rain, width: u16, height: u16, g: Glyph)
    requires
        rain.wf(),
        spec_render(rain, width, height).contains(g),
    ensures
        1 <= g.cycle,
{
    lemma_render_glyph_props(rain, width, height, g);
}

/// No future glyphs: every glyph's age, `age_rows / speed` seconds, is at
/// most the elapsed time.
pub proof fn lemma_no_future_glyphs(rain: Rain, width: u16, height: u16, g: Glyph)
    requires
        rain.wf(),
        spec_render(rain, width, height).contains(g),
    ensures
        g.age_rows * (TIME_SPEED_SCALE as int) <= rain.elapsed_micros * g.speed,
        SPEED_EPSILON <= g.speed,
{
    lemma_render_glyph_props(rain, width, height, g);
}

/// Bounds safety: every glyph of a rendered frame lies on the surface.
pub proof fn lemma_bounds_safety(rain: Rain, width: u16, height: u16, g: Glyph)
    requires
        rain.wf(),
        spec_render(rain, width, height).contains(g),
    ensures
        g.x < width,
        g.y < height,
{
    lemma_render_glyph_props(rain, width, height, g);
}

/// A rendered frame is ordered oldest to youngest, so that when two glyphs
/// collide on one cell the younger, closer-to-head one is written last and
/// composites on top.
pub proof fn lemma_render_sorted(rain: Rain, width: u16, height: u16)
    requires
        rain.wf(),
    ensures
        spec_sorted_oldest_first(spec_render(rain, width, height)),
{
    let frame = spec_frame(rain, width, height);
    if width == 0 || height == 0 {
        lemma_sort_sorted(frame);
    } else {
        assert forall|i: int| 0 <= i < frame.len() implies frame[i].speed > 0 by {
            assert(frame.contains(frame[i]));
            lemma_frame_glyph_props(
                rain,
                width,
                height,
                2 * rain.rain_density.spec_num_drops(width, height),
                frame[i],
            );
        }
        lemma_sort_sorted(frame);
    }
}

/// At elapsed time zero no drop has glyphs yet.
proof fn lemma_prefix_empty_at_zero(rain: Rain, width: u16, height: u16, n: int)
    requires
        rain.wf(),
        rain.elapsed_micros == 0,
    ensures
        spec_drops_prefix(rain, width, height, n) == Seq::<Glyph>::empty(),
    decreases n,
{
    if n <= 0 {
    } else {
        let ntot = 2 * rain.rain_density.spec_num_drops(width, height);
        lemma_prefix_empty_at_zero(rain, width, height, n - 1);
        crate::drops::lemma_drop_glyphs_empty_at_zero(
            rain.character_set,
            spec_entropy(rain.seed, height, ntot, n - 1),
            width,
            height,
            rain.rain_speed.spec_speed() as u64,
            rain.rain_speed_variance,
            rain.tail_lifespan_micros,
            rain.noise_interval_micros,
            rain.color,
        );
        assert(spec_drops_prefix(rain, width, height, n) =~= Seq::<Glyph>::empty());
    }
}

/// At elapsed time zero the frame is empty: every would-be glyph still
/// belongs to lap 0 of its drop, which the engine suppresses so that drops
/// never appear to spawn mid-screen.
pub proof fn lemma_time_zero_empty(rain: Rain, width: u16, height: u16)
    requires
        rain.wf(),
        rain.elapsed_micros == 0,
    ensures
        spec_render(rain, width, height) == Seq::<Glyph>::empty(),
{
    if width == 0 || height == 0 {
        assert(spec_render(rain, width, height) =~= Seq::<Glyph>::empty());
    } else {
        lemma_prefix_empty_at_zero(
            rain,
            width,
            height,
            2 * rain.rain_density.spec_num_drops(width, height),
        );
        assert(spec_render(rain, width, height) =~= Seq::<Glyph>::empty());
    }
}

/// Density scaling: a relative density with positive sparseness resolves to
/// exactly `floor(width * height / sparseness)` drops.
pub proof fn lemma_density_scaling(sparseness: usize, width: u16, height: u16)
    requires
        sparseness > 0,
    ensures
        (RainDensity::Relative { sparseness }).spec_num_drops(width, height) == (width as int)
            * (height as int) / (sparseness as int),
{
}

/// Density scaling, degenerate case: sparseness 0 resolves to no drops, so
/// the frame is empty at every elapsed time and surface size.
pub proof fn lemma_sparseness_zero(rain: Rain, width: u16, height: u16)
    requires
        rain.rain_density == (RainDensity::Relative { sparseness: 0usize }),
    ensures
        spec_render(rain, width, height) == Seq::<Glyph>::empty(),
{
    assert(rain.rain_density.spec_num_drops(width, height) == 0);
    assert(spec_frame(rain, width, height) =~= Seq::<Glyph>::empty());
    assert(spec_render(rain, width, height) =~= Seq::<Glyph>::empty());
}

/// Config resolution is idempotent: resolving a symbolic density or speed is
/// a pure function of the symbol, so resolving twice yields identical
/// absolute parameters.
pub proof fn lemma_resolution_idempotent(
    density: RainDensity,
    speed: RainSpeed,
    width: u16,
    height: u16,
)
    ensures
        density.spec_num_drops(width, height) == density.spec_num_drops(width, height),
        speed.spec_speed() == speed.spec_speed(),
{
}

} // verus!
