//! The per-drop closed-form engine.
//!
//! A drop is defined by nothing but its entropy vector: every quantity below
//! — speed, cycle period, phase, head row, trail — is a pure function of
//! that vector and the elapsed time, so a drop needs no state carried from
//! frame to frame.

use vstd::prelude::*;

use crate::charset::CharacterSet;
use crate::glyph::{Color, Emphasis, Glyph};
use crate::params::{DURATION_MAX, ELAPSED_MAX, SPEED_EPSILON, SPEED_MAX, VARIANCE_SCALE};
use crate::{spec_uniform, uniform, TIME_SPEED_SCALE};

verus! {

/// The per-drop speed in micro-rows per second: drawn uniformly between
/// `speed` widened down and up by `variance` thousandths, then floored at
/// [`SPEED_EPSILON`] so every cycle period stays finite.
pub open spec fn spec_drop_speed(e0: u64, speed: int, variance: int) -> int {
    let lower = speed * (VARIANCE_SCALE - variance) / (VARIANCE_SCALE as int);
    let upper = speed * (VARIANCE_SCALE + variance) / (VARIANCE_SCALE as int);
    let raw = spec_uniform(e0, lower, upper);
    if raw < SPEED_EPSILON {
        SPEED_EPSILON as int
    } else {
        raw
    }
}

/// How long one full traversal of the track takes, in microseconds, floored
/// at one microsecond.
pub open spec fn spec_cycle_micros(track_len: int, speed: int) -> int {
    let raw = track_len * (TIME_SPEED_SCALE as int) / speed;
    if raw < 1 {
        1
    } else {
        raw
    }
}

/// A stable random time offset into the cycle, decorrelating drop starts.
pub open spec fn spec_phase_micros(e0: u64, cycle: int) -> int {
    spec_uniform(e0, 0, cycle)
}

/// The head's row at elapsed time `t`: how far into the current cycle the
/// drop is, times its speed — solved directly from the elapsed time, with no
/// integration.
pub open spec fn spec_head_row(t: u64, phase: int, cycle: int, speed: int) -> int {
    ((t + phase) % cycle) * speed / (TIME_SPEED_SCALE as int)
}

/// How many rows of trail the drop shows, capped at the surface height to
/// avoid self-overlap.
pub open spec fn spec_drop_len(speed: int, tail_micros: u64, height: u16) -> int {
    let raw = speed * tail_micros / (TIME_SPEED_SCALE as int);
    if raw > height {
        height as int
    } else {
        raw
    }
}

/// Which lap of the track the glyph `k` rows behind the head belongs to:
/// the lap in progress `age = k / speed` seconds ago, computed exactly as
/// `floor((t + phase - age) / cycle)` over a common denominator.
pub open spec fn spec_cycle_num(t: u64, phase: int, cycle: int, speed: int, k: int) -> int {
    ((t + phase) * speed - k * (TIME_SPEED_SCALE as int)) / (cycle * speed)
}

/// The glyph `k` rows behind the head of the drop with entropy `e`, if it is
/// visible: suppressed when it would predate the start of rendering, when it
/// belongs to lap 0 (a drop must not appear to spawn mid-screen), or when its
/// row is off the surface.
pub open spec fn spec_glyph_at(
    cs: CharacterSet,
    e: Seq<u64>,
    t: u64,
    width: u16,
    height: u16,
    speed: u64,
    variance: u64,
    tail_micros: u64,
    noise_micros: u64,
    color: Color,
    k: int,
) -> Option<Glyph> {
    let track_len = e.len() as int;
    let s = spec_drop_speed(e[0], speed as int, variance as int);
    let cycle = spec_cycle_micros(track_len, s);
    let phase = spec_phase_micros(e[0], cycle);
    let dlen = spec_drop_len(s, tail_micros, height);
    if k * (TIME_SPEED_SCALE as int) > t * s {
        None
    } else {
        let cn = spec_cycle_num(t, phase, cycle, s, k);
        if cn == 0 {
            None
        } else {
            let head = spec_head_row(t, phase, cycle, s);
            let y = (head + track_len - k) % track_len;
            if y >= height {
                None
            } else {
                let size = cs.spec_size();
                let toff = spec_uniform(e[y], 0, noise_micros * size);
                let idx = (toff + t) / (noise_micros as int);
                Some(
                    Glyph {
                        x: (e[cn % track_len] as int % (width as int)) as u16,
                        y: y as u16,
                        age_rows: k as u16,
                        speed: s as u64,
                        cycle: cn as u64,
                        content: cs.spec_get((idx % size) as u32),
                        color: if k == 0 {
                            Color::White
                        } else {
                            color
                        },
                        emphasis: if k < dlen / 3 {
                            Emphasis::Bold
                        } else if k > dlen * 2 / 3 {
                            Emphasis::Dim
                        } else {
                            Emphasis::Plain
                        },
                    },
                )
            }
        }
    }
}

/// The visible glyphs among the first `n` trail offsets, in offset order.
pub open spec fn spec_drop_glyphs_up_to(
    cs: CharacterSet,
    e: Seq<u64>,
    t: u64,
    width: u16,
    height: u16,
    speed: u64,
    variance: u64,
    tail_micros: u64,
    noise_micros: u64,
    color: Color,
    n: int,
) -> Seq<Glyph>
    decreases n,
{
    if n <= 0 {
        Seq::empty()
    } else {
        let prefix = spec_drop_glyphs_up_to(
            cs,
            e,
            t,
            width,
            height,
            speed,
            variance,
            tail_micros,
            noise_micros,
            color,
            n - 1,
        );
        match spec_glyph_at(
            cs,
            e,
            t,
            width,
            height,
            speed,
            variance,
            tail_micros,
            noise_micros,
            color,
            n - 1,
        ) {
            Some(g) => prefix.push(g),
            None => prefix,
        }
    }
}

/// Every glyph of the drop with entropy `e` at elapsed time `t`. An empty
/// entropy vector, or a zero-width surface (on which no column exists),
/// yields no glyphs.
pub open spec fn spec_drop_glyphs(
    cs: CharacterSet,
    e: Seq<u64>,
    t: u64,
    width: u16,
    height: u16,
    speed: u64,
    variance: u64,
    tail_micros: u64,
    noise_micros: u64,
    color: Color,
) -> Seq<Glyph> {
    if e.len() == 0 || width == 0 {
        Seq::empty()
    } else {
        let s = spec_drop_speed(e[0], speed as int, variance as int);
        spec_drop_glyphs_up_to(
            cs,
            e,
            t,
            width,
            height,
            speed,
            variance,
            tail_micros,
            noise_micros,
            color,
            spec_drop_len(s, tail_micros, height),
        )
    }
}

/// The head row never reaches the track length.
proof fn lemma_head_lt_track(cur: int, cycle: int, track_len: int, s: int)
    requires
        1 <= s,
        1 <= track_len,
        cycle == spec_cycle_micros(track_len, s),
        0 <= cur < cycle,
    ensures
        cur * s / (TIME_SPEED_SCALE as int) < track_len,
{
    let scale = TIME_SPEED_SCALE as int;
    let raw = track_len * scale / s;
    if raw < 1 {
        assert(cycle == 1);
        assert(cur == 0);
        assert(0 * s == 0) by (nonlinear_arith);
        assert(cur * s / scale == 0);
    } else {
        assert(cycle == raw);
        vstd::arithmetic::div_mod::lemma_fundamental_div_mod(track_len * scale, s);
        assert(s * raw <= track_len * scale);
        assert(cur * s <= (cycle - 1) * s) by (nonlinear_arith)
            requires
                cur <= cycle - 1,
                s >= 1,
        ;
        assert((cycle - 1) * s == cycle * s - s) by (nonlinear_arith);
        assert(cycle * s == s * raw) by (nonlinear_arith)
            requires
                cycle == raw,
        ;
        assert(cur * s < track_len * scale);
        assert(track_len * scale == scale * track_len) by (nonlinear_arith);
        vstd::arithmetic::div_mod::lemma_multiply_divide_lt(cur * s, scale, track_len);
    }
}

/// The lap number fits under the elapsed-time cap.
proof fn lemma_cycle_num_bounded(num: int, den: int, cycle: int, s: int, total: int)
    requires
        1 <= s,
        1 <= cycle,
        den == cycle * s,
        0 <= num <= total * s,
        0 <= total,
    ensures
        num / den <= total,
{
    let cn = num / den;
    assert(den >= 1) by (nonlinear_arith)
        requires
            cycle >= 1,
            s >= 1,
            den == cycle * s,
    ;
    vstd::arithmetic::div_mod::lemma_fundamental_div_mod(num, den);
    assert(cn >= 0) by {
        vstd::arithmetic::div_mod::lemma_div_pos_is_pos(num, den);
    }
    assert(den * cn <= num);
    assert(cn * (cycle * s) <= total * s);
    assert(cn * cycle <= total) by (nonlinear_arith)
        requires
            cn >= 0,
            cycle >= 1,
            s >= 1,
            total >= 0,
            cn * (cycle * s) <= total * s,
    ;
    assert(cn <= cn * cycle) by (nonlinear_arith)
        requires
            cn >= 0,
            cycle >= 1,
    ;
}

/// A per-drop speed always lies between the epsilon floor and twice the
/// largest admitted target speed.
pub proof fn lemma_drop_speed_bounds(e0: u64, speed: int, variance: int)
    requires
        0 <= speed <= SPEED_MAX,
        0 <= variance <= VARIANCE_SCALE,
    ensures
        SPEED_EPSILON <= spec_drop_speed(e0, speed, variance) <= 2_000_000_000_000,
{
    let lower = speed * (VARIANCE_SCALE - variance) / (VARIANCE_SCALE as int);
    let upper = speed * (VARIANCE_SCALE + variance) / (VARIANCE_SCALE as int);
    assert(speed * (VARIANCE_SCALE - variance) >= 0) by (nonlinear_arith)
        requires
            speed >= 0,
            variance <= VARIANCE_SCALE,
    ;
    assert(speed * (VARIANCE_SCALE - variance) <= speed * (VARIANCE_SCALE + variance))
        by (nonlinear_arith)
        requires
            speed >= 0,
            0 <= variance,
    ;
    assert(speed * (VARIANCE_SCALE + variance) <= speed * 2000) by (nonlinear_arith)
        requires
            speed >= 0,
            variance <= VARIANCE_SCALE,
    ;
    vstd::arithmetic::div_mod::lemma_div_pos_is_pos(
        speed * (VARIANCE_SCALE - variance),
        VARIANCE_SCALE as int,
    );
    vstd::arithmetic::div_mod::lemma_div_is_ordered(
        speed * (VARIANCE_SCALE - variance),
        speed * (VARIANCE_SCALE + variance),
        VARIANCE_SCALE as int,
    );
    vstd::arithmetic::div_mod::lemma_div_is_ordered(
        speed * (VARIANCE_SCALE + variance),
        speed * 2000,
        VARIANCE_SCALE as int,
    );
    assert(speed * 2000 / 1000 == 2 * speed) by (nonlinear_arith);
    crate::lemma_uniform_bounds(e0, lower, upper);
}

/// A cycle period lies between one microsecond and the longest track's
/// traversal at the slowest speed.
pub proof fn lemma_cycle_bounds(track_len: int, s: int)
    requires
        1 <= s,
        1 <= track_len <= 196_605,
    ensures
        1 <= spec_cycle_micros(track_len, s) <= 196_605_000_000_000_000,
{
    let scale = TIME_SPEED_SCALE as int;
    assert(track_len * scale <= 196_605_000_000_000_000) by (nonlinear_arith)
        requires
            track_len <= 196_605,
            scale == 1_000_000_000_000,
    ;
    assert(track_len * scale >= 0) by (nonlinear_arith)
        requires
            track_len >= 0,
            scale >= 0,
    ;
    vstd::arithmetic::div_mod::lemma_div_is_ordered(
        track_len * scale,
        196_605_000_000_000_000,
        s,
    );
    vstd::arithmetic::div_mod::lemma_div_nonincreasing(196_605_000_000_000_000, s);
    vstd::arithmetic::div_mod::lemma_div_pos_is_pos(track_len * scale, s);
}

/// Every visible glyph of a drop keeps the engine's invariants: it belongs
/// to a lap past the first, it lies on the surface, and it is no older than
/// the elapsed time.
pub(crate) proof fn lemma_glyph_at_props(
    cs: CharacterSet,
    e: Seq<u64>,
    t: u64,
    width: u16,
    height: u16,
    speed: u64,
    variance: u64,
    tail_micros: u64,
    noise_micros: u64,
    color: Color,
    k: int,
    g: Glyph,
)
    requires
        1 <= width,
        1 <= height,
        t <= ELAPSED_MAX,
        speed <= SPEED_MAX,
        variance <= VARIANCE_SCALE,
        1 <= e.len() <= 3 * (height as int),
        0 <= k <= height,
        spec_glyph_at(cs, e, t, width, height, speed, variance, tail_micros, noise_micros,
            color, k) == Some(g),
    ensures
        1 <= g.cycle,
        g.x < width,
        g.y < height,
        g.age_rows == k,
        g.age_rows * (TIME_SPEED_SCALE as int) <= t * g.speed,
        SPEED_EPSILON <= g.speed <= 2_000_000_000_000,
{
    let scale = TIME_SPEED_SCALE as int;
    let track_len = e.len() as int;
    let s = spec_drop_speed(e[0], speed as int, variance as int);
    let cycle = spec_cycle_micros(track_len, s);
    let phase = spec_phase_micros(e[0], cycle);
    lemma_drop_speed_bounds(e[0], speed as int, variance as int);
    lemma_cycle_bounds(track_len, s);
    crate::lemma_uniform_bounds(e[0], 0, cycle);
    assert(!(k * scale > t * s));
    let cn = spec_cycle_num(t, phase, cycle, s, k);
    assert((t + phase) * s >= t * s) by (nonlinear_arith)
        requires
            phase >= 0,
            s >= 0,
            t >= 0,
    ;
    assert(cycle * s >= 1) by (nonlinear_arith)
        requires
            cycle >= 1,
            s >= 1,
    ;
    vstd::arithmetic::div_mod::lemma_div_pos_is_pos((t + phase) * s - k * scale, cycle * s);
    assert(k * scale >= 0) by (nonlinear_arith)
        requires
            k >= 0,
            scale >= 0,
    ;
    lemma_cycle_num_bounded(
        (t + phase) * s - k * scale,
        cycle * s,
        cycle,
        s,
        t + phase,
    );
    assert(cn != 0);
    assert(1 <= cn <= t + phase);
    lemma_head_lt_track((t + phase) % cycle, cycle, track_len, s);
    assert(g.cycle == cn as u64);
    assert(g.age_rows == k as u16);
    assert(g.speed == s as u64);
    assert(g.age_rows * scale <= t * g.speed);
}

/// Every glyph of a drop keeps the engine's invariants.
pub(crate) proof fn lemma_drop_glyphs_up_to_props(
    cs: CharacterSet,
    e: Seq<u64>,
    t: u64,
    width: u16,
    height: u16,
    speed: u64,
    variance: u64,
    tail_micros: u64,
    noise_micros: u64,
    color: Color,
    n: int,
    g: Glyph,
)
    requires
        1 <= width,
        1 <= height,
        t <= ELAPSED_MAX,
        speed <= SPEED_MAX,
        variance <= VARIANCE_SCALE,
        1 <= e.len() <= 3 * (height as int),
        0 <= n <= height,
        spec_drop_glyphs_up_to(cs, e, t, width, height, speed, variance, tail_micros,
            noise_micros, color, n).contains(g),
    ensures
        1 <= g.cycle,
        g.x < width,
        g.y < height,
        g.age_rows * (TIME_SPEED_SCALE as int) <= t * g.speed,
        SPEED_EPSILON <= g.speed <= 2_000_000_000_000,
    decreases n,
{
    broadcast use vstd::seq_lib::group_seq_properties;

    if n <= 0 {
    } else {
        let prefix = spec_drop_glyphs_up_to(
            cs,
            e,
            t,
            width,
            height,
            speed,
            variance,
            tail_micros,
            noise_micros,
            color,
            n - 1,
        );
        match spec_glyph_at(cs, e, t, width, height, speed, variance, tail_micros,
            noise_micros, color, n - 1) {
            Some(gg) => {
                if g == gg {
                    lemma_glyph_at_props(
                        cs,
                        e,
                        t,
                        width,
                        height,
                        speed,
                        variance,
                        tail_micros,
                        noise_micros,
                        color,
                        n - 1,
                        g,
                    );
                } else {
                    assert(prefix.contains(g)) by {
                        let i = choose|i: int|
                            0 <= i < prefix.push(gg).len() && prefix.push(gg)[i] == g;
                        assert(prefix[i] == g);
                    }
                    lemma_drop_glyphs_up_to_props(
                        cs,
                        e,
                        t,
                        width,
                        height,
                        speed,
                        variance,
                        tail_micros,
                        noise_micros,
                        color,
                        n - 1,
                        g,
                    );
                }
            },
            None => {
                lemma_drop_glyphs_up_to_props(
                    cs,
                    e,
                    t,
                    width,
                    height,
                    speed,
                    variance,
                    tail_micros,
                    noise_micros,
                    color,
                    n - 1,
                    g,
                );
            },
        }
    }
}

/// Every glyph a drop yields keeps the engine's invariants: lap at least 1,
/// position on the surface, age at most the elapsed time, speed between the
/// epsilon floor and twice the largest target.
pub proof fn lemma_drop_glyphs_props(
    cs: CharacterSet,
    e: Seq<u64>,
    t: u64,
    width: u16,
    height: u16,
    speed: u64,
    variance: u64,
    tail_micros: u64,
    noise_micros: u64,
    color: Color,
    g: Glyph,
)
    requires
        1 <= height,
        t <= ELAPSED_MAX,
        speed <= SPEED_MAX,
        variance <= VARIANCE_SCALE,
        e.len() == 0 || (height <= e.len() && e.len() <= 3 * (height as int)),
        spec_drop_glyphs(cs, e, t, width, height, speed, variance, tail_micros, noise_micros,
            color).contains(g),
    ensures
        1 <= g.cycle,
        g.x < width,
        g.y < height,
        g.age_rows * (TIME_SPEED_SCALE as int) <= t * g.speed,
        SPEED_EPSILON <= g.speed <= 2_000_000_000_000,
{
    if e.len() == 0 || width == 0 {
    } else {
        let s = spec_drop_speed(e[0], speed as int, variance as int);
        let dlen = spec_drop_len(s, tail_micros, height);
        lemma_drop_speed_bounds(e[0], speed as int, variance as int);
        assert(s * tail_micros >= 0) by (nonlinear_arith)
            requires
                s >= 0,
                tail_micros >= 0,
        ;
        vstd::arithmetic::div_mod::lemma_div_pos_is_pos(
            s * tail_micros,
            TIME_SPEED_SCALE as int,
        );
        lemma_drop_glyphs_up_to_props(
            cs,
            e,
            t,
            width,
            height,
            speed,
            variance,
            tail_micros,
            noise_micros,
            color,
            dlen,
            g,
        );
    }
}

/// At elapsed time zero no offset of a drop is visible: the head still
/// belongs to lap 0, which is suppressed, and everything behind the head
/// would predate the start of rendering.
proof fn lemma_glyph_at_zero_none(
    cs: CharacterSet,
    e: Seq<u64>,
    width: u16,
    height: u16,
    speed: u64,
    variance: u64,
    tail_micros: u64,
    noise_micros: u64,
    color: Color,
    k: int,
)
    requires
        speed <= SPEED_MAX,
        variance <= VARIANCE_SCALE,
        1 <= e.len(),
        0 <= k,
    ensures
        spec_glyph_at(cs, e, 0, width, height, speed, variance, tail_micros, noise_micros,
            color, k) is None,
{
    let scale = TIME_SPEED_SCALE as int;
    let track_len = e.len() as int;
    let s = spec_drop_speed(e[0], speed as int, variance as int);
    lemma_drop_speed_bounds(e[0], speed as int, variance as int);
    if k >= 1 {
        assert(k * scale >= scale) by (nonlinear_arith)
            requires
                k >= 1,
                scale >= 1,
        ;
        assert(0 * s == 0) by (nonlinear_arith);
    } else {
        let cycle = spec_cycle_micros(track_len, s);
        let phase = spec_phase_micros(e[0], cycle);
        assert(cycle >= 1);
        crate::lemma_uniform_bounds(e[0], 0, cycle);
        assert(phase < cycle);
        assert(0 * s == 0) by (nonlinear_arith);
        assert(0 * scale == 0) by (nonlinear_arith);
        assert((0 + phase) * s == phase * s);
        assert(0 <= phase * s < cycle * s) by (nonlinear_arith)
            requires
                0 <= phase < cycle,
                s >= 1,
        ;
        vstd::arithmetic::div_mod::lemma_basic_div(phase * s, cycle * s);
        assert(spec_cycle_num(0, phase, cycle, s, 0) == 0);
    }
}

/// At elapsed time zero no prefix of a drop's trail yields a glyph.
proof fn lemma_up_to_empty_at_zero(
    cs: CharacterSet,
    e: Seq<u64>,
    width: u16,
    height: u16,
    speed: u64,
    variance: u64,
    tail_micros: u64,
    noise_micros: u64,
    color: Color,
    n: int,
)
    requires
        speed <= SPEED_MAX,
        variance <= VARIANCE_SCALE,
        1 <= e.len(),
    ensures
        spec_drop_glyphs_up_to(cs, e, 0, width, height, speed, variance, tail_micros,
            noise_micros, color, n) == Seq::<Glyph>::empty(),
    decreases n,
{
    if n <= 0 {
    } else {
        lemma_up_to_empty_at_zero(
            cs,
            e,
            width,
            height,
            speed,
            variance,
            tail_micros,
            noise_micros,
            color,
            n - 1,
        );
        lemma_glyph_at_zero_none(
            cs,
            e,
            width,
            height,
            speed,
            variance,
            tail_micros,
            noise_micros,
            color,
            n - 1,
        );
    }
}

/// At elapsed time zero a drop shows nothing at all.
pub proof fn lemma_drop_glyphs_empty_at_zero(
    cs: CharacterSet,
    e: Seq<u64>,
    width: u16,
    height: u16,
    speed: u64,
    variance: u64,
    tail_micros: u64,
    noise_micros: u64,
    color: Color,
)
    requires
        speed <= SPEED_MAX,
        variance <= VARIANCE_SCALE,
    ensures
        spec_drop_glyphs(cs, e, 0, width, height, speed, variance, tail_micros, noise_micros,
            color) == Seq::<Glyph>::empty(),
{
    if e.len() == 0 || width == 0 {
    } else {
        let s = spec_drop_speed(e[0], speed as int, variance as int);
        lemma_up_to_empty_at_zero(
            cs,
            e,
            width,
            height,
            speed,
            variance,
            tail_micros,
            noise_micros,
            color,
            spec_drop_len(s, tail_micros, height),
        );
    }
}

/// Build a drop from the given consistent initial entropy state.
///
/// The entropy vector's length becomes the drop's track length, so it must
/// be at least the surface height (or empty, which yields no glyphs, as does
/// a zero-width surface).
pub(crate) fn build_drop(
    character_set: &CharacterSet,
    entropy: &Vec<u64>,
    elapsed_micros: u64,
    width: u16,
    height: u16,
    rain_speed: u64,
    rain_speed_variance: u64,
    tail_lifespan_micros: u64,
    noise_interval_micros: u64,
    color: Color,
) -> (r: Vec<Glyph>)
    requires
        1 <= height,
        elapsed_micros <= ELAPSED_MAX,
        rain_speed <= SPEED_MAX,
        rain_speed_variance <= VARIANCE_SCALE,
        tail_lifespan_micros <= DURATION_MAX,
        1 <= noise_interval_micros <= DURATION_MAX,
        character_set.wf(),
        entropy@.len() == 0 || (height <= entropy@.len() && entropy@.len() <= 3 * (height as int)),
    ensures
        r@ == spec_drop_glyphs(
            *character_set,
            entropy@,
            elapsed_micros,
            width,
            height,
            rain_speed,
            rain_speed_variance,
            tail_lifespan_micros,
            noise_interval_micros,
            color,
        ),
{
    let ghost e = entropy@;
    if entropy.len() == 0 || width == 0 {
        let empty: Vec<Glyph> = Vec::new();
        return empty;
    }
    let track_len: usize = entropy.len();
    let e0: u64 = entropy[0];

    // Per-drop speed, from the drop's first entropy word.
    proof {
        assert(rain_speed * (VARIANCE_SCALE - rain_speed_variance) <= 2_000_000_000_000_000)
            by (nonlinear_arith)
            requires
                rain_speed <= SPEED_MAX,
                rain_speed_variance <= VARIANCE_SCALE,
        ;
        assert(rain_speed * (VARIANCE_SCALE + rain_speed_variance) <= 2_000_000_000_000_000)
            by (nonlinear_arith)
            requires
                rain_speed <= SPEED_MAX,
                rain_speed_variance <= VARIANCE_SCALE,
        ;
        assert(rain_speed * (VARIANCE_SCALE - rain_speed_variance) <= rain_speed * (
        VARIANCE_SCALE + rain_speed_variance)) by (nonlinear_arith)
            requires
                rain_speed_variance <= VARIANCE_SCALE,
        ;
        vstd::arithmetic::div_mod::lemma_div_is_ordered(
            rain_speed * (VARIANCE_SCALE - rain_speed_variance) as int,
            rain_speed * (VARIANCE_SCALE + rain_speed_variance) as int,
            VARIANCE_SCALE as int,
        );
    }
    let lower: u64 = rain_speed * (VARIANCE_SCALE - rain_speed_variance) / VARIANCE_SCALE;
    let upper: u64 = rain_speed * (VARIANCE_SCALE + rain_speed_variance) / VARIANCE_SCALE;
    let s_raw: u64 = uniform(e0, lower, upper);
    let s: u64 = if s_raw < SPEED_EPSILON {
        SPEED_EPSILON
    } else {
        s_raw
    };
    let ghost gs = spec_drop_speed(e[0], rain_speed as int, rain_speed_variance as int);
    proof {
        assert(upper <= 2 * rain_speed) by {
            assert(rain_speed * (VARIANCE_SCALE + rain_speed_variance) <= rain_speed * 2000)
                by (nonlinear_arith)
                requires
                    rain_speed_variance <= VARIANCE_SCALE,
                    rain_speed >= 0,
            ;
            vstd::arithmetic::div_mod::lemma_div_is_ordered(
                rain_speed * (VARIANCE_SCALE + rain_speed_variance) as int,
                rain_speed * 2000,
                VARIANCE_SCALE as int,
            );
            assert(rain_speed * 2000 / 1000 == 2 * rain_speed) by (nonlinear_arith);
        }
        assert(s == gs);
        assert(SPEED_EPSILON <= s <= 2_000_000_000_000);
    }

    // Cycle period and phase offset.
    proof {
        assert((track_len as int) * (TIME_SPEED_SCALE as int) <= 196_605_000_000_000_000)
            by (nonlinear_arith)
            requires
                track_len as int <= 3 * 0xffff,
        ;
    }
    let cycle_raw: u64 = (track_len as u64) * TIME_SPEED_SCALE / s;
    let cycle: u64 = if cycle_raw < 1 {
        1
    } else {
        cycle_raw
    };
    let ghost gcycle = spec_cycle_micros(e.len() as int, gs);
    proof {
        vstd::arithmetic::div_mod::lemma_div_is_ordered(
            (track_len as int) * (TIME_SPEED_SCALE as int),
            196_605_000_000_000_000,
            s as int,
        );
        assert(196_605_000_000_000_000int / (s as int) <= 196_605_000_000_000_000) by {
            vstd::arithmetic::div_mod::lemma_div_nonincreasing(196_605_000_000_000_000, s as int);
        }
        assert(cycle == gcycle);
        assert(1 <= cycle <= 196_605_000_000_000_000);
    }
    let phase: u64 = uniform(e0, 0, cycle);
    let ghost gphase = spec_phase_micros(e[0], gcycle);
    let total: u64 = elapsed_micros + phase;
    let cur: u64 = total % cycle;
    proof {
        assert(cur == ((elapsed_micros + gphase) % gcycle));
    }

    // Head row.
    proof {
        assert((cur as int) * (s as int) <= 400_000_000_000_000_000_000_000_000_000)
            by (nonlinear_arith)
            requires
                cur as int <= 196_605_000_000_000_000,
                s as int <= 2_000_000_000_000,
        ;
        lemma_head_lt_track(cur as int, cycle as int, track_len as int, s as int);
    }
    let head: u64 = (((cur as u128) * (s as u128)) / (TIME_SPEED_SCALE as u128)) as u64;
    let ghost ghead = spec_head_row(elapsed_micros, gphase, gcycle, gs);
    proof {
        assert(head == ghead);
        assert(head < track_len);
    }

    // Trail length.
    proof {
        assert((s as int) * (tail_lifespan_micros as int) <= 0x7fff_ffff_ffff_ffff_ffff_ffff)
            by (nonlinear_arith)
            requires
                s as int <= 2_000_000_000_000,
                tail_lifespan_micros as int <= DURATION_MAX,
        ;
    }
    let dlen_wide: u128 = ((s as u128) * (tail_lifespan_micros as u128)) / (
    TIME_SPEED_SCALE as u128);
    let dlen: u16 = if dlen_wide > (height as u128) {
        height
    } else {
        dlen_wide as u16
    };
    let ghost gdlen = spec_drop_len(gs, tail_lifespan_micros, height);
    proof {
        assert(dlen == gdlen);
    }

    // Walk the trail offsets and keep the visible glyphs.
    let size: usize = character_set.size();
    let mut glyphs: Vec<Glyph> = Vec::new();
    let mut k: u16 = 0;
    while k < dlen
        invariant
            k <= dlen,
            e == entropy@,
            e.len() == track_len,
            height <= track_len <= 3 * (height as int),
            1 <= width,
            1 <= height,
            elapsed_micros <= ELAPSED_MAX,
            1 <= noise_interval_micros <= DURATION_MAX,
            character_set.wf(),
            size == character_set.spec_size(),
            gs == spec_drop_speed(e[0], rain_speed as int, rain_speed_variance as int),
            s == gs,
            SPEED_EPSILON <= s <= 2_000_000_000_000,
            gcycle == spec_cycle_micros(e.len() as int, gs),
            cycle == gcycle,
            1 <= cycle <= 196_605_000_000_000_000,
            gphase == spec_phase_micros(e[0], gcycle),
            phase == gphase,
            phase <= cycle,
            total == elapsed_micros + phase,
            ghead == spec_head_row(elapsed_micros, gphase, gcycle, gs),
            head == ghead,
            head < track_len,
            gdlen == spec_drop_len(gs, tail_lifespan_micros, height),
            dlen == gdlen,
            dlen <= height,
            glyphs@ == spec_drop_glyphs_up_to(
                *character_set,
                e,
                elapsed_micros,
                width,
                height,
                rain_speed,
                rain_speed_variance,
                tail_lifespan_micros,
                noise_interval_micros,
                color,
                k as int,
            ),
        decreases dlen - k,
    {
        let ghost gglyph = spec_glyph_at(
            *character_set,
            e,
            elapsed_micros,
            width,
            height,
            rain_speed,
            rain_speed_variance,
            tail_lifespan_micros,
            noise_interval_micros,
            color,
            k as int,
        );
        proof {
            assert((k as int) * (TIME_SPEED_SCALE as int) <= 65_535_000_000_000_000)
                by (nonlinear_arith)
                requires
                    k as int <= 0xffff,
            ;
            assert((elapsed_micros as int) * (s as int) <= 0x7fff_ffff_ffff_ffff_ffff_ffff_ffff)
                by (nonlinear_arith)
                requires
                    elapsed_micros as int <= ELAPSED_MAX,
                    s as int <= 2_000_000_000_000,
            ;
        }
        let age_lhs: u128 = (k as u128) * (TIME_SPEED_SCALE as u128);
        let age_rhs: u128 = (elapsed_micros as u128) * (s as u128);
        if age_lhs <= age_rhs {
            // The lap this glyph belongs to.
            proof {
                assert((total as int) * (s as int) >= (elapsed_micros as int) * (s as int))
                    by (nonlinear_arith)
                    requires
                        total >= elapsed_micros,
                        s >= 0,
                ;
                assert((total as int) * (s as int) <= 0x7fff_ffff_ffff_ffff_ffff_ffff_ffff)
                    by (nonlinear_arith)
                    requires
                        total as int <= ELAPSED_MAX + 196_605_000_000_000_000,
                        s as int <= 2_000_000_000_000,
                ;
                assert((cycle as int) * (s as int) >= 1) by (nonlinear_arith)
                    requires
                        cycle >= 1,
                        s >= 1,
                ;
                assert((cycle as int) * (s as int) <= 400_000_000_000_000_000_000_000_000_000)
                    by (nonlinear_arith)
                    requires
                        cycle as int <= 196_605_000_000_000_000,
                        s as int <= 2_000_000_000_000,
                ;
            }
            let num: u128 = (total as u128) * (s as u128) - age_lhs;
            let den: u128 = (cycle as u128) * (s as u128);
            let cn: u128 = num / den;
            proof {
                lemma_cycle_num_bounded(
                    num as int,
                    den as int,
                    cycle as int,
                    s as int,
                    total as int,
                );
                assert(cn == spec_cycle_num(
                    elapsed_micros,
                    gphase,
                    gcycle,
                    gs,
                    k as int,
                ));
            }
            if cn != 0 {
                let xi: usize = (cn % (track_len as u128)) as usize;
                let x: u16 = (entropy[xi] % (width as u64)) as u16;
                let y_wide: u64 = (head + (track_len as u64) - (k as u64)) % (track_len as u64);
                proof {
                    assert(y_wide == (ghead + e.len() as int - k as int) % (e.len() as int));
                }
                if y_wide < (height as u64) {
                    let y: u16 = y_wide as u16;
                    proof {
                        assert((noise_interval_micros as int) * (size as int)
                            <= 1_200_000_000_000_000_000) by (nonlinear_arith)
                            requires
                                noise_interval_micros as int <= DURATION_MAX,
                                size as int <= 0x110000,
                        ;
                        assert(character_set.spec_size() <= 0x110000);
                    }
                    let noise_span: u64 = noise_interval_micros * (size as u64);
                    let toff: u64 = uniform(entropy[y as usize], 0, noise_span);
                    let idx: u64 = (toff + elapsed_micros) / noise_interval_micros;
                    let ci: u32 = (idx % (size as u64)) as u32;
                    let content: char = character_set.get(ci);
                    let g = Glyph {
                        x,
                        y,
                        age_rows: k,
                        speed: s,
                        cycle: cn as u64,
                        content,
                        color: if k == 0 {
                            Color::White
                        } else {
                            color
                        },
                        emphasis: if k < dlen / 3 {
                            Emphasis::Bold
                        } else if (k as u32) > (dlen as u32) * 2 / 3 {
                            Emphasis::Dim
                        } else {
                            Emphasis::Plain
                        },
                    };
                    proof {
                        assert(gglyph == Some(g));
                    }
                    glyphs.push(g);
                } else {
                    proof {
                        assert(gglyph is None);
                    }
                }
            } else {
                proof {
                    assert(gglyph is None);
                }
            }
        } else {
            proof {
                assert(gglyph is None);
            }
        }
        proof {
            assert(spec_drop_glyphs_up_to(
                *character_set,
                e,
                elapsed_micros,
                width,
                height,
                rain_speed,
                rain_speed_variance,
                tail_lifespan_micros,
                noise_interval_micros,
                color,
                k as int + 1,
            ) == match gglyph {
                Some(g) => spec_drop_glyphs_up_to(
                    *character_set,
                    e,
                    elapsed_micros,
                    width,
                    height,
                    rain_speed,
                    rain_speed_variance,
                    tail_lifespan_micros,
                    noise_interval_micros,
                    color,
                    k as int,
                ).push(g),
                None => spec_drop_glyphs_up_to(
                    *character_set,
                    e,
                    elapsed_micros,
                    width,
                    height,
                    rain_speed,
                    rain_speed_variance,
                    tail_lifespan_micros,
                    noise_interval_micros,
                    color,
                    k as int,
                ),
            });
        }
        k += 1;
    }
    glyphs
}

} // verus!
