//! End-to-end tests of the frame engine: determinism, glyph invariants,
//! resizing, and the concrete reference scenario.

use tui_rain::{CharacterSet, Color, Glyph, Rain, RainDensity, RainSpeed};

const SCALE: u128 = 1_000_000_000_000;

fn scenario(elapsed_micros: u64) -> Rain {
    Rain::new_matrix(elapsed_micros)
        .with_seed(1234)
        .with_rain_density(RainDensity::Absolute { num_drops: 1 })
        .with_rain_speed(RainSpeed::Absolute { speed: 5_000_000 })
        .with_rain_speed_variance(0)
        .with_tail_lifespan(1_000_000)
        .with_noise_interval(5_000_000)
        .with_character_set(CharacterSet::Lowercase)
}

#[test]
fn determinism_same_inputs_same_glyphs() {
    let a = Rain::new_matrix(10_000_000).render_glyphs(40, 20);
    let b = Rain::new_matrix(10_000_000).render_glyphs(40, 20);
    assert_eq!(a, b);
}

#[test]
fn determinism_depends_on_seed() {
    let a = Rain::new_matrix(30_000_000).with_seed(1).render_glyphs(40, 20);
    let b = Rain::new_matrix(30_000_000).with_seed(2).render_glyphs(40, 20);
    assert_ne!(a, b);
}

#[test]
fn glyph_invariants_hold_on_a_frame() {
    let elapsed: u64 = 12_500_000;
    let glyphs = Rain::new_rain(elapsed).render_glyphs(40, 20);
    assert!(!glyphs.is_empty());
    for g in &glyphs {
        assert!(g.x < 40);
        assert!(g.y < 20);
        assert!(g.cycle >= 1);
        assert!((g.age_rows as u128) * SCALE <= (elapsed as u128) * (g.speed as u128));
    }
}

#[test]
fn glyphs_are_ordered_oldest_first() {
    // Youngest glyphs come last, so writing in order puts heads on top.
    let glyphs = Rain::new_matrix(20_000_000).render_glyphs(30, 15);
    for w in glyphs.windows(2) {
        let (a, b) = (&w[0], &w[1]);
        assert!((b.age_rows as u128) * (a.speed as u128) <= (a.age_rows as u128) * (b.speed as u128));
    }
}

#[test]
fn heads_are_white_and_tails_colored() {
    let glyphs = Rain::new_matrix(20_000_000).render_glyphs(30, 15);
    for g in &glyphs {
        if g.age_rows == 0 {
            assert_eq!(g.color, Color::White);
        } else {
            assert_eq!(g.color, Color::LightGreen);
        }
    }
}

#[test]
fn scenario_zero_glyphs_at_time_zero() {
    let glyphs = scenario(0).render_glyphs(10, 10);
    assert_eq!(glyphs, Vec::<Glyph>::new());
}

#[test]
fn any_configuration_is_empty_at_time_zero() {
    // Every drop's first lap is suppressed, so before any time has passed
    // nothing is visible, whatever the seed and density.
    assert!(Rain::new_matrix(0).render_glyphs(40, 20).is_empty());
    assert!(Rain::new_rain(0).with_seed(987).render_glyphs(33, 17).is_empty());
}

#[test]
fn scenario_reproducible_nonempty_frame_later() {
    let a = scenario(100_000_000).render_glyphs(10, 10);
    let b = scenario(100_000_000).render_glyphs(10, 10);
    assert_eq!(a, b);
    assert!(!a.is_empty());
    for g in &a {
        assert!(g.x < 10);
        assert!(g.y < 10);
    }
}

#[test]
fn resize_between_frames_succeeds() {
    let first = Rain::new_matrix(5_000_000).render_glyphs(40, 20);
    let second = Rain::new_matrix(6_000_000).render_glyphs(13, 7);
    let fresh = Rain::new_matrix(6_000_000).render_glyphs(13, 7);
    assert_eq!(second, fresh);
    for g in &second {
        assert!(g.x < 13);
        assert!(g.y < 7);
    }
    // The first frame was bounded by its own surface, not the second's.
    for g in &first {
        assert!(g.x < 40);
        assert!(g.y < 20);
    }
}

#[test]
fn empty_surface_yields_no_glyphs() {
    assert!(Rain::new_matrix(10_000_000).render_glyphs(0, 20).is_empty());
    assert!(Rain::new_matrix(10_000_000).render_glyphs(40, 0).is_empty());
}

#[test]
fn one_row_surface_stays_in_bounds() {
    let glyphs = Rain::new_matrix(30_000_000)
        .with_rain_density(RainDensity::Absolute { num_drops: 2 })
        .render_glyphs(65535, 1);
    for g in &glyphs {
        assert!(g.y == 0);
        assert!(g.x < 65535);
    }
}

#[test]
fn snow_trails_are_at_most_one_row() {
    // Snow falls two rows per second with a half-second tail: at most one
    // row of trail, so every visible glyph is a head.
    let glyphs = Rain::new_snow(45_000_000).render_glyphs(40, 20);
    for g in &glyphs {
        assert_eq!(g.age_rows, 0);
        assert_eq!(g.color, Color::White);
    }
}

#[test]
fn sparseness_zero_yields_no_glyphs_at_any_time() {
    for elapsed in [0u64, 1_000_000, 50_000_000, 3_600_000_000] {
        let glyphs = Rain::new_matrix(elapsed)
            .with_rain_density(RainDensity::Relative { sparseness: 0 })
            .render_glyphs(40, 20);
        assert!(glyphs.is_empty());
    }
}
