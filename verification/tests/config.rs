//! Tests of parameter resolution, character sets, configuration builders
//! and validation.

use tui_rain::{CharacterSet, Color, Rain, RainDensity, RainSpeed};

#[test]
fn density_absolute_is_taken_as_is() {
    assert_eq!(RainDensity::Absolute { num_drops: 7 }.num_drops(40, 20), 7);
}

#[test]
fn density_relative_is_one_drop_per_sparseness_cells() {
    assert_eq!(RainDensity::Relative { sparseness: 50 }.num_drops(10, 10), 2);
    assert_eq!(RainDensity::Relative { sparseness: 7 }.num_drops(10, 10), 14);
    assert_eq!(RainDensity::Relative { sparseness: 0 }.num_drops(10, 10), 0);
}

#[test]
fn density_presets_match_their_sparseness() {
    assert_eq!(
        RainDensity::Torrential.num_drops(33, 17),
        RainDensity::Relative { sparseness: 20 }.num_drops(33, 17)
    );
    assert_eq!(
        RainDensity::Showering.num_drops(33, 17),
        RainDensity::Relative { sparseness: 50 }.num_drops(33, 17)
    );
    assert_eq!(
        RainDensity::Sprinkling.num_drops(33, 17),
        RainDensity::Relative { sparseness: 100 }.num_drops(33, 17)
    );
}

#[test]
fn speed_presets_resolve_to_their_constants() {
    assert_eq!(RainSpeed::Beating.speed(), 20_000_000);
    assert_eq!(RainSpeed::Pouring.speed(), 10_000_000);
    assert_eq!(RainSpeed::Trickling.speed(), 5_000_000);
    assert_eq!(RainSpeed::Absolute { speed: 123 }.speed(), 123);
}

#[test]
fn resolution_is_idempotent() {
    for d in [
        RainDensity::Absolute { num_drops: 3 },
        RainDensity::Relative { sparseness: 11 },
        RainDensity::Torrential,
        RainDensity::Showering,
        RainDensity::Sprinkling,
    ] {
        assert_eq!(d.num_drops(31, 13), d.num_drops(31, 13));
    }
    for s in [RainSpeed::Beating, RainSpeed::Pouring, RainSpeed::Trickling] {
        assert_eq!(s.speed(), s.speed());
    }
}

#[test]
fn charset_lowercase_cycles_through_the_alphabet() {
    let cs = CharacterSet::Lowercase;
    assert_eq!(cs.size(), 26);
    assert_eq!(cs.get(0), 'a');
    assert_eq!(cs.get(25), 'z');
    assert_eq!(cs.get(26), 'a');
    assert_eq!(cs.get(27 + 26), 'b');
}

#[test]
fn charset_half_kana_matches_its_unicode_range() {
    let cs = CharacterSet::HalfKana;
    let range = CharacterSet::UnicodeRange { start: 0xFF66, len: 56 };
    assert_eq!(cs.size(), 56);
    assert_eq!(range.size(), 56);
    for seed in [0u32, 1, 55, 56, 1000] {
        assert_eq!(cs.get(seed), range.get(seed));
    }
    assert_eq!(cs.get(0), '\u{FF66}');
}

#[test]
fn charset_explicit_indexes_modulo_length() {
    let cs = CharacterSet::Explicit { options: vec!['x', 'y', 'z'] };
    assert_eq!(cs.size(), 3);
    assert_eq!(cs.get(0), 'x');
    assert_eq!(cs.get(1), 'y');
    assert_eq!(cs.get(2), 'z');
    assert_eq!(cs.get(3), 'x');
    assert_eq!(cs.get(7), 'y');
}

#[test]
fn charset_unicode_range_offsets_from_start() {
    let cs = CharacterSet::UnicodeRange { start: 0x41, len: 3 };
    assert_eq!(cs.get(0), 'A');
    assert_eq!(cs.get(1), 'B');
    assert_eq!(cs.get(2), 'C');
    assert_eq!(cs.get(3), 'A');
}

#[test]
fn charset_validation() {
    assert!(CharacterSet::Lowercase.is_well_formed());
    assert!(CharacterSet::HalfKana.is_well_formed());
    assert!(CharacterSet::UnicodeRange { start: 0x61, len: 26 }.is_well_formed());
    // Empty sets are rejected.
    assert!(!CharacterSet::Explicit { options: vec![] }.is_well_formed());
    assert!(!CharacterSet::UnicodeRange { start: 0x41, len: 0 }.is_well_formed());
    // A range reaching into the surrogates is rejected.
    assert!(!CharacterSet::UnicodeRange { start: 0xD7FF, len: 2 }.is_well_formed());
    // A range past the last code point is rejected.
    assert!(!CharacterSet::UnicodeRange { start: 0x10FFFF, len: 2 }.is_well_formed());
}

#[test]
fn matrix_defaults() {
    let rain = Rain::new_matrix(42);
    assert_eq!(rain.elapsed_micros, 42);
    assert_eq!(rain.seed, 1234);
    assert_eq!(rain.rain_density, RainDensity::Showering);
    assert_eq!(rain.rain_speed, RainSpeed::Trickling);
    assert_eq!(rain.rain_speed_variance, 500);
    assert_eq!(rain.tail_lifespan_micros, 2_000_000);
    assert_eq!(rain.color, Color::LightGreen);
    assert_eq!(rain.noise_interval_micros, 5_000_000);
    assert_eq!(rain.character_set, CharacterSet::HalfKana);
    assert!(rain.is_well_formed());
}

#[test]
fn rain_snow_and_emoji_defaults() {
    let rain = Rain::new_rain(0);
    assert_eq!(rain.rain_density, RainDensity::Torrential);
    assert_eq!(rain.rain_speed, RainSpeed::Beating);
    assert_eq!(rain.tail_lifespan_micros, 250_000);
    assert_eq!(rain.color, Color::LightBlue);
    assert_eq!(rain.character_set, CharacterSet::UnicodeRange { start: 0x7c, len: 1 });
    assert!(rain.is_well_formed());

    let snow = Rain::new_snow(0);
    assert_eq!(snow.rain_speed, RainSpeed::Absolute { speed: 2_000_000 });
    assert_eq!(snow.rain_speed_variance, 100);
    assert_eq!(snow.character_set, CharacterSet::UnicodeRange { start: 0x2a, len: 1 });
    assert!(snow.is_well_formed());

    let soup = Rain::new_emoji_soup(0);
    assert_eq!(soup.rain_speed, RainSpeed::Pouring);
    assert_eq!(soup.character_set, CharacterSet::UnicodeRange { start: 0x1f600, len: 80 });
    assert!(soup.is_well_formed());
}

#[test]
fn builders_replace_one_field_each() {
    let rain = Rain::new_matrix(0)
        .with_seed(9)
        .with_rain_density(RainDensity::Sprinkling)
        .with_rain_speed(RainSpeed::Pouring)
        .with_rain_speed_variance(250)
        .with_tail_lifespan(750_000)
        .with_color(Color::Red)
        .with_noise_interval(2_000_000)
        .with_character_set(CharacterSet::Lowercase);
    assert_eq!(rain.seed, 9);
    assert_eq!(rain.rain_density, RainDensity::Sprinkling);
    assert_eq!(rain.rain_speed, RainSpeed::Pouring);
    assert_eq!(rain.rain_speed_variance, 250);
    assert_eq!(rain.tail_lifespan_micros, 750_000);
    assert_eq!(rain.color, Color::Red);
    assert_eq!(rain.noise_interval_micros, 2_000_000);
    assert_eq!(rain.character_set, CharacterSet::Lowercase);
}

#[test]
fn config_validation_rejects_out_of_range_values() {
    assert!(Rain::new_matrix(0).is_well_formed());
    // A noise interval of zero would make character selection divide by zero.
    assert!(!Rain::new_matrix(0).with_noise_interval(0).is_well_formed());
    // Variance beyond 100% is rejected.
    assert!(!Rain::new_matrix(0).with_rain_speed_variance(1001).is_well_formed());
    // A malformed character set is rejected.
    assert!(
        !Rain::new_matrix(0)
            .with_character_set(CharacterSet::Explicit { options: vec![] })
            .is_well_formed()
    );
}
