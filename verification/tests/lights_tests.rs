//! The lights renderer on concrete widths and fractions.

use tree_lights::TermColor;
use tree_lights::default_palette;
use tree_lights::leaves_with_lights;
use tree_lights::light_count;

const GREEN: &str = "\x1B[32m";

#[test]
fn light_count_values() {
    assert_eq!(light_count(10, 50), 5);
    assert_eq!(light_count(10, 0), 0);
    assert_eq!(light_count(10, 100), 10);
    assert_eq!(light_count(7, 50), 3);
    assert_eq!(light_count(1, 99), 0);
    assert_eq!(light_count(0, 100), 0);
}

#[test]
fn no_lights_is_pure_base_row() {
    // percent = 0: the row is the base green escape and nothing but leaves.
    let palette = default_palette();
    let row = leaves_with_lights('@', 7, palette.as_slice(), 0);
    assert_eq!(row, format!("{GREEN}@@@@@@@"));
}

#[test]
fn lit_count_matches_fraction() {
    // Exactly floor(width * percent / 100) leaves are wrapped in a non-base
    // color: each light re-emits the base green after itself, so the base
    // escape appears once at the start plus once per light.
    let palette = default_palette();
    for (width, percent, expected_lit) in [(10usize, 50u8, 5usize), (9, 33, 2), (4, 100, 4)] {
        let row = leaves_with_lights('@', width, palette.as_slice(), percent);
        let leaves = row.chars().filter(|c| *c == '@').count();
        assert_eq!(leaves, width);
        let greens = row.matches(GREEN).count();
        assert_eq!(greens, 1 + expected_lit);
    }
}

#[test]
fn full_fraction_lights_every_leaf() {
    // percent = 100 with a one-color palette is fully determined: every leaf
    // is wrapped in that color and followed by the base green.
    let palette = vec![TermColor::Red];
    let red = TermColor::Red.to_str();
    let row = leaves_with_lights('@', 3, palette.as_slice(), 100);
    assert_eq!(row, format!("{GREEN}{red}@{GREEN}{red}@{GREEN}{red}@{GREEN}"));
}

#[test]
fn renderer_invariant_across_calls() {
    // Two calls may light different positions, but both light exactly the
    // same number of leaves.
    let palette = default_palette();
    let a = leaves_with_lights('@', 20, palette.as_slice(), 45);
    let b = leaves_with_lights('@', 20, palette.as_slice(), 45);
    assert_eq!(a.matches(GREEN).count(), 1 + 9);
    assert_eq!(b.matches(GREEN).count(), 1 + 9);
    assert_eq!(a.chars().filter(|c| *c == '@').count(), 20);
    assert_eq!(b.chars().filter(|c| *c == '@').count(), 20);
}

#[test]
fn empty_row_is_just_the_base_escape() {
    let palette = default_palette();
    let row = leaves_with_lights('@', 0, palette.as_slice(), 100);
    assert_eq!(row, GREEN);
}
