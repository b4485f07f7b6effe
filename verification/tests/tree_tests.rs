//! Whole-tree scenarios and geometry behavior, checked on concrete values.

use tree_lights::TermColor;
use tree_lights::default_palette;
use tree_lights::left_pad;
use tree_lights::nth_odd;
use tree_lights::render_tree;
use tree_lights::total_padding;
use tree_lights::trunk_count;

const GREEN: &str = "\x1B[32m";
const RESET: &str = "\x1B[0m";
const LIGHT_YELLOW: &str = "\x1B[93m";
const TRUNK: &str = "\x1B[38;2;222;119;51m";

#[test]
fn three_levels_no_lights() {
    // level=3, '@', percent=0: a star row, three all-green leaf rows of
    // widths 1, 3, 5 centered under it, and exactly one trunk row.
    let palette = default_palette();
    let rows = render_tree(3, '@', 0, palette.as_slice());
    assert_eq!(rows.len(), 5);
    assert_eq!(rows[0], format!("{LIGHT_YELLOW}  *{RESET}"));
    assert_eq!(rows[1], format!("  {GREEN}@{RESET}"));
    assert_eq!(rows[2], format!(" {GREEN}@@@{RESET}"));
    assert_eq!(rows[3], format!("{GREEN}@@@@@{RESET}"));
    assert_eq!(rows[4], format!("{TRUNK}  |{RESET}"));
}

#[test]
fn zero_levels() {
    // level=0: only the star row and the one trunk row max(1, 0/5) gives.
    let palette = default_palette();
    let rows = render_tree(0, '@', 50, palette.as_slice());
    assert_eq!(rows.len(), 2);
    assert_eq!(rows[0], format!("{LIGHT_YELLOW}*{RESET}"));
    assert_eq!(rows[1], format!("{TRUNK}|{RESET}"));
}

#[test]
fn row_count_scales_with_level() {
    let palette = default_palette();
    for level in [1usize, 4, 5, 9, 10, 23] {
        let rows = render_tree(level, '*', 50, palette.as_slice());
        let trunks = std::cmp::max(1, level / 5);
        assert_eq!(rows.len(), 1 + level + trunks);
    }
}

#[test]
fn leaf_counts_per_row() {
    // Every leaf row holds exactly its odd width of leaf glyphs, whatever
    // the random lights did.
    let palette = default_palette();
    let rows = render_tree(6, '@', 50, palette.as_slice());
    for i in 0..6 {
        let leaves = rows[1 + i].chars().filter(|c| *c == '@').count();
        assert_eq!(leaves, 2 * i + 1);
    }
}

#[test]
fn nth_odd_values() {
    assert_eq!(nth_odd(0), 1);
    assert_eq!(nth_odd(1), 3);
    assert_eq!(nth_odd(7), 15);
}

#[test]
fn padding_values() {
    assert_eq!(total_padding(0), 0);
    assert_eq!(total_padding(1), 0);
    assert_eq!(total_padding(3), 2);
    assert_eq!(total_padding(10), 9);
    assert_eq!(left_pad(3, 0), 2);
    assert_eq!(left_pad(3, 2), 0);
}

#[test]
fn trunk_count_values() {
    assert_eq!(trunk_count(0), 1);
    assert_eq!(trunk_count(4), 1);
    assert_eq!(trunk_count(5), 1);
    assert_eq!(trunk_count(10), 2);
    assert_eq!(trunk_count(25), 5);
}

#[test]
fn geometry_is_idempotent() {
    // The geometry engine is pure: the same level count gives the same
    // widths and paddings on every call.
    for level in [0usize, 1, 5, 12] {
        assert_eq!(total_padding(level), total_padding(level));
        for i in 0..level {
            assert_eq!(nth_odd(i), nth_odd(i));
            assert_eq!(left_pad(level, i), left_pad(level, i));
        }
    }
}

#[test]
fn color_escape_strings() {
    assert_eq!(TermColor::Green.to_str(), "\x1B[32m");
    assert_eq!(TermColor::Red.to_str(), "\x1B[31m");
    assert_eq!(TermColor::Yellow.to_str(), "\x1B[33m");
    assert_eq!(TermColor::LightYellow.to_str(), "\x1B[93m");
    assert_eq!(TermColor::White.to_str(), "\x1B[37m");
}

#[test]
fn default_palette_contents() {
    let palette = default_palette();
    assert_eq!(
        palette,
        vec![
            TermColor::Yellow,
            TermColor::Red,
            TermColor::Blue,
            TermColor::Magenta,
            TermColor::Cyan,
            TermColor::White,
        ]
    );
}
