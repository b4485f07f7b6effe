//! Whole-tree assembly: the star row, the leaf rows with their centering
//! padding, and the trunk rows, in print order.

use vstd::prelude::*;

use crate::color::TermColor;
use crate::color::push_char;
use crate::color::reset_str;
use crate::color::spec_color_escape;
use crate::color::spec_reset;
use crate::color::spec_trunk_escape;
use crate::color::trunk_str;
use crate::geometry::left_pad;
use crate::geometry::nth_odd;
use crate::geometry::spec_left_pad;
use crate::geometry::spec_row_width;
use crate::geometry::spec_total_padding;
use crate::geometry::spec_trunk_count;
use crate::geometry::total_padding;
use crate::geometry::trunk_count;
use crate::lights::is_lit_row;
use crate::lights::leaves_with_lights;
use crate::lights::spec_light_count;

verus! {

/// `n` spaces.
pub open spec fn spec_spaces(n: int) -> Seq<char> {
    Seq::new(n as nat, |k: int| ' ')
}

/// The star row: the light-yellow escape, the centering spaces, the star,
/// and the reset.
pub open spec fn spec_star_row(level: int) -> Seq<char> {
    spec_color_escape(TermColor::LightYellow) + spec_spaces(spec_total_padding(level))
        + seq!['*'] + spec_reset()
}

/// One trunk row: the brown escape, the centering spaces, the trunk glyph,
/// and the reset.
pub open spec fn spec_trunk_row(level: int) -> Seq<char> {
    spec_trunk_escape() + spec_spaces(spec_total_padding(level)) + seq!['|'] + spec_reset()
}

/// `r` is leaf row `i` of a tree with `level` leaf rows: its left padding,
/// then a rendered row of `spec_row_width(i)` leaves with the drawn lights,
/// then the reset.
pub open spec fn spec_leaf_row_ok(
    r: Seq<char>,
    level: int,
    i: int,
    leaf: char,
    percent: int,
    palette: Seq<TermColor>,
) -> bool {
    exists|body: Seq<char>|
        #[trigger] is_lit_row(
            body,
            leaf,
            palette,
            spec_row_width(i),
            spec_light_count(spec_row_width(i), percent),
        ) && r == spec_spaces(spec_left_pad(level, i)) + body + spec_reset()
}

/// A string of `n` spaces.
pub fn spaces(n: usize) -> (r: String)
    ensures
        r@ == spec_spaces(n as int),
{
    let mut s = String::new();
    proof {
        assert(s@ =~= spec_spaces(0));
    }
    let mut i: usize = 0;
    while i < n
        invariant
            i <= n,
            s@ == spec_spaces(i as int),
        decreases n - i,
    {
        push_char(&mut s, ' ');
        i += 1;
        proof {
            assert(s@ =~= spec_spaces(i as int));
        }
    }
    s
}

/// The star row of a tree with `level` leaf rows.
pub fn star_row(level: usize) -> (r: String)
    requires
        2 * level <= usize::MAX,
    ensures
        r@ == spec_star_row(level as int),
{
    let mut s = String::from_str(TermColor::LightYellow.to_str());
    let pad = spaces(total_padding(level));
    s.append(pad.as_str());
    push_char(&mut s, '*');
    s.append(reset_str());
    proof {
        assert(s@ =~= spec_star_row(level as int));
    }
    s
}

/// One trunk row of a tree with `level` leaf rows.
pub fn trunk_row(level: usize) -> (r: String)
    requires
        2 * level <= usize::MAX,
    ensures
        r@ == spec_trunk_row(level as int),
{
    let mut s = String::from_str(trunk_str());
    let pad = spaces(total_padding(level));
    s.append(pad.as_str());
    push_char(&mut s, '|');
    s.append(reset_str());
    proof {
        assert(s@ =~= spec_trunk_row(level as int));
    }
    s
}

/// Leaf row `i` of a tree with `level` leaf rows: left padding, a rendered
/// row of `nth_odd(i)` leaves with random lights, and the reset.
pub fn leaf_row(level: usize, i: usize, leaf: char, percent: u8, palette: &[TermColor]) -> (r:
    String)
    requires
        i < level,
        percent <= 100,
        palette@.len() > 0,
        200 * level <= usize::MAX,
    ensures
        spec_leaf_row_ok(r@, level as int, i as int, leaf, percent as int, palette@),
{
    let width = nth_odd(i);
    let lp = left_pad(level, i);
    assert(width * 100 <= usize::MAX);
    let body = leaves_with_lights(leaf, width, palette, percent);
    let mut s = spaces(lp);
    s.append(body.as_str());
    s.append(reset_str());
    proof {
        assert(is_lit_row(
            body@,
            leaf,
            palette@,
            spec_row_width(i as int),
            spec_light_count(spec_row_width(i as int), percent as int),
        ));
        assert(s@ == spec_spaces(spec_left_pad(level as int, i as int)) + body@ + spec_reset());
    }
    s
}

/// Renders the whole tree, top to bottom: one star row, `level` leaf rows of
/// widths 1, 3, 5, ..., all centered under the star, then
/// `max(1, level / 5)` trunk rows. A level count of zero gives just the star
/// and one trunk row.
pub fn render_tree(level: usize, leaf: char, percent: u8, palette: &[TermColor]) -> (rows: Vec<
    String,
>)
    requires
        percent <= 100,
        palette@.len() > 0,
        200 * level <= usize::MAX,
    ensures
        rows@.len() == 1 + level + spec_trunk_count(level as int),
        rows@[0]@ == spec_star_row(level as int),
        forall|i: int|
            0 <= i < level ==> spec_leaf_row_ok(
                (#[trigger] rows@[1 + i])@,
                level as int,
                i,
                leaf,
                percent as int,
                palette@,
            ),
        forall|t: int|
            1 + level <= t < rows@.len() ==> (#[trigger] rows@[t])@ == spec_trunk_row(
                level as int,
            ),
{
    let mut rows: Vec<String> = Vec::new();
    rows.push(star_row(level));
    let mut i: usize = 0;
    while i < level
        invariant
            i <= level,
            percent <= 100,
            palette@.len() > 0,
            200 * level <= usize::MAX,
            rows@.len() == 1 + i,
            rows@[0]@ == spec_star_row(level as int),
            forall|j: int|
                0 <= j < i ==> spec_leaf_row_ok(
                    (#[trigger] rows@[1 + j])@,
                    level as int,
                    j,
                    leaf,
                    percent as int,
                    palette@,
                ),
        decreases level - i,
    {
        let r = leaf_row(level, i, leaf, percent, palette);
        rows.push(r);
        i += 1;
    }
    let trunks = trunk_count(level);
    let mut t: usize = 0;
    while t < trunks
        invariant
            t <= trunks,
            2 * level <= usize::MAX,
            trunks == spec_trunk_count(level as int),
            rows@.len() == 1 + level + t,
            rows@[0]@ == spec_star_row(level as int),
            forall|j: int|
                0 <= j < level ==> spec_leaf_row_ok(
                    (#[trigger] rows@[1 + j])@,
                    level as int,
                    j,
                    leaf,
                    percent as int,
                    palette@,
                ),
            forall|u: int|
                1 + level <= u < rows@.len() ==> (#[trigger] rows@[u])@ == spec_trunk_row(
                    level as int,
                ),
        decreases trunks - t,
    {
        rows.push(trunk_row(level));
        t += 1;
    }
    rows
}

} // verus!
