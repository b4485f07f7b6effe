//! Row geometry: how wide each leaf row is and how much leading padding
//! centers it under the tree's apex.
//!
//! Row `i` (counting from 0) is `2*i + 1` leaves wide, so widths are the odd
//! numbers. All rows, the star and the trunk center under a common column,
//! `total_padding` characters from the left edge.

use vstd::prelude::*;

verus! {

/// Width of leaf row `i`: the `i`-th odd number.
pub open spec fn spec_row_width(i: int) -> int {
    2 * i + 1
}

/// Centering width for a tree of `level` leaf rows: half the widest row,
/// rounded down. A tree with no leaf rows centers at column 0.
pub open spec fn spec_total_padding(level: int) -> int {
    if level == 0 {
        0
    } else {
        spec_row_width(level - 1) / 2
    }
}

/// Leading spaces before leaf row `i` of a tree with `level` leaf rows.
pub open spec fn spec_left_pad(level: int, i: int) -> int {
    spec_total_padding(level) - spec_row_width(i) / 2
}

/// How many trunk rows a tree of `level` leaf rows gets: one per five levels,
/// and at least one.
pub open spec fn spec_trunk_count(level: int) -> int {
    if level / 5 >= 1 {
        level / 5
    } else {
        1
    }
}

/// The `n`-th odd number, counting from `nth_odd(0) == 1`.
pub fn nth_odd(n: usize) -> (r: usize)
    requires
        2 * n + 1 <= usize::MAX,
    ensures
        r == spec_row_width(n as int),
{
    n * 2 + 1
}

/// Centering width for a tree of `level` leaf rows.
pub fn total_padding(level: usize) -> (r: usize)
    requires
        2 * level <= usize::MAX,
    ensures
        r == spec_total_padding(level as int),
{
    if level == 0 {
        0
    } else {
        nth_odd(level - 1) / 2
    }
}

/// Leading spaces before leaf row `i` of a tree with `level` leaf rows.
pub fn left_pad(level: usize, i: usize) -> (r: usize)
    requires
        i < level,
        2 * level <= usize::MAX,
    ensures
        r == spec_left_pad(level as int, i as int),
{
    total_padding(level) - nth_odd(i) / 2
}

/// Number of trunk rows for a tree of `level` leaf rows.
pub fn trunk_count(level: usize) -> (r: usize)
    ensures
        r == spec_trunk_count(level as int),
{
    let fifth = level / 5;
    if fifth >= 1 {
        fifth
    } else {
        1
    }
}

/// Every row width is odd, and widths strictly increase with the row index.
pub proof fn lemma_row_width_odd_increasing(i: int, j: int)
    requires
        0 <= i < j,
    ensures
        spec_row_width(i) % 2 == 1,
        spec_row_width(i) < spec_row_width(j),
{
}

/// Every leaf row stays within the tree's centered bounding width: its
/// padding plus its width never passes one column beyond twice the centering
/// width.
pub proof fn lemma_row_within_bounds(level: int, i: int)
    requires
        0 <= i < level,
    ensures
        spec_left_pad(level, i) >= 0,
        spec_left_pad(level, i) + spec_row_width(i) <= 2 * spec_total_padding(level) + 1,
{
}

/// The geometry is a pure function of its inputs: any two computations of a
/// row's width and padding for the same level count and row index agree.
pub proof fn lemma_geometry_idempotent(
    level: int,
    i: int,
    width_a: int,
    width_b: int,
    pad_a: int,
    pad_b: int,
)
    requires
        width_a == spec_row_width(i),
        width_b == spec_row_width(i),
        pad_a == spec_left_pad(level, i),
        pad_b == spec_left_pad(level, i),
    ensures
        width_a == width_b,
        pad_a == pad_b,
{
}

} // verus!
