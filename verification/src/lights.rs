//! The lights renderer: one leaf row as a string, with a random subset of
//! leaf positions "lit" in random palette colors.
//!
//! A row is modeled as a sequence of cells, one per leaf position. A plain
//! cell is the bare leaf character, drawn in the base green that opens the
//! row; a lit cell is a palette color's escape, the leaf character, then the
//! base green again. Which cells are lit and which color each light gets come
//! from the `rand` crate through the trusted wrappers below; everything the
//! row string holds for a given drawing is specified exactly.

use rand::seq::IndexedRandom;
use vstd::prelude::*;

use crate::color::TermColor;
use crate::color::push_char;
use crate::color::spec_color_escape;

verus! {

/// Number of lit positions in a row `width` leaves wide when `percent` of a
/// hundred leaves become lights: `floor(width * percent / 100)`.
pub open spec fn spec_light_count(width: int, percent: int) -> int {
    width * percent / 100
}

/// What one cell contributes to the row: a plain cell is the bare leaf
/// character; a lit cell selects its color, draws the leaf, and returns to
/// the base green.
pub open spec fn spec_cell(leaf: char, cell: Option<TermColor>) -> Seq<char> {
    match cell {
        None => seq![leaf],
        Some(c) => spec_color_escape(c) + seq![leaf] + spec_color_escape(TermColor::Green),
    }
}

/// The row's body: the cells' contributions in order.
pub open spec fn spec_row_body(leaf: char, cells: Seq<Option<TermColor>>) -> Seq<char>
    decreases cells.len(),
{
    if cells.len() == 0 {
        Seq::empty()
    } else {
        spec_row_body(leaf, cells.drop_last()) + spec_cell(leaf, cells.last())
    }
}

/// How many cells are lit.
pub open spec fn count_lit(cells: Seq<Option<TermColor>>) -> int
    decreases cells.len(),
{
    if cells.len() == 0 {
        0
    } else {
        count_lit(cells.drop_last()) + if cells.last() is Some {
            1int
        } else {
            0int
        }
    }
}

/// How many cells are plain.
pub open spec fn count_plain(cells: Seq<Option<TermColor>>) -> int
    decreases cells.len(),
{
    if cells.len() == 0 {
        0
    } else {
        count_plain(cells.drop_last()) + if cells.last() is None {
            1int
        } else {
            0int
        }
    }
}

/// A well-drawn row of cells: `width` cells, exactly `lit` of them lit, every
/// light's color from `palette`.
pub open spec fn cells_ok(
    cells: Seq<Option<TermColor>>,
    palette: Seq<TermColor>,
    width: int,
    lit: int,
) -> bool {
    &&& cells.len() == width
    &&& count_lit(cells) == lit
    &&& forall|j: int|
        0 <= j < cells.len() ==> ((#[trigger] cells[j]) matches Some(c) ==> palette.contains(c))
}

/// `r` is a rendered leaf row: the base green escape followed by the body of
/// some well-drawn sequence of cells.
pub open spec fn is_lit_row(
    r: Seq<char>,
    leaf: char,
    palette: Seq<TermColor>,
    width: int,
    lit: int,
) -> bool {
    exists|cells: Seq<Option<TermColor>>|
        #[trigger] cells_ok(cells, palette, width, lit) && r == spec_color_escape(
            TermColor::Green,
        ) + spec_row_body(leaf, cells)
}

/// Appending a cell appends its contribution to the row's body.
pub proof fn lemma_row_body_push(leaf: char, cells: Seq<Option<TermColor>>, c: Option<TermColor>)
    ensures
        spec_row_body(leaf, cells.push(c)) == spec_row_body(leaf, cells) + spec_cell(leaf, c),
{
    assert(cells.push(c).drop_last() =~= cells);
}

/// Appending a cell adds one to the matching count and nothing to the other.
pub proof fn lemma_count_push(cells: Seq<Option<TermColor>>, c: Option<TermColor>)
    ensures
        count_lit(cells.push(c)) == count_lit(cells) + if c is Some {
            1int
        } else {
            0int
        },
        count_plain(cells.push(c)) == count_plain(cells) + if c is None {
            1int
        } else {
            0int
        },
{
    assert(cells.push(c).drop_last() =~= cells);
}

/// Lighting a plain cell raises the lit count by one.
pub proof fn lemma_count_lit_update(cells: Seq<Option<TermColor>>, p: int, c: TermColor)
    requires
        0 <= p < cells.len(),
        cells[p] is None,
    ensures
        count_lit(cells.update(p, Some(c))) == count_lit(cells) + 1,
    decreases cells.len(),
{
    let u = cells.update(p, Some(c));
    if p == cells.len() - 1 {
        assert(u.drop_last() =~= cells.drop_last());
        assert(u.last() == Some(c));
    } else {
        assert(u.drop_last() =~= cells.drop_last().update(p, Some(c)));
        assert(u.last() == cells.last());
        lemma_count_lit_update(cells.drop_last(), p, c);
    }
}

/// Every cell is lit or plain, so the two counts partition the row: lit plus
/// plain cells account for exactly the row's width.
pub proof fn lemma_lit_plus_plain(cells: Seq<Option<TermColor>>)
    ensures
        0 <= count_lit(cells),
        0 <= count_plain(cells),
        count_lit(cells) + count_plain(cells) == cells.len(),
    decreases cells.len(),
{
    if cells.len() > 0 {
        lemma_lit_plus_plain(cells.drop_last());
    }
}

/// A row with no lights is pure base color: every cell is plain, and the
/// body is just the leaf character repeated across the width.
pub proof fn lemma_no_lights_all_plain(leaf: char, cells: Seq<Option<TermColor>>)
    requires
        count_lit(cells) == 0,
    ensures
        forall|j: int| 0 <= j < cells.len() ==> cells[j] is None,
        spec_row_body(leaf, cells) =~= Seq::new(cells.len(), |k: int| leaf),
    decreases cells.len(),
{
    if cells.len() > 0 {
        lemma_lit_plus_plain(cells.drop_last());
        lemma_no_lights_all_plain(leaf, cells.drop_last());
        assert forall|j: int| 0 <= j < cells.len() implies cells[j] is None by {
            if j < cells.len() - 1 {
                assert(cells.drop_last()[j] is None);
            }
        }
    }
}

/// A row with as many lights as cells is fully lit: no cell is left plain.
pub proof fn lemma_full_lights_all_lit(cells: Seq<Option<TermColor>>)
    requires
        count_lit(cells) == cells.len(),
    ensures
        forall|j: int| 0 <= j < cells.len() ==> cells[j] is Some,
    decreases cells.len(),
{
    if cells.len() > 0 {
        lemma_lit_plus_plain(cells.drop_last());
        lemma_full_lights_all_lit(cells.drop_last());
        assert forall|j: int| 0 <= j < cells.len() implies cells[j] is Some by {
            if j < cells.len() - 1 {
                assert(cells.drop_last()[j] is Some);
            }
        }
    }
}

/// A zero fraction lights no leaf; the full fraction lights every leaf.
pub proof fn lemma_light_count_extremes(width: int)
    requires
        width >= 0,
    ensures
        spec_light_count(width, 0) == 0,
        spec_light_count(width, 100) == width,
{
    assert(width * 100 / 100 == width) by (nonlinear_arith)
        requires
            width >= 0,
    ;
}

/// The lit count never passes the row's width.
pub proof fn lemma_light_count_bounds(width: int, percent: int)
    requires
        width >= 0,
        0 <= percent <= 100,
    ensures
        0 <= spec_light_count(width, percent) <= width,
{
    assert(0 <= width * percent / 100 <= width) by (nonlinear_arith)
        requires
            width >= 0,
            0 <= percent <= 100,
    ;
}

/// How many of `width` leaves become lights at `percent` of a hundred.
pub fn light_count(width: usize, percent: u8) -> (r: usize)
    requires
        percent <= 100,
        width * 100 <= usize::MAX,
    ensures
        r == spec_light_count(width as int, percent as int),
        r <= width,
{
    proof {
        lemma_light_count_bounds(width as int, percent as int);
        assert(width * (percent as usize) <= width * 100) by (nonlinear_arith)
            requires
                percent <= 100,
        ;
    }
    (width * (percent as usize)) / 100
}

/// Relies on `rand::seq::index::sample`: exactly `amount` distinct indices
/// drawn uniformly from `0..length` without replacement, in random order.
/// The call panics when `amount > length`, so that case is excluded here.
#[verifier::external_body]
fn sample_indices(length: usize, amount: usize) -> (r: Vec<usize>)
    requires
        amount <= length,
    ensures
        r@.len() == amount,
        forall|k: int| 0 <= k < r@.len() ==> (#[trigger] r@[k]) < length,
        forall|j: int, k: int| 0 <= j < k < r@.len() ==> r@[j] != r@[k],
{
    rand::seq::index::sample(&mut rand::rng(), length, amount).into_vec()
}

/// Relies on `IndexedRandom::choose` from `rand`: `None` on an empty slice,
/// otherwise a uniformly chosen element of it.
#[verifier::external_body]
fn pick_color(colors: &[TermColor]) -> (r: Option<TermColor>)
    ensures
        r is Some <==> colors@.len() > 0,
        r matches Some(c) ==> colors@.contains(c),
{
    colors.choose(&mut rand::rng()).copied()
}

/// Draws which of `width` cells are lit — `lit` of them, distinct positions
/// chosen at random — and a random palette color for each light.
pub fn draw_cells(width: usize, lit: usize, palette: &[TermColor]) -> (cells: Vec<
    Option<TermColor>,
>)
    requires
        lit <= width,
        palette@.len() > 0,
    ensures
        cells_ok(cells@, palette@, width as int, lit as int),
{
    let indices = sample_indices(width, lit);
    let mut cells: Vec<Option<TermColor>> = Vec::new();
    let mut i: usize = 0;
    while i < width
        invariant
            i <= width,
            cells@.len() == i,
            count_lit(cells@) == 0,
            forall|j: int| 0 <= j < cells@.len() ==> cells@[j] is None,
        decreases width - i,
    {
        proof {
            lemma_count_push(cells@, None);
        }
        cells.push(None);
        i += 1;
    }
    let mut k: usize = 0;
    while k < lit
        invariant
            k <= lit,
            cells@.len() == width,
            indices@.len() == lit,
            lit <= width,
            palette@.len() > 0,
            forall|m: int| 0 <= m < indices@.len() ==> (#[trigger] indices@[m]) < width,
            forall|m: int, n: int| 0 <= m < n < indices@.len() ==> indices@[m] != indices@[n],
            count_lit(cells@) == k,
            forall|j: int|
                0 <= j < cells@.len() ==> ((#[trigger] cells@[j]) is Some <==> exists|m: int|
                    0 <= m < k && indices@[m] == j),
            forall|j: int|
                0 <= j < cells@.len() ==> ((#[trigger] cells@[j]) matches Some(c)
                    ==> palette@.contains(c)),
        decreases lit - k,
    {
        let pos = indices[k];
        proof {
            if cells@[pos as int] is Some {
                let m = choose|m: int| 0 <= m < k && indices@[m] == pos as int;
                assert(indices@[m] == indices@[k as int]);
                assert(false);
            }
        }
        let picked = pick_color(palette);
        match picked {
            Some(c) => {
                proof {
                    lemma_count_lit_update(cells@, pos as int, c);
                }
                cells.set(pos, Some(c));
                proof {
                    assert forall|j: int|
                        0 <= j < cells@.len() implies ((#[trigger] cells@[j]) is Some
                        <==> exists|m: int| 0 <= m < k + 1 && indices@[m] == j) by {
                        if cells@[j] is Some {
                            if j == pos as int {
                                assert(0 <= k < k + 1 && indices@[k as int] == j);
                            } else {
                                let m = choose|m: int| 0 <= m < k && indices@[m] == j;
                                assert(0 <= m < k + 1 && indices@[m] == j);
                            }
                        } else {
                            if exists|m: int| 0 <= m < k + 1 && indices@[m] == j {
                                let m = choose|m: int| 0 <= m < k + 1 && indices@[m] == j;
                                assert(m == k);
                                assert(false);
                            }
                        }
                    }
                }
            },
            None => {
                proof {
                    assert(false);
                }
            },
        }
        k += 1;
    }
    cells
}

/// Builds the row string a drawn sequence of cells denotes: the base green
/// escape, then each cell's contribution in order.
pub fn compose_row(leaf: char, cells: &Vec<Option<TermColor>>) -> (r: String)
    ensures
        r@ == spec_color_escape(TermColor::Green) + spec_row_body(leaf, cells@),
{
    let green = TermColor::Green.to_str();
    let mut buf = String::from_str(green);
    let mut i: usize = 0;
    while i < cells.len()
        invariant
            i <= cells@.len(),
            green@ == spec_color_escape(TermColor::Green),
            buf@ == spec_color_escape(TermColor::Green) + spec_row_body(
                leaf,
                cells@.take(i as int),
            ),
        decreases cells@.len() - i,
    {
        let cell = cells[i];
        match cell {
            None => {
                push_char(&mut buf, leaf);
            },
            Some(c) => {
                buf.append(c.to_str());
                push_char(&mut buf, leaf);
                buf.append(green);
            },
        }
        proof {
            let prev = cells@.take(i as int);
            lemma_row_body_push(leaf, prev, cells@[i as int]);
            assert(cells@.take(i + 1) =~= prev.push(cells@[i as int]));
            assert(spec_row_body(leaf, cells@.take(i + 1)) == spec_row_body(leaf, prev)
                + spec_cell(leaf, cells@[i as int]));
            assert(buf@ =~= spec_color_escape(TermColor::Green) + spec_row_body(
                leaf,
                cells@.take(i + 1),
            ));
        }
        i += 1;
    }
    proof {
        assert(cells@.take(cells@.len() as int) =~= cells@);
    }
    buf
}

/// Renders one leaf row, `leaf_count` leaves wide: a random
/// `floor(leaf_count * percent / 100)`-sized subset of positions is lit, each
/// light in a random color from `colors`, everything else in the base green.
pub fn leaves_with_lights(leaf: char, leaf_count: usize, colors: &[TermColor], percent: u8) -> (r:
    String)
    requires
        colors@.len() > 0,
        percent <= 100,
        leaf_count * 100 <= usize::MAX,
    ensures
        is_lit_row(
            r@,
            leaf,
            colors@,
            leaf_count as int,
            spec_light_count(leaf_count as int, percent as int),
        ),
{
    let lit = light_count(leaf_count, percent);
    let cells = draw_cells(leaf_count, lit, colors);
    let r = compose_row(leaf, &cells);
    proof {
        assert(cells_ok(cells@, colors@, leaf_count as int, lit as int));
    }
    r
}

} // verus!
