use vstd::prelude::*;

verus! {

/// Logical columns of a glyph.
pub const GLYPH_WIDTH: usize = 3;

/// Logical rows of a glyph.
pub const GLYPH_HEIGHT: usize = 5;

/// Cells of a glyph, stored row-major.
pub const GLYPH_CELLS: usize = 15;

/// The bitmap of one decimal digit: `true` cells are painted.
pub struct Glyph {
    pub cells: [bool; 15],
}

/// The shape of digit `d` (0 to 9), row-major, three cells per row.
pub open spec fn glyph_pattern(d: int) -> Seq<bool> {
    let o = true;
    let x = false;
    if d == 0 {
        seq![o, o, o, o, x, o, o, x, o, o, x, o, o, o, o]
    } else if d == 1 {
        seq![x, x, o, x, x, o, x, x, o, x, x, o, x, x, o]
    } else if d == 2 {
        seq![o, o, o, x, x, o, o, o, o, o, x, x, o, o, o]
    } else if d == 3 {
        seq![o, o, o, x, x, o, o, o, o, x, x, o, o, o, o]
    } else if d == 4 {
        seq![o, x, o, o, x, o, o, o, o, x, x, o, x, x, o]
    } else if d == 5 {
        seq![o, o, o, o, x, x, o, o, o, x, x, o, o, o, o]
    } else if d == 6 {
        seq![o, o, o, o, x, x, o, o, o, o, x, o, o, o, o]
    } else if d == 7 {
        seq![o, o, o, x, x, o, x, x, o, x, x, o, x, x, o]
    } else if d == 8 {
        seq![o, o, o, o, x, o, o, o, o, o, x, o, o, o, o]
    } else {
        seq![o, o, o, o, x, o, o, o, o, x, x, o, o, o, o]
    }
}

/// The glyph of digit `d`.
pub fn glyph_of(d: usize) -> (g: Glyph)
    requires
        d < 10,
    ensures
        g.cells@ == glyph_pattern(d as int),
        g.cells@.len() == GLYPH_CELLS,
{
    let o = true;
    let x = false;
    let cells = if d == 0 {
        [o, o, o, o, x, o, o, x, o, o, x, o, o, o, o]
    } else if d == 1 {
        [x, x, o, x, x, o, x, x, o, x, x, o, x, x, o]
    } else if d == 2 {
        [o, o, o, x, x, o, o, o, o, o, x, x, o, o, o]
    } else if d == 3 {
        [o, o, o, x, x, o, o, o, o, x, x, o, o, o, o]
    } else if d == 4 {
        [o, x, o, o, x, o, o, o, o, x, x, o, x, x, o]
    } else if d == 5 {
        [o, o, o, o, x, x, o, o, o, x, x, o, o, o, o]
    } else if d == 6 {
        [o, o, o, o, x, x, o, o, o, o, x, o, o, o, o]
    } else if d == 7 {
        [o, o, o, x, x, o, x, x, o, x, x, o, x, x, o]
    } else if d == 8 {
        [o, o, o, o, x, o, o, o, o, o, x, o, o, o, o]
    } else {
        [o, o, o, o, x, o, o, o, o, x, x, o, o, o, o]
    };
    proof {
        assert(cells@ =~= glyph_pattern(d as int));
    }
    Glyph { cells }
}

/// Number of painted cells in a bitmap.
pub open spec fn lit_count(cells: Seq<bool>) -> nat
    decreases cells.len(),
{
    if cells.len() == 0 {
        0
    } else {
        lit_count(cells.drop_last()) + if cells.last() { 1nat } else { 0nat }
    }
}

/// Painted cells of each digit, in order 0 to 9.
pub open spec fn reference_lit_count(d: int) -> nat {
    seq![12nat, 5, 11, 11, 9, 11, 12, 7, 13, 12][d]
}

/// Every digit has a glyph of the same size whose painted cells number as
/// in the reference pattern; in particular 1 is the sparsest digit and 8 the
/// densest.
pub proof fn lemma_glyph_lit_counts(d: int)
    requires
        0 <= d < 10,
    ensures
        glyph_pattern(d).len() == GLYPH_CELLS == GLYPH_WIDTH * GLYPH_HEIGHT,
        lit_count(glyph_pattern(d)) == reference_lit_count(d),
        lit_count(glyph_pattern(1)) <= lit_count(glyph_pattern(d)) <= lit_count(glyph_pattern(8)),
{
    reveal_with_fuel(lit_count, 16);
    assert(lit_count(glyph_pattern(1)) == 5);
    assert(lit_count(glyph_pattern(8)) == 13);
    assert(lit_count(glyph_pattern(d)) == reference_lit_count(d));
}

} // verus!
