use crate::glyph::{glyph_of, glyph_pattern, Glyph, GLYPH_CELLS, GLYPH_WIDTH};
use crate::config::DisplayConfig;
use crate::layout::{layout, planned_layout, Layout, MAX_DATE_LEN};
use crate::time::{clock_digits, date_text, lemma_sample_in_range, sample, stamp, Instant, TimeSample};
use vstd::prelude::*;
use vstd::string::StrSliceExecFns;

verus! {

/// One two-column terminal cell to paint: in the clock colour where
/// `filled`, in the background colour otherwise.
#[derive(PartialEq, Eq, Structural, Clone, Copy, Debug)]
pub struct Paint {
    pub row: i32,
    pub col: i32,
    pub filled: bool,
}

/// The paints of a glyph with bitmap `cells` whose top-left cell is at
/// `row`, `col`: cell `i` lands on row `i / 3`, at column `2 * (i % 3)`.
pub open spec fn glyph_paints(cells: Seq<bool>, row: int, col: int) -> Seq<Paint> {
    Seq::new(
        cells.len(),
        |i: int|
            Paint {
                row: (row + i / GLYPH_WIDTH as int) as i32,
                col: (col + 2 * (i % GLYPH_WIDTH as int)) as i32,
                filled: cells[i],
            },
    )
}

/// The two dots of the separator at column `col`, upper then lower, one
/// and three rows below the top of the digits.
pub open spec fn dot_paints(col: i32, row: int, shown: bool) -> Seq<Paint> {
    seq![
        Paint { row: (row + 1) as i32, col, filled: shown },
        Paint { row: (row + 3) as i32, col, filled: shown },
    ]
}

/// The separator dots are shown: always, or on even seconds when they blink.
pub open spec fn dots_shown(blink: bool, second_ones: int) -> bool {
    !blink || second_ones % 2 == 0
}

/// The paints of the `k`-th pair of digits (hours, minutes, seconds), then
/// of the separator that follows it, if any.
pub open spec fn group_paints(digits: Seq<int>, l: Layout, shown: bool, k: int) -> Seq<Paint> {
    let row = l.digit_row as int;
    let cols = l.digit_cols@;
    let pair = glyph_paints(glyph_pattern(digits[2 * k]), row, cols[2 * k] as int)
        + glyph_paints(glyph_pattern(digits[2 * k + 1]), row, cols[2 * k + 1] as int);
    if k < l.separator_cols@.len() {
        pair + dot_paints(l.separator_cols@[k], row, shown)
    } else {
        pair
    }
}

/// The paints of the first `n` groups, in order.
pub open spec fn groups_paints(digits: Seq<int>, l: Layout, shown: bool, n: int) -> Seq<Paint>
    decreases n,
{
    if n <= 0 {
        Seq::empty()
    } else {
        groups_paints(digits, l, shown, n - 1) + group_paints(digits, l, shown, n - 1)
    }
}

/// Every paint of one frame, left to right: hours, first separator,
/// minutes, and with seconds the second separator and the seconds.
pub open spec fn frame_paints(digits: Seq<int>, l: Layout) -> Seq<Paint> {
    groups_paints(digits, l, dots_shown(l.blink, digits[5]), l.digit_cols@.len() as int / 2)
}

/// The paints that draw `glyph` with its top-left cell at `row`, `col`.
pub fn render(glyph: &Glyph, row: i32, col: i32) -> (r: Vec<Paint>)
    requires
        row <= i32::MAX - 4,
        col <= i32::MAX - 4,
    ensures
        r@ == glyph_paints(glyph.cells@, row as int, col as int),
{
    let mut r: Vec<Paint> = Vec::new();
    let mut i: usize = 0;
    while i < GLYPH_CELLS
        invariant
            i <= GLYPH_CELLS,
            glyph.cells@.len() == GLYPH_CELLS,
            row <= i32::MAX - 4,
            col <= i32::MAX - 4,
            r@ == glyph_paints(glyph.cells@, row as int, col as int).take(i as int),
        decreases GLYPH_CELLS - i,
    {
        let p = Paint {
            row: row + (i / GLYPH_WIDTH) as i32,
            col: col + 2 * (i % GLYPH_WIDTH) as i32,
            filled: glyph.cells[i],
        };
        r.push(p);
        i = i + 1;
        assert(r@ =~= glyph_paints(glyph.cells@, row as int, col as int).take(i as int));
    }
    assert(r@ =~= glyph_paints(glyph.cells@, row as int, col as int));
    r
}

/// The paints of one frame showing `sample` in `layout`: the glyphs of
/// each pair of digits at their columns, each followed by the separator
/// dots after it, which are hidden on odd seconds when they blink.
pub fn compose(sample: &TimeSample, layout: &Layout) -> (r: Vec<Paint>)
    requires
        layout.wf(),
        forall|i: int| 0 <= i < 6 ==> 0 <= #[trigger] sample.digits()[i] < 10,
    ensures
        r@ == frame_paints(sample.digits(), *layout),
{
    let digits: [usize; 6] = [sample.h1, sample.h2, sample.m1, sample.m2, sample.s1, sample.s2];
    assert(digits@ =~= sample.digits().map_values(|d: int| d as usize));
    let shown = !layout.blink || sample.s2 % 2 == 0;
    let row = layout.digit_row;
    let groups = layout.digit_cols.len() / 2;
    let mut r: Vec<Paint> = Vec::new();
    let mut k: usize = 0;
    while k < groups
        invariant
            k <= groups,
            groups == layout.digit_cols@.len() / 2,
            layout.wf(),
            row == layout.digit_row,
            shown == dots_shown(layout.blink, sample.digits()[5]),
            digits@ == sample.digits().map_values(|d: int| d as usize),
            forall|i: int| 0 <= i < 6 ==> 0 <= #[trigger] sample.digits()[i] < 10,
            r@ == groups_paints(sample.digits(), *layout, shown, k as int),
        decreases groups - k,
    {
        let ghost before = r@;
        assert(sample.digits()[2 * k as int] < 10);
        assert(sample.digits()[2 * k as int + 1] < 10);
        let mut tens = render(&glyph_of(digits[2 * k]), row, layout.digit_cols[2 * k]);
        r.append(&mut tens);
        let mut ones = render(&glyph_of(digits[2 * k + 1]), row, layout.digit_cols[2 * k + 1]);
        r.append(&mut ones);
        if k < layout.separator_cols.len() {
            let c = layout.separator_cols[k];
            r.push(Paint { row: row + 1, col: c, filled: shown });
            r.push(Paint { row: row + 3, col: c, filled: shown });
        }
        assert(r@ =~= before + group_paints(sample.digits(), *layout, shown, k as int));
        k = k + 1;
    }
    r
}

/// Everything one redraw shows: the sampled time, the layout it is drawn
/// in, and the paints of the clock face.
#[derive(Debug)]
pub struct Frame {
    pub sample: TimeSample,
    pub layout: Layout,
    pub paints: Vec<Paint>,
}

/// Width in terminal columns given to a date text: one per character.
pub open spec fn date_columns(text: Seq<char>) -> int {
    text.len() as int
}

/// The frame that shows `now` under `cfg` on a terminal of `term_rows` by
/// `term_cols`. The date is rendered only when the date line is shown; then
/// `None` comes exactly when the date format cannot render `now` or renders
/// a text too long for a window. Without the date line the sample carries
/// an empty date and a frame always comes.
pub fn frame_at(now: &Instant, cfg: &DisplayConfig, term_rows: i32, term_cols: i32) -> (r: Option<
    Frame,
>)
    requires
        now.wf(),
    ensures
        r is None <==> cfg.show_date && (date_text(*now, cfg.date_format@) is None
            || date_columns(date_text(*now, cfg.date_format@)->0) > MAX_DATE_LEN),
        r is Some ==> {
            let f = r->0;
            &&& f.sample.digits() == clock_digits(*now, cfg.hour_format)
            &&& f.sample.mode == cfg.hour_format
            &&& cfg.show_date ==> date_text(*now, cfg.date_format@) == Some(f.sample.date@)
            &&& !cfg.show_date ==> f.sample.date@.len() == 0
            &&& f.layout@ == planned_layout(
                cfg,
                term_rows,
                term_cols,
                date_columns(f.sample.date@),
            )
            &&& f.paints@ == frame_paints(clock_digits(*now, cfg.hour_format), f.layout)
        },
{
    let ts = if cfg.show_date {
        match sample(now, cfg.hour_format, cfg.date_format.as_str()) {
            Some(ts) => ts,
            None => {
                return None;
            },
        }
    } else {
        stamp(now, cfg.hour_format, String::new())
    };
    let date_len = ts.date.as_str().unicode_len();
    if date_len > MAX_DATE_LEN {
        return None;
    }
    let l = layout(cfg, term_rows, term_cols, date_len);
    proof {
        lemma_sample_in_range(*now, cfg.hour_format);
    }
    let paints = compose(&ts, &l);
    Some(Frame { sample: ts, layout: l, paints })
}

} // verus!
