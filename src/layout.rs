use crate::config::DisplayConfig;
use vstd::prelude::*;

verus! {

/// Rows of the clock window: a digit and a margin above and below.
pub const CLOCK_HEIGHT: i32 = 7;

/// Columns of the clock window with the seconds shown.
pub const WIDTH_WITH_SECONDS: i32 = 54;

/// Columns of the clock window without the seconds.
pub const WIDTH_WITHOUT_SECONDS: i32 = 35;

/// Terminal columns taken by one digit: three cells, each two wide.
pub const DIGIT_SPAN: i32 = 6;

/// Terminal columns taken by a separator dot.
pub const DOT_SPAN: i32 = 2;

/// Rows of the date window: the text and a margin above and below.
pub const DATE_HEIGHT: i32 = 3;

/// The longest date text whose window width still fits an `i32`.
pub const MAX_DATE_LEN: usize = 2147483645;

/// Position and size of a window on the screen.
#[derive(PartialEq, Eq, Structural, Clone, Copy, Debug)]
pub struct WindowRect {
    pub row: i32,
    pub col: i32,
    pub height: i32,
    pub width: i32,
}

/// The geometry of the clock face for one configuration.
#[derive(Debug)]
pub struct Layout {
    /// The clock window on the screen.
    pub frame: WindowRect,
    /// Row of the top of the digits, inside the clock window.
    pub digit_row: i32,
    /// Left column of each digit inside the clock window, left to right.
    pub digit_cols: Vec<i32>,
    /// Column of each separator inside the clock window, left to right.
    pub separator_cols: Vec<i32>,
    /// The date window, when the date line is shown.
    pub date: Option<WindowRect>,
    /// A border is drawn round the clock window.
    pub boxed: bool,
    /// The separator dots blink with the seconds.
    pub blink: bool,
}

/// The mathematical content of a `Layout`.
pub struct LayoutView {
    pub frame: WindowRect,
    pub digit_row: int,
    pub digit_cols: Seq<i32>,
    pub separator_cols: Seq<i32>,
    pub date: Option<WindowRect>,
    pub boxed: bool,
    pub blink: bool,
}

impl View for Layout {
    type V = LayoutView;

    open spec fn view(&self) -> LayoutView {
        LayoutView {
            frame: self.frame,
            digit_row: self.digit_row as int,
            digit_cols: self.digit_cols@,
            separator_cols: self.separator_cols@,
            date: self.date,
            boxed: self.boxed,
            blink: self.blink,
        }
    }
}

/// Width of the clock window.
pub open spec fn clock_width(show_seconds: bool) -> int {
    if show_seconds {
        WIDTH_WITH_SECONDS as int
    } else {
        WIDTH_WITHOUT_SECONDS as int
    }
}

/// Left columns of the digits H1, H2, M1, M2 and, with seconds, S1, S2.
pub open spec fn digit_columns(show_seconds: bool) -> Seq<i32> {
    if show_seconds {
        seq![1i32, 8, 20, 27, 39, 46]
    } else {
        seq![1i32, 8, 20, 27]
    }
}

/// Columns of the separators between hours and minutes and, with seconds,
/// between minutes and seconds.
pub open spec fn separator_columns(show_seconds: bool) -> Seq<i32> {
    if show_seconds {
        seq![16i32, 35]
    } else {
        seq![16i32]
    }
}

/// Offset that centres `size` in `room`, or 0 where it does not fit.
pub open spec fn center_offset(room: int, size: int) -> int {
    if room > size {
        (room - size) / 2
    } else {
        0
    }
}

/// The date window for a text of `date_len` columns: it overlaps the last
/// row of the clock window and is centred under it.
pub open spec fn date_window_under(frame: WindowRect, date_len: int) -> WindowRect {
    WindowRect {
        row: (frame.row + frame.height - 1) as i32,
        col: (frame.col + frame.width / 2 - date_len / 2 - 1) as i32,
        height: DATE_HEIGHT,
        width: (date_len + 2) as i32,
    }
}

/// The layout for `cfg` on a terminal of `term_rows` by `term_cols`, with a
/// date text of `date_len` columns.
pub open spec fn planned_layout(
    cfg: &DisplayConfig,
    term_rows: i32,
    term_cols: i32,
    date_len: int,
) -> LayoutView {
    let width = clock_width(cfg.show_seconds);
    let frame = WindowRect {
        row: if cfg.center {
            center_offset(term_rows as int, CLOCK_HEIGHT as int) as i32
        } else {
            0
        },
        col: if cfg.center {
            center_offset(term_cols as int, width) as i32
        } else {
            0
        },
        height: CLOCK_HEIGHT,
        width: width as i32,
    };
    LayoutView {
        frame,
        digit_row: 1,
        digit_cols: digit_columns(cfg.show_seconds),
        separator_cols: separator_columns(cfg.show_seconds),
        date: if cfg.show_date {
            Some(date_window_under(frame, date_len))
        } else {
            None
        },
        boxed: cfg.draw_box,
        blink: cfg.blink_colon,
    }
}

impl Layout {
    /// Four digits with one separator, or six with two; the digit row and
    /// columns leave room for a whole glyph within `i32`.
    pub open spec fn wf(&self) -> bool {
        &&& self.digit_cols@.len() == 4 || self.digit_cols@.len() == 6
        &&& self.separator_cols@.len() == self.digit_cols@.len() / 2 - 1
        &&& self.digit_row <= i32::MAX - 4
        &&& forall|i: int|
            0 <= i < self.digit_cols@.len() ==> #[trigger] self.digit_cols@[i] <= i32::MAX - 4
    }
}

/// Centres `size` in `room`, or 0 where it does not fit.
fn center(room: i32, size: i32) -> (r: i32)
    requires
        0 <= size,
    ensures
        r == center_offset(room as int, size as int),
{
    if room > size {
        (room - size) / 2
    } else {
        0
    }
}

/// The date window under `frame` for a text of `date_len` columns.
fn date_window(frame: WindowRect, date_len: usize) -> (r: WindowRect)
    requires
        date_len <= MAX_DATE_LEN,
        0 <= frame.row,
        0 <= frame.col,
        0 <= frame.width,
        1 <= frame.height,
        frame.row + frame.height <= i32::MAX,
        frame.col + frame.width <= i32::MAX,
    ensures
        r == date_window_under(frame, date_len as int),
{
    let half = (date_len / 2) as i32;
    WindowRect {
        row: frame.row + frame.height - 1,
        col: frame.col + frame.width / 2 - half - 1,
        height: DATE_HEIGHT,
        width: (date_len + 2) as i32,
    }
}

/// Computes the layout for `cfg` on a terminal of `term_rows` by
/// `term_cols`, with a date text of `date_len` columns.
pub fn layout(cfg: &DisplayConfig, term_rows: i32, term_cols: i32, date_len: usize) -> (l: Layout)
    requires
        date_len <= MAX_DATE_LEN,
    ensures
        l@ == planned_layout(cfg, term_rows, term_cols, date_len as int),
        l.wf(),
{
    let width = if cfg.show_seconds {
        WIDTH_WITH_SECONDS
    } else {
        WIDTH_WITHOUT_SECONDS
    };
    let frame = WindowRect {
        row: if cfg.center {
            center(term_rows, CLOCK_HEIGHT)
        } else {
            0
        },
        col: if cfg.center {
            center(term_cols, width)
        } else {
            0
        },
        height: CLOCK_HEIGHT,
        width,
    };
    let digit_cols = if cfg.show_seconds {
        vec![1i32, 8, 20, 27, 39, 46]
    } else {
        vec![1i32, 8, 20, 27]
    };
    let separator_cols = if cfg.show_seconds {
        vec![16i32, 35]
    } else {
        vec![16i32]
    };
    let date = if cfg.show_date {
        Some(date_window(frame, date_len))
    } else {
        None
    };
    let l = Layout {
        frame,
        digit_row: 1,
        digit_cols,
        separator_cols,
        date,
        boxed: cfg.draw_box,
        blink: cfg.blink_colon,
    };
    proof {
        assert(l.digit_cols@ =~= digit_columns(cfg.show_seconds));
        assert(l.separator_cols@ =~= separator_columns(cfg.show_seconds));
    }
    l
}

/// Keeps the clock where `layout` put it: moving it about the screen is
/// not a feature of this clock, so the request has no effect.
pub fn _clock_move(_x: i32, _y: i32, _w: i32, _h: i32) {
}

/// Digit spans never overlap: each digit ends before the next begins, the
/// separators sit in the gaps between hours, minutes and seconds, and the
/// whole face stays inside the clock window with a margin on each side.
pub proof fn lemma_digit_spans_disjoint(
    cfg: &DisplayConfig,
    term_rows: i32,
    term_cols: i32,
    date_len: int,
)
    ensures
        ({
            let v = planned_layout(cfg, term_rows, term_cols, date_len);
            let n = v.digit_cols.len();
            &&& n == if cfg.show_seconds {
                6int
            } else {
                4int
            }
            &&& v.separator_cols.len() == n / 2 - 1
            &&& forall|i: int, j: int|
                0 <= i < j < n ==> #[trigger] v.digit_cols[i] + DIGIT_SPAN
                    <= #[trigger] v.digit_cols[j]
            &&& forall|k: int|
                0 <= k < v.separator_cols.len() ==> v.digit_cols[2 * k + 1] + DIGIT_SPAN
                    < #[trigger] v.separator_cols[k] && v.separator_cols[k] + DOT_SPAN
                    < v.digit_cols[2 * k + 2]
            &&& 0 < v.digit_cols[0]
            &&& v.digit_cols[n - 1] + DIGIT_SPAN < v.frame.width
        }),
{
    let v = planned_layout(cfg, term_rows, term_cols, date_len);
    assert(v.digit_cols == digit_columns(cfg.show_seconds));
}

/// Layout is a function of its inputs: two layouts computed from the same
/// configuration, terminal size and date length are identical.
pub proof fn lemma_layout_deterministic(
    cfg: &DisplayConfig,
    term_rows: i32,
    term_cols: i32,
    date_len: int,
    a: Layout,
    b: Layout,
)
    requires
        a@ == planned_layout(cfg, term_rows, term_cols, date_len),
        b@ == planned_layout(cfg, term_rows, term_cols, date_len),
    ensures
        a@ == b@,
        a.frame == b.frame,
        a.digit_cols@ == b.digit_cols@,
        a.separator_cols@ == b.separator_cols@,
        a.date == b.date,
{
}

} // verus!
