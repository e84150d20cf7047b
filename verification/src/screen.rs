//! The terminal screen buffer: cell grid, cursor, scroll region, scrollback.
//!
//! Every mutation is specified as a transition on [`ScreenView`], the
//! mathematical model of the buffer, and the well-formedness predicate
//! [`ScreenView::wf`] is maintained by every operation: the cursor stays on
//! the screen (the column may rest one past the right edge to model the
//! deferred wrap), the scroll region is a proper non-empty range above the
//! bottom of the screen, and the scrollback never exceeds its cap.

use vstd::prelude::*;

use crate::cell::{Cell, CellAttributes, Color};

verus! {

/// Number of evicted rows the scrollback retains.
pub const DEFAULT_SCROLLBACK: usize = 1000;

/// The mathematical model of a screen buffer.
#[verifier::ext_equal]
pub ghost struct ScreenView {
    /// The visible rows, outermost first; `grid[r][c]` is row `r`, column `c`.
    pub grid: Seq<Seq<Cell>>,
    pub cursor_row: nat,
    pub cursor_col: nat,
    pub cursor_visible: bool,
    /// Pen used for freshly written cells.
    pub fg: Color,
    pub bg: Color,
    pub attrs: CellAttributes,
    /// Scroll region, inclusive on both ends.
    pub scroll_top: nat,
    pub scroll_bottom: nat,
    pub saved_cursor: Option<(nat, nat)>,
    pub origin_mode: bool,
    /// Rows evicted off the top, oldest first.
    pub scrollback: Seq<Seq<Cell>>,
    pub scrollback_limit: nat,
    pub width: nat,
    pub height: nat,
    /// The window title announced by the last recognised OSC, if any.
    pub title: Option<Seq<u8>>,
}

/// A row of `w` blank cells.
pub open spec fn blank_row_spec(w: nat) -> Seq<Cell> {
    Seq::new(w, |i: int| Cell::blank_spec())
}

impl ScreenView {
    /// The invariant every operation preserves.
    pub open spec fn wf(self) -> bool {
        &&& 1 <= self.width
        &&& self.width <= 0xFFFF
        &&& 2 <= self.height
        &&& self.height <= 0xFFFF
        &&& self.grid.len() == self.height
        &&& forall|r: int| 0 <= r < self.grid.len() ==> (#[trigger] self.grid[r]).len() == self.width
        &&& self.cursor_row < self.height
        &&& self.cursor_col <= self.width
        &&& self.scroll_top < self.scroll_bottom
        &&& self.scroll_bottom < self.height
        &&& 1 <= self.scrollback_limit
        &&& self.scrollback.len() <= self.scrollback_limit
    }

    /// The cell the current pen writes for code point `c`.
    pub open spec fn pen_cell(self, c: char) -> Cell {
        Cell { character: c, fg: self.fg, bg: self.bg, attrs: self.attrs }
    }

    /// The model after replacing the cell at `(r, c)`.
    pub open spec fn with_cell(self, r: int, c: int, cell: Cell) -> ScreenView {
        ScreenView { grid: self.grid.update(r, self.grid[r].update(c, cell)), ..self }
    }
}

/// One scroll-up step: rows of the scroll region move up one place, the
/// freed bottom row becomes blank, and, when the region touches the top of
/// the screen, the departing top row is pushed into the scrollback (evicting
/// the oldest entry if the cap is reached).
pub open spec fn scroll_up_one_spec(v: ScreenView) -> ScreenView {
    let sb = if v.scroll_top == 0 {
        if v.scrollback.len() >= v.scrollback_limit {
            v.scrollback.skip(1).push(v.grid[0])
        } else {
            v.scrollback.push(v.grid[0])
        }
    } else {
        v.scrollback
    };
    ScreenView {
        grid: Seq::new(
            v.grid.len(),
            |r: int|
                if r < v.scroll_top || r > v.scroll_bottom {
                    v.grid[r]
                } else if r < v.scroll_bottom {
                    v.grid[r + 1]
                } else {
                    blank_row_spec(v.width)
                },
        ),
        scrollback: sb,
        ..v
    }
}

/// `n` scroll-up steps.
pub open spec fn scroll_up_spec(v: ScreenView, n: nat) -> ScreenView
    decreases n,
{
    if n == 0 {
        v
    } else {
        scroll_up_one_spec(scroll_up_spec(v, (n - 1) as nat))
    }
}

/// One scroll-down step: rows of the scroll region move down one place and
/// the freed top row becomes blank. Nothing reaches the scrollback.
pub open spec fn scroll_down_one_spec(v: ScreenView) -> ScreenView {
    ScreenView {
        grid: Seq::new(
            v.grid.len(),
            |r: int|
                if r < v.scroll_top || r > v.scroll_bottom {
                    v.grid[r]
                } else if r > v.scroll_top {
                    v.grid[r - 1]
                } else {
                    blank_row_spec(v.width)
                },
        ),
        ..v
    }
}

/// `n` scroll-down steps.
pub open spec fn scroll_down_spec(v: ScreenView, n: nat) -> ScreenView
    decreases n,
{
    if n == 0 {
        v
    } else {
        scroll_down_one_spec(scroll_down_spec(v, (n - 1) as nat))
    }
}

/// One cursor-down step: at or below the scroll bottom the region scrolls
/// and the row stays; above it the row advances.
pub open spec fn move_down_one_spec(v: ScreenView) -> ScreenView {
    if v.cursor_row >= v.scroll_bottom {
        scroll_up_one_spec(v)
    } else {
        ScreenView { cursor_row: (v.cursor_row + 1) as nat, ..v }
    }
}

/// `n` cursor-down steps.
pub open spec fn move_down_spec(v: ScreenView, n: nat) -> ScreenView
    decreases n,
{
    if n == 0 {
        v
    } else {
        move_down_one_spec(move_down_spec(v, (n - 1) as nat))
    }
}

/// Carriage return: the column goes to zero.
pub open spec fn carriage_return_spec(v: ScreenView) -> ScreenView {
    ScreenView { cursor_col: 0, ..v }
}

/// Backspace: the column falls by one, stopping at zero.
pub open spec fn backspace_spec(v: ScreenView) -> ScreenView {
    ScreenView {
        cursor_col: if v.cursor_col >= 1 {
            (v.cursor_col - 1) as nat
        } else {
            0
        },
        ..v
    }
}

/// Horizontal tab: the column advances to the next multiple of eight,
/// stopping at the last column.
pub open spec fn tab_spec(v: ScreenView) -> ScreenView {
    ScreenView {
        cursor_col: {
            let next = (v.cursor_col / 8 + 1) * 8;
            if next <= v.width - 1 {
                next as nat
            } else {
                (v.width - 1) as nat
            }
        },
        ..v
    }
}

/// Cursor down with clamping: the row advances by `n` but never past the
/// scroll bottom, and nothing scrolls.
pub open spec fn cursor_down_clamped_spec(v: ScreenView, n: nat) -> ScreenView {
    ScreenView {
        cursor_row: if v.cursor_row + n <= v.scroll_bottom {
            (v.cursor_row + n) as nat
        } else {
            v.scroll_bottom
        },
        ..v
    }
}

/// Cursor forward: the column advances by `n`, stopping at the last
/// column.
pub open spec fn cursor_forward_spec(v: ScreenView, n: nat) -> ScreenView {
    ScreenView {
        cursor_col: if v.cursor_col + n <= v.width - 1 {
            (v.cursor_col + n) as nat
        } else {
            (v.width - 1) as nat
        },
        ..v
    }
}

/// Cursor back: the column falls by `n`, stopping at zero.
pub open spec fn cursor_back_spec(v: ScreenView, n: nat) -> ScreenView {
    ScreenView {
        cursor_col: if v.cursor_col >= n {
            (v.cursor_col - n) as nat
        } else {
            0
        },
        ..v
    }
}

/// Cursor to the 1-indexed column `n`, clamped to the last column.
pub open spec fn cursor_column_spec(v: ScreenView, n: nat) -> ScreenView {
    let c0 = if n >= 1 {
        (n - 1) as nat
    } else {
        0
    };
    ScreenView {
        cursor_col: if c0 <= v.width - 1 {
            c0
        } else {
            (v.width - 1) as nat
        },
        ..v
    }
}

/// Cursor up: the row falls by `n` but never above the scroll top.
pub open spec fn move_up_spec(v: ScreenView, n: nat) -> ScreenView {
    let fallen = if v.cursor_row >= n {
        (v.cursor_row - n) as nat
    } else {
        0
    };
    let row = if fallen >= v.scroll_top {
        fallen
    } else {
        v.scroll_top
    };
    ScreenView { cursor_row: row, ..v }
}

/// Writing one code point: a pending wrap (column at the width) first moves
/// the cursor to column zero of the next line (scrolling if needed), then
/// the cell under the cursor is written with the current pen and the column
/// advances by one.
pub open spec fn print_spec(v: ScreenView, c: char) -> ScreenView {
    let v1 = if v.cursor_col >= v.width {
        move_down_one_spec(ScreenView { cursor_col: 0, ..v })
    } else {
        v
    };
    let v2 = v1.with_cell(v1.cursor_row as int, v1.cursor_col as int, v1.pen_cell(c));
    ScreenView { cursor_col: (v1.cursor_col + 1) as nat, ..v2 }
}

/// `row` with columns `from <= c < to` blanked.
pub open spec fn row_blanked_spec(row: Seq<Cell>, from: int, to: int) -> Seq<Cell> {
    Seq::new(row.len(), |i: int| if from <= i && i < to {
        Cell::blank_spec()
    } else {
        row[i]
    })
}

/// Erase in line. Mode 0 blanks from the cursor to the end of the line,
/// mode 1 from the start of the line through the cursor, mode 2 the whole
/// line. The cursor does not move.
pub open spec fn erase_line_spec(v: ScreenView, mode: int) -> ScreenView {
    let row = v.grid[v.cursor_row as int];
    let erased = if mode == 0 {
        row_blanked_spec(row, v.cursor_col as int, v.width as int)
    } else if mode == 1 {
        row_blanked_spec(row, 0, v.cursor_col + 1 as int)
    } else {
        row_blanked_spec(row, 0, v.width as int)
    };
    ScreenView { grid: v.grid.update(v.cursor_row as int, erased), ..v }
}

/// Erase in display, modes 0 and 1. Mode 0 blanks from the cursor to the
/// end of the screen, mode 1 from the start of the screen through the
/// cursor. The cursor does not move. (Modes 2 and 3 are [`clear_spec`].)
pub open spec fn erase_screen_spec(v: ScreenView, mode: int) -> ScreenView {
    let grid = Seq::new(
        v.grid.len(),
        |r: int|
            if r == v.cursor_row {
                if mode == 0 {
                    row_blanked_spec(v.grid[r], v.cursor_col as int, v.width as int)
                } else {
                    row_blanked_spec(v.grid[r], 0, v.cursor_col + 1 as int)
                }
            } else if (mode == 0 && r > v.cursor_row) || (mode == 1 && r < v.cursor_row) {
                blank_row_spec(v.width)
            } else {
                v.grid[r]
            },
    );
    ScreenView { grid, ..v }
}

/// Whole screen blanked and the cursor homed; pen, modes, region and
/// scrollback are untouched.
pub open spec fn clear_spec(v: ScreenView) -> ScreenView {
    ScreenView {
        grid: Seq::new(v.grid.len(), |r: int| blank_row_spec(v.width)),
        cursor_row: 0,
        cursor_col: 0,
        ..v
    }
}

/// One inserted blank line at the cursor: rows from the cursor move down
/// within the scroll region, the bottom row of the region drops out.
pub open spec fn insert_line_one_spec(v: ScreenView) -> ScreenView {
    ScreenView {
        grid: Seq::new(
            v.grid.len(),
            |r: int|
                if r < v.cursor_row || r > v.scroll_bottom {
                    v.grid[r]
                } else if r == v.cursor_row {
                    blank_row_spec(v.width)
                } else {
                    v.grid[r - 1]
                },
        ),
        ..v
    }
}

/// One deleted line at the cursor: rows below move up within the scroll
/// region, the bottom row of the region becomes blank.
pub open spec fn delete_line_one_spec(v: ScreenView) -> ScreenView {
    ScreenView {
        grid: Seq::new(
            v.grid.len(),
            |r: int|
                if r < v.cursor_row || r > v.scroll_bottom {
                    v.grid[r]
                } else if r < v.scroll_bottom {
                    v.grid[r + 1]
                } else {
                    blank_row_spec(v.width)
                },
        ),
        ..v
    }
}

/// `n` inserted blank lines; a no-op when the cursor is outside the scroll
/// region.
pub open spec fn insert_lines_iter_spec(v: ScreenView, n: nat) -> ScreenView
    decreases n,
{
    if n == 0 {
        v
    } else {
        insert_line_one_spec(insert_lines_iter_spec(v, (n - 1) as nat))
    }
}

/// See [`insert_lines_iter_spec`].
pub open spec fn insert_lines_spec(v: ScreenView, n: nat) -> ScreenView {
    if v.cursor_row < v.scroll_top || v.cursor_row > v.scroll_bottom {
        v
    } else {
        insert_lines_iter_spec(v, n)
    }
}

/// `n` deleted lines; a no-op when the cursor is outside the scroll region.
pub open spec fn delete_lines_iter_spec(v: ScreenView, n: nat) -> ScreenView
    decreases n,
{
    if n == 0 {
        v
    } else {
        delete_line_one_spec(delete_lines_iter_spec(v, (n - 1) as nat))
    }
}

/// See [`delete_lines_iter_spec`].
pub open spec fn delete_lines_spec(v: ScreenView, n: nat) -> ScreenView {
    if v.cursor_row < v.scroll_top || v.cursor_row > v.scroll_bottom {
        v
    } else {
        delete_lines_iter_spec(v, n)
    }
}

/// The cursor row with `n` characters deleted at the cursor: cells shift
/// left, blanks fill in from the right edge.
pub open spec fn delete_chars_row_spec(row: Seq<Cell>, col: int, n: int) -> Seq<Cell> {
    Seq::new(row.len(), |i: int| if i < col {
        row[i]
    } else if i + n < row.len() {
        row[i + n]
    } else {
        Cell::blank_spec()
    })
}

/// The cursor row with `n` blanks inserted at the cursor: cells shift
/// right, those pushed past the right edge drop out.
pub open spec fn insert_chars_row_spec(row: Seq<Cell>, col: int, n: int) -> Seq<Cell> {
    Seq::new(row.len(), |i: int| if i < col {
        row[i]
    } else if i < col + n {
        Cell::blank_spec()
    } else {
        row[i - n]
    })
}

/// Cursor addressing with 1-indexed inputs: the row is clamped to the
/// scroll region in origin mode and to the screen otherwise; the column is
/// clamped to the last column.
pub open spec fn cursor_position_spec(v: ScreenView, row: nat, col: nat) -> ScreenView {
    let r0 = if row >= 1 {
        (row - 1) as nat
    } else {
        0
    };
    let c0 = if col >= 1 {
        (col - 1) as nat
    } else {
        0
    };
    let minr = if v.origin_mode {
        v.scroll_top
    } else {
        0
    };
    let maxr = if v.origin_mode {
        v.scroll_bottom
    } else {
        (v.height - 1) as nat
    };
    let r1 = if r0 < minr {
        minr
    } else if r0 > maxr {
        maxr
    } else {
        r0
    };
    let c1 = if c0 <= v.width - 1 {
        c0
    } else {
        (v.width - 1) as nat
    };
    ScreenView { cursor_row: r1, cursor_col: c1, ..v }
}

/// Scroll-region selection with 1-indexed inclusive bounds, both clamped to
/// the screen. A region whose top does not lie strictly above its bottom is
/// rejected: the state is unchanged. On success the cursor is homed through
/// [`cursor_position_spec`] under the new region.
pub open spec fn set_scroll_region_spec(v: ScreenView, top: nat, bottom: nat) -> ScreenView {
    let t0 = if top >= 1 {
        (top - 1) as nat
    } else {
        0
    };
    let b0 = if bottom >= 1 {
        (bottom - 1) as nat
    } else {
        0
    };
    let t = if t0 <= v.height - 1 {
        t0
    } else {
        (v.height - 1) as nat
    };
    let b = if b0 <= v.height - 1 {
        b0
    } else {
        (v.height - 1) as nat
    };
    if t < b {
        cursor_position_spec(ScreenView { scroll_top: t, scroll_bottom: b, ..v }, 1, 1)
    } else {
        v
    }
}

/// Reverse index: at (or above) the scroll top the region scrolls down;
/// below it the row falls by one.
pub open spec fn reverse_index_spec(v: ScreenView) -> ScreenView {
    if v.cursor_row <= v.scroll_top {
        scroll_down_one_spec(v)
    } else {
        ScreenView { cursor_row: (v.cursor_row - 1) as nat, ..v }
    }
}

/// Restore of the saved cursor, clamped to the current dimensions; without
/// a saved slot nothing changes.
pub open spec fn restore_cursor_spec(v: ScreenView) -> ScreenView {
    match v.saved_cursor {
        Some((r, c)) => ScreenView {
            cursor_row: if r <= v.height - 1 {
                r
            } else {
                (v.height - 1) as nat
            },
            cursor_col: if c <= v.width {
                c
            } else {
                v.width
            },
            ..v
        },
        None => v,
    }
}

/// A row truncated or right-padded with blanks to width `w`.
pub open spec fn resize_row_spec(row: Seq<Cell>, w: nat) -> Seq<Cell> {
    Seq::new(w, |i: int| if i < row.len() {
        row[i]
    } else {
        Cell::blank_spec()
    })
}

/// `n` characters deleted at the cursor (see [`delete_chars_row_spec`]).
pub open spec fn delete_chars_spec(v: ScreenView, n: nat) -> ScreenView {
    ScreenView {
        grid: v.grid.update(
            v.cursor_row as int,
            delete_chars_row_spec(v.grid[v.cursor_row as int], v.cursor_col as int, n as int),
        ),
        ..v
    }
}

/// `n` blanks inserted at the cursor (see [`insert_chars_row_spec`]).
pub open spec fn insert_chars_spec(v: ScreenView, n: nat) -> ScreenView {
    ScreenView {
        grid: v.grid.update(
            v.cursor_row as int,
            insert_chars_row_spec(v.grid[v.cursor_row as int], v.cursor_col as int, n as int),
        ),
        ..v
    }
}

/// `n` cells replaced by blanks at the cursor, nothing shifts.
pub open spec fn erase_chars_spec(v: ScreenView, n: nat) -> ScreenView {
    ScreenView {
        grid: v.grid.update(
            v.cursor_row as int,
            row_blanked_spec(
                v.grid[v.cursor_row as int],
                v.cursor_col as int,
                v.cursor_col + n as int,
            ),
        ),
        ..v
    }
}

/// Full reset: blank screen, cursor homed and visible, pen and origin mode
/// reset, scroll region back to the whole screen. Dimensions, scrollback
/// and the saved cursor are untouched.
pub open spec fn reset_spec(v: ScreenView) -> ScreenView {
    ScreenView {
        grid: Seq::new(v.grid.len(), |r: int| blank_row_spec(v.width)),
        cursor_row: 0,
        cursor_col: 0,
        cursor_visible: true,
        fg: Color::Reset,
        bg: Color::Reset,
        attrs: CellAttributes::none_spec(),
        origin_mode: false,
        scroll_top: 0,
        scroll_bottom: (v.height - 1) as nat,
        ..v
    }
}

/// Resize to `w` columns and `h` rows: every kept row is truncated or
/// padded, new rows are blank, the scroll region is re-anchored to the new
/// bottom (the top resets to zero when it would no longer lie above the
/// bottom), and the cursor is clamped onto the screen. The scrollback is
/// not reflowed. Resizing to the current dimensions changes nothing.
pub open spec fn resize_spec(v: ScreenView, w: nat, h: nat) -> ScreenView {
    if w == v.width && h == v.height {
        v
    } else {
        ScreenView {
            grid: Seq::new(h, |r: int| if r < v.grid.len() {
                resize_row_spec(v.grid[r], w)
            } else {
                blank_row_spec(w)
            }),
            width: w,
            height: h,
            scroll_top: if v.scroll_top >= h - 1 {
                0
            } else {
                v.scroll_top
            },
            scroll_bottom: (h - 1) as nat,
            cursor_row: if v.cursor_row <= h - 1 {
                v.cursor_row
            } else {
                (h - 1) as nat
            },
            cursor_col: if v.cursor_col <= w - 1 {
                v.cursor_col
            } else {
                (w - 1) as nat
            },
            ..v
        }
    }
}

proof fn lemma_scroll_up_one_wf(v: ScreenView)
    requires
        v.wf(),
    ensures
        scroll_up_one_spec(v).wf(),
{
}

proof fn lemma_scroll_up_wf(v: ScreenView, n: nat)
    requires
        v.wf(),
    ensures
        scroll_up_spec(v, n).wf(),
    decreases n,
{
    if n > 0 {
        lemma_scroll_up_wf(v, (n - 1) as nat);
        lemma_scroll_up_one_wf(scroll_up_spec(v, (n - 1) as nat));
    }
}

proof fn lemma_scroll_down_wf(v: ScreenView, n: nat)
    requires
        v.wf(),
    ensures
        scroll_down_spec(v, n).wf(),
    decreases n,
{
    if n > 0 {
        lemma_scroll_down_wf(v, (n - 1) as nat);
    }
}

proof fn lemma_move_down_wf(v: ScreenView, n: nat)
    requires
        v.wf(),
    ensures
        move_down_spec(v, n).wf(),
    decreases n,
{
    if n > 0 {
        lemma_move_down_wf(v, (n - 1) as nat);
        lemma_scroll_up_one_wf(move_down_spec(v, (n - 1) as nat));
    }
}

/// The terminal screen buffer.
pub struct TerminalBuffer {
    width: u16,
    height: u16,
    cells: Vec<Vec<Cell>>,
    cursor_row: u16,
    cursor_col: u16,
    cursor_visible: bool,
    scrollback: Vec<Vec<Cell>>,
    scrollback_limit: usize,
    current_fg: Color,
    current_bg: Color,
    current_attrs: CellAttributes,
    scroll_top: u16,
    scroll_bottom: u16,
    saved_cursor: Option<(u16, u16)>,
    origin_mode: bool,
    title: Option<Vec<u8>>,
}

impl View for TerminalBuffer {
    type V = ScreenView;

    closed spec fn view(&self) -> ScreenView {
        ScreenView {
            grid: Seq::new(self.cells@.len() as nat, |r: int| self.cells@[r]@),
            cursor_row: self.cursor_row as nat,
            cursor_col: self.cursor_col as nat,
            cursor_visible: self.cursor_visible,
            fg: self.current_fg,
            bg: self.current_bg,
            attrs: self.current_attrs,
            scroll_top: self.scroll_top as nat,
            scroll_bottom: self.scroll_bottom as nat,
            saved_cursor: match self.saved_cursor {
                Some((r, c)) => Some((r as nat, c as nat)),
                None => None,
            },
            origin_mode: self.origin_mode,
            scrollback: Seq::new(self.scrollback@.len() as nat, |i: int| self.scrollback@[i]@),
            scrollback_limit: self.scrollback_limit as nat,
            width: self.width as nat,
            height: self.height as nat,
            title: match &self.title {
                Some(t) => Some(t@),
                None => None,
            },
        }
    }
}

/// A freshly allocated row of `w` blank cells.
fn make_blank_row(w: u16) -> (r: Vec<Cell>)
    ensures
        r@ =~= blank_row_spec(w as nat),
{
    let mut row: Vec<Cell> = Vec::new();
    let mut i: u16 = 0;
    while i < w
        invariant
            i <= w,
            row@ =~= blank_row_spec(i as nat),
        decreases w - i,
    {
        row.push(Cell::blank());
        i = i + 1;
        proof {
            assert(row@ =~= blank_row_spec(i as nat));
        }
    }
    row
}

/// A fresh blank screen: cursor at the origin, pen reset, scroll region
/// covering the whole screen, empty scrollback capped at
/// [`DEFAULT_SCROLLBACK`].
pub open spec fn fresh_screen_spec(w: nat, h: nat) -> ScreenView {
    ScreenView {
        grid: Seq::new(h, |r: int| blank_row_spec(w)),
        cursor_row: 0,
        cursor_col: 0,
        cursor_visible: true,
        fg: Color::Reset,
        bg: Color::Reset,
        attrs: CellAttributes::none_spec(),
        scroll_top: 0,
        scroll_bottom: (h - 1) as nat,
        saved_cursor: None,
        origin_mode: false,
        scrollback: Seq::empty(),
        scrollback_limit: DEFAULT_SCROLLBACK as nat,
        width: w,
        height: h,
        title: None,
    }
}

impl TerminalBuffer {
    /// The buffer is well formed.
    pub open spec fn wf(&self) -> bool {
        self@.wf()
    }

    /// A fresh blank buffer (see [`fresh_screen_spec`]).
    pub fn new(width: u16, height: u16) -> (r: TerminalBuffer)
        requires
            1 <= width,
            2 <= height,
        ensures
            r.wf(),
            r@ == fresh_screen_spec(width as nat, height as nat),
    {
        let mut cells: Vec<Vec<Cell>> = Vec::new();
        let mut i: u16 = 0;
        while i < height
            invariant
                i <= height,
                cells@.len() == i as nat,
                forall|r: int| 0 <= r < i as int ==> (#[trigger] cells@[r])@ =~= blank_row_spec(
                    width as nat,
                ),
            decreases height - i,
        {
            cells.push(make_blank_row(width));
            i = i + 1;
        }
        let b = TerminalBuffer {
            width,
            height,
            cells,
            cursor_row: 0,
            cursor_col: 0,
            cursor_visible: true,
            scrollback: Vec::new(),
            scrollback_limit: DEFAULT_SCROLLBACK,
            current_fg: Color::Reset,
            current_bg: Color::Reset,
            current_attrs: CellAttributes::none(),
            scroll_top: 0,
            scroll_bottom: height - 1,
            saved_cursor: None,
            origin_mode: false,
            title: None,
        };
        proof {
            assert(b@ =~~= fresh_screen_spec(width as nat, height as nat));
        }
        b
    }

    /// Buffer dimensions as `(width, height)`.
    pub fn size(&self) -> (r: (u16, u16))
        ensures
            r.0 as nat == self@.width,
            r.1 as nat == self@.height,
    {
        (self.width, self.height)
    }

    /// Cursor position as `(row, col)`, zero-indexed.
    pub fn cursor(&self) -> (r: (u16, u16))
        ensures
            r.0 as nat == self@.cursor_row,
            r.1 as nat == self@.cursor_col,
    {
        (self.cursor_row, self.cursor_col)
    }

    /// Whether the cursor is visible.
    pub fn cursor_visible(&self) -> (r: bool)
        ensures
            r == self@.cursor_visible,
    {
        self.cursor_visible
    }

    /// The visible cell grid.
    pub fn cells(&self) -> (r: &Vec<Vec<Cell>>)
        ensures
            r@.len() == self@.grid.len(),
            forall|i: int| 0 <= i < r@.len() ==> (#[trigger] r@[i])@ == self@.grid[i],
    {
        &self.cells
    }

    /// The cell at `(row, col)`, if on the screen.
    pub fn get_cell(&self, row: u16, col: u16) -> (r: Option<&Cell>)
        ensures
            (row as nat) < self@.grid.len() && (col as nat) < self@.grid[row as int].len()
                ==> (r matches Some(c) && *c == self@.grid[row as int][col as int]),
            !((row as nat) < self@.grid.len() && (col as nat) < self@.grid[row as int].len())
                ==> r is None,
    {
        if (row as usize) < self.cells.len() {
            let line = &self.cells[row as usize];
            if (col as usize) < line.len() {
                Some(&line[col as usize])
            } else {
                None
            }
        } else {
            None
        }
    }

    /// The number of rows currently held in the scrollback.
    pub fn scrollback_len(&self) -> (r: usize)
        ensures
            r as nat == self@.scrollback.len(),
    {
        self.scrollback.len()
    }

    /// The scrollback row at `i` (oldest first), if present.
    pub fn scrollback_row(&self, i: usize) -> (r: Option<&Vec<Cell>>)
        ensures
            (i as nat) < self@.scrollback.len() ==> (r matches Some(v) && v@ == self@.scrollback[i as int]),
            (i as nat) >= self@.scrollback.len() ==> r is None,
    {
        if i < self.scrollback.len() {
            Some(&self.scrollback[i])
        } else {
            None
        }
    }

    /// Scroll region as `(top, bottom)`, inclusive.
    pub fn scroll_region(&self) -> (r: (u16, u16))
        ensures
            r.0 as nat == self@.scroll_top,
            r.1 as nat == self@.scroll_bottom,
    {
        (self.scroll_top, self.scroll_bottom)
    }

    /// Carriage return: the column goes to zero.
    pub fn carriage_return(&mut self)
        requires
            old(self).wf(),
        ensures
            final(self).wf(),
            final(self)@ == carriage_return_spec(old(self)@),
    {
        self.cursor_col = 0;
        proof {
            assert(self@ =~~= carriage_return_spec(old(self)@));
        }
    }

    /// Backspace: the column falls by one, stopping at zero.
    pub fn backspace(&mut self)
        requires
            old(self).wf(),
        ensures
            final(self).wf(),
            final(self)@ == backspace_spec(old(self)@),
    {
        if self.cursor_col > 0 {
            self.cursor_col = self.cursor_col - 1;
        }
        proof {
            assert(self@ =~~= backspace_spec(old(self)@));
        }
    }

    /// Horizontal tab: the column advances to the next multiple of eight,
    /// stopping at the last column.
    pub fn tab(&mut self)
        requires
            old(self).wf(),
        ensures
            final(self).wf(),
            final(self)@ == tab_spec(old(self)@),
    {
        let next: u32 = ((self.cursor_col / 8) as u32 + 1) * 8;
        let last: u32 = (self.width - 1) as u32;
        self.cursor_col = if next <= last {
            next as u16
        } else {
            self.width - 1
        };
        proof {
            assert(self@ =~~= tab_spec(old(self)@));
        }
    }

    /// Cursor down by `n`, clamped at the scroll bottom; nothing scrolls.
    pub fn cursor_down_clamped(&mut self, count: u16)
        requires
            old(self).wf(),
        ensures
            final(self).wf(),
            final(self)@ == cursor_down_clamped_spec(old(self)@, count as nat),
    {
        let target: u32 = (self.cursor_row as u32) + (count as u32);
        self.cursor_row = if target <= self.scroll_bottom as u32 {
            target as u16
        } else {
            self.scroll_bottom
        };
        proof {
            assert(self@ =~~= cursor_down_clamped_spec(old(self)@, count as nat));
        }
    }

    /// Cursor forward by `n`, stopping at the last column.
    pub fn cursor_forward(&mut self, count: u16)
        requires
            old(self).wf(),
        ensures
            final(self).wf(),
            final(self)@ == cursor_forward_spec(old(self)@, count as nat),
    {
        let target: u32 = (self.cursor_col as u32) + (count as u32);
        self.cursor_col = if target <= (self.width - 1) as u32 {
            target as u16
        } else {
            self.width - 1
        };
        proof {
            assert(self@ =~~= cursor_forward_spec(old(self)@, count as nat));
        }
    }

    /// Cursor back by `n`, stopping at column zero.
    pub fn cursor_back(&mut self, count: u16)
        requires
            old(self).wf(),
        ensures
            final(self).wf(),
            final(self)@ == cursor_back_spec(old(self)@, count as nat),
    {
        self.cursor_col = if self.cursor_col >= count {
            self.cursor_col - count
        } else {
            0
        };
        proof {
            assert(self@ =~~= cursor_back_spec(old(self)@, count as nat));
        }
    }

    /// Cursor to the 1-indexed column `n`, clamped to the last column.
    pub fn cursor_column(&mut self, n: u16)
        requires
            old(self).wf(),
        ensures
            final(self).wf(),
            final(self)@ == cursor_column_spec(old(self)@, n as nat),
    {
        let c0 = if n >= 1 {
            n - 1
        } else {
            0
        };
        self.cursor_col = if c0 <= self.width - 1 {
            c0
        } else {
            self.width - 1
        };
        proof {
            assert(self@ =~~= cursor_column_spec(old(self)@, n as nat));
        }
    }

    /// Record a window title announced by an OSC.
    pub fn set_title(&mut self, t: Vec<u8>)
        requires
            old(self).wf(),
        ensures
            final(self).wf(),
            final(self)@ == (ScreenView { title: Some(t@), ..old(self)@ }),
    {
        self.title = Some(t);
        proof {
            assert(self@ =~~= (ScreenView { title: Some(t@), ..old(self)@ }));
        }
    }

    /// The window title announced by the last recognised OSC, if any.
    pub fn title(&self) -> (r: Option<&Vec<u8>>)
        ensures
            match r {
                Some(t) => self@.title == Some(t@),
                None => self@.title is None,
            },
    {
        match &self.title {
            Some(t) => Some(t),
            None => None,
        }
    }

    /// Cursor up by `n`, clamped at the scroll top.
    pub fn move_cursor_up(&mut self, count: u16)
        requires
            old(self).wf(),
        ensures
            final(self).wf(),
            final(self)@ == move_up_spec(old(self)@, count as nat),
    {
        let fallen = if self.cursor_row >= count {
            self.cursor_row - count
        } else {
            0
        };
        self.cursor_row = if fallen >= self.scroll_top {
            fallen
        } else {
            self.scroll_top
        };
        proof {
            assert(self@ =~~= move_up_spec(old(self)@, count as nat));
        }
    }

    /// One scroll-up step (see [`scroll_up_one_spec`]).
    fn scroll_up_once(&mut self)
        requires
            old(self).wf(),
        ensures
            final(self).wf(),
            final(self)@ == scroll_up_one_spec(old(self)@),
    {
        let top = self.scroll_top as usize;
        let bottom = self.scroll_bottom as usize;
        let removed = self.cells.remove(top);
        let blank = make_blank_row(self.width);
        self.cells.insert(bottom, blank);
        if self.scroll_top == 0 {
            if self.scrollback.len() >= self.scrollback_limit {
                self.scrollback.remove(0);
            }
            self.scrollback.push(removed);
        }
        proof {
            assert(self@ =~~= scroll_up_one_spec(old(self)@));
        }
    }

    /// Scroll the region up `count` times; rows leaving a region that
    /// touches the top of the screen go to the scrollback.
    pub fn scroll_up(&mut self, count: u16)
        requires
            old(self).wf(),
        ensures
            final(self).wf(),
            final(self)@ == scroll_up_spec(old(self)@, count as nat),
    {
        let mut i: u16 = 0;
        while i < count
            invariant
                old(self).wf(),
                self.wf(),
                i <= count,
                self@ == scroll_up_spec(old(self)@, i as nat),
            decreases count - i,
        {
            self.scroll_up_once();
            i = i + 1;
        }
    }

    /// One scroll-down step (see [`scroll_down_one_spec`]).
    fn scroll_down_once(&mut self)
        requires
            old(self).wf(),
        ensures
            final(self).wf(),
            final(self)@ == scroll_down_one_spec(old(self)@),
    {
        let top = self.scroll_top as usize;
        let bottom = self.scroll_bottom as usize;
        let _removed = self.cells.remove(bottom);
        let blank = make_blank_row(self.width);
        self.cells.insert(top, blank);
        proof {
            assert(self@ =~~= scroll_down_one_spec(old(self)@));
        }
    }

    /// Scroll the region down `count` times; nothing reaches the scrollback.
    pub fn scroll_down(&mut self, count: u16)
        requires
            old(self).wf(),
        ensures
            final(self).wf(),
            final(self)@ == scroll_down_spec(old(self)@, count as nat),
    {
        let mut i: u16 = 0;
        while i < count
            invariant
                old(self).wf(),
                self.wf(),
                i <= count,
                self@ == scroll_down_spec(old(self)@, i as nat),
            decreases count - i,
        {
            self.scroll_down_once();
            i = i + 1;
        }
    }

    /// Cursor down `count` times, scrolling the region when the cursor sits
    /// at (or below) the scroll bottom; the row never passes the bottom.
    pub fn move_cursor_down(&mut self, count: u16)
        requires
            old(self).wf(),
        ensures
            final(self).wf(),
            final(self)@ == move_down_spec(old(self)@, count as nat),
    {
        let mut i: u16 = 0;
        while i < count
            invariant
                old(self).wf(),
                self.wf(),
                i <= count,
                self@ == move_down_spec(old(self)@, i as nat),
            decreases count - i,
        {
            if self.cursor_row >= self.scroll_bottom {
                self.scroll_up_once();
            } else {
                self.cursor_row = self.cursor_row + 1;
                proof {
                    assert(self@ =~~= move_down_one_spec(move_down_spec(old(self)@, i as nat)));
                }
            }
            i = i + 1;
        }
    }

    /// Line feed: one cursor-down step.
    pub fn linefeed(&mut self)
        requires
            old(self).wf(),
        ensures
            final(self).wf(),
            final(self)@ == move_down_one_spec(old(self)@),
    {
        self.move_cursor_down(1);
        proof {
            assert(move_down_spec(old(self)@, 0) == old(self)@);
        }
    }

    /// Write one code point at the cursor with the current pen (see
    /// [`print_spec`]): a pending wrap is resolved first, then the cell is
    /// written and the column advances.
    #[verifier::rlimit(60)]
    pub fn write_char(&mut self, c: char)
        requires
            old(self).wf(),
        ensures
            final(self).wf(),
            final(self)@ == print_spec(old(self)@, c),
    {
        if self.cursor_col >= self.width {
            self.cursor_col = 0;
            self.move_cursor_down(1);
            proof {
                assert(move_down_spec(ScreenView { cursor_col: 0, ..old(self)@ }, 0)
                    == (ScreenView { cursor_col: 0, ..old(self)@ }));
            }
        }
        let ghost v1 = self@;
        proof {
            assert(v1 == if old(self)@.cursor_col >= old(self)@.width {
                move_down_one_spec(ScreenView { cursor_col: 0, ..old(self)@ })
            } else {
                old(self)@
            });
        }
        let cellval = Cell::with_style(c, self.current_fg, self.current_bg, self.current_attrs);
        let r = self.cursor_row as usize;
        let cl = self.cursor_col as usize;
        let row = &mut self.cells[r];
        row[cl] = cellval;
        self.cursor_col = self.cursor_col + 1;
        proof {
            let target = v1.with_cell(v1.cursor_row as int, v1.cursor_col as int, v1.pen_cell(c));
            assert(self@.grid =~~= target.grid);
            assert(self@ =~~= (ScreenView { cursor_col: (v1.cursor_col + 1) as nat, ..target }));
        }
    }

    /// Replace the single cell at `(r, c)`.
    fn put_cell(&mut self, r: usize, c: usize, cell: Cell)
        requires
            (r as int) < old(self)@.grid.len(),
            (c as int) < old(self)@.grid[r as int].len(),
        ensures
            final(self)@ == old(self)@.with_cell(r as int, c as int, cell),
    {
        let row = &mut self.cells[r];
        row[c] = cell;
        proof {
            assert(self@.grid =~~= old(self)@.with_cell(r as int, c as int, cell).grid);
            assert(self@ =~~= old(self)@.with_cell(r as int, c as int, cell));
        }
    }

    /// Blank the cells `from <= c < to` of row `r`.
    fn blank_in_row(&mut self, r: usize, from: usize, to: usize)
        requires
            old(self).wf(),
            r < old(self)@.height,
            to <= old(self)@.width,
        ensures
            final(self).wf(),
            final(self)@ == (ScreenView {
                grid: old(self)@.grid.update(
                    r as int,
                    row_blanked_spec(old(self)@.grid[r as int], from as int, to as int),
                ),
                ..old(self)@
            }),
    {
        proof {
            assert(old(self)@.grid =~~= old(self)@.grid.update(
                r as int,
                row_blanked_spec(old(self)@.grid[r as int], from as int, from as int),
            ));
            assert(old(self)@ =~~= (ScreenView {
                grid: old(self)@.grid.update(
                    r as int,
                    row_blanked_spec(old(self)@.grid[r as int], from as int, from as int),
                ),
                ..old(self)@
            }));
        }
        let mut c = from;
        while c < to
            invariant
                old(self).wf(),
                r < old(self)@.height,
                to <= old(self)@.width,
                from <= c,
                c <= to || c == from,
                self@ == (ScreenView {
                    grid: old(self)@.grid.update(
                        r as int,
                        row_blanked_spec(old(self)@.grid[r as int], from as int, c as int),
                    ),
                    ..old(self)@
                }),
            decreases to - c,
        {
            self.put_cell(r, c, Cell::blank());
            c = c + 1;
            proof {
                assert(self@.grid =~~= old(self)@.grid.update(
                    r as int,
                    row_blanked_spec(old(self)@.grid[r as int], from as int, c as int),
                ));
                assert(self@ =~~= (ScreenView {
                    grid: old(self)@.grid.update(
                        r as int,
                        row_blanked_spec(old(self)@.grid[r as int], from as int, c as int),
                    ),
                    ..old(self)@
                }));
            }
        }
        proof {
            if from >= to {
                assert(self@.grid =~~= old(self)@.grid.update(
                    r as int,
                    row_blanked_spec(old(self)@.grid[r as int], from as int, to as int),
                ));
            }
            assert(self@ =~~= (ScreenView {
                grid: old(self)@.grid.update(
                    r as int,
                    row_blanked_spec(old(self)@.grid[r as int], from as int, to as int),
                ),
                ..old(self)@
            }));
        }
    }

    /// Blank the whole cursor line.
    pub fn clear_line(&mut self)
        requires
            old(self).wf(),
        ensures
            final(self).wf(),
            final(self)@ == erase_line_spec(old(self)@, 2),
    {
        let r = self.cursor_row as usize;
        let w = self.width as usize;
        self.blank_in_row(r, 0, w);
    }

    /// Blank from the cursor to the end of the line.
    pub fn clear_to_end_of_line(&mut self)
        requires
            old(self).wf(),
        ensures
            final(self).wf(),
            final(self)@ == erase_line_spec(old(self)@, 0),
    {
        let r = self.cursor_row as usize;
        let w = self.width as usize;
        let from = if (self.cursor_col as usize) < w {
            self.cursor_col as usize
        } else {
            w
        };
        self.blank_in_row(r, from, w);
        proof {
            assert(self@.grid =~~= erase_line_spec(old(self)@, 0).grid);
            assert(self@ =~~= erase_line_spec(old(self)@, 0));
        }
    }

    /// Blank from the start of the line through the cursor.
    pub fn clear_to_start_of_line(&mut self)
        requires
            old(self).wf(),
        ensures
            final(self).wf(),
            final(self)@ == erase_line_spec(old(self)@, 1),
    {
        let r = self.cursor_row as usize;
        let w = self.width as usize;
        let to = if (self.cursor_col as usize) + 1 < w {
            (self.cursor_col as usize) + 1
        } else {
            w
        };
        self.blank_in_row(r, 0, to);
        proof {
            assert(self@.grid =~~= erase_line_spec(old(self)@, 1).grid);
            assert(self@ =~~= erase_line_spec(old(self)@, 1));
        }
    }

    /// Blank from the cursor to the end of the screen.
    pub fn clear_to_end_of_screen(&mut self)
        requires
            old(self).wf(),
        ensures
            final(self).wf(),
            final(self)@ == erase_screen_spec(old(self)@, 0),
    {
        self.clear_to_end_of_line();
        let h = self.height as usize;
        let w = self.width as usize;
        let mut r = (self.cursor_row as usize) + 1;
        while r < h
            invariant
                old(self).wf(),
                self.wf(),
                old(self)@.cursor_row as int + 1 <= r,
                r <= h || r == old(self)@.cursor_row as int + 1,
                h == old(self)@.height,
                w == old(self)@.width,
                self@ == (ScreenView {
                    grid: Seq::new(
                        old(self)@.grid.len(),
                        |i: int|
                            if i == old(self)@.cursor_row {
                                row_blanked_spec(
                                    old(self)@.grid[i],
                                    old(self)@.cursor_col as int,
                                    old(self)@.width as int,
                                )
                            } else if old(self)@.cursor_row < i && i < r {
                                blank_row_spec(old(self)@.width)
                            } else {
                                old(self)@.grid[i]
                            },
                    ),
                    ..old(self)@
                }),
            decreases h - r,
        {
            let ghost prev = self@;
            self.blank_in_row(r, 0, w);
            r = r + 1;
            proof {
                assert(self@.grid =~~= (ScreenView {
                    grid: Seq::new(
                        old(self)@.grid.len(),
                        |i: int|
                            if i == old(self)@.cursor_row {
                                row_blanked_spec(
                                    old(self)@.grid[i],
                                    old(self)@.cursor_col as int,
                                    old(self)@.width as int,
                                )
                            } else if old(self)@.cursor_row < i && i < r {
                                blank_row_spec(old(self)@.width)
                            } else {
                                old(self)@.grid[i]
                            },
                    ),
                    ..old(self)@
                }).grid);
            }
        }
        proof {
            assert(self@.grid =~~= erase_screen_spec(old(self)@, 0).grid);
            assert(self@ =~~= erase_screen_spec(old(self)@, 0));
        }
    }

    /// Blank from the start of the screen through the cursor.
    pub fn clear_to_start_of_screen(&mut self)
        requires
            old(self).wf(),
        ensures
            final(self).wf(),
            final(self)@ == erase_screen_spec(old(self)@, 1),
    {
        let w = self.width as usize;
        let cur = self.cursor_row as usize;
        let mut r: usize = 0;
        while r < cur
            invariant
                old(self).wf(),
                self.wf(),
                r <= cur,
                cur == old(self)@.cursor_row,
                w == old(self)@.width,
                self@ == (ScreenView {
                    grid: Seq::new(
                        old(self)@.grid.len(),
                        |i: int|
                            if i < r {
                                blank_row_spec(old(self)@.width)
                            } else {
                                old(self)@.grid[i]
                            },
                    ),
                    ..old(self)@
                }),
            decreases cur - r,
        {
            self.blank_in_row(r, 0, w);
            r = r + 1;
            proof {
                assert(self@.grid =~~= (ScreenView {
                    grid: Seq::new(
                        old(self)@.grid.len(),
                        |i: int|
                            if i < r {
                                blank_row_spec(old(self)@.width)
                            } else {
                                old(self)@.grid[i]
                            },
                    ),
                    ..old(self)@
                }).grid);
            }
        }
        let to = if (self.cursor_col as usize) + 1 < w {
            (self.cursor_col as usize) + 1
        } else {
            w
        };
        self.blank_in_row(cur, 0, to);
        proof {
            assert(self@.grid =~~= erase_screen_spec(old(self)@, 1).grid);
            assert(self@ =~~= erase_screen_spec(old(self)@, 1));
        }
    }

    /// Blank the whole screen and home the cursor.
    pub fn clear(&mut self)
        requires
            old(self).wf(),
        ensures
            final(self).wf(),
            final(self)@ == clear_spec(old(self)@),
    {
        let h = self.height as usize;
        let w = self.width as usize;
        let mut r: usize = 0;
        while r < h
            invariant
                old(self).wf(),
                self.wf(),
                r <= h,
                h == old(self)@.height,
                w == old(self)@.width,
                self@ == (ScreenView {
                    grid: Seq::new(
                        old(self)@.grid.len(),
                        |i: int|
                            if i < r {
                                blank_row_spec(old(self)@.width)
                            } else {
                                old(self)@.grid[i]
                            },
                    ),
                    ..old(self)@
                }),
            decreases h - r,
        {
            self.blank_in_row(r, 0, w);
            r = r + 1;
            proof {
                assert(self@.grid =~~= (ScreenView {
                    grid: Seq::new(
                        old(self)@.grid.len(),
                        |i: int|
                            if i < r {
                                blank_row_spec(old(self)@.width)
                            } else {
                                old(self)@.grid[i]
                            },
                    ),
                    ..old(self)@
                }).grid);
            }
        }
        self.cursor_row = 0;
        self.cursor_col = 0;
        proof {
            assert(self@.grid =~~= clear_spec(old(self)@).grid);
            assert(self@ =~~= clear_spec(old(self)@));
        }
    }

    /// One inserted blank line at the cursor.
    fn insert_line_once(&mut self)
        requires
            old(self).wf(),
            old(self)@.scroll_top <= old(self)@.cursor_row,
            old(self)@.cursor_row <= old(self)@.scroll_bottom,
        ensures
            final(self).wf(),
            final(self)@ == insert_line_one_spec(old(self)@),
    {
        let bottom = self.scroll_bottom as usize;
        let cur = self.cursor_row as usize;
        let _removed = self.cells.remove(bottom);
        let blank = make_blank_row(self.width);
        self.cells.insert(cur, blank);
        proof {
            assert(self@ =~~= insert_line_one_spec(old(self)@));
        }
    }

    /// Insert `count` blank lines at the cursor, inside the scroll region
    /// only; outside it nothing changes.
    pub fn insert_lines(&mut self, count: u16)
        requires
            old(self).wf(),
        ensures
            final(self).wf(),
            final(self)@ == insert_lines_spec(old(self)@, count as nat),
    {
        if self.cursor_row < self.scroll_top || self.cursor_row > self.scroll_bottom {
            return ;
        }
        let mut i: u16 = 0;
        while i < count
            invariant
                old(self).wf(),
                self.wf(),
                i <= count,
                old(self)@.scroll_top <= old(self)@.cursor_row,
                old(self)@.cursor_row <= old(self)@.scroll_bottom,
                self@ == insert_lines_iter_spec(old(self)@, i as nat),
                self@.cursor_row == old(self)@.cursor_row,
                self@.scroll_top == old(self)@.scroll_top,
                self@.scroll_bottom == old(self)@.scroll_bottom,
            decreases count - i,
        {
            self.insert_line_once();
            i = i + 1;
        }
    }

    /// One deleted line at the cursor.
    fn delete_line_once(&mut self)
        requires
            old(self).wf(),
            old(self)@.scroll_top <= old(self)@.cursor_row,
            old(self)@.cursor_row <= old(self)@.scroll_bottom,
        ensures
            final(self).wf(),
            final(self)@ == delete_line_one_spec(old(self)@),
    {
        let bottom = self.scroll_bottom as usize;
        let cur = self.cursor_row as usize;
        let _removed = self.cells.remove(cur);
        let blank = make_blank_row(self.width);
        self.cells.insert(bottom, blank);
        proof {
            assert(self@ =~~= delete_line_one_spec(old(self)@));
        }
    }

    /// Delete `count` lines at the cursor, inside the scroll region only;
    /// outside it nothing changes.
    pub fn delete_lines(&mut self, count: u16)
        requires
            old(self).wf(),
        ensures
            final(self).wf(),
            final(self)@ == delete_lines_spec(old(self)@, count as nat),
    {
        if self.cursor_row < self.scroll_top || self.cursor_row > self.scroll_bottom {
            return ;
        }
        let mut i: u16 = 0;
        while i < count
            invariant
                old(self).wf(),
                self.wf(),
                i <= count,
                old(self)@.scroll_top <= old(self)@.cursor_row,
                old(self)@.cursor_row <= old(self)@.scroll_bottom,
                self@ == delete_lines_iter_spec(old(self)@, i as nat),
                self@.cursor_row == old(self)@.cursor_row,
                self@.scroll_top == old(self)@.scroll_top,
                self@.scroll_bottom == old(self)@.scroll_bottom,
            decreases count - i,
        {
            self.delete_line_once();
            i = i + 1;
        }
    }

    /// Delete `count` characters at the cursor: the rest of the line shifts
    /// left and blanks fill in from the right edge.
    pub fn delete_chars(&mut self, count: u16)
        requires
            old(self).wf(),
        ensures
            final(self).wf(),
            final(self)@ == delete_chars_spec(old(self)@, count as nat),
    {
        let r = self.cursor_row as usize;
        let col = self.cursor_col as usize;
        let w = self.width as usize;
        let n = count as usize;
        let ghost target = delete_chars_row_spec(self@.grid[r as int], col as int, n as int);
        let mut new_row: Vec<Cell> = Vec::new();
        let mut i: usize = 0;
        while i < w
            invariant
                old(self).wf(),
                self@ == old(self)@,
                r == old(self)@.cursor_row,
                col == old(self)@.cursor_col,
                w == old(self)@.width,
                n == count as int,
                target == delete_chars_row_spec(self@.grid[r as int], col as int, n as int),
                i <= w,
                new_row@.len() == i as nat,
                forall|j: int| 0 <= j < i as int ==> new_row@[j] == target[j],
            decreases w - i,
        {
            let cell = if i < col {
                let line = &self.cells[r];
                line[i]
            } else if i + n < w {
                let line = &self.cells[r];
                line[i + n]
            } else {
                Cell::blank()
            };
            new_row.push(cell);
            i = i + 1;
        }
        proof {
            assert(new_row@ =~= target);
        }
        self.cells[r] = new_row;
        proof {
            assert(self@.grid =~~= delete_chars_spec(old(self)@, count as nat).grid);
            assert(self@ =~~= delete_chars_spec(old(self)@, count as nat));
        }
    }

    /// Insert `count` blanks at the cursor: the rest of the line shifts
    /// right, cells pushed past the right edge drop out.
    pub fn insert_chars(&mut self, count: u16)
        requires
            old(self).wf(),
        ensures
            final(self).wf(),
            final(self)@ == insert_chars_spec(old(self)@, count as nat),
    {
        let r = self.cursor_row as usize;
        let col = self.cursor_col as usize;
        let w = self.width as usize;
        let n = count as usize;
        let ghost target = insert_chars_row_spec(self@.grid[r as int], col as int, n as int);
        let mut new_row: Vec<Cell> = Vec::new();
        let mut i: usize = 0;
        while i < w
            invariant
                old(self).wf(),
                self@ == old(self)@,
                r == old(self)@.cursor_row,
                col == old(self)@.cursor_col,
                w == old(self)@.width,
                n == count as int,
                target == insert_chars_row_spec(self@.grid[r as int], col as int, n as int),
                i <= w,
                new_row@.len() == i as nat,
                forall|j: int| 0 <= j < i as int ==> new_row@[j] == target[j],
            decreases w - i,
        {
            let cell = if i < col {
                let line = &self.cells[r];
                line[i]
            } else if i < col + n {
                Cell::blank()
            } else {
                let line = &self.cells[r];
                line[i - n]
            };
            new_row.push(cell);
            i = i + 1;
        }
        proof {
            assert(new_row@ =~= target);
        }
        self.cells[r] = new_row;
        proof {
            assert(self@.grid =~~= insert_chars_spec(old(self)@, count as nat).grid);
            assert(self@ =~~= insert_chars_spec(old(self)@, count as nat));
        }
    }

    /// Replace `count` cells with blanks at the cursor; nothing shifts.
    pub fn erase_chars(&mut self, count: u16)
        requires
            old(self).wf(),
        ensures
            final(self).wf(),
            final(self)@ == erase_chars_spec(old(self)@, count as nat),
    {
        let r = self.cursor_row as usize;
        let col = self.cursor_col as usize;
        let w = self.width as usize;
        let n = count as usize;
        let from = if col < w {
            col
        } else {
            w
        };
        let to = if col + n < w {
            col + n
        } else {
            w
        };
        let to = if from <= to {
            to
        } else {
            from
        };
        self.blank_in_row(r, from, to);
        proof {
            assert(self@.grid =~~= erase_chars_spec(old(self)@, count as nat).grid);
            assert(self@ =~~= erase_chars_spec(old(self)@, count as nat));
        }
    }

    /// Address the cursor with 1-indexed coordinates (see
    /// [`cursor_position_spec`]).
    pub fn set_cursor_position(&mut self, row: u16, col: u16)
        requires
            old(self).wf(),
        ensures
            final(self).wf(),
            final(self)@ == cursor_position_spec(old(self)@, row as nat, col as nat),
    {
        let r0 = if row >= 1 {
            row - 1
        } else {
            0
        };
        let c0 = if col >= 1 {
            col - 1
        } else {
            0
        };
        let (min_row, max_row) = if self.origin_mode {
            (self.scroll_top, self.scroll_bottom)
        } else {
            (0, self.height - 1)
        };
        self.cursor_row = if r0 < min_row {
            min_row
        } else if r0 > max_row {
            max_row
        } else {
            r0
        };
        self.cursor_col = if c0 <= self.width - 1 {
            c0
        } else {
            self.width - 1
        };
        proof {
            assert(self@ =~~= cursor_position_spec(old(self)@, row as nat, col as nat));
        }
    }

    /// Select the scroll region with 1-indexed inclusive bounds; a region
    /// without at least two lines is ignored (see
    /// [`set_scroll_region_spec`]).
    pub fn set_scroll_region(&mut self, top: u16, bottom: u16)
        requires
            old(self).wf(),
        ensures
            final(self).wf(),
            final(self)@ == set_scroll_region_spec(old(self)@, top as nat, bottom as nat),
    {
        let t0 = if top >= 1 {
            top - 1
        } else {
            0
        };
        let b0 = if bottom >= 1 {
            bottom - 1
        } else {
            0
        };
        let t = if t0 <= self.height - 1 {
            t0
        } else {
            self.height - 1
        };
        let b = if b0 <= self.height - 1 {
            b0
        } else {
            self.height - 1
        };
        if t < b {
            self.scroll_top = t;
            self.scroll_bottom = b;
            self.set_cursor_position(1, 1);
        }
        proof {
            assert(self@ =~~= set_scroll_region_spec(old(self)@, top as nat, bottom as nat));
        }
    }

    /// Save the cursor position into the single save slot.
    pub fn save_cursor(&mut self)
        requires
            old(self).wf(),
        ensures
            final(self).wf(),
            final(self)@ == (ScreenView {
                saved_cursor: Some((old(self)@.cursor_row, old(self)@.cursor_col)),
                ..old(self)@
            }),
    {
        self.saved_cursor = Some((self.cursor_row, self.cursor_col));
        proof {
            assert(self@ =~~= (ScreenView {
                saved_cursor: Some((old(self)@.cursor_row, old(self)@.cursor_col)),
                ..old(self)@
            }));
        }
    }

    /// Restore the saved cursor position, clamped to the current screen; a
    /// no-op when nothing was saved (see [`restore_cursor_spec`]).
    pub fn restore_cursor(&mut self)
        requires
            old(self).wf(),
        ensures
            final(self).wf(),
            final(self)@ == restore_cursor_spec(old(self)@),
    {
        if let Some((r, c)) = self.saved_cursor {
            self.cursor_row = if r <= self.height - 1 {
                r
            } else {
                self.height - 1
            };
            self.cursor_col = if c <= self.width {
                c
            } else {
                self.width
            };
        }
        proof {
            assert(self@ =~~= restore_cursor_spec(old(self)@));
        }
    }

    /// Reverse index: the cursor moves up one line, scrolling the region
    /// down when it already sits at (or above) the scroll top.
    pub fn reverse_index(&mut self)
        requires
            old(self).wf(),
        ensures
            final(self).wf(),
            final(self)@ == reverse_index_spec(old(self)@),
    {
        if self.cursor_row <= self.scroll_top {
            self.scroll_down_once();
        } else {
            self.cursor_row = self.cursor_row - 1;
            proof {
                assert(self@ =~~= reverse_index_spec(old(self)@));
            }
        }
    }

    /// Reset the pen to default colours and no attributes.
    pub fn reset_attributes(&mut self)
        requires
            old(self).wf(),
        ensures
            final(self).wf(),
            final(self)@ == (ScreenView {
                fg: Color::Reset,
                bg: Color::Reset,
                attrs: CellAttributes::none_spec(),
                ..old(self)@
            }),
    {
        self.current_fg = Color::Reset;
        self.current_bg = Color::Reset;
        self.current_attrs = CellAttributes::none();
        proof {
            assert(self@ =~~= (ScreenView {
                fg: Color::Reset,
                bg: Color::Reset,
                attrs: CellAttributes::none_spec(),
                ..old(self)@
            }));
        }
    }

    /// Full reset (see [`reset_spec`]): blank screen, cursor homed and
    /// visible, pen and origin mode reset, region back to the whole screen.
    pub fn reset(&mut self)
        requires
            old(self).wf(),
        ensures
            final(self).wf(),
            final(self)@ == reset_spec(old(self)@),
    {
        self.clear();
        self.reset_attributes();
        self.cursor_visible = true;
        self.origin_mode = false;
        self.scroll_top = 0;
        self.scroll_bottom = self.height - 1;
        proof {
            assert(self@ =~~= reset_spec(old(self)@));
        }
    }

    /// Show or hide the cursor.
    pub fn set_cursor_visible(&mut self, visible: bool)
        requires
            old(self).wf(),
        ensures
            final(self).wf(),
            final(self)@ == (ScreenView { cursor_visible: visible, ..old(self)@ }),
    {
        self.cursor_visible = visible;
        proof {
            assert(self@ =~~= (ScreenView { cursor_visible: visible, ..old(self)@ }));
        }
    }

    /// Switch origin mode on or off.
    pub fn set_origin_mode(&mut self, origin: bool)
        requires
            old(self).wf(),
        ensures
            final(self).wf(),
            final(self)@ == (ScreenView { origin_mode: origin, ..old(self)@ }),
    {
        self.origin_mode = origin;
        proof {
            assert(self@ =~~= (ScreenView { origin_mode: origin, ..old(self)@ }));
        }
    }

    /// Resize to `new_width` columns and `new_height` rows (see
    /// [`resize_spec`]): rows are truncated or right-padded with blanks,
    /// the region is re-anchored and the cursor clamped; the scrollback is
    /// not reflowed.
    #[verifier::rlimit(100)]
    pub fn resize(&mut self, new_width: u16, new_height: u16)
        requires
            old(self).wf(),
            1 <= new_width,
            2 <= new_height,
        ensures
            final(self).wf(),
            final(self)@ == resize_spec(old(self)@, new_width as nat, new_height as nat),
    {
        if new_width == self.width && new_height == self.height {
            return ;
        }
        let w = new_width as usize;
        let h = new_height as usize;
        let mut i: usize = 0;
        let old_rows = self.cells.len();
        while i < old_rows
            invariant
                old(self).wf(),
                old_rows == old(self)@.height,
                i <= old_rows,
                self.cells@.len() == old_rows,
                w == new_width as int,
                forall|r: int| 0 <= r < i as int ==> (#[trigger] self.cells@[r])@ =~= resize_row_spec(
                    old(self)@.grid[r],
                    new_width as nat,
                ),
                forall|r: int| i as int <= r < old_rows ==> #[trigger] self.cells@[r]
                    == old(self).cells@[r],
                self.width == old(self).width,
                self.height == old(self).height,
                self.cursor_row == old(self).cursor_row,
                self.cursor_col == old(self).cursor_col,
                self.cursor_visible == old(self).cursor_visible,
                self.scrollback == old(self).scrollback,
                self.scrollback_limit == old(self).scrollback_limit,
                self.current_fg == old(self).current_fg,
                self.current_bg == old(self).current_bg,
                self.current_attrs == old(self).current_attrs,
                self.scroll_top == old(self).scroll_top,
                self.scroll_bottom == old(self).scroll_bottom,
                self.saved_cursor == old(self).saved_cursor,
                self.origin_mode == old(self).origin_mode,
                self.title == old(self).title,
            decreases old_rows - i,
        {
            let row = &mut self.cells[i];
            if w <= row.len() {
                row.truncate(w);
                proof {
                    assert(row@ =~= resize_row_spec(old(self)@.grid[i as int], new_width as nat));
                }
            } else {
                let ghost row0 = row@;
                while row.len() < w
                    invariant
                        w == new_width as int,
                        row@.len() <= w,
                        row@ =~= resize_row_spec(row0, row@.len() as nat),
                        row0.len() <= row@.len(),
                    decreases w - row@.len(),
                {
                    row.push(Cell::blank());
                    proof {
                        assert(row@ =~= resize_row_spec(row0, row@.len() as nat));
                    }
                }
                proof {
                    assert(row@ =~= resize_row_spec(old(self)@.grid[i as int], new_width as nat));
                }
            }
            i = i + 1;
        }
        if h < self.cells.len() {
            self.cells.truncate(h);
        } else {
            while self.cells.len() < h
                invariant
                    old(self).wf(),
                    w == new_width as int,
                    h == new_height as int,
                    old_rows == old(self)@.height,
                    old_rows <= self.cells@.len(),
                    self.cells@.len() <= h || self.cells@.len() == old_rows,
                    forall|r: int| 0 <= r < old_rows ==> (#[trigger] self.cells@[r])@
                        =~= resize_row_spec(old(self)@.grid[r], new_width as nat),
                    forall|r: int| old_rows <= r < self.cells@.len() ==> (#[trigger] self.cells@[r])@
                        =~= blank_row_spec(new_width as nat),
                    self.width == old(self).width,
                    self.height == old(self).height,
                    self.cursor_row == old(self).cursor_row,
                    self.cursor_col == old(self).cursor_col,
                    self.cursor_visible == old(self).cursor_visible,
                    self.scrollback == old(self).scrollback,
                    self.scrollback_limit == old(self).scrollback_limit,
                    self.current_fg == old(self).current_fg,
                    self.current_bg == old(self).current_bg,
                    self.current_attrs == old(self).current_attrs,
                    self.scroll_top == old(self).scroll_top,
                    self.scroll_bottom == old(self).scroll_bottom,
                    self.saved_cursor == old(self).saved_cursor,
                    self.origin_mode == old(self).origin_mode,
                    self.title == old(self).title,
                decreases h - self.cells@.len(),
            {
                self.cells.push(make_blank_row(new_width));
            }
        }
        self.width = new_width;
        self.height = new_height;
        self.scroll_bottom = new_height - 1;
        if self.scroll_top >= new_height - 1 {
            self.scroll_top = 0;
        }
        if self.cursor_row > new_height - 1 {
            self.cursor_row = new_height - 1;
        }
        if self.cursor_col > new_width - 1 {
            self.cursor_col = new_width - 1;
        }
        proof {
            assert(self@.grid =~~= resize_spec(
                old(self)@,
                new_width as nat,
                new_height as nat,
            ).grid);
            assert(self@ =~~= resize_spec(old(self)@, new_width as nat, new_height as nat));
        }
    }

    /// The current pen as `(fg, bg, attrs)`.
    pub fn pen(&self) -> (r: (Color, Color, CellAttributes))
        ensures
            r.0 == self@.fg,
            r.1 == self@.bg,
            r.2 == self@.attrs,
    {
        (self.current_fg, self.current_bg, self.current_attrs)
    }

    /// Replace the pen.
    pub fn set_pen(&mut self, fg: Color, bg: Color, attrs: CellAttributes)
        requires
            old(self).wf(),
        ensures
            final(self).wf(),
            final(self)@ == (ScreenView { fg, bg, attrs, ..old(self)@ }),
    {
        self.current_fg = fg;
        self.current_bg = bg;
        self.current_attrs = attrs;
        proof {
            assert(self@ =~~= (ScreenView { fg, bg, attrs, ..old(self)@ }));
        }
    }
}

} // verus!
