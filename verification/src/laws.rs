//! Laws of the screen buffer, proved over its model.
//!
//! The basic bounds — cursor on the screen, a proper scroll region, the
//! scrollback within its cap — are the clauses of [`ScreenView::wf`],
//! which every operation's contract re-establishes. The laws here relate
//! several operations.

use vstd::prelude::*;

use crate::screen::{
    carriage_return_spec, cursor_down_clamped_spec, move_down_one_spec, move_up_spec, print_spec,
    resize_spec, scroll_up_one_spec, set_scroll_region_spec, ScreenView,
};

verus! {

/// Resizing to `(w, h)` and then back to the original dimensions
/// preserves every cell of the overlap rectangle.
pub proof fn lemma_resize_round_trip(v: ScreenView, w: nat, h: nat)
    requires
        v.wf(),
        1 <= w <= 0xFFFF,
        2 <= h <= 0xFFFF,
    ensures
        forall|r: int, c: int|
            0 <= r < v.height && r < h && 0 <= c < v.width && c < w ==> resize_spec(
                resize_spec(v, w, h),
                v.width,
                v.height,
            ).grid[r][c] == v.grid[r][c],
{
    let mid = resize_spec(v, w, h);
    let back = resize_spec(mid, v.width, v.height);
    assert forall|r: int, c: int|
        0 <= r < v.height && r < h && 0 <= c < v.width && c < w implies back.grid[r][c]
        == v.grid[r][c] by {
        if w == v.width && h == v.height {
        } else {
            assert(mid.grid[r][c] == v.grid[r][c]);
        }
    }
}

/// Writing in the last column defers the wrap: the cursor rests one past
/// the edge and the row does not move; the next print wraps exactly once,
/// to column 1 of the following line (scrolling only when the cursor sat
/// at, or below, the scroll bottom). A carriage return between the two
/// prints suppresses the wrap entirely: the second cell lands in column 0
/// of the same row and nothing scrolls.
pub proof fn lemma_deferred_wrap(v: ScreenView, c1: char, c2: char)
    requires
        v.wf(),
        v.cursor_col == v.width - 1,
    ensures
        ({
            let after_first = print_spec(v, c1);
            &&& after_first.cursor_col == v.width
            &&& after_first.cursor_row == v.cursor_row
            &&& after_first.scrollback == v.scrollback
        }),
        ({
            let after_second = print_spec(print_spec(v, c1), c2);
            &&& after_second.cursor_col == 1
            &&& (v.cursor_row < v.scroll_bottom ==> after_second.cursor_row == v.cursor_row + 1
                && after_second.scrollback == v.scrollback)
            &&& (v.cursor_row >= v.scroll_bottom ==> after_second.cursor_row == v.cursor_row)
        }),
        ({
            let suppressed = print_spec(carriage_return_spec(print_spec(v, c1)), c2);
            &&& suppressed.cursor_col == 1
            &&& suppressed.cursor_row == v.cursor_row
            &&& suppressed.scrollback == v.scrollback
        }),
{
}

/// Relative vertical cursor movement never leaves the scroll region: from
/// a cursor inside the region, cursor-up stops at the top and clamped
/// cursor-down stops at the bottom. A line feed with the cursor at the
/// scroll bottom scrolls the region up one step and leaves the row where
/// it is.
pub proof fn lemma_vertical_moves_respect_region(v: ScreenView, n: nat)
    requires
        v.wf(),
        v.scroll_top <= v.cursor_row,
        v.cursor_row <= v.scroll_bottom,
    ensures
        v.scroll_top <= move_up_spec(v, n).cursor_row,
        move_up_spec(v, n).cursor_row <= v.scroll_bottom,
        v.scroll_top <= cursor_down_clamped_spec(v, n).cursor_row,
        cursor_down_clamped_spec(v, n).cursor_row <= v.scroll_bottom,
        v.cursor_row == v.scroll_bottom ==> move_down_one_spec(v) == scroll_up_one_spec(v)
            && move_down_one_spec(v).cursor_row == v.scroll_bottom,
{
}

/// A scroll-region selection whose top does not lie strictly above its
/// bottom — `CSI 1;1 r` among them — is rejected: the state is unchanged.
pub proof fn lemma_degenerate_region_rejected(v: ScreenView, top: nat, bottom: nat)
    requires
        v.wf(),
        top == bottom,
    ensures
        set_scroll_region_spec(v, top, bottom) == v,
{
}

} // verus!
