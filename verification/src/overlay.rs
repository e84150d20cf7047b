//! The rename overlay's data and geometry; painting lives outside the
//! library.

use vstd::prelude::*;

use crate::layout::Rect;

verus! {

/// The modal rename box: the text typed so far.
pub struct RenameOverlay<'a> {
    pub text: &'a str,
}

/// The centered rectangle the overlay occupies: at most 40 columns wide
/// (leaving a 4-column margin on narrow screens), 3 rows tall.
pub open spec fn centered_rect_spec(area: Rect) -> Rect {
    let width = if area.width >= 4 && area.width - 4 >= 40 {
        40
    } else if area.width >= 4 {
        (area.width - 4) as u16
    } else {
        0
    };
    Rect {
        x: ((area.width - width) / 2) as u16,
        y: (if area.height >= 3 {
            (area.height - 3) / 2
        } else {
            0
        }) as u16,
        width,
        height: 3,
    }
}

impl<'a> RenameOverlay<'a> {
    /// An overlay showing this text.
    pub fn new(text: &'a str) -> (r: RenameOverlay<'a>)
        ensures
            r.text == text,
    {
        RenameOverlay { text }
    }

    /// The centered area for the overlay (see [`centered_rect_spec`]).
    pub fn centered_rect(area: Rect) -> (r: Rect)
        ensures
            r == centered_rect_spec(area),
    {
        let width = if area.width >= 4 {
            if area.width - 4 >= 40 {
                40
            } else {
                area.width - 4
            }
        } else {
            0
        };
        let x = (area.width - width) / 2;
        let y = if area.height >= 3 {
            (area.height - 3) / 2
        } else {
            0
        };
        Rect { x, y, width, height: 3 }
    }
}

} // verus!
