//! Splitting the host terminal into sidebar and viewport, and mapping
//! clicks back to the region they landed in.

use vstd::prelude::*;

verus! {

/// Default sidebar width in columns.
pub const DEFAULT_SIDEBAR_WIDTH: u16 = 20;

/// Sidebar width when collapsed.
pub const COLLAPSED_SIDEBAR_WIDTH: u16 = 3;

/// A rectangle of screen cells.
#[derive(Debug, Clone, Copy, PartialEq, Eq, Structural)]
pub struct Rect {
    pub x: u16,
    pub y: u16,
    pub width: u16,
    pub height: u16,
}

impl Rect {
    /// The empty rectangle at the origin.
    pub open spec fn zero_spec() -> Rect {
        Rect { x: 0, y: 0, width: 0, height: 0 }
    }

    /// A rectangle from its corner and size.
    pub fn new(x: u16, y: u16, width: u16, height: u16) -> (r: Rect)
        ensures
            r == (Rect { x, y, width, height }),
    {
        Rect { x, y, width, height }
    }

    /// A rectangle fits on the coordinate plane: its far edges stay
    /// within the numeric range.
    pub open spec fn wf(self) -> bool {
        &&& self.x + self.width <= 0xFFFF
        &&& self.y + self.height <= 0xFFFF
    }

    /// Whether the point `(x, y)` lies inside.
    pub open spec fn contains_spec(self, x: u16, y: u16) -> bool {
        &&& self.x <= x
        &&& (x as int) < self.x + self.width
        &&& self.y <= y
        &&& (y as int) < self.y + self.height
    }
}

/// Where a point landed.
#[derive(Debug, Clone, Copy, PartialEq, Eq, Structural)]
pub enum HitRegion {
    /// In the sidebar, at this row within it.
    Sidebar { row: u16 },
    /// In the viewport, at this cell within it.
    Viewport { row: u16, col: u16 },
    /// Neither region.
    Outside,
}

/// The layout: the whole area, the sidebar width (0 hides it) and the
/// sidebar's side.
#[derive(Debug, Clone, Copy, PartialEq, Eq, Structural)]
pub struct Layout {
    pub area: Rect,
    pub sidebar_width: u16,
    pub sidebar_left: bool,
}

/// The sidebar's rectangle: flush left or right, never wider than the
/// area; an empty rectangle when the sidebar is hidden.
pub open spec fn sidebar_area_spec(l: Layout) -> Rect {
    if l.sidebar_width == 0 {
        Rect::zero_spec()
    } else {
        let w = if l.sidebar_width <= l.area.width {
            l.sidebar_width
        } else {
            l.area.width
        };
        if l.sidebar_left {
            Rect { x: l.area.x, y: l.area.y, width: w, height: l.area.height }
        } else {
            Rect {
                x: (l.area.x + (l.area.width - w)) as u16,
                y: l.area.y,
                width: w,
                height: l.area.height,
            }
        }
    }
}

/// The viewport's rectangle: what the sidebar leaves of the area.
pub open spec fn viewport_area_spec(l: Layout) -> Rect {
    if l.sidebar_width == 0 {
        l.area
    } else {
        let w = if l.sidebar_width <= l.area.width {
            l.sidebar_width
        } else {
            l.area.width
        };
        let main = (l.area.width - w) as u16;
        if l.sidebar_left {
            Rect { x: (l.area.x + w) as u16, y: l.area.y, width: main, height: l.area.height }
        } else {
            Rect { x: l.area.x, y: l.area.y, width: main, height: l.area.height }
        }
    }
}

/// Which region a point lands in: the sidebar wins where the two could
/// meet, and coordinates are relative to the region's corner.
pub open spec fn hit_test_spec(l: Layout, x: u16, y: u16) -> HitRegion {
    let sb = sidebar_area_spec(l);
    let vp = viewport_area_spec(l);
    if sb.contains_spec(x, y) {
        HitRegion::Sidebar { row: (y - sb.y) as u16 }
    } else if vp.contains_spec(x, y) {
        HitRegion::Viewport { row: (y - vp.y) as u16, col: (x - vp.x) as u16 }
    } else {
        HitRegion::Outside
    }
}

impl Layout {
    /// The layout stays on the coordinate plane.
    pub open spec fn wf(self) -> bool {
        self.area.wf()
    }

    /// A layout for the given area with the default sidebar on the left.
    pub fn new(area: Rect) -> (r: Layout)
        ensures
            r == (Layout { area, sidebar_width: DEFAULT_SIDEBAR_WIDTH, sidebar_left: true }),
    {
        Layout { area, sidebar_width: DEFAULT_SIDEBAR_WIDTH, sidebar_left: true }
    }

    /// The same layout with another sidebar width.
    pub fn with_sidebar_width(self, width: u16) -> (r: Layout)
        ensures
            r == (Layout { sidebar_width: width, ..self }),
    {
        Layout { sidebar_width: width, ..self }
    }

    /// The same layout with the sidebar on the given side.
    pub fn with_sidebar_left(self, left: bool) -> (r: Layout)
        ensures
            r == (Layout { sidebar_left: left, ..self }),
    {
        Layout { sidebar_left: left, ..self }
    }

    /// The sidebar's rectangle (see [`sidebar_area_spec`]).
    pub fn sidebar_area(&self) -> (r: Rect)
        requires
            self.wf(),
        ensures
            r == sidebar_area_spec(*self),
    {
        if self.sidebar_width == 0 {
            return Rect { x: 0, y: 0, width: 0, height: 0 };
        }
        let w = if self.sidebar_width <= self.area.width {
            self.sidebar_width
        } else {
            self.area.width
        };
        if self.sidebar_left {
            Rect { x: self.area.x, y: self.area.y, width: w, height: self.area.height }
        } else {
            Rect {
                x: self.area.x + (self.area.width - w),
                y: self.area.y,
                width: w,
                height: self.area.height,
            }
        }
    }

    /// The viewport's rectangle (see [`viewport_area_spec`]).
    pub fn viewport_area(&self) -> (r: Rect)
        requires
            self.wf(),
        ensures
            r == viewport_area_spec(*self),
    {
        if self.sidebar_width == 0 {
            return self.area;
        }
        let w = if self.sidebar_width <= self.area.width {
            self.sidebar_width
        } else {
            self.area.width
        };
        let main = self.area.width - w;
        if self.sidebar_left {
            Rect { x: self.area.x + w, y: self.area.y, width: main, height: self.area.height }
        } else {
            Rect { x: self.area.x, y: self.area.y, width: main, height: self.area.height }
        }
    }

    /// The viewport size to report to the server.
    pub fn tmux_size(&self) -> (r: (u16, u16))
        requires
            self.wf(),
        ensures
            r.0 == viewport_area_spec(*self).width,
            r.1 == viewport_area_spec(*self).height,
    {
        let vp = self.viewport_area();
        (vp.width, vp.height)
    }

    /// Which region the point `(x, y)` lands in (see [`hit_test_spec`]).
    pub fn hit_test(&self, x: u16, y: u16) -> (r: HitRegion)
        requires
            self.wf(),
        ensures
            r == hit_test_spec(*self, x, y),
    {
        let sidebar = self.sidebar_area();
        let viewport = self.viewport_area();
        if x >= sidebar.x && (x as u32) < sidebar.x as u32 + sidebar.width as u32 && y >= sidebar.y
            && (y as u32) < sidebar.y as u32 + sidebar.height as u32 {
            HitRegion::Sidebar { row: y - sidebar.y }
        } else if x >= viewport.x && (x as u32) < viewport.x as u32 + viewport.width as u32 && y
            >= viewport.y && (y as u32) < viewport.y as u32 + viewport.height as u32 {
            HitRegion::Viewport { row: y - viewport.y, col: x - viewport.x }
        } else {
            HitRegion::Outside
        }
    }

    /// Replace the whole area, as on a host resize.
    pub fn set_area(&mut self, area: Rect)
        ensures
            *final(self) == (Layout { area, ..*old(self) }),
    {
        self.area = area;
    }

    /// The sidebar width.
    pub fn sidebar_width(&self) -> (r: u16)
        ensures
            r == self.sidebar_width,
    {
        self.sidebar_width
    }

    /// Set the sidebar width.
    pub fn set_sidebar_width(&mut self, width: u16)
        ensures
            *final(self) == (Layout { sidebar_width: width, ..*old(self) }),
    {
        self.sidebar_width = width;
    }

    /// Toggle between the collapsed and the full sidebar; a hidden
    /// sidebar stays hidden.
    pub fn toggle_sidebar(&mut self)
        ensures
            *final(self) == (Layout {
                sidebar_width: if old(self).sidebar_width == COLLAPSED_SIDEBAR_WIDTH {
                    DEFAULT_SIDEBAR_WIDTH
                } else if old(self).sidebar_width > 0 {
                    COLLAPSED_SIDEBAR_WIDTH
                } else {
                    0
                },
                ..*old(self)
            }),
    {
        if self.sidebar_width == COLLAPSED_SIDEBAR_WIDTH {
            self.sidebar_width = DEFAULT_SIDEBAR_WIDTH;
        } else if self.sidebar_width > 0 {
            self.sidebar_width = COLLAPSED_SIDEBAR_WIDTH;
        }
    }
}

} // verus!
