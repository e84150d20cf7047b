//! The sidebar's data: the tab list snapshot and the row arithmetic that
//! maps clicks to tabs. Painting lives outside the library.

use vstd::prelude::*;

verus! {

/// One sidebar row's data.
#[derive(Debug, Clone)]
pub struct TabInfo {
    /// The window id.
    pub id: String,
    /// Display name.
    pub name: String,
    /// Whether this is the active tab.
    pub active: bool,
    /// Whether unseen output waits on this tab.
    pub activity: bool,
    /// 1-based display index.
    pub index: usize,
}

/// The model of a [`TabInfo`].
#[verifier::ext_equal]
pub ghost struct TabInfoModel {
    pub id: Seq<char>,
    pub name: Seq<char>,
    pub active: bool,
    pub activity: bool,
    pub index: usize,
}

impl View for TabInfo {
    type V = TabInfoModel;

    open spec fn view(&self) -> TabInfoModel {
        TabInfoModel {
            id: self.id@,
            name: self.name@,
            active: self.active,
            activity: self.activity,
            index: self.index,
        }
    }
}

/// The mode badge the sidebar shows.
#[derive(Debug, Clone, Copy, PartialEq, Eq, Structural)]
pub enum SidebarMode {
    /// No badge.
    Normal,
    /// The prefix key is armed.
    Prefix,
    /// A rename is being typed.
    Rename,
}

/// The sidebar's input: the tab snapshot, whether it is collapsed, and
/// the mode badge.
pub struct Sidebar<'a> {
    pub tabs: &'a Vec<TabInfo>,
    pub collapsed: bool,
    pub mode: SidebarMode,
}

impl<'a> Sidebar<'a> {
    /// A sidebar over this snapshot, expanded and without a badge.
    pub fn new(tabs: &'a Vec<TabInfo>) -> (r: Sidebar<'a>)
        ensures
            r.tabs == tabs,
            !r.collapsed,
            r.mode == SidebarMode::Normal,
    {
        Sidebar { tabs, collapsed: false, mode: SidebarMode::Normal }
    }

    /// The same sidebar, collapsed or expanded.
    pub fn collapsed(self, collapsed: bool) -> (r: Sidebar<'a>)
        ensures
            r.tabs == self.tabs,
            r.collapsed == collapsed,
            r.mode == self.mode,
    {
        Sidebar { collapsed, ..self }
    }

    /// The same sidebar with another mode badge.
    pub fn mode(self, mode: SidebarMode) -> (r: Sidebar<'a>)
        ensures
            r.tabs == self.tabs,
            r.collapsed == self.collapsed,
            r.mode == mode,
    {
        Sidebar { mode, ..self }
    }
}

/// A string cut to `max` characters: unchanged when it fits, else its
/// head with a three-dot ellipsis where at least three columns exist.
pub open spec fn truncate_spec(s: Seq<char>, max: int) -> Seq<char> {
    if s.len() <= max {
        s
    } else if max >= 3 {
        s.take(max - 3) + "..."@
    } else {
        s.take(max)
    }
}

/// Cut a label to a column budget (see [`truncate_spec`]); lengths count
/// characters.
pub fn truncate_to_width(s: &str, max_width: usize) -> (r: String)
    ensures
        r@ == truncate_spec(s@, max_width as int),
{
    let len = s.unicode_len();
    if len <= max_width {
        s.to_owned()
    } else if max_width >= 3 {
        let mut out = s.substring_char(0, max_width - 3).to_owned();
        out.append("...");
        proof {
            assert(s@.subrange(0, max_width as int - 3) =~= s@.take(max_width as int - 3));
        }
        out
    } else {
        let out = s.substring_char(0, max_width).to_owned();
        proof {
            assert(s@.subrange(0, max_width as int) =~= s@.take(max_width as int));
        }
        out
    }
}

/// The tab index a sidebar row names, if any: rows below the mode badge
/// and above the new-tab button map to tabs in order.
pub open spec fn row_to_tab_index_spec(
    row: u16,
    num_tabs: usize,
    area_height: u16,
    header_rows: u16,
) -> Option<usize> {
    if row < header_rows {
        None
    } else {
        let last: u16 = if area_height >= 1 {
            (area_height - 1) as u16
        } else {
            0
        };
        if row >= last {
            None
        } else if row - header_rows < num_tabs {
            Some((row - header_rows) as usize)
        } else {
            None
        }
    }
}

/// Map a click row to a tab index (see [`row_to_tab_index_spec`]);
/// `header_rows` is 1 when a mode badge occupies the top row.
pub fn row_to_tab_index(row: u16, num_tabs: usize, area_height: u16, header_rows: u16) -> (r:
    Option<usize>)
    ensures
        r == row_to_tab_index_spec(row, num_tabs, area_height, header_rows),
{
    if row < header_rows {
        return None;
    }
    let last = if area_height >= 1 {
        area_height - 1
    } else {
        0
    };
    if row >= last {
        return None;
    }
    let adjusted = (row - header_rows) as usize;
    if adjusted < num_tabs {
        Some(adjusted)
    } else {
        None
    }
}

/// Whether a sidebar row is the new-tab button: the last row.
pub fn is_new_tab_button(row: u16, area_height: u16) -> (r: bool)
    ensures
        r == (row == (if area_height >= 1 {
            area_height - 1
        } else {
            0
        })),
{
    let last = if area_height >= 1 {
        area_height - 1
    } else {
        0
    };
    row == last
}

} // verus!
