//! The tab registry: one tab per server window, in display order, each
//! owning its screen buffer.
//!
//! The registry is a single ordered list of tabs with unique window ids,
//! so the keyed store and the display order cannot disagree: membership
//! in both is the same by construction, and the well-formedness
//! predicate [`AppModel::wf`] adds that the active id, when set, names a
//! member.

use vstd::prelude::*;

use crate::dispatch::process_bytes_spec;
use crate::parser::init_parser_model;
use crate::screen::{ScreenView, TerminalBuffer};
use crate::strutil::{find_char, first_at, str_eq};

verus! {

/// One tab: a server window, its main pane, display data and the owned
/// screen buffer.
pub struct Tab {
    /// Server window id (prefix `@`).
    pub window_id: String,
    /// The window's main pane id (prefix `%`).
    pub pane_id: String,
    /// Display name.
    pub name: String,
    /// The tab's own screen buffer.
    pub buffer: TerminalBuffer,
    /// Unseen output landed on this tab while it was not active.
    pub activity: bool,
}

/// The model of a [`Tab`].
#[verifier::ext_equal]
pub ghost struct TabModel {
    pub window_id: Seq<char>,
    pub pane_id: Seq<char>,
    pub name: Seq<char>,
    pub screen: ScreenView,
    pub activity: bool,
}

impl View for Tab {
    type V = TabModel;

    open spec fn view(&self) -> TabModel {
        TabModel {
            window_id: self.window_id@,
            pane_id: self.pane_id@,
            name: self.name@,
            screen: self.buffer@,
            activity: self.activity,
        }
    }
}

impl Tab {
    /// A fresh tab with a blank buffer and no pending activity.
    pub fn new(window_id: String, pane_id: String, name: String, width: u16, height: u16) -> (r:
        Tab)
        requires
            1 <= width,
            2 <= height,
        ensures
            r@ == (TabModel {
                window_id: window_id@,
                pane_id: pane_id@,
                name: name@,
                screen: crate::screen::fresh_screen_spec(width as nat, height as nat),
                activity: false,
            }),
            r@.screen.wf(),
    {
        let t = Tab {
            window_id,
            pane_id,
            name,
            buffer: TerminalBuffer::new(width, height),
            activity: false,
        };
        proof {
            assert(t@ =~~= (TabModel {
                window_id: t.window_id@,
                pane_id: t.pane_id@,
                name: t.name@,
                screen: crate::screen::fresh_screen_spec(width as nat, height as nat),
                activity: false,
            }));
        }
        t
    }
}

/// The model of the registry.
#[verifier::ext_equal]
pub ghost struct AppModel {
    /// The tabs, in display order.
    pub tabs: Seq<TabModel>,
    /// The active window id, if any.
    pub active: Option<Seq<char>>,
    pub viewport_width: u16,
    pub viewport_height: u16,
}

/// Whether some tab carries this window id.
pub open spec fn id_present(tabs: Seq<TabModel>, id: Seq<char>) -> bool {
    exists|i: int| 0 <= i < tabs.len() && (#[trigger] tabs[i]).window_id == id
}

/// The first tab carrying this window id, if any.
pub open spec fn find_tab(tabs: Seq<TabModel>, id: Seq<char>) -> Option<TabModel>
    decreases tabs.len(),
{
    if tabs.len() == 0 {
        None
    } else if tabs[0].window_id == id {
        Some(tabs[0])
    } else {
        find_tab(tabs.skip(1), id)
    }
}

/// Tab window ids are pairwise distinct.
pub open spec fn ids_unique(tabs: Seq<TabModel>) -> bool {
    forall|i: int, j: int|
        0 <= i < j < tabs.len() ==> (#[trigger] tabs[i]).window_id != (#[trigger] tabs[j]).window_id
}

impl AppModel {
    /// The registry invariant: unique window ids, every screen well
    /// formed, a usable viewport, and an active id that names a member.
    pub open spec fn wf(self) -> bool {
        &&& ids_unique(self.tabs)
        &&& forall|i: int| 0 <= i < self.tabs.len() ==> (#[trigger] self.tabs[i]).screen.wf()
        &&& 1 <= self.viewport_width
        &&& 2 <= self.viewport_height
        &&& match self.active {
            Some(id) => id_present(self.tabs, id),
            None => true,
        }
    }
}

/// [`find_tab`] agrees with [`id_present`], and under unique ids it
/// returns exactly the tab at the matching index.
pub proof fn lemma_find_tab(tabs: Seq<TabModel>, id: Seq<char>)
    ensures
        id_present(tabs, id) <==> find_tab(tabs, id) is Some,
        forall|j: int|
            0 <= j < tabs.len() && ids_unique(tabs) && (#[trigger] tabs[j]).window_id == id
                ==> find_tab(tabs, id) == Some(tabs[j]),
    decreases tabs.len(),
{
    if tabs.len() > 0 {
        lemma_find_tab(tabs.skip(1), id);
        assert(forall|i: int|
            0 <= i < tabs.skip(1).len() ==> #[trigger] tabs.skip(1)[i] == tabs[i + 1]);
        if tabs[0].window_id == id {
        } else {
            assert forall|j: int|
                0 <= j < tabs.len() && ids_unique(tabs) && (#[trigger] tabs[j]).window_id
                    == id implies find_tab(tabs, id) == Some(tabs[j]) by {
                assert(j >= 1);
                assert(ids_unique(tabs.skip(1)));
                assert(tabs.skip(1)[j - 1] == tabs[j]);
            }
            if id_present(tabs, id) {
                let i = choose|i: int|
                    0 <= i < tabs.len() && (#[trigger] tabs[i]).window_id == id;
                assert(tabs.skip(1)[i - 1] == tabs[i]);
            }
            if id_present(tabs.skip(1), id) {
                let i = choose|i: int|
                    0 <= i < tabs.skip(1).len() && (#[trigger] tabs.skip(1)[i]).window_id == id;
                assert(tabs[i + 1] == tabs.skip(1)[i]);
            }
        }
    }
}

/// `tabs` with the first `k` screens resized to `w` by `h`.
pub open spec fn resized_prefix(tabs: Seq<TabModel>, k: int, w: nat, h: nat) -> Seq<TabModel> {
    Seq::new(
        tabs.len(),
        |j: int|
            if j < k {
                TabModel { screen: crate::screen::resize_spec(tabs[j].screen, w, h), ..tabs[j] }
            } else {
                tabs[j]
            },
    )
}

/// Resize one tab's buffer.
fn resize_tab(tab: &mut Tab, width: u16, height: u16)
    requires
        old(tab)@.screen.wf(),
        1 <= width,
        2 <= height,
    ensures
        final(tab)@ == (TabModel {
            screen: crate::screen::resize_spec(old(tab)@.screen, width as nat, height as nat),
            ..old(tab)@
        }),
{
    tab.buffer.resize(width, height);
    proof {
        assert(tab@ =~~= (TabModel {
            screen: crate::screen::resize_spec(old(tab)@.screen, width as nat, height as nat),
            ..old(tab)@
        }));
    }
}

/// The registry.
pub struct App {
    tabs: Vec<Tab>,
    active_window_id: Option<String>,
    viewport_width: u16,
    viewport_height: u16,
}

impl View for App {
    type V = AppModel;

    closed spec fn view(&self) -> AppModel {
        AppModel {
            tabs: Seq::new(self.tabs@.len() as nat, |i: int| self.tabs@[i]@),
            active: match &self.active_window_id {
                Some(s) => Some(s@),
                None => None,
            },
            viewport_width: self.viewport_width,
            viewport_height: self.viewport_height,
        }
    }
}

impl App {
    /// The registry is well formed.
    pub open spec fn wf(&self) -> bool {
        self@.wf()
    }

    /// An empty registry for a viewport of the given size.
    pub fn new(viewport_width: u16, viewport_height: u16) -> (r: App)
        requires
            1 <= viewport_width,
            2 <= viewport_height,
        ensures
            r.wf(),
            r@ == (AppModel {
                tabs: Seq::empty(),
                active: None,
                viewport_width,
                viewport_height,
            }),
    {
        let a = App { tabs: Vec::new(), active_window_id: None, viewport_width, viewport_height };
        proof {
            assert(a@ =~~= (AppModel {
                tabs: Seq::empty(),
                active: None,
                viewport_width,
                viewport_height,
            }));
        }
        a
    }

    /// The index of the first tab with this window id.
    fn index_of_window(&self, window_id: &str) -> (r: Option<usize>)
        ensures
            match r {
                Some(i) => (i as int) < self@.tabs.len() && self@.tabs[i as int].window_id
                    == window_id@ && (forall|j: int|
                    0 <= j < i as int ==> (#[trigger] self@.tabs[j]).window_id != window_id@),
                None => !id_present(self@.tabs, window_id@),
            },
    {
        let len = self.tabs.len();
        let mut i: usize = 0;
        while i < len
            invariant
                len == self@.tabs.len(),
                i <= len,
                forall|j: int| 0 <= j < i as int ==> (#[trigger] self@.tabs[j]).window_id
                    != window_id@,
            decreases len - i,
        {
            if str_eq(self.tabs[i].window_id.as_str(), window_id) {
                return Some(i);
            }
            i = i + 1;
        }
        None
    }

    /// The index of the first tab whose pane id matches.
    fn index_of_pane(&self, pane_id: &str) -> (r: Option<usize>)
        ensures
            match r {
                Some(i) => (i as int) < self@.tabs.len() && self@.tabs[i as int].pane_id == pane_id@
                    && (forall|j: int|
                    0 <= j < i as int ==> (#[trigger] self@.tabs[j]).pane_id != pane_id@),
                None => forall|j: int|
                    0 <= j < self@.tabs.len() ==> (#[trigger] self@.tabs[j]).pane_id != pane_id@,
            },
    {
        let len = self.tabs.len();
        let mut i: usize = 0;
        while i < len
            invariant
                len == self@.tabs.len(),
                i <= len,
                forall|j: int| 0 <= j < i as int ==> (#[trigger] self@.tabs[j]).pane_id != pane_id@,
            decreases len - i,
        {
            if str_eq(self.tabs[i].pane_id.as_str(), pane_id) {
                return Some(i);
            }
            i = i + 1;
        }
        None
    }

    /// Append a tab for an unknown window; a no-op when the window is
    /// already known.
    pub fn add_tab(&mut self, window_id: &str, pane_id: &str, name: &str)
        requires
            old(self).wf(),
        ensures
            final(self).wf(),
            id_present(old(self)@.tabs, window_id@) ==> final(self)@ == old(self)@,
            !id_present(old(self)@.tabs, window_id@) ==> ({
                &&& final(self)@.tabs.len() == old(self)@.tabs.len() + 1
                &&& final(self)@.tabs.drop_last() == old(self)@.tabs
                &&& final(self)@.tabs.last().window_id == window_id@
                &&& final(self)@.tabs.last().pane_id == pane_id@
                &&& final(self)@.tabs.last().name == name@
                &&& !final(self)@.tabs.last().activity
                &&& final(self)@.tabs.last().screen.wf()
                &&& final(self)@.active == old(self)@.active
                &&& final(self)@.viewport_width == old(self)@.viewport_width
                &&& final(self)@.viewport_height == old(self)@.viewport_height
            }),
    {
        match self.index_of_window(window_id) {
            Some(_) => {},
            None => {
                let tab = Tab::new(
                    window_id.to_owned(),
                    pane_id.to_owned(),
                    name.to_owned(),
                    self.viewport_width,
                    self.viewport_height,
                );
                self.tabs.push(tab);
                proof {
                    assert(self@.tabs.drop_last() =~~= old(self)@.tabs);
                    let last = self@.tabs.len() - 1;
                    assert(self@.tabs[last].window_id == window_id@);
                    assert(!id_present(old(self)@.tabs, window_id@));
                    assert forall|i: int, j: int| 0 <= i < j < self@.tabs.len() implies (
                    #[trigger] self@.tabs[i]).window_id != (#[trigger] self@.tabs[j]).window_id by {
                        assert(self@.tabs[i] == self@.tabs.drop_last()[i]);
                        assert(self@.tabs[i] == old(self)@.tabs[i]);
                        if j == last {
                            assert(old(self)@.tabs[i].window_id != window_id@);
                        } else {
                            assert(self@.tabs[j] == old(self)@.tabs[j]);
                        }
                    }
                    assert forall|i: int| 0 <= i < self@.tabs.len() implies (#[trigger] self@.tabs[i]).screen.wf() by {
                        if i < last {
                            assert(self@.tabs[i] == self@.tabs.drop_last()[i]);
                            assert(self@.tabs[i] == old(self)@.tabs[i]);
                        }
                    }
                    if old(self)@.active is Some {
                        let id = old(self)@.active->0;
                        let i = choose|i: int|
                            0 <= i < old(self)@.tabs.len() && (#[trigger] old(
                                self,
                            )@.tabs[i]).window_id == id;
                        assert(self@.tabs[i].window_id == id);
                    }
                }
            },
        }
    }

    /// Drop the tab with this window id, if present; when it was the
    /// active one, the first remaining tab (by order) becomes active.
    pub fn remove_tab(&mut self, window_id: &str)
        requires
            old(self).wf(),
        ensures
            final(self).wf(),
            !id_present(old(self)@.tabs, window_id@) ==> final(self)@.tabs == old(self)@.tabs,
            id_present(old(self)@.tabs, window_id@) ==> ({
                let i = choose|i: int|
                    0 <= i < old(self)@.tabs.len() && (#[trigger] old(self)@.tabs[i]).window_id
                        == window_id@;
                final(self)@.tabs == old(self)@.tabs.remove(i)
            }),
            final(self)@.active == ({
                let kept = final(self)@.tabs;
                if old(self)@.active == Some(window_id@) {
                    if kept.len() > 0 {
                        Some(kept[0].window_id)
                    } else {
                        None::<Seq<char>>
                    }
                } else {
                    old(self)@.active
                }
            }),
            final(self)@.viewport_width == old(self)@.viewport_width,
            final(self)@.viewport_height == old(self)@.viewport_height,
    {
        match self.index_of_window(window_id) {
            Some(i) => {
                let _removed = self.tabs.remove(i);
                proof {
                    let k = choose|k: int|
                        0 <= k < old(self)@.tabs.len() && (#[trigger] old(self)@.tabs[k]).window_id
                            == window_id@;
                    assert(k == i as int);
                    assert(self@.tabs =~~= old(self)@.tabs.remove(i as int));
                }
            },
            None => {
                proof {
                    assert(self@.tabs =~~= old(self)@.tabs);
                }
            },
        }
        let was_active = match &self.active_window_id {
            Some(id) => str_eq(id.as_str(), window_id),
            None => false,
        };
        if was_active {
            if self.tabs.len() > 0 {
                self.active_window_id = Some(self.tabs[0].window_id.clone());
            } else {
                self.active_window_id = None;
            }
        }
        proof {
            if self@.active is Some {
                let id = self@.active->0;
                if old(self)@.active == Some(window_id@) {
                } else {
                    assert(id_present(old(self)@.tabs, id));
                    let k = choose|k: int|
                        0 <= k < old(self)@.tabs.len() && (#[trigger] old(self)@.tabs[k]).window_id
                            == id;
                    if id_present(old(self)@.tabs, window_id@) {
                        let i = choose|i: int|
                            0 <= i < old(self)@.tabs.len() && (#[trigger] old(
                                self,
                            )@.tabs[i]).window_id == window_id@;
                        if k < i {
                            assert(self@.tabs[k].window_id == id);
                        } else {
                            assert(k != i);
                            assert(self@.tabs[k - 1].window_id == id);
                        }
                    } else {
                        assert(self@.tabs[k].window_id == id);
                    }
                }
            }
        }
    }

    /// Update the display name of the tab with this window id.
    pub fn rename_tab(&mut self, window_id: &str, name: &str)
        requires
            old(self).wf(),
        ensures
            final(self).wf(),
            !id_present(old(self)@.tabs, window_id@) ==> final(self)@ == old(self)@,
            id_present(old(self)@.tabs, window_id@) ==> ({
                let i = choose|i: int|
                    0 <= i < old(self)@.tabs.len() && (#[trigger] old(self)@.tabs[i]).window_id
                        == window_id@;
                final(self)@ == (AppModel {
                    tabs: old(self)@.tabs.update(
                        i,
                        TabModel { name: name@, ..old(self)@.tabs[i] },
                    ),
                    ..old(self)@
                })
            }),
    {
        match self.index_of_window(window_id) {
            Some(i) => {
                let tab = &mut self.tabs[i];
                tab.name = name.to_owned();
                proof {
                    let k = choose|k: int|
                        0 <= k < old(self)@.tabs.len() && (#[trigger] old(self)@.tabs[k]).window_id
                            == window_id@;
                    assert(k == i as int);
                    assert(self@ =~~= (AppModel {
                        tabs: old(self)@.tabs.update(
                            i as int,
                            TabModel { name: name@, ..old(self)@.tabs[i as int] },
                        ),
                        ..old(self)@
                    }));
                    if self@.active is Some {
                        let id = self@.active->0;
                        let k2 = choose|k2: int|
                            0 <= k2 < old(self)@.tabs.len() && (#[trigger] old(
                                self,
                            )@.tabs[k2]).window_id == id;
                        assert(self@.tabs[k2].window_id == id);
                    }
                }
            },
            None => {
                proof {
                    assert(self@ =~~= old(self)@);
                }
            },
        }
    }

    /// Make the tab with this window id active and clear its activity
    /// flag; a no-op when the id is unknown.
    pub fn set_active(&mut self, window_id: &str)
        requires
            old(self).wf(),
        ensures
            final(self).wf(),
            !id_present(old(self)@.tabs, window_id@) ==> final(self)@ == old(self)@,
            id_present(old(self)@.tabs, window_id@) ==> ({
                let i = choose|i: int|
                    0 <= i < old(self)@.tabs.len() && (#[trigger] old(self)@.tabs[i]).window_id
                        == window_id@;
                final(self)@ == (AppModel {
                    tabs: old(self)@.tabs.update(
                        i,
                        TabModel { activity: false, ..old(self)@.tabs[i] },
                    ),
                    active: Some(window_id@),
                    ..old(self)@
                })
            }),
    {
        match self.index_of_window(window_id) {
            Some(i) => {
                let tab = &mut self.tabs[i];
                tab.activity = false;
                self.active_window_id = Some(window_id.to_owned());
                proof {
                    let k = choose|k: int|
                        0 <= k < old(self)@.tabs.len() && (#[trigger] old(self)@.tabs[k]).window_id
                            == window_id@;
                    assert(k == i as int);
                    assert(self@ =~~= (AppModel {
                        tabs: old(self)@.tabs.update(
                            i as int,
                            TabModel { activity: false, ..old(self)@.tabs[i as int] },
                        ),
                        active: Some(window_id@),
                        ..old(self)@
                    }));
                    assert(self@.tabs[i as int].window_id == window_id@);
                }
            },
            None => {
                proof {
                    assert(self@ =~~= old(self)@);
                }
            },
        }
    }

    /// The active tab, if one is set.
    pub fn active_tab(&self) -> (r: Option<&Tab>)
        requires
            self.wf(),
        ensures
            match r {
                Some(t) => self@.active is Some && find_tab(self@.tabs, self@.active->0) == Some(
                    t@,
                ),
                None => self@.active is None,
            },
    {
        match &self.active_window_id {
            Some(id) => {
                let idx = self.index_of_window_ref(id);
                match idx {
                    Some(i) => {
                        proof {
                            lemma_find_tab(self@.tabs, self@.active->0);
                        }
                        Some(&self.tabs[i])
                    },
                    None => {
                        proof {
                            assert(id_present(self@.tabs, id@));
                            assert(false);
                        }
                        None
                    },
                }
            },
            None => None,
        }
    }

    /// The index of the first tab with this window id (by reference, for
    /// borrowed lookups).
    fn index_of_window_ref(&self, window_id: &String) -> (r: Option<usize>)
        ensures
            match r {
                Some(i) => (i as int) < self@.tabs.len() && self@.tabs[i as int].window_id
                    == window_id@ && (forall|j: int|
                    0 <= j < i as int ==> (#[trigger] self@.tabs[j]).window_id != window_id@),
                None => !id_present(self@.tabs, window_id@),
            },
    {
        let len = self.tabs.len();
        let mut i: usize = 0;
        while i < len
            invariant
                len == self@.tabs.len(),
                i <= len,
                forall|j: int| 0 <= j < i as int ==> (#[trigger] self@.tabs[j]).window_id
                    != window_id@,
            decreases len - i,
        {
            if str_eq(self.tabs[i].window_id.as_str(), window_id.as_str()) {
                return Some(i);
            }
            i = i + 1;
        }
        None
    }

    /// The active tab's pane id.
    pub fn active_pane_id(&self) -> (r: Option<&str>)
        requires
            self.wf(),
        ensures
            match r {
                Some(p) => self@.active is Some && (find_tab(self@.tabs, self@.active->0) matches
                    Some(t) && t.pane_id == p@),
                None => self@.active is None,
            },
    {
        match self.active_tab() {
            Some(t) => Some(t.pane_id.as_str()),
            None => None,
        }
    }

    /// The active window id.
    pub fn active_window_id(&self) -> (r: Option<&str>)
        ensures
            match r {
                Some(id) => self@.active == Some(id@),
                None => self@.active is None,
            },
    {
        match &self.active_window_id {
            Some(id) => Some(id.as_str()),
            None => None,
        }
    }

    /// The window id of the first tab whose pane matches.
    pub fn window_id_for_pane(&self, pane_id: &str) -> (r: Option<&str>)
        ensures
            match r {
                Some(id) => exists|i: int|
                    0 <= i < self@.tabs.len() && (#[trigger] self@.tabs[i]).pane_id == pane_id@
                        && self@.tabs[i].window_id == id@,
                None => forall|i: int|
                    0 <= i < self@.tabs.len() ==> (#[trigger] self@.tabs[i]).pane_id != pane_id@,
            },
    {
        match self.index_of_pane(pane_id) {
            Some(i) => Some(self.tabs[i].window_id.as_str()),
            None => None,
        }
    }

    /// The number of tabs.
    pub fn tab_count(&self) -> (r: usize)
        ensures
            r as nat == self@.tabs.len(),
    {
        self.tabs.len()
    }

    /// Whether any tab exists.
    pub fn has_tabs(&self) -> (r: bool)
        ensures
            r == (self@.tabs.len() > 0),
    {
        self.tabs.len() > 0
    }

    /// The tab at a 0-based index.
    pub fn tab_at(&self, index: usize) -> (r: Option<&Tab>)
        ensures
            (index as int) < self@.tabs.len() ==> (r matches Some(t) && t@ == self@.tabs[index as int]),
            (index as int) >= self@.tabs.len() ==> r is None,
    {
        if index < self.tabs.len() {
            Some(&self.tabs[index])
        } else {
            None
        }
    }

    /// The window id at a 1-based index, as the tab-selection keys count.
    pub fn window_id_by_index(&self, index: usize) -> (r: Option<&str>)
        ensures
            (1 <= index && index as int <= self@.tabs.len()) ==> (r matches Some(id) && id@
                == self@.tabs[index as int - 1].window_id),
            !(1 <= index && index as int <= self@.tabs.len()) ==> r is None,
    {
        if index == 0 || index > self.tabs.len() {
            return None;
        }
        Some(self.tabs[index - 1].window_id.as_str())
    }

    /// The position of the active tab in the display order.
    fn active_index(&self) -> (r: Option<usize>)
        requires
            self.wf(),
        ensures
            match r {
                Some(i) => (i as int) < self@.tabs.len() && self@.active is Some
                    && self@.tabs[i as int].window_id == self@.active->0,
                None => self@.active is None,
            },
    {
        match &self.active_window_id {
            Some(id) => {
                let idx = self.index_of_window_ref(id);
                match idx {
                    Some(i) => Some(i),
                    None => {
                        proof {
                            assert(id_present(self@.tabs, id@));
                            assert(false);
                        }
                        None
                    },
                }
            },
            None => None,
        }
    }

    /// The window id after the active one, wrapping at the end.
    pub fn next_window_id(&self) -> (r: Option<&str>)
        requires
            self.wf(),
        ensures
            match r {
                Some(id) => self@.active is Some && exists|i: int|
                    0 <= i < self@.tabs.len() && (#[trigger] self@.tabs[i]).window_id
                        == self@.active->0 && id@ == self@.tabs[if i + 1 < self@.tabs.len() {
                        i + 1
                    } else {
                        0
                    }].window_id,
                None => self@.active is None,
            },
    {
        match self.active_index() {
            Some(i) => {
                let len = self.tabs.len();
                let next = if i + 1 < len {
                    i + 1
                } else {
                    0
                };
                Some(self.tabs[next].window_id.as_str())
            },
            None => None,
        }
    }

    /// The window id before the active one, wrapping at the start.
    pub fn prev_window_id(&self) -> (r: Option<&str>)
        requires
            self.wf(),
        ensures
            match r {
                Some(id) => self@.active is Some && exists|i: int|
                    0 <= i < self@.tabs.len() && (#[trigger] self@.tabs[i]).window_id
                        == self@.active->0 && id@ == self@.tabs[if i == 0 {
                        self@.tabs.len() as int - 1
                    } else {
                        i - 1
                    }].window_id,
                None => self@.active is None,
            },
    {
        match self.active_index() {
            Some(i) => {
                let prev = if i == 0 {
                    self.tabs.len() - 1
                } else {
                    i - 1
                };
                Some(self.tabs[prev].window_id.as_str())
            },
            None => None,
        }
    }

    /// Feed pane output to the tab owning that pane: its buffer processes
    /// the bytes, and the activity flag is raised when the pane is not
    /// the active one. Output for an unknown pane is dropped.
    pub fn process_output(&mut self, pane_id: &str, data: &[u8])
        requires
            old(self).wf(),
        ensures
            final(self).wf(),
            (forall|i: int|
                0 <= i < old(self)@.tabs.len() ==> (#[trigger] old(self)@.tabs[i]).pane_id
                    != pane_id@) ==> final(self)@ == old(self)@,
            (exists|i: int|
                0 <= i < old(self)@.tabs.len() && (#[trigger] old(self)@.tabs[i]).pane_id
                    == pane_id@) ==> ({
                let i = choose|i: int|
                    0 <= i < old(self)@.tabs.len() && (#[trigger] old(self)@.tabs[i]).pane_id
                        == pane_id@ && forall|j: int|
                        0 <= j < i ==> (#[trigger] old(self)@.tabs[j]).pane_id != pane_id@;
                let was_active_pane = match old(self)@.active {
                    Some(aid) => match find_tab(old(self)@.tabs, aid) {
                        Some(t) => t.pane_id == pane_id@,
                        None => false,
                    },
                    None => false,
                };
                final(self)@ == (AppModel {
                    tabs: old(self)@.tabs.update(
                        i,
                        TabModel {
                            screen: process_bytes_spec(
                                old(self)@.tabs[i].screen,
                                init_parser_model(),
                                data@,
                            ).0,
                            activity: old(self)@.tabs[i].activity || !was_active_pane,
                            ..old(self)@.tabs[i]
                        },
                    ),
                    ..old(self)@
                })
            }),
    {
        let is_active = match self.active_pane_id() {
            Some(p) => str_eq(p, pane_id),
            None => false,
        };
        match self.index_of_pane(pane_id) {
            Some(i) => {
                proof {
                    if self@.active is Some {
                        lemma_find_tab(self@.tabs, self@.active->0);
                    }
                }
                let tab = &mut self.tabs[i];
                tab.buffer.process(data);
                if !is_active {
                    tab.activity = true;
                }
                proof {
                    let k = choose|k: int|
                        0 <= k < old(self)@.tabs.len() && (#[trigger] old(self)@.tabs[k]).pane_id
                            == pane_id@ && forall|j: int|
                            0 <= j < k ==> (#[trigger] old(self)@.tabs[j]).pane_id != pane_id@;
                    assert(k == i as int);
                    assert(self@ =~~= (AppModel {
                        tabs: old(self)@.tabs.update(
                            i as int,
                            TabModel {
                                screen: process_bytes_spec(
                                    old(self)@.tabs[i as int].screen,
                                    init_parser_model(),
                                    data@,
                                ).0,
                                activity: old(self)@.tabs[i as int].activity || !(match old(
                                    self,
                                )@.active {
                                    Some(aid) => match find_tab(old(self)@.tabs, aid) {
                                        Some(t) => t.pane_id == pane_id@,
                                        None => false,
                                    },
                                    None => false,
                                }),
                                ..old(self)@.tabs[i as int]
                            },
                        ),
                        ..old(self)@
                    }));
                    if self@.active is Some {
                        let id = self@.active->0;
                        let k2 = choose|k2: int|
                            0 <= k2 < old(self)@.tabs.len() && (#[trigger] old(
                                self,
                            )@.tabs[k2]).window_id == id;
                        assert(self@.tabs[k2].window_id == id);
                    }
                }
            },
            None => {
                proof {
                    assert(self@ =~~= old(self)@);
                }
            },
        }
    }

    /// Resize every tab's buffer to the new viewport.
    pub fn resize(&mut self, width: u16, height: u16)
        requires
            old(self).wf(),
            1 <= width,
            2 <= height,
        ensures
            final(self).wf(),
            final(self)@.viewport_width == width,
            final(self)@.viewport_height == height,
            final(self)@.active == old(self)@.active,
            final(self)@.tabs.len() == old(self)@.tabs.len(),
            forall|i: int|
                0 <= i < old(self)@.tabs.len() ==> #[trigger] final(self)@.tabs[i] == (TabModel {
                    screen: crate::screen::resize_spec(
                        old(self)@.tabs[i].screen,
                        width as nat,
                        height as nat,
                    ),
                    ..old(self)@.tabs[i]
                }),
    {
        self.viewport_width = width;
        self.viewport_height = height;
        let len = self.tabs.len();
        proof {
            assert(self@ =~~= (AppModel {
                tabs: resized_prefix(old(self)@.tabs, 0, width as nat, height as nat),
                viewport_width: width,
                viewport_height: height,
                ..old(self)@
            }));
        }
        let mut i: usize = 0;
        while i < len
            invariant
                old(self).wf(),
                len == old(self)@.tabs.len(),
                self.tabs@.len() == len,
                i <= len,
                1 <= width,
                2 <= height,
                self@ == (AppModel {
                    tabs: resized_prefix(
                        old(self)@.tabs,
                        i as int,
                        width as nat,
                        height as nat,
                    ),
                    viewport_width: width,
                    viewport_height: height,
                    ..old(self)@
                }),
            decreases len - i,
        {
            let ghost i0 = i as int;
            proof {
                assert(self@.tabs[i0] == old(self)@.tabs[i0]);
                assert(old(self)@.tabs[i0].screen.wf());
            }
            proof {
                assert(self@.tabs == resized_prefix(
                    old(self)@.tabs,
                    i0,
                    width as nat,
                    height as nat,
                ));
            }
            resize_tab(&mut self.tabs[i], width, height);
            i = i + 1;
            proof {
                assert forall|j: int| 0 <= j < len implies self@.tabs[j] == resized_prefix(
                    old(self)@.tabs,
                    i as int,
                    width as nat,
                    height as nat,
                )[j] by {
                    if j != i0 {
                        assert(self@.tabs[j] == resized_prefix(
                            old(self)@.tabs,
                            i0,
                            width as nat,
                            height as nat,
                        )[j]);
                    }
                }
                assert(self@.tabs =~= resized_prefix(
                    old(self)@.tabs,
                    i as int,
                    width as nat,
                    height as nat,
                ));
                assert(self@ =~~= (AppModel {
                    tabs: resized_prefix(
                        old(self)@.tabs,
                        i as int,
                        width as nat,
                        height as nat,
                    ),
                    viewport_width: width,
                    viewport_height: height,
                    ..old(self)@
                }));
            }
        }
        proof {
            assert forall|j: int| 0 <= j < old(self)@.tabs.len() implies #[trigger] self@.tabs[j]
                == (TabModel {
                screen: crate::screen::resize_spec(
                    old(self)@.tabs[j].screen,
                    width as nat,
                    height as nat,
                ),
                ..old(self)@.tabs[j]
            }) by {
                assert(self@.tabs == resized_prefix(
                    old(self)@.tabs,
                    len as int,
                    width as nat,
                    height as nat,
                ));
            }
            assert(ids_unique(self@.tabs));
            assert forall|j: int| 0 <= j < self@.tabs.len() implies (#[trigger] self@.tabs[j]).screen.wf() by {
                assert(old(self)@.tabs[j].screen.wf());
            }
            if self@.active is Some {
                let id = self@.active->0;
                let k = choose|k: int|
                    0 <= k < old(self)@.tabs.len() && (#[trigger] old(self)@.tabs[k]).window_id
                        == id;
                assert(self@.tabs[k].window_id == id);
            }
        }
    }
}


/// One line of the window-list response: `window_id:name:active:pane_id`.
pub struct WindowEntry {
    pub window_id: String,
    pub name: String,
    pub active: bool,
    pub pane_id: String,
}

/// The model of a [`WindowEntry`].
#[verifier::ext_equal]
pub ghost struct WinEntry {
    pub window_id: Seq<char>,
    pub name: Seq<char>,
    pub active: bool,
    pub pane_id: Seq<char>,
}

impl View for WindowEntry {
    type V = WinEntry;

    open spec fn view(&self) -> WinEntry {
        WinEntry {
            window_id: self.window_id@,
            name: self.name@,
            active: self.active,
            pane_id: self.pane_id@,
        }
    }
}

/// The entry a window-list line carries: four `:`-separated fields, the
/// third being `1` exactly for the active window; a line with fewer than
/// four fields carries nothing.
pub open spec fn entry_of_line(line: Seq<char>) -> Option<WinEntry> {
    let c1 = first_at(line, 0, ':');
    if c1 >= line.len() {
        None
    } else {
        let c2 = first_at(line, c1 + 1, ':');
        if c2 >= line.len() {
            None
        } else {
            let c3 = first_at(line, c2 + 1, ':');
            if c3 >= line.len() {
                None
            } else {
                let c4 = first_at(line, c3 + 1, ':');
                Some(
                    WinEntry {
                        window_id: line.subrange(0, c1),
                        name: line.subrange(c1 + 1, c2),
                        active: line.subrange(c2 + 1, c3) == seq!['1'],
                        pane_id: line.subrange(c3 + 1, c4),
                    },
                )
            }
        }
    }
}

/// The entries carried by the response from position `p` on, one line
/// per entry, lines separated by a newline.
pub open spec fn entries_from(data: Seq<char>, p: int) -> Seq<WinEntry>
    decreases data.len() - p,
    via entries_from_decreases
{
    if p < 0 || p >= data.len() {
        Seq::empty()
    } else {
        let e = first_at(data, p, '\n');
        let rest = if e < data.len() {
            entries_from(data, e + 1)
        } else {
            Seq::empty()
        };
        match entry_of_line(data.subrange(p, e)) {
            Some(w) => seq![w] + rest,
            None => rest,
        }
    }
}

#[via_fn]
proof fn entries_from_decreases(data: Seq<char>, p: int) {
    if 0 <= p && p < data.len() {
        crate::strutil::lemma_first_at(data, p, '\n');
    }
}

/// Whether some entry carries this window id.
pub open spec fn entry_id_in(es: Seq<WinEntry>, id: Seq<char>) -> bool {
    exists|i: int| 0 <= i < es.len() && (#[trigger] es[i]).window_id == id
}

/// The entries with every repeated window id dropped after its first
/// occurrence.
pub open spec fn dedup_entries(es: Seq<WinEntry>) -> Seq<WinEntry>
    decreases es.len(),
{
    if es.len() == 0 {
        Seq::empty()
    } else {
        let front = dedup_entries(es.drop_last());
        if entry_id_in(es.drop_last(), es.last().window_id) {
            front
        } else {
            front.push(es.last())
        }
    }
}

/// The window id of the last entry flagged active, if any.
pub open spec fn active_of(es: Seq<WinEntry>) -> Option<Seq<char>>
    decreases es.len(),
{
    if es.len() == 0 {
        None
    } else if es.last().active {
        Some(es.last().window_id)
    } else {
        active_of(es.drop_last())
    }
}

/// Deduplication keeps exactly the ids that occur, each once.
pub proof fn lemma_dedup_entries(es: Seq<WinEntry>)
    ensures
        forall|i: int, j: int|
            0 <= i < j < dedup_entries(es).len() ==> (#[trigger] dedup_entries(es)[i]).window_id
                != (#[trigger] dedup_entries(es)[j]).window_id,
        forall|id: Seq<char>| entry_id_in(dedup_entries(es), id) <==> #[trigger] entry_id_in(
            es,
            id,
        ),
    decreases es.len(),
{
    if es.len() > 0 {
        lemma_dedup_entries(es.drop_last());
        let front = dedup_entries(es.drop_last());
        assert forall|id: Seq<char>| #[trigger] entry_id_in(es, id) implies entry_id_in(
            dedup_entries(es),
            id,
        ) by {
            let i = choose|i: int| 0 <= i < es.len() && (#[trigger] es[i]).window_id == id;
            if i < es.len() - 1 {
                assert(es.drop_last()[i] == es[i]);
                assert(entry_id_in(es.drop_last(), id));
                let k = choose|k: int| 0 <= k < front.len() && (#[trigger] front[k]).window_id == id;
                if entry_id_in(es.drop_last(), es.last().window_id) {
                    assert(dedup_entries(es)[k] == front[k]);
                } else {
                    assert(dedup_entries(es)[k] == front[k]);
                }
            } else {
                if entry_id_in(es.drop_last(), es.last().window_id) {
                    let j = choose|j: int|
                        0 <= j < es.drop_last().len() && (#[trigger] es.drop_last()[j]).window_id
                            == id;
                    let k = choose|k: int|
                        0 <= k < front.len() && (#[trigger] front[k]).window_id == id;
                    assert(dedup_entries(es)[k] == front[k]);
                } else {
                    assert(dedup_entries(es).last().window_id == id);
                }
            }
        }
        assert forall|id: Seq<char>| entry_id_in(dedup_entries(es), id) implies #[trigger] entry_id_in(
            es,
            id,
        ) by {
            let k = choose|k: int|
                0 <= k < dedup_entries(es).len() && (#[trigger] dedup_entries(es)[k]).window_id
                    == id;
            if k < front.len() {
                assert(dedup_entries(es)[k] == front[k]);
                assert(entry_id_in(front, id));
                assert(entry_id_in(es.drop_last(), id));
                let j = choose|j: int|
                    0 <= j < es.drop_last().len() && (#[trigger] es.drop_last()[j]).window_id == id;
                assert(es[j] == es.drop_last()[j]);
            } else {
                assert(es.last().window_id == id);
                assert(es[es.len() - 1].window_id == id);
            }
        }
        assert forall|i: int, j: int| 0 <= i < j < dedup_entries(es).len() implies (
        #[trigger] dedup_entries(es)[i]).window_id != (#[trigger] dedup_entries(
            es,
        )[j]).window_id by {
            if j == dedup_entries(es).len() - 1 && dedup_entries(es).len() == front.len() + 1 {
                assert(dedup_entries(es)[i] == front[i]);
                assert(entry_id_in(front, front[i].window_id));
                assert(!entry_id_in(es.drop_last(), es.last().window_id));
            } else {
                assert(dedup_entries(es)[i] == front[i]);
                assert(dedup_entries(es)[j] == front[j]);
            }
        }
    }
}

/// An active id always names one of the entries.
pub proof fn lemma_active_of_member(es: Seq<WinEntry>)
    ensures
        match active_of(es) {
            Some(id) => entry_id_in(es, id),
            None => true,
        },
    decreases es.len(),
{
    if es.len() > 0 && !es.last().active {
        lemma_active_of_member(es.drop_last());
        if active_of(es.drop_last()) is Some {
            let id = active_of(es.drop_last())->0;
            let j = choose|j: int|
                0 <= j < es.drop_last().len() && (#[trigger] es.drop_last()[j]).window_id == id;
            assert(es[j] == es.drop_last()[j]);
        }
    }
}

/// What a refresh from the window list does: the registry's tabs become
/// the listed windows in list order (repeated ids dropped after their
/// first line), a known window keeps its screen and activity flag while
/// its name and pane are updated, an unknown one gets a fresh blank
/// screen, and the active window becomes the last one the list flags.
/// The tab a refresh leaves at an entry's position: display data from
/// the entry; the screen and activity flag of the previously known tab
/// with that window id, or a fresh blank screen for an unknown one.
pub open spec fn post_tab(old: AppModel, e: WinEntry, t: TabModel) -> bool {
    &&& t.window_id == e.window_id
    &&& t.name == e.name
    &&& t.pane_id == e.pane_id
    &&& match find_tab(old.tabs, e.window_id) {
        Some(ot) => t.screen == ot.screen && t.activity == ot.activity,
        None => t.screen == crate::screen::fresh_screen_spec(
            old.viewport_width as nat,
            old.viewport_height as nat,
        ) && !t.activity,
    }
}

pub open spec fn refresh_post(old: AppModel, new: AppModel, entries: Seq<WinEntry>) -> bool {
    let ds = dedup_entries(entries);
    &&& new.tabs.len() == ds.len()
    &&& forall|k: int| 0 <= k < ds.len() ==> post_tab(old, #[trigger] ds[k], new.tabs[k])
    &&& new.active == active_of(entries)
    &&& new.viewport_width == old.viewport_width
    &&& new.viewport_height == old.viewport_height
}

/// Two refreshes from the same list give the same registry: the second
/// pass finds every window already present with exactly the fields the
/// first pass gave it.
pub proof fn lemma_refresh_idempotent(
    s0: AppModel,
    s1: AppModel,
    s2: AppModel,
    entries: Seq<WinEntry>,
)
    requires
        s1.wf(),
        refresh_post(s0, s1, entries),
        refresh_post(s1, s2, entries),
    ensures
        s1 == s2,
{
    let ds = dedup_entries(entries);
    assert forall|k: int| 0 <= k < ds.len() implies s2.tabs[k] == s1.tabs[k] by {
        let e = ds[k];
        assert(post_tab(s0, ds[k], s1.tabs[k]));
        assert(post_tab(s1, ds[k], s2.tabs[k]));
        assert(s1.tabs[k].window_id == e.window_id);
        lemma_find_tab(s1.tabs, e.window_id);
        assert(find_tab(s1.tabs, e.window_id) == Some(s1.tabs[k]));
        assert(s2.tabs[k] =~~= s1.tabs[k]);
    }
    assert(s2.tabs =~= s1.tabs);
    assert(s1 =~~= s2);
}


/// The first still-available tab slot carrying this window id.
fn scan_avail(avail: &Vec<Option<Tab>>, id: &str) -> (r: Option<usize>)
    ensures
        match r {
            Some(j) => (j as int) < avail@.len() && (avail@[j as int] matches Some(t)
                && t@.window_id == id@),
            None => forall|j: int|
                0 <= j < avail@.len() ==> ((#[trigger] avail@[j]) matches Some(t)
                    ==> t@.window_id != id@),
        },
{
    let len = avail.len();
    let mut j: usize = 0;
    while j < len
        invariant
            len == avail@.len(),
            j <= len,
            forall|x: int|
                0 <= x < j as int ==> ((#[trigger] avail@[x]) matches Some(t) ==> t@.window_id
                    != id@),
        decreases len - j,
    {
        match &avail[j] {
            Some(t) => {
                if str_eq(t.window_id.as_str(), id) {
                    return Some(j);
                }
            },
            None => {},
        }
        j = j + 1;
    }
    None
}

impl App {
    /// Parse one window-list line (see [`entry_of_line`]).
    fn parse_entry_line(line: &str) -> (r: Option<WindowEntry>)
        ensures
            match r {
                Some(w) => entry_of_line(line@) == Some(w@),
                None => entry_of_line(line@) is None,
            },
    {
        let len = line.unicode_len();
        proof {
            crate::strutil::lemma_first_at(line@, 0, ':');
        }
        let c1 = find_char(line, 0, ':');
        if c1 >= len {
            return None;
        }
        proof {
            crate::strutil::lemma_first_at(line@, c1 as int + 1, ':');
        }
        let c2 = find_char(line, c1 + 1, ':');
        if c2 >= len {
            return None;
        }
        proof {
            crate::strutil::lemma_first_at(line@, c2 as int + 1, ':');
        }
        let c3 = find_char(line, c2 + 1, ':');
        if c3 >= len {
            return None;
        }
        proof {
            crate::strutil::lemma_first_at(line@, c3 as int + 1, ':');
        }
        let c4 = find_char(line, c3 + 1, ':');
        let window_id = line.substring_char(0, c1).to_owned();
        let name = line.substring_char(c1 + 1, c2).to_owned();
        let flag = line.substring_char(c2 + 1, c3);
        let active = str_eq(flag, "1");
        let pane_id = line.substring_char(c3 + 1, c4).to_owned();
        proof {
            reveal_strlit("1");
            assert("1"@ =~= seq!['1']);
        }
        Some(WindowEntry { window_id, name, active, pane_id })
    }

    /// Parse the whole window-list response (see [`entries_from`]).
    fn parse_entries(data: &str) -> (r: Vec<WindowEntry>)
        ensures
            Seq::new(r@.len() as nat, |i: int| r@[i]@) == entries_from(data@, 0),
    {
        let len = data.unicode_len();
        let mut out: Vec<WindowEntry> = Vec::new();
        let mut p: usize = 0;
        while p < len
            invariant
                len == data@.len(),
                p <= len,
                entries_from(data@, 0) == Seq::new(out@.len() as nat, |i: int| out@[i]@)
                    + entries_from(data@, p as int),
            decreases len - p,
        {
            let ghost p0 = p as int;
            let ghost before = Seq::new(out@.len() as nat, |i: int| out@[i]@);
            proof {
                crate::strutil::lemma_first_at(data@, p0, '\n');
            }
            let e = find_char(data, p, '\n');
            let line = data.substring_char(p, e);
            let parsed = Self::parse_entry_line(line);
            match parsed {
                Some(w) => {
                    out.push(w);
                },
                None => {},
            }
            p = if e < len {
                e + 1
            } else {
                len
            };
            proof {
                let head = entry_of_line(data@.subrange(p0, first_at(data@, p0, '\n')));
                if e < len {
                } else {
                    assert(entries_from(data@, len as int) =~= Seq::<WinEntry>::empty());
                }
                match head {
                    Some(w) => {
                        assert(Seq::new(out@.len() as nat, |i: int| out@[i]@) =~= before.push(w));
                        assert(entries_from(data@, p0) =~= seq![w] + entries_from(
                            data@,
                            p as int,
                        ));
                        assert(before + entries_from(data@, p0) =~= before.push(w)
                            + entries_from(data@, p as int));
                    },
                    None => {
                        assert(entries_from(data@, p0) =~= entries_from(data@, p as int));
                    },
                }
            }
        }
        proof {
            assert(entries_from(data@, len as int) =~= Seq::<WinEntry>::empty());
            assert(Seq::new(out@.len() as nat, |i: int| out@[i]@) =~= entries_from(data@, 0));
        }
        out
    }

    /// Rebuild the registry from a window-list response (see
    /// [`refresh_post`]): listed windows become the tabs in list order, a
    /// known window keeps its screen buffer while its name and pane are
    /// updated, unknown ones get fresh buffers, unlisted ones are
    /// dropped, and the flagged window becomes active.
    #[verifier::rlimit(100)]
    pub fn process_window_list(&mut self, data: &str)
        requires
            old(self).wf(),
        ensures
            final(self).wf(),
            refresh_post(old(self)@, final(self)@, entries_from(data@, 0)),
    {
        let entries = Self::parse_entries(data);
        let ghost es = entries_from(data@, 0);
        proof {
            lemma_dedup_entries(es);
            lemma_active_of_member(es);
        }
        let ghost dsq = dedup_entries(es);

        // The last entry flagged active wins.
        let mut active: Option<String> = None;
        let n = entries.len();
        let mut k: usize = 0;
        proof {
            assert(es.take(0) =~= Seq::<WinEntry>::empty());
        }
        while k < n
            invariant
                n == entries@.len(),
                k <= n,
                es == Seq::new(entries@.len() as nat, |i: int| entries@[i]@),
                match active {
                    Some(s) => active_of(es.take(k as int)) == Some(s@),
                    None => active_of(es.take(k as int)) is None,
                },
            decreases n - k,
        {
            proof {
                assert(es.take(k as int + 1).drop_last() =~= es.take(k as int));
                assert(es.take(k as int + 1).last() == es[k as int]);
                assert(es[k as int] == entries@[k as int]@);
            }
            if entries[k].active {
                active = Some(entries[k].window_id.clone());
            }
            k = k + 1;
        }
        proof {
            assert(es.take(n as int) =~= es);
        }

        // Drop every entry whose window id appeared on an earlier line.
        let mut ds: Vec<WindowEntry> = Vec::new();
        let mut k: usize = 0;
        proof {
            assert(es.take(0) =~= Seq::<WinEntry>::empty());
            assert(dedup_entries(es.take(0)) =~= Seq::<WinEntry>::empty());
            assert(Seq::new(ds@.len() as nat, |i: int| ds@[i]@) =~= dedup_entries(es.take(0)));
        }
        while k < n
            invariant
                n == entries@.len(),
                k <= n,
                es == Seq::new(entries@.len() as nat, |i: int| entries@[i]@),
                Seq::new(ds@.len() as nat, |i: int| ds@[i]@) == dedup_entries(es.take(k as int)),
            decreases n - k,
        {
            let mut dup = false;
            let mut j: usize = 0;
            while j < k
                invariant
                    n == entries@.len(),
                    k < n,
                    j <= k,
                    es == Seq::new(entries@.len() as nat, |i: int| entries@[i]@),
                    dup == exists|x: int|
                        0 <= x < j as int && (#[trigger] es[x]).window_id == es[k as int].window_id,
                decreases k - j,
            {
                if str_eq(entries[j].window_id.as_str(), entries[k].window_id.as_str()) {
                    dup = true;
                    proof {
                        assert((es[j as int]).window_id == es[k as int].window_id);
                    }
                }
                j = j + 1;
            }
            proof {
                assert(es.take(k as int + 1).drop_last() =~= es.take(k as int));
                assert(es.take(k as int + 1).last() == es[k as int]);
                assert forall|x: int| 0 <= x < k as int implies #[trigger] es.take(k as int)[x]
                    == es[x] by {}
                if dup {
                    let x = choose|x: int|
                        0 <= x < k as int && (#[trigger] es[x]).window_id == es[
                            k as int
                        ].window_id;
                    assert(es.take(k as int)[x] == es[x]);
                    assert(entry_id_in(es.take(k as int), es[k as int].window_id));
                }
                if entry_id_in(es.take(k as int), es[k as int].window_id) {
                    let x = choose|x: int|
                        0 <= x < es.take(k as int).len() && (#[trigger] es.take(
                            k as int,
                        )[x]).window_id == es[k as int].window_id;
                    assert(es[x] == es.take(k as int)[x]);
                    assert(exists|y: int|
                        0 <= y < k as int && (#[trigger] es[y]).window_id == es[
                            k as int
                        ].window_id);
                }
                assert(dup == entry_id_in(es.take(k as int), es[k as int].window_id));
            }
            if !dup {
                let w = WindowEntry {
                    window_id: entries[k].window_id.clone(),
                    name: entries[k].name.clone(),
                    active: entries[k].active,
                    pane_id: entries[k].pane_id.clone(),
                };
                ds.push(w);
                proof {
                    assert(Seq::new(ds@.len() as nat, |i: int| ds@[i]@) =~= dedup_entries(
                        es.take(k as int + 1),
                    ));
                }
            } else {
                proof {
                    assert(Seq::new(ds@.len() as nat, |i: int| ds@[i]@) =~= dedup_entries(
                        es.take(k as int + 1),
                    ));
                }
            }
            k = k + 1;
        }
        proof {
            assert(es.take(n as int) =~= es);
        }

        // Move the old tabs into slots so each can be carried over once.
        let ghost orig = old(self)@.tabs;
        let mut old_tabs: Vec<Tab> = Vec::new();
        core::mem::swap(&mut old_tabs, &mut self.tabs);
        let mut avail: Vec<Option<Tab>> = Vec::new();
        while old_tabs.len() > 0
            invariant
                avail@.len() + old_tabs@.len() == orig.len(),
                forall|j: int|
                    0 <= j < avail@.len() ==> ((#[trigger] avail@[j]) matches Some(t) && t@
                        == orig[j]),
                forall|j: int|
                    0 <= j < old_tabs@.len() ==> (#[trigger] old_tabs@[j])@ == orig[avail@.len()
                        + j],
            decreases old_tabs@.len(),
        {
            let t = old_tabs.remove(0);
            avail.push(Some(t));
        }

        // Build the new tab list in entry order.
        let mut new_tabs: Vec<Tab> = Vec::new();
        let dn = ds.len();
        let mut k: usize = 0;
        proof {
            assert(dsq.take(0) =~= Seq::<WinEntry>::empty());
        }
        while k < dn
            invariant
                old(self).wf(),
                dn == ds@.len(),
                k <= dn,
                Seq::new(ds@.len() as nat, |i: int| ds@[i]@) == dsq,
                dsq == dedup_entries(es),
                forall|x: int, y: int|
                    0 <= x < y < dsq.len() ==> (#[trigger] dsq[x]).window_id != (
                    #[trigger] dsq[y]).window_id,
                orig == old(self)@.tabs,
                avail@.len() == orig.len(),
                forall|j: int|
                    0 <= j < orig.len() ==> match #[trigger] avail@[j] {
                        Some(t) => t@ == orig[j] && !entry_id_in(
                            dsq.take(k as int),
                            orig[j].window_id,
                        ),
                        None => entry_id_in(dsq.take(k as int), orig[j].window_id),
                    },
                new_tabs@.len() == k,
                forall|x: int|
                    0 <= x < k as int ==> post_tab(
                        old(self)@,
                        dsq[x],
                        (#[trigger] new_tabs@[x])@,
                    ),
                self.viewport_width == old(self)@.viewport_width,
                self.viewport_height == old(self)@.viewport_height,
            decreases dn - k,
        {
            let ghost k0 = k as int;
            let ghost e = dsq[k0];
            proof {
                assert(e == ds@[k0]@);
                assert(dsq.take(k0 + 1).drop_last() =~= dsq.take(k0));
                assert(dsq.take(k0 + 1).last() == dsq[k0]);
                assert forall|x: int| 0 <= x < k0 implies #[trigger] dsq.take(k0)[x]
                    == dsq[x] by {}
            }
            let found = scan_avail(&avail, ds[k].window_id.as_str());
            match found {
                Some(j) => {
                    let ghost jj = j as int;
                    proof {
                        assert(orig[jj].window_id == e.window_id);
                        lemma_find_tab(orig, e.window_id);
                        assert(find_tab(orig, e.window_id) == Some(orig[jj]));
                    }
                    let mut slot: Option<Tab> = None;
                    core::mem::swap(&mut slot, &mut avail[j]);
                    match slot {
                        Some(mut t) => {
                            t.name = ds[k].name.clone();
                            t.pane_id = ds[k].pane_id.clone();
                            new_tabs.push(t);
                            proof {
                                assert(new_tabs@[k0]@ =~~= (TabModel {
                                    name: e.name,
                                    pane_id: e.pane_id,
                                    ..orig[jj]
                                }));
                                assert(post_tab(old(self)@, dsq[k0], new_tabs@[k0]@));
                            }
                        },
                        None => {
                            proof {
                                assert(false);
                            }
                        },
                    }
                    proof {
                        assert forall|x: int|
                            0 <= x < orig.len() implies match #[trigger] avail@[x] {
                            Some(t) => t@ == orig[x] && !entry_id_in(
                                dsq.take(k0 + 1),
                                orig[x].window_id,
                            ),
                            None => entry_id_in(dsq.take(k0 + 1), orig[x].window_id),
                        } by {
                            if x == jj {
                                assert(dsq.take(k0 + 1)[k0] == e);
                                assert(entry_id_in(dsq.take(k0 + 1), orig[x].window_id));
                            } else {
                                if entry_id_in(dsq.take(k0 + 1), orig[x].window_id) {
                                    let y = choose|y: int|
                                        0 <= y < dsq.take(k0 + 1).len() && (#[trigger] dsq.take(
                                            k0 + 1,
                                        )[y]).window_id == orig[x].window_id;
                                    if y == k0 {
                                        assert(orig[x].window_id == e.window_id);
                                        assert(orig[jj].window_id == e.window_id);
                                        assert(false);
                                    } else {
                                        assert(dsq.take(k0)[y] == dsq.take(k0 + 1)[y]);
                                        assert(entry_id_in(dsq.take(k0), orig[x].window_id));
                                    }
                                }
                                if entry_id_in(dsq.take(k0), orig[x].window_id) {
                                    let y = choose|y: int|
                                        0 <= y < dsq.take(k0).len() && (#[trigger] dsq.take(
                                            k0,
                                        )[y]).window_id == orig[x].window_id;
                                    assert(dsq.take(k0 + 1)[y] == dsq.take(k0)[y]);
                                    assert(entry_id_in(dsq.take(k0 + 1), orig[x].window_id));
                                }
                            }
                        }
                    }
                },
                None => {
                    proof {
                        assert forall|j: int|
                            0 <= j < orig.len() implies (#[trigger] orig[j]).window_id
                            != e.window_id by {
                            if orig[j].window_id == e.window_id {
                                if avail@[j] is Some {
                                    assert((avail@[j] matches Some(t) && t@ == orig[j]));
                                } else {
                                    assert(entry_id_in(dsq.take(k0), orig[j].window_id));
                                    let y = choose|y: int|
                                        0 <= y < dsq.take(k0).len() && (#[trigger] dsq.take(
                                            k0,
                                        )[y]).window_id == orig[j].window_id;
                                    assert(dsq.take(k0)[y] == dsq[y]);
                                    assert(dsq[y].window_id == dsq[k0].window_id);
                                    assert(false);
                                }
                            }
                        }
                        lemma_find_tab(orig, e.window_id);
                        if id_present(orig, e.window_id) {
                            let i = choose|i: int|
                                0 <= i < orig.len() && (#[trigger] orig[i]).window_id
                                    == e.window_id;
                            assert(false);
                        }
                        assert(find_tab(orig, e.window_id) is None);
                    }
                    let t = Tab::new(
                        ds[k].window_id.clone(),
                        ds[k].pane_id.clone(),
                        ds[k].name.clone(),
                        self.viewport_width,
                        self.viewport_height,
                    );
                    new_tabs.push(t);
                    proof {
                        assert(new_tabs@[k0]@.screen =~~= crate::screen::fresh_screen_spec(
                            old(self)@.viewport_width as nat,
                            old(self)@.viewport_height as nat,
                        ));
                        assert(post_tab(old(self)@, dsq[k0], new_tabs@[k0]@));
                        assert forall|x: int|
                            0 <= x < orig.len() implies match #[trigger] avail@[x] {
                            Some(t2) => t2@ == orig[x] && !entry_id_in(
                                dsq.take(k0 + 1),
                                orig[x].window_id,
                            ),
                            None => entry_id_in(dsq.take(k0 + 1), orig[x].window_id),
                        } by {
                            if entry_id_in(dsq.take(k0 + 1), orig[x].window_id) {
                                let y = choose|y: int|
                                    0 <= y < dsq.take(k0 + 1).len() && (#[trigger] dsq.take(
                                        k0 + 1,
                                    )[y]).window_id == orig[x].window_id;
                                if y == k0 {
                                    assert(orig[x].window_id == e.window_id);
                                    assert(false);
                                } else {
                                    assert(dsq.take(k0)[y] == dsq.take(k0 + 1)[y]);
                                    assert(entry_id_in(dsq.take(k0), orig[x].window_id));
                                }
                            }
                            if entry_id_in(dsq.take(k0), orig[x].window_id) {
                                let y = choose|y: int|
                                    0 <= y < dsq.take(k0).len() && (#[trigger] dsq.take(
                                        k0,
                                    )[y]).window_id == orig[x].window_id;
                                assert(dsq.take(k0 + 1)[y] == dsq.take(k0)[y]);
                                assert(entry_id_in(dsq.take(k0 + 1), orig[x].window_id));
                            }
                        }
                    }
                },
            }
            k = k + 1;
        }
        proof {
            assert(dsq.take(dn as int) =~= dsq);
        }
        self.tabs = new_tabs;
        self.active_window_id = active;
        proof {
            assert(self@.tabs =~= Seq::new(self@.tabs.len(), |x: int| self@.tabs[x]));
            assert forall|x: int| 0 <= x < dsq.len() implies post_tab(
                old(self)@,
                #[trigger] dsq[x],
                self@.tabs[x],
            ) by {}
            // Well-formedness of the result.
            assert forall|x: int, y: int| 0 <= x < y < self@.tabs.len() implies (
            #[trigger] self@.tabs[x]).window_id != (#[trigger] self@.tabs[y]).window_id by {
                assert(post_tab(old(self)@, dsq[x], self@.tabs[x]));
                assert(post_tab(old(self)@, dsq[y], self@.tabs[y]));
            }
            assert forall|x: int| 0 <= x < self@.tabs.len() implies (
            #[trigger] self@.tabs[x]).screen.wf() by {
                assert(post_tab(old(self)@, dsq[x], self@.tabs[x]));
                match find_tab(old(self)@.tabs, dsq[x].window_id) {
                    Some(ot) => {
                        lemma_find_tab(old(self)@.tabs, dsq[x].window_id);
                        assert(id_present(old(self)@.tabs, dsq[x].window_id));
                        let i = choose|i: int|
                            0 <= i < old(self)@.tabs.len() && (#[trigger] old(
                                self,
                            )@.tabs[i]).window_id == dsq[x].window_id;
                        assert(old(self)@.tabs[i].screen.wf());
                        assert(find_tab(old(self)@.tabs, dsq[x].window_id) == Some(
                            old(self)@.tabs[i],
                        ));
                    },
                    None => {},
                }
            }
            match self@.active {
                Some(id) => {
                    assert(active_of(es) == Some(id));
                    assert(entry_id_in(es, id));
                    assert(entry_id_in(dsq, id));
                    let y = choose|y: int|
                        0 <= y < dsq.len() && (#[trigger] dsq[y]).window_id == id;
                    assert(post_tab(old(self)@, dsq[y], self@.tabs[y]));
                    assert(self@.tabs[y].window_id == id);
                },
                None => {},
            }
        }
    }
}


/// What routing pane output does (the postcondition of
/// [`App::process_output`]): output for an unknown pane changes nothing;
/// otherwise the first tab owning the pane processes the bytes and its
/// activity flag rises unless its pane was the active one.
pub open spec fn route_output_post(
    old: AppModel,
    new: AppModel,
    pane_id: Seq<char>,
    data: Seq<u8>,
) -> bool {
    &&& (forall|i: int|
        0 <= i < old.tabs.len() ==> (#[trigger] old.tabs[i]).pane_id != pane_id) ==> new == old
    &&& (exists|i: int| 0 <= i < old.tabs.len() && (#[trigger] old.tabs[i]).pane_id == pane_id)
        ==> ({
        let i = choose|i: int|
            0 <= i < old.tabs.len() && (#[trigger] old.tabs[i]).pane_id == pane_id && forall|
                j: int,
            | 0 <= j < i ==> (#[trigger] old.tabs[j]).pane_id != pane_id;
        let was_active_pane = match old.active {
            Some(aid) => match find_tab(old.tabs, aid) {
                Some(t) => t.pane_id == pane_id,
                None => false,
            },
            None => false,
        };
        new == (AppModel {
            tabs: old.tabs.update(
                i,
                TabModel {
                    screen: process_bytes_spec(
                        old.tabs[i].screen,
                        init_parser_model(),
                        data,
                    ).0,
                    activity: old.tabs[i].activity || !was_active_pane,
                    ..old.tabs[i]
                },
            ),
            ..old
        })
    })
}

/// What removing a window does (the postcondition of
/// [`App::remove_tab`]).
pub open spec fn remove_post(old: AppModel, new: AppModel, window_id: Seq<char>) -> bool {
    &&& (!id_present(old.tabs, window_id) ==> new.tabs == old.tabs)
    &&& (id_present(old.tabs, window_id) ==> ({
        let i = choose|i: int|
            0 <= i < old.tabs.len() && (#[trigger] old.tabs[i]).window_id == window_id;
        new.tabs == old.tabs.remove(i)
    }))
    &&& new.active == (if old.active == Some(window_id) {
        if new.tabs.len() > 0 {
            Some(new.tabs[0].window_id)
        } else {
            None::<Seq<char>>
        }
    } else {
        old.active
    })
    &&& new.viewport_width == old.viewport_width
    &&& new.viewport_height == old.viewport_height
}

/// What renaming a window does (the postcondition of
/// [`App::rename_tab`]).
pub open spec fn rename_post(
    old: AppModel,
    new: AppModel,
    window_id: Seq<char>,
    name: Seq<char>,
) -> bool {
    &&& (!id_present(old.tabs, window_id) ==> new == old)
    &&& (id_present(old.tabs, window_id) ==> ({
        let i = choose|i: int|
            0 <= i < old.tabs.len() && (#[trigger] old.tabs[i]).window_id == window_id;
        new == (AppModel {
            tabs: old.tabs.update(i, TabModel { name, ..old.tabs[i] }),
            ..old
        })
    }))
}

/// Whether a command response looks like a window list: it holds a `:`
/// and a window or pane id marker.
pub open spec fn looks_like_window_list(data: Seq<char>) -> bool {
    &&& first_at(data, 0, ':') < data.len()
    &&& (first_at(data, 0, '@') < data.len() || first_at(data, 0, '%') < data.len())
}

/// Whether `c` occurs in `s`.
fn contains_char(s: &str, c: char) -> (r: bool)
    ensures
        r == (first_at(s@, 0, c) < s@.len()),
{
    let len = s.unicode_len();
    proof {
        crate::strutil::lemma_first_at(s@, 0, c);
    }
    let i = find_char(s, 0, c);
    i < len
}

impl App {
    /// The sidebar snapshot: one row per tab in display order, with its
    /// 1-based index and whether it is the active tab.
    pub fn tab_infos(&self) -> (r: Vec<crate::sidebar::TabInfo>)
        requires
            self.wf(),
        ensures
            r@.len() == self@.tabs.len(),
            forall|i: int|
                0 <= i < r@.len() ==> {
                    let t = self@.tabs[i];
                    let info = (#[trigger] r@[i])@;
                    &&& info.id == t.window_id
                    &&& info.name == t.name
                    &&& info.activity == t.activity
                    &&& info.index == i + 1
                    &&& info.active == (self@.active == Some(t.window_id))
                },
    {
        let mut out: Vec<crate::sidebar::TabInfo> = Vec::new();
        let len = self.tabs.len();
        let mut i: usize = 0;
        while i < len
            invariant
                self.wf(),
                len == self@.tabs.len(),
                i <= len,
                out@.len() == i,
                forall|x: int|
                    0 <= x < i as int ==> {
                        let t = self@.tabs[x];
                        let info = (#[trigger] out@[x])@;
                        &&& info.id == t.window_id
                        &&& info.name == t.name
                        &&& info.activity == t.activity
                        &&& info.index == x + 1
                        &&& info.active == (self@.active == Some(t.window_id))
                    },
            decreases len - i,
        {
            let tab = &self.tabs[i];
            let active = match &self.active_window_id {
                Some(id) => str_eq(id.as_str(), tab.window_id.as_str()),
                None => false,
            };
            let info = crate::sidebar::TabInfo {
                id: tab.window_id.clone(),
                name: tab.name.clone(),
                active,
                activity: tab.activity,
                index: i + 1,
            };
            out.push(info);
            i = i + 1;
        }
        out
    }

    /// React to one driver event (the decision core of the event loop):
    /// pane output is routed to its tab (dropped while no tab exists
    /// yet); window lifecycle notifications update the registry; a
    /// window-list-shaped command response refreshes it. The returned
    /// line, if any, is the follow-up command to send to the server.
    pub fn handle_event(&mut self, ev: crate::driver::TmuxEvent) -> (r: Option<String>)
        requires
            old(self).wf(),
        ensures
            final(self).wf(),
            match ev@ {
                crate::driver::TmuxEventModel::Output { pane_id, data } => {
                    &&& r is None
                    &&& (old(self)@.tabs.len() == 0 ==> final(self)@ == old(self)@)
                    &&& (old(self)@.tabs.len() > 0 ==> route_output_post(
                        old(self)@,
                        final(self)@,
                        pane_id,
                        data,
                    ))
                },
                crate::driver::TmuxEventModel::WindowAdd { window_id } => final(self)@ == old(
                    self,
                )@ && (r matches Some(c) && c@
                    == "list-windows -F '#{window_id}:#{window_name}:#{window_active}:#{pane_id}'"@),
                crate::driver::TmuxEventModel::WindowClose { window_id } => remove_post(
                    old(self)@,
                    final(self)@,
                    window_id,
                ) && (r matches Some(c) && c@
                    == "list-windows -F '#{window_id}:#{window_name}:#{window_active}:#{pane_id}'"@),
                crate::driver::TmuxEventModel::WindowRenamed { window_id, name } => rename_post(
                    old(self)@,
                    final(self)@,
                    window_id,
                    name,
                ) && r is None,
                crate::driver::TmuxEventModel::SessionChanged { .. } => final(self)@ == old(
                    self,
                )@ && (r matches Some(c) && c@
                    == "list-windows -F '#{window_id}:#{window_name}:#{window_active}:#{pane_id}'"@),
                crate::driver::TmuxEventModel::CommandResponse { id, data } => {
                    &&& r is None
                    &&& (looks_like_window_list(data) ==> refresh_post(
                        old(self)@,
                        final(self)@,
                        entries_from(data, 0),
                    ))
                    &&& (!looks_like_window_list(data) ==> final(self)@ == old(self)@)
                },
                crate::driver::TmuxEventModel::CommandError { .. } => final(self)@ == old(self)@
                    && r is None,
                crate::driver::TmuxEventModel::Exit { .. } => final(self)@ == old(self)@
                    && r is None,
            },
    {
        match ev {
            crate::driver::TmuxEvent::Output { pane_id, data } => {
                if self.has_tabs() {
                    self.process_output(pane_id.as_str(), data.as_slice());
                }
                None
            },
            crate::driver::TmuxEvent::WindowAdd { window_id: _ } => Some(
                crate::commands::Commands::list_windows(),
            ),
            crate::driver::TmuxEvent::WindowClose { window_id } => {
                self.remove_tab(window_id.as_str());
                Some(crate::commands::Commands::list_windows())
            },
            crate::driver::TmuxEvent::WindowRenamed { window_id, name } => {
                self.rename_tab(window_id.as_str(), name.as_str());
                None
            },
            crate::driver::TmuxEvent::SessionChanged { .. } => Some(
                crate::commands::Commands::list_windows(),
            ),
            crate::driver::TmuxEvent::CommandResponse { id: _, data } => {
                let looks = contains_char(data.as_str(), ':') && (contains_char(
                    data.as_str(),
                    '@',
                ) || contains_char(data.as_str(), '%'));
                if looks {
                    self.process_window_list(data.as_str());
                }
                None
            },
            crate::driver::TmuxEvent::CommandError { .. } => None,
            crate::driver::TmuxEvent::Exit { .. } => None,
        }
    }
}

} // verus!
