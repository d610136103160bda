//! A bar of tabs: the tab highlighted (`selected`) and the tab shown
//! (`current`), moved by the arrow keys and chosen by Enter.
use vstd::prelude::*;

verus! {

/// The titles of the tabs, the highlighted one, the shown one, and whether
/// the bar has the focus.
#[derive(Debug)]
pub struct Tabs {
    pub tabs: Vec<String>,
    pub removed_tab: Option<String>,
    pub selected: usize,
    pub current: usize,
    pub in_focus: bool,
}

/// The keys that a tab bar answers.
#[derive(Clone, Copy, Debug, PartialEq, Eq)]
pub enum TabKey {
    Left,
    Right,
    Enter,
    Backspace,
}

/// The highlight after Left: one tab to the left, but not past the first.
pub open spec fn after_left(len: nat, selected: usize) -> int {
    if len > 0 && selected != 0 {
        selected - 1
    } else {
        selected as int
    }
}

/// The highlight after Right: one tab to the right, but not past the last.
pub open spec fn after_right(len: nat, selected: usize) -> int {
    if len > 0 && selected != len - 1 {
        selected + 1
    } else {
        selected as int
    }
}

/// The arrow keys keep the highlight on a tab: from a tab, Left and Right
/// land on a tab; and Left undoes Right except on the last tab.
pub proof fn lemma_arrows_stay_on_tabs(len: nat, selected: usize)
    requires
        selected < len,
        selected < usize::MAX,
    ensures
        0 <= after_left(len, selected) < len,
        0 <= after_right(len, selected) < len,
        selected + 1 < len ==> after_left(len, after_right(len, selected) as usize) == selected,
{
}

impl Tabs {
    /// The titles, as values.
    pub open spec fn titles(self) -> Seq<Seq<char>> {
        self.tabs@.map_values(|t: String| t@)
    }

    /// A bar with the given tabs, the first highlighted and shown.
    pub fn new(tabs: Vec<String>) -> (r: Self)
        ensures
            r.tabs == tabs,
            r.removed_tab is None,
            r.selected == 0,
            r.current == 0,
            !r.in_focus,
    {
        Tabs { tabs, removed_tab: None, selected: 0, current: 0, in_focus: false }
    }

    /// The same bar with other tabs; the highlighted and shown positions
    /// stay.
    pub fn tabs(self, tabs: Vec<String>) -> (r: Self)
        ensures
            r.tabs == tabs,
            r.removed_tab == self.removed_tab,
            r.selected == self.selected,
            r.current == self.current,
            r.in_focus == self.in_focus,
    {
        Tabs { tabs, ..self }
    }

    /// Closes the highlighted tab; the highlight stays at its position, or
    /// moves to the last tab when it was on the last.
    pub fn remove_selected_tab(&mut self)
        requires
            old(self).tabs@.len() > 0 ==> old(self).selected < old(self).tabs@.len(),
        ensures
            old(self).tabs@.len() == 0 ==> *final(self) == *old(self),
            old(self).tabs@.len() > 0 ==> {
                &&& final(self).titles() == old(self).titles().remove(old(self).selected as int)
                &&& final(self).selected == (if old(self).selected != 0 && old(self).selected
                    >= old(self).tabs@.len() - 1 {
                    old(self).selected - 1
                } else {
                    old(self).selected as int
                })
                &&& final(self).current == old(self).current
                &&& final(self).removed_tab == old(self).removed_tab
                &&& final(self).in_focus == old(self).in_focus
            },
    {
        if self.tabs.len() != 0 {
            let ghost old_titles = self.titles();
            self.tabs.remove(self.selected);
            if (self.selected != 0) && (self.selected >= self.tabs.len()) {
                self.selected = self.selected - 1;
            }
            assert(self.titles() =~= old_titles.remove(old(self).selected as int));
        }
    }

    /// Adds a tab after the others.
    pub fn add_tab(&mut self, tab: String)
        ensures
            final(self).titles() == old(self).titles().push(tab@),
            final(self).selected == old(self).selected,
            final(self).current == old(self).current,
            final(self).removed_tab == old(self).removed_tab,
            final(self).in_focus == old(self).in_focus,
    {
        let ghost t = tab@;
        self.tabs.push(tab);
        assert(self.titles() =~= old(self).titles().push(t));
    }

    /// Whether a tab has the title.
    pub fn has_tab(&self, title: &String) -> (r: bool)
        ensures
            r == self.titles().contains(title@),
    {
        let ghost titles = self.titles();
        let n = self.tabs.len();
        let mut i: usize = 0;
        while i < n
            invariant
                n == self.tabs@.len(),
                titles == self.titles(),
                i <= n,
                forall|k: int| 0 <= k < i ==> titles[k] != title@,
            decreases n - i,
        {
            if self.tabs[i] == *title {
                assert(titles[i as int] == title@);
                return true;
            }
            i = i + 1;
        }
        assert(!titles.contains(title@)) by {
            if titles.contains(title@) {
                let k = choose|k: int| 0 <= k < titles.len() && titles[k] == title@;
            }
        }
        false
    }

    /// The highlighted tab, if there is any tab.
    pub fn selected_tab(&self) -> (r: Option<&String>)
        requires
            self.tabs@.len() > 0 ==> self.selected < self.tabs@.len(),
        ensures
            self.tabs@.len() == 0 ==> r is None,
            self.tabs@.len() > 0 ==> r == Some(&self.tabs@[self.selected as int]),
    {
        if self.tabs.len() != 0 {
            Some(&self.tabs[self.selected])
        } else {
            None
        }
    }

    /// The shown tab, if there is any tab.
    pub fn current_tab(&self) -> (r: Option<&String>)
        requires
            self.tabs@.len() > 0 ==> self.current < self.tabs@.len(),
        ensures
            self.tabs@.len() == 0 ==> r is None,
            self.tabs@.len() > 0 ==> r == Some(&self.tabs@[self.current as int]),
    {
        if self.tabs.len() != 0 {
            Some(&self.tabs[self.current])
        } else {
            None
        }
    }

    pub fn get_index(&self) -> (r: Option<usize>)
        ensures
            r == Some(self.selected),
    {
        Some(self.selected)
    }

    /// Highlights the given position; `None` leaves the highlight.
    pub fn set_index(&mut self, index: Option<usize>)
        ensures
            final(self).selected == (match index {
                Some(i) => i,
                None => old(self).selected,
            }),
            final(self).tabs == old(self).tabs,
            final(self).current == old(self).current,
            final(self).removed_tab == old(self).removed_tab,
            final(self).in_focus == old(self).in_focus,
    {
        if let Some(i) = index {
            self.selected = i;
        }
    }

    /// Moves the highlight left, stopping at the first tab.
    pub fn select_previous(&mut self)
        ensures
            final(self).selected == after_left(old(self).tabs@.len(), old(self).selected),
            final(self).tabs == old(self).tabs,
            final(self).current == old(self).current,
            final(self).removed_tab == old(self).removed_tab,
            final(self).in_focus == old(self).in_focus,
    {
        if self.tabs.len() > 0 {
            if self.selected != 0 {
                self.selected = self.selected - 1;
            }
        }
    }

    /// Moves the highlight right, stopping at the last tab.
    pub fn select_next(&mut self)
        requires
            old(self).tabs@.len() > 0 ==> old(self).selected < usize::MAX,
        ensures
            final(self).selected == after_right(old(self).tabs@.len(), old(self).selected),
            final(self).tabs == old(self).tabs,
            final(self).current == old(self).current,
            final(self).removed_tab == old(self).removed_tab,
            final(self).in_focus == old(self).in_focus,
    {
        if self.tabs.len() > 0 {
            if self.selected != self.tabs.len() - 1 {
                self.selected = self.selected + 1;
            }
        }
    }

    /// Answers a key: Left and Right move the highlight, Enter shows the
    /// highlighted tab (and says so by returning `true`), Backspace closes
    /// the highlighted tab.
    pub fn handle_key(&mut self, key: TabKey) -> (changed: bool)
        requires
            key is Right ==> (old(self).tabs@.len() > 0 ==> old(self).selected < usize::MAX),
            key is Backspace ==> (old(self).tabs@.len() > 0 ==> old(self).selected
                < old(self).tabs@.len()),
        ensures
            changed == (key is Enter),
            key is Enter ==> *final(self) == (Tabs { current: old(self).selected, ..*old(self) }),
            key is Left ==> final(self).selected == after_left(old(self).tabs@.len(), old(self).selected) && final(self).tabs == old(self).tabs && final(self).current == old(self).current,
            key is Right ==> final(self).selected == after_right(old(self).tabs@.len(), old(self).selected) && final(self).tabs == old(self).tabs && final(self).current == old(self).current,
            key is Backspace ==> (old(self).tabs@.len() == 0 ==> *final(self) == *old(self)),
            key is Backspace ==> (old(self).tabs@.len() > 0 ==> final(self).titles() == old(
                self,
            ).titles().remove(old(self).selected as int) && final(self).current == old(
                self,
            ).current),
    {
        match key {
            TabKey::Left => {
                self.select_previous();
                false
            },
            TabKey::Right => {
                self.select_next();
                false
            },
            TabKey::Enter => {
                self.current = self.selected;
                true
            },
            TabKey::Backspace => {
                self.remove_selected_tab();
                false
            },
        }
    }

    /// Takes the focus.
    pub fn make_focused(&mut self)
        ensures
            *final(self) == (Tabs { in_focus: true, ..*old(self) }),
    {
        self.in_focus = true;
    }
}

impl Default for Tabs {
    /// No tabs, the first position highlighted and shown.
    fn default() -> (r: Self)
        ensures
            r.tabs@.len() == 0,
            r.removed_tab is None,
            r.selected == 0,
            r.current == 0,
            !r.in_focus,
    {
        Tabs::new(Vec::new())
    }
}

} // verus!
