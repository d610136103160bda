//! Dropdown menus: a header and a tree of items, opened level by level.
//!
//! `depth` counts the open levels: 0 when the menu is shut, 1 when the first
//! level of items is shown, and one more for each item opened below it. The
//! item that a key acts on is reached from the top by following the selected
//! index of each open level.
use vstd::prelude::*;
use vstd::std_specs::convert::IntoSpec;

use super::SelectItem;

verus! {

/// An entry of a dropdown menu, with the entries below it.
#[derive(Debug)]
pub struct DropdownItem {
    pub text: String,
    pub children: Vec<DropdownItem>,
    pub is_open: bool,
    pub selected: usize,
}

/// What an entry is, as a value: its text, the entries below it, whether it
/// is open and which entry below it is selected.
pub struct ItemView {
    pub text: Seq<char>,
    pub children: Seq<ItemView>,
    pub is_open: bool,
    pub selected: usize,
}

impl DropdownItem {
    pub open spec fn item_view(self) -> ItemView
        decreases self,
    {
        ItemView {
            text: self.text@,
            children: Seq::new(
                self.children@.len(),
                |i: int|
                    if 0 <= i < self.children@.len() {
                        self.children@[i].item_view()
                    } else {
                        arbitrary()
                    },
            ),
            is_open: self.is_open,
            selected: self.selected,
        }
    }
}


impl DropdownItem {
    /// An entry with the given entries below it, shut, the first of them
    /// selected. Its text is what `text.into()` gives.
    pub fn new<T: Into<String>>(text: T, children: Vec<DropdownItem>) -> (r: Self)
        ensures
            <T as IntoSpec<String>>::obeys_into_spec() ==> r.text == text.into_spec(),
            r.children == children,
            !r.is_open,
            r.selected == 0,
    {
        DropdownItem { text: text.into(), children, is_open: false, selected: 0 }
    }

    /// An entry with nothing below it.
    pub fn empty<T: Into<String>>(text: T) -> (r: Self)
        ensures
            <T as IntoSpec<String>>::obeys_into_spec() ==> r.text == text.into_spec(),
            r.children@.len() == 0,
            !r.is_open,
            r.selected == 0,
    {
        DropdownItem { text: text.into(), children: Vec::new(), is_open: false, selected: 0 }
    }

    /// An entry with one entry below it for each string, each with nothing
    /// below it.
    pub fn flat<T: Into<String>>(text: T, children: Vec<String>) -> (r: Self)
        ensures
            <T as IntoSpec<String>>::obeys_into_spec() ==> r.text == text.into_spec(),
            r.children@.len() == children@.len(),
            forall|i: int|
                0 <= i < children@.len() ==> {
                    &&& (#[trigger] r.children@[i]).text@ == children@[i]@
                    &&& r.children@[i].children@.len() == 0
                    &&& !r.children@[i].is_open
                    &&& r.children@[i].selected == 0
                },
            !r.is_open,
            r.selected == 0,
    {
        let mut items: Vec<DropdownItem> = Vec::new();
        let n = children.len();
        let mut i: usize = 0;
        while i < n
            invariant
                n == children@.len(),
                i <= n,
                items@.len() == i,
                forall|j: int|
                    0 <= j < i ==> {
                        &&& (#[trigger] items@[j]).text@ == children@[j]@
                        &&& items@[j].children@.len() == 0
                        &&& !items@[j].is_open
                        &&& items@[j].selected == 0
                    },
            decreases n - i,
        {
            items.push(
                DropdownItem {
                    text: children[i].clone(),
                    children: Vec::new(),
                    is_open: false,
                    selected: 0,
                },
            );
            i = i + 1;
        }
        DropdownItem { text: text.into(), children: items, is_open: false, selected: 0 }
    }

    pub fn get_children(&self) -> (r: &Vec<DropdownItem>)
        ensures
            r == &self.children,
    {
        &self.children
    }

    /// The selected entry below, while this entry is open.
    pub fn selected(&self) -> (r: Option<usize>)
        ensures
            r == (if self.is_open {
                Some(self.selected)
            } else {
                None
            }),
    {
        if self.is_open {
            Some(self.selected)
        } else {
            None
        }
    }

    pub fn open(&mut self)
        ensures
            final(self).is_open,
            final(self).text == old(self).text,
            final(self).children == old(self).children,
            final(self).selected == old(self).selected,
    {
        self.is_open = true;
    }

    pub fn close(&mut self)
        ensures
            !final(self).is_open,
            final(self).text == old(self).text,
            final(self).children == old(self).children,
            final(self).selected == old(self).selected,
    {
        self.is_open = false;
    }

    pub fn is_open(&self) -> (r: bool)
        ensures
            r == self.is_open,
    {
        self.is_open
    }
}

impl Default for DropdownItem {
    fn default() -> (r: Self)
        ensures
            r.text@ == "DropdownItem"@,
            r.children@.len() == 0,
            !r.is_open,
            r.selected == 0,
    {
        DropdownItem {
            text: "DropdownItem".to_owned(),
            children: Vec::new(),
            is_open: false,
            selected: 0,
        }
    }
}

impl SelectItem for DropdownItem {
    fn get_index(&self) -> (r: Option<usize>)
        ensures
            r == (if self.is_open {
                Some(self.selected)
            } else {
                None
            }),
    {
        self.selected()
    }

    /// Selects the given entry; `None` leaves the selection.
    fn set_index(&mut self, index: Option<usize>)
        ensures
            final(self).selected == (match index {
                Some(i) => i,
                None => old(self).selected,
            }),
            final(self).text == old(self).text,
            final(self).children == old(self).children,
            final(self).is_open == old(self).is_open,
    {
        if let Some(i) = index {
            self.selected = i;
        }
    }

    fn select_previous(&mut self)
        ensures
            final(self).selected == prev_index(old(self).selected),
            final(self).text == old(self).text,
            final(self).children == old(self).children,
            final(self).is_open == old(self).is_open,
    {
        self.selected = self.selected.saturating_sub(1);
    }

    fn select_next(&mut self)
        ensures
            final(self).selected == next_index(old(self).selected, old(self).children@.len()),
            final(self).text == old(self).text,
            final(self).children == old(self).children,
            final(self).is_open == old(self).is_open,
    {
        self.selected = next_index_exec(self.selected, self.children.len());
    }
}

/// The entry selected after moving down: one further, but not past the
/// last entry (0 when there is none).
pub open spec fn next_index(selected: usize, len: nat) -> usize {
    let up: int = if selected == usize::MAX {
        usize::MAX as int
    } else {
        selected + 1
    };
    let last: int = if len == 0 {
        0
    } else {
        len - 1
    };
    if up < last {
        up as usize
    } else {
        last as usize
    }
}

/// The entry selected after moving up: one before, but not before the first.
pub open spec fn prev_index(selected: usize) -> usize {
    if selected == 0 {
        0
    } else {
        (selected - 1) as usize
    }
}

fn next_index_exec(selected: usize, len: usize) -> (r: usize)
    ensures
        r == next_index(selected, len as nat),
{
    let up = selected.saturating_add(1);
    let last = len.saturating_sub(1);
    if up < last {
        up
    } else {
        last
    }
}

/// A title centred in a width: the spaces it lacks split in two, the
/// smaller half before it; a title as wide or wider stays as it is.
pub open spec fn centered(title: Seq<char>, width: usize) -> Seq<char> {
    if title.len() >= width {
        title
    } else {
        let pad = width - title.len();
        Seq::new((pad / 2) as nat, |i: int| ' ') + title + Seq::new((pad - pad / 2) as nat, |i: int| ' ')
    }
}

fn push_spaces(s: &mut String, n: usize)
    ensures
        final(s)@ == old(s)@ + Seq::new(n as nat, |i: int| ' '),
{
    let mut k: usize = 0;
    while k < n
        invariant
            k <= n,
            s@ == old(s)@ + Seq::new(k as nat, |i: int| ' '),
        decreases n - k,
    {
        crate::utils::push_char(s, ' ');
        assert(s@ =~= old(s)@ + Seq::new((k + 1) as nat, |i: int| ' '));
        k = k + 1;
    }
}

/// The menu's title as drawn in its header (see `centered`).
pub fn centered_title(title: &str, width: usize) -> (r: String)
    ensures
        r@ == centered(title@, width),
{
    let chars = crate::gui::windows::filesearch::chars_of(title);
    let len = chars.len();
    let mut r = String::new();
    if len >= width {
        crate::utils::push_str(&mut r, title);
        assert(r@ =~= title@);
        return r;
    }
    let pad = width - len;
    push_spaces(&mut r, pad / 2);
    crate::utils::push_str(&mut r, title);
    push_spaces(&mut r, pad - pad / 2);
    assert(r@ =~= centered(title@, width));
    r
}

/// The widest of the entries' widths.
pub open spec fn widest(sizes: Seq<(usize, usize)>) -> nat
    decreases sizes.len(),
{
    if sizes.len() == 0 {
        0
    } else {
        let w = widest(sizes.drop_last());
        if sizes.last().0 > w {
            sizes.last().0 as nat
        } else {
            w
        }
    }
}

/// The entries' heights, added up.
pub open spec fn total_height(sizes: Seq<(usize, usize)>) -> nat
    decreases sizes.len(),
{
    if sizes.len() == 0 {
        0
    } else {
        total_height(sizes.drop_last()) + sizes.last().1 as nat
    }
}

/// The size of a menu's list, from the width and height of each entry's
/// text: the widest entry and the entries' heights, with a border of one
/// all round.
pub fn list_dimensions(sizes: &Vec<(usize, usize)>) -> (r: (usize, usize))
    requires
        widest(sizes@) + 2 <= usize::MAX,
        total_height(sizes@) + 2 <= usize::MAX,
    ensures
        r.0 == widest(sizes@) + 2,
        r.1 == total_height(sizes@) + 2,
{
    let mut width: usize = 0;
    let mut height: usize = 2;
    let n = sizes.len();
    let mut i: usize = 0;
    while i < n
        invariant
            n == sizes@.len(),
            i <= n,
            width == widest(sizes@.take(i as int)),
            height == total_height(sizes@.take(i as int)) + 2,
            widest(sizes@) + 2 <= usize::MAX,
            total_height(sizes@) + 2 <= usize::MAX,
        decreases n - i,
    {
        proof {
            assert(sizes@.take(i + 1).drop_last() =~= sizes@.take(i as int));
            lemma_size_prefix(sizes@, i + 1);
        }
        let (w, h) = sizes[i];
        if w > width {
            width = w;
        }
        height = height + h;
        i = i + 1;
    }
    assert(sizes@.take(n as int) =~= sizes@);
    (width + 2, height)
}

proof fn lemma_size_prefix(s: Seq<(usize, usize)>, k: int)
    requires
        0 <= k <= s.len(),
    ensures
        widest(s.take(k)) <= widest(s),
        total_height(s.take(k)) <= total_height(s),
    decreases s.len(),
{
    if k < s.len() {
        assert(s.drop_last().take(k) =~= s.take(k));
        lemma_size_prefix(s.drop_last(), k);
    } else {
        assert(s.take(k) =~= s);
    }
}

/// Whether `k` levels are open from the entry `n` on: `n` is open and has
/// entries, and so on from the entry selected in it, `k` times.
pub open spec fn path_open(n: ItemView, k: nat) -> bool
    decreases k,
{
    if k == 0 {
        true
    } else {
        n.is_open && n.children.len() > 0 && path_open(n.children[n.selected as int], (k - 1) as nat)
    }
}

/// Whether the open levels of a menu form a path: shut with no level
/// open, or open with at least the first level, each level below the first
/// being reached through an open entry with entries, from the entry
/// selected in the first level.
pub open spec fn menu_ok(d: DropdownView) -> bool {
    ||| d.depth == 0 && !d.is_open
    ||| d.is_open && d.depth >= 1 && (d.depth >= 2 ==> d.children.len() > 0 && path_open(
        d.children[d.selected as int],
        (d.depth - 1) as nat,
    ))
}

proof fn lemma_walk_keeps_path(n: ItemView, cur: nat, depth: nat, action: DropdownAction)
    requires
        1 <= cur <= depth,
        path_open(n, (depth - cur) as nat),
        walk_ok(n, cur, depth, action),
    ensures
        depth - cur + walk(n, cur, depth, action).1 >= 0,
        path_open(walk(n, cur, depth, action).0, (depth - cur + walk(n, cur, depth, action).1) as nat),
    decreases depth - cur,
{
    lemma_walk_delta(n, cur, depth, action);
    if cur < depth && !(cur + 1 == depth && action.moves_in_level()) && n.children.len() > 0 {
        let sel = n.selected as int;
        lemma_walk_keeps_path(n.children[sel], cur + 1, depth, action);
        let (c, dl, f) = walk(n.children[sel], cur + 1, depth, action);
        let m = walk(n, cur, depth, action).0;
        assert(m.children[sel] == c);
        assert(m.is_open == n.is_open);
        assert(m.children.len() == n.children.len());
    } else if cur < depth && cur + 1 == depth && action.moves_in_level() {
        let m = walk(n, cur, depth, action).0;
        if !(action is Close) {
            assert(n.is_open && n.children.len() > 0);
            assert(m.is_open && m.children.len() > 0);
            assert(path_open(m.children[m.selected as int], 0));
            assert(path_open(m, 1));
        }
    } else if cur == depth && action is Open {
        let m = walk(n, cur, depth, action).0;
        if n.children.len() > 0 && !n.is_open {
            assert(path_open(m.children[m.selected as int], 0));
            assert(path_open(m, 1));
        }
    }
}

/// Every key keeps the open levels of a menu a path (see `menu_ok`).
pub proof fn lemma_alter_keeps_menu(d: DropdownView, action: DropdownAction)
    requires
        menu_ok(d),
        alter_ok(d, action),
    ensures
        menu_ok(spec_alter(d, action)),
{
    if !acts_on_root(d.depth, action) && d.children.len() > 0 {
        let sel = d.selected as int;
        let c = d.children[sel];
        lemma_walk_delta(c, 1, d.depth as nat, action);
        lemma_walk_keeps_path(c, 1, d.depth as nat, action);
        let e = spec_alter(d, action);
        assert(e.children[sel] == walk(c, 1, d.depth as nat, action).0);
        assert(e.children.len() == d.children.len());
    }
}

/// The keys that a dropdown menu answers.
#[derive(Clone, Copy, Debug, PartialEq, Eq, Structural)]
pub enum DropdownAction {
    Open,
    Close,
    Next,
    Previous,
    Click,
}

impl DropdownAction {
    /// Close, Next and Previous act on the deepest open level itself; Open
    /// and Click act on the entry selected in it.
    pub open spec fn moves_in_level(self) -> bool {
        self is Close || self is Next || self is Previous
    }
}

/// What a key does below the first level, from the entry `n` reached at
/// level `cur` when `depth` levels are open: the entry as it becomes, the
/// change of `depth`, and the text fetched, if any.
pub open spec fn walk(n: ItemView, cur: nat, depth: nat, action: DropdownAction) -> (
    ItemView,
    int,
    Option<Seq<char>>,
)
    decreases depth - cur,
{
    if cur < depth {
        if cur + 1 == depth && action.moves_in_level() {
            match action {
                DropdownAction::Close => (ItemView { is_open: false, ..n }, -1, None),
                DropdownAction::Next => (
                    ItemView { selected: next_index(n.selected, n.children.len()), ..n },
                    0,
                    None,
                ),
                _ => (ItemView { selected: prev_index(n.selected), ..n }, 0, None),
            }
        } else if n.children.len() == 0 {
            (n, 0, None)
        } else {
            let (c, d, f) = walk(n.children[n.selected as int], cur + 1, depth, action);
            (ItemView { children: n.children.update(n.selected as int, c), ..n }, d, f)
        }
    } else if action is Open {
        if n.children.len() > 0 && !n.is_open {
            (ItemView { is_open: true, ..n }, 1, None)
        } else {
            (n, 0, None)
        }
    } else {
        (n, 0, Some(n.text))
    }
}

/// Whether the walk of `walk` only follows selected indices that name an
/// entry.
pub open spec fn walk_ok(n: ItemView, cur: nat, depth: nat, action: DropdownAction) -> bool
    decreases depth - cur,
{
    if cur < depth && !(cur + 1 == depth && action.moves_in_level()) && n.children.len() > 0 {
        n.selected < n.children.len() && walk_ok(
            n.children[n.selected as int],
            cur + 1,
            depth,
            action,
        )
    } else {
        true
    }
}

pub open spec fn opt_text(o: Option<String>) -> Option<Seq<char>> {
    match o {
        Some(s) => Some(s@),
        None => None,
    }
}

proof fn lemma_walk_delta(n: ItemView, cur: nat, depth: nat, action: DropdownAction)
    ensures
        -1 <= walk(n, cur, depth, action).1 <= 1,
        walk(n, cur, depth, action).1 == -1 ==> cur < depth,
        action is Open ==> walk(n, cur, depth, action).2 is None,
    decreases depth - cur,
{
    if cur < depth && !(cur + 1 == depth && action.moves_in_level()) && n.children.len() > 0 {
        lemma_walk_delta(n.children[n.selected as int], cur + 1, depth, action);
    }
}

proof fn lemma_view_fields(a: DropdownItem, b: DropdownItem)
    requires
        a.children@ == b.children@,
    ensures
        a.item_view().children == b.item_view().children,
{
    assert(a.item_view().children =~= b.item_view().children);
}

proof fn lemma_view_update(a: DropdownItem, b: DropdownItem, i: int, c: DropdownItem)
    requires
        0 <= i < a.children@.len(),
        b.children@ == a.children@.update(i, c),
    ensures
        b.item_view().children == a.item_view().children.update(i, c.item_view()),
{
    assert(b.item_view().children =~= a.item_view().children.update(i, c.item_view()));
}

fn walk_ok_exec(item: &DropdownItem, cur: usize, depth: usize, action: DropdownAction) -> (r:
    bool)
    ensures
        r == walk_ok(item.item_view(), cur as nat, depth as nat, action),
    decreases depth - cur,
{
    let len = item.children.len();
    if cur < depth && !(cur == depth - 1 && action != DropdownAction::Open && action
        != DropdownAction::Click) && len > 0 {
        if item.selected < len {
            assert(item.item_view().children[item.selected as int]
                == item.children@[item.selected as int].item_view());
            walk_ok_exec(&item.children[item.selected], cur + 1, depth, action)
        } else {
            false
        }
    } else {
        true
    }
}

fn walk_item(item: &mut DropdownItem, cur: usize, depth: usize, action: DropdownAction) -> (r: (
    i8,
    Option<String>,
))
    requires
        1 <= cur,
        walk_ok(old(item).item_view(), cur as nat, depth as nat, action),
    ensures
        ({
            let (n, d, f) = walk(old(item).item_view(), cur as nat, depth as nat, action);
            final(item).item_view() == n && r.0 as int == d && opt_text(r.1) == f
        }),
    decreases depth - cur,
{
    let ghost old_item = *item;
    let empty = item.children.len() == 0;
    if cur < depth {
        if cur == depth - 1 && action != DropdownAction::Open && action != DropdownAction::Click {
            match action {
                DropdownAction::Close => {
                    item.is_open = false;
                    proof {
                        lemma_view_fields(old_item, *item);
                    }
                    (-1, None)
                },
                DropdownAction::Next => {
                    item.selected = next_index_exec(item.selected, item.children.len());
                    proof {
                        lemma_view_fields(old_item, *item);
                    }
                    (0, None)
                },
                _ => {
                    item.selected = item.selected.saturating_sub(1);
                    proof {
                        lemma_view_fields(old_item, *item);
                    }
                    (0, None)
                },
            }
        } else if empty {
            (0, None)
        } else {
            let sel = item.selected;
            proof {
                assert(item.item_view().children[sel as int] == item.children@[sel as int].item_view());
            }
            let r = walk_item(&mut item.children[sel], cur + 1, depth, action);
            proof {
                lemma_view_update(old_item, *item, sel as int, item.children@[sel as int]);
            }
            r
        }
    } else if action == DropdownAction::Open {
        if !empty && !item.is_open {
            item.is_open = true;
            proof {
                lemma_view_fields(old_item, *item);
            }
            (1, None)
        } else {
            (0, None)
        }
    } else {
        (0, Some(item.text.clone()))
    }
}


/// What the top of a menu shows: a search field, with the text typed into
/// it, or a fixed title.
#[derive(Debug)]
pub enum DropdownHeader {
    Search(String),
    Title(String),
}

/// A dropdown menu: its header, the first level of entries, the entry
/// selected in it, the number of open levels, and the text that the last
/// click fetched.
#[derive(Debug)]
pub struct Dropdown {
    pub header: DropdownHeader,
    pub children: Vec<DropdownItem>,
    pub selected: usize,
    pub is_open: bool,
    pub in_focus: bool,
    pub depth: usize,
    pub fetched_text: Option<String>,
}

/// A menu as a value.
pub struct DropdownView {
    pub header: DropdownHeader,
    pub children: Seq<ItemView>,
    pub selected: usize,
    pub is_open: bool,
    pub in_focus: bool,
    pub depth: usize,
    pub fetched_text: Option<Seq<char>>,
}

impl Dropdown {
    pub open spec fn dropdown_view(self) -> DropdownView {
        DropdownView {
            header: self.header,
            children: Seq::new(self.children@.len(), |i: int| self.children@[i].item_view()),
            selected: self.selected,
            is_open: self.is_open,
            in_focus: self.in_focus,
            depth: self.depth,
            fetched_text: opt_text(self.fetched_text),
        }
    }
}

/// The text that a click on the header fetches: what the search field
/// holds; a title fetches nothing.
pub open spec fn header_text(h: DropdownHeader) -> Option<Seq<char>> {
    match h {
        DropdownHeader::Search(t) => Some(t@),
        DropdownHeader::Title(_) => None,
    }
}

/// Whether a key acts on the header and the first level: Open and Click do
/// while the menu is shut, the others while at most one level is open.
pub open spec fn acts_on_root(depth: usize, action: DropdownAction) -> bool {
    if action is Open || action is Click {
        depth == 0
    } else {
        depth <= 1
    }
}

/// What a key does to a menu.
pub open spec fn spec_alter(d: DropdownView, action: DropdownAction) -> DropdownView {
    if acts_on_root(d.depth, action) {
        match action {
            DropdownAction::Open => DropdownView { is_open: true, depth: 1, ..d },
            DropdownAction::Close => DropdownView { is_open: false, depth: 0, ..d },
            DropdownAction::Next => if d.is_open {
                DropdownView { selected: next_index(d.selected, d.children.len()), ..d }
            } else {
                d
            },
            DropdownAction::Previous => if d.is_open {
                DropdownView { selected: prev_index(d.selected), ..d }
            } else {
                d
            },
            DropdownAction::Click => DropdownView { fetched_text: header_text(d.header), ..d },
        }
    } else if d.children.len() == 0 {
        d
    } else {
        let (c, delta, f) = walk(d.children[d.selected as int], 1, d.depth as nat, action);
        DropdownView {
            children: d.children.update(d.selected as int, c),
            depth: (d.depth + delta) as usize,
            fetched_text: if f is Some {
                f
            } else {
                d.fetched_text
            },
            ..d
        }
    }
}

/// The menus on which a key can be acted on: below the first level, the
/// selected indices followed name entries (and the count of open levels
/// can grow by one).
pub open spec fn alter_ok(d: DropdownView, action: DropdownAction) -> bool {
    acts_on_root(d.depth, action) || d.children.len() == 0 || (d.selected < d.children.len()
        && walk_ok(d.children[d.selected as int], 1, d.depth as nat, action) && d.depth
        < usize::MAX)
}

impl Dropdown {
    pub fn new(header: DropdownHeader, children: Vec<DropdownItem>) -> (r: Self)
        ensures
            r.header == header,
            r.children == children,
            r.selected == 0,
            !r.is_open,
            !r.in_focus,
            r.depth == 0,
            r.fetched_text is None,
    {
        Dropdown {
            header,
            children,
            selected: 0,
            is_open: false,
            in_focus: false,
            depth: 0,
            fetched_text: None,
        }
    }

    /// Acts on a key.
    pub fn alter_dropdown(&mut self, action: DropdownAction)
        requires
            alter_ok(old(self).dropdown_view(), action),
        ensures
            final(self).dropdown_view() == spec_alter(old(self).dropdown_view(), action),
    {
        let ghost old_d = self.dropdown_view();
        let act_on_root = if (action == DropdownAction::Open) || (action == DropdownAction::Click) {
            self.depth == 0
        } else {
            self.depth <= 1
        };
        if act_on_root {
            match action {
                DropdownAction::Open => {
                    self.is_open = true;
                    self.depth = 1;
                },
                DropdownAction::Close => {
                    self.is_open = false;
                    self.depth = 0;
                },
                DropdownAction::Next => {
                    if self.is_open {
                        self.selected = next_index_exec(self.selected, self.children.len());
                    }
                },
                DropdownAction::Previous => {
                    if self.is_open {
                        self.selected = self.selected.saturating_sub(1);
                    }
                },
                DropdownAction::Click => {
                    self.fetched_text = match &self.header {
                        DropdownHeader::Search(text) => Some(text.clone()),
                        DropdownHeader::Title(..) => None,
                    };
                },
            }
            assert(self.dropdown_view().children =~= old_d.children);
            return ;
        }
        if self.children.len() == 0 {
            return ;
        }
        let sel = self.selected;
        assert(old_d.children[sel as int] == self.children@[sel as int].item_view());
        proof {
            lemma_walk_delta(old_d.children[sel as int], 1, self.depth as nat, action);
        }
        let (delta, fetched) = walk_item(&mut self.children[sel], 1, self.depth, action);
        if delta > 0 {
            self.depth = self.depth + 1;
        } else if delta < 0 {
            self.depth = self.depth - 1;
        }
        if fetched.is_some() {
            self.fetched_text = fetched;
        }
        assert(self.dropdown_view().children =~= old_d.children.update(
            sel as int,
            self.children@[sel as int].item_view(),
        ));
    }

    /// Whether `alter_dropdown` can act on the key: below the first level,
    /// the selected indices that it follows must name entries.
    pub fn can_alter(&self, action: DropdownAction) -> (r: bool)
        ensures
            r == alter_ok(self.dropdown_view(), action),
    {
        let act_on_root = if (action == DropdownAction::Open) || (action == DropdownAction::Click) {
            self.depth == 0
        } else {
            self.depth <= 1
        };
        if act_on_root || self.children.len() == 0 {
            return true;
        }
        if self.selected >= self.children.len() || self.depth == usize::MAX {
            return false;
        }
        assert(self.dropdown_view().children[self.selected as int]
            == self.children@[self.selected as int].item_view());
        walk_ok_exec(&self.children[self.selected], 1, self.depth, action)
    }

    /// Moves the selection of the deepest open level up.
    pub fn select_previous(&mut self)
        requires
            alter_ok(old(self).dropdown_view(), DropdownAction::Previous),
        ensures
            final(self).dropdown_view() == spec_alter(
                old(self).dropdown_view(),
                DropdownAction::Previous,
            ),
    {
        self.alter_dropdown(DropdownAction::Previous);
    }

    /// Moves the selection of the deepest open level down.
    pub fn select_next(&mut self)
        requires
            alter_ok(old(self).dropdown_view(), DropdownAction::Next),
        ensures
            final(self).dropdown_view() == spec_alter(
                old(self).dropdown_view(),
                DropdownAction::Next,
            ),
    {
        self.alter_dropdown(DropdownAction::Next);
    }

    /// The selected entry of the first level, while the menu is open.
    pub fn get_index(&self) -> (r: Option<usize>)
        ensures
            r == (if self.is_open {
                Some(self.selected)
            } else {
                None
            }),
    {
        self.selected()
    }

    /// Selects an entry of the first level; `None` leaves the selection.
    pub fn set_index(&mut self, index: Option<usize>)
        ensures
            final(self).selected == (match index {
                Some(i) => i,
                None => old(self).selected,
            }),
            final(self).header == old(self).header,
            final(self).children == old(self).children,
            final(self).is_open == old(self).is_open,
            final(self).in_focus == old(self).in_focus,
            final(self).depth == old(self).depth,
            final(self).fetched_text == old(self).fetched_text,
    {
        if let Some(i) = index {
            self.selected = i;
        }
    }

    /// Takes the focus; a search field in the header takes it too.
    pub fn make_focused(&mut self)
        ensures
            final(self).in_focus,
            final(self).dropdown_view() == (DropdownView {
                in_focus: true,
                ..old(self).dropdown_view()
            }),
    {
        self.in_focus = true;
    }

    /// Fetches the text of the selected entry (or of the search field while
    /// the menu is shut) into `fetched_text`.
    pub fn click(&mut self)
        requires
            alter_ok(old(self).dropdown_view(), DropdownAction::Click),
        ensures
            final(self).dropdown_view() == spec_alter(
                old(self).dropdown_view(),
                DropdownAction::Click,
            ),
    {
        self.alter_dropdown(DropdownAction::Click);
    }

    /// The selected entry of the first level, while the menu is open.
    pub fn selected(&self) -> (r: Option<usize>)
        ensures
            r == (if self.is_open {
                Some(self.selected)
            } else {
                None
            }),
    {
        if self.is_open {
            Some(self.selected)
        } else {
            None
        }
    }

    pub fn is_open(&self) -> (r: bool)
        ensures
            r == self.is_open,
    {
        self.is_open
    }

    pub fn open(&mut self)
        requires
            alter_ok(old(self).dropdown_view(), DropdownAction::Open),
        ensures
            final(self).dropdown_view() == spec_alter(
                old(self).dropdown_view(),
                DropdownAction::Open,
            ),
    {
        self.alter_dropdown(DropdownAction::Open);
    }

    pub fn close(&mut self)
        requires
            alter_ok(old(self).dropdown_view(), DropdownAction::Close),
        ensures
            final(self).dropdown_view() == spec_alter(
                old(self).dropdown_view(),
                DropdownAction::Close,
            ),
    {
        self.alter_dropdown(DropdownAction::Close);
    }

    pub fn get_children(&self) -> (r: &Vec<DropdownItem>)
        ensures
            r == &self.children,
    {
        &self.children
    }
}

proof fn lemma_walk_close_after_open(n: ItemView, cur: nat, depth: nat)
    requires
        cur <= depth,
        walk_ok(n, cur, depth, DropdownAction::Open),
        walk(n, cur, depth, DropdownAction::Open).1 == 1,
    ensures
        walk(walk(n, cur, depth, DropdownAction::Open).0, cur, depth + 1, DropdownAction::Close)
            == (n, -1int, None::<Seq<char>>),
    decreases depth - cur,
{
    if cur < depth {
        let sel = n.selected as int;
        let c = n.children[sel];
        lemma_walk_close_after_open(c, cur + 1, depth);
        let opened = walk(n, cur, depth, DropdownAction::Open).0;
        assert(opened.children[sel] == walk(c, cur + 1, depth, DropdownAction::Open).0);
        assert(opened.children.update(sel, c) =~= n.children);
    }
}

proof fn lemma_walk_click(n: ItemView, cur: nat, depth: nat)
    requires
        walk_ok(n, cur, depth, DropdownAction::Click),
    ensures
        walk(n, cur, depth, DropdownAction::Click).0 == n,
        walk(n, cur, depth, DropdownAction::Click).1 == 0,
    decreases depth - cur,
{
    if cur < depth && n.children.len() > 0 {
        let sel = n.selected as int;
        lemma_walk_click(n.children[sel], cur + 1, depth);
        assert(n.children.update(sel, n.children[sel]) =~= n.children);
    }
}

/// Closing undoes opening: when Open opens a level (the count of open
/// levels grows by one), a Close that follows gives back the menu as it was.
pub proof fn lemma_close_undoes_open(d: DropdownView)
    requires
        alter_ok(d, DropdownAction::Open),
        spec_alter(d, DropdownAction::Open).depth == d.depth + 1,
        d.depth == 0 ==> !d.is_open,
    ensures
        spec_alter(spec_alter(d, DropdownAction::Open), DropdownAction::Close) == d,
{
    if d.depth > 0 {
        let sel = d.selected as int;
        let c = d.children[sel];
        lemma_walk_delta(c, 1, d.depth as nat, DropdownAction::Open);
        assert(walk(c, 1, d.depth as nat, DropdownAction::Open).1 == 1);
        lemma_walk_close_after_open(c, 1, d.depth as nat);
        let opened = spec_alter(d, DropdownAction::Open);
        assert(opened.children[sel] == walk(c, 1, d.depth as nat, DropdownAction::Open).0);
        assert(opened.depth == d.depth + 1);
        assert(opened.selected == d.selected);
        let closed = spec_alter(opened, DropdownAction::Close);
        assert(closed.children =~= d.children);
        assert(closed.depth == d.depth);
        assert(closed.fetched_text == d.fetched_text);
    }
}

/// A click changes nothing but the fetched text: no entry opens, shuts or
/// moves its selection, and the count of open levels stays.
pub proof fn lemma_click_only_fetches(d: DropdownView)
    requires
        alter_ok(d, DropdownAction::Click),
    ensures
        spec_alter(d, DropdownAction::Click).children == d.children,
        spec_alter(d, DropdownAction::Click).selected == d.selected,
        spec_alter(d, DropdownAction::Click).is_open == d.is_open,
        spec_alter(d, DropdownAction::Click).depth == d.depth,
        spec_alter(d, DropdownAction::Click).header == d.header,
{
    if !acts_on_root(d.depth, DropdownAction::Click) && d.children.len() > 0 {
        let sel = d.selected as int;
        lemma_walk_click(d.children[sel], 1, d.depth as nat);
        assert(d.children.update(sel, d.children[sel]) =~= d.children);
    }
}

/// The keys that a dropdown menu answers.
#[derive(Clone, Copy, Debug, PartialEq, Eq)]
pub enum MenuKey {
    Enter,
    Esc,
    Up,
    Down,
    ShiftEnter,
}

/// Enter opens, Esc closes, Up and Down move, Shift+Enter clicks.
pub open spec fn spec_key_action(key: MenuKey) -> DropdownAction {
    match key {
        MenuKey::Enter => DropdownAction::Open,
        MenuKey::Esc => DropdownAction::Close,
        MenuKey::Up => DropdownAction::Previous,
        MenuKey::Down => DropdownAction::Next,
        MenuKey::ShiftEnter => DropdownAction::Click,
    }
}

pub fn key_action(key: MenuKey) -> (r: DropdownAction)
    ensures
        r == spec_key_action(key),
{
    match key {
        MenuKey::Enter => DropdownAction::Open,
        MenuKey::Esc => DropdownAction::Close,
        MenuKey::Up => DropdownAction::Previous,
        MenuKey::Down => DropdownAction::Next,
        MenuKey::ShiftEnter => DropdownAction::Click,
    }
}

impl Default for Dropdown {
    /// A shut menu titled `Dropdown` with four default entries.
    fn default() -> (r: Self)
        ensures
            r.header matches DropdownHeader::Title(t) && t@ == "Dropdown"@,
            r.children@.len() == 4,
            forall|i: int|
                0 <= i < 4 ==> {
                    &&& (#[trigger] r.children@[i]).text@ == "DropdownItem"@
                    &&& r.children@[i].children@.len() == 0
                    &&& !r.children@[i].is_open
                    &&& r.children@[i].selected == 0
                },
            r.selected == 0,
            !r.is_open,
            !r.in_focus,
            r.depth == 0,
            r.fetched_text is None,
    {
        Dropdown {
            header: DropdownHeader::Title("Dropdown".to_owned()),
            children: vec![
                DropdownItem::default(),
                DropdownItem::default(),
                DropdownItem::default(),
                DropdownItem::default(),
            ],
            selected: 0,
            is_open: false,
            in_focus: false,
            depth: 0,
            fetched_text: None,
        }
    }
}

} // verus!
