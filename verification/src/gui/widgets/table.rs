//! A table of rows that open onto rows below them: which rows show, which
//! row is selected, how rows open and shut, how a column is sorted and how
//! rows are filtered.
//!
//! Rows are counted in display order: a row, then (when it is open) the
//! rows below it, then the next row.
use vstd::prelude::*;

use crate::constants::{status_name, ByteSize, DownloadStatus, Percentage};
use crate::gui::windows::filesearch::lex_lt;
use crate::utils::{byte_unit_text, decimal, decimal_string, grouped_decimal, lowercase, num_as_str, push_char, push_str,
    to_lowercase,
};

verus! {

// ---------------------------------------------------------------------------
// Cells
// ---------------------------------------------------------------------------

/// The value of a cell.
#[derive(Debug)]
pub enum ColumnData {
    Empty,
    Usize(usize),
    String(String),
    ByteSize(ByteSize),
    DownloadStatus(DownloadStatus),
    Percentage(Percentage),
    Token(u32),
}

/// The text a cell shows.
pub open spec fn cell_text(c: ColumnData) -> Seq<char> {
    match c {
        ColumnData::Empty => Seq::empty(),
        ColumnData::Usize(v) => grouped_decimal(v as nat),
        ColumnData::String(s) => s@,
        ColumnData::ByteSize(b) => byte_unit_text(b.0),
        ColumnData::DownloadStatus(s) => status_name(s),
        ColumnData::Percentage(p) => decimal(p.0 as nat).push('%'),
        ColumnData::Token(t) => decimal(t as nat),
    }
}

impl ColumnData {
    pub fn to_string(&self) -> (r: String)
        ensures
            r@ == cell_text(*self),
    {
        match self {
            ColumnData::Empty => String::new(),
            ColumnData::Usize(v) => num_as_str(*v as u64),
            ColumnData::String(s) => s.clone(),
            ColumnData::ByteSize(b) => b.to_string(),
            ColumnData::DownloadStatus(s) => s.to_string(),
            ColumnData::Percentage(p) => p.to_string(),
            ColumnData::Token(t) => decimal_string(*t as u64),
        }
    }
}

// ---------------------------------------------------------------------------
// Rows
// ---------------------------------------------------------------------------

/// A row: its cells, the rows below it, and whether it is open.
#[derive(Debug)]
pub struct TableItem {
    pub content: Vec<ColumnData>,
    pub children: Vec<TableItem>,
    pub is_open: bool,
}

/// A row as a value.
pub struct ItemView {
    pub content: Seq<ColumnData>,
    pub children: Seq<ItemView>,
    pub is_open: bool,
}

impl TableItem {
    pub open spec fn item_view(self) -> ItemView
        decreases self,
    {
        ItemView {
            content: self.content@,
            children: Seq::new(
                self.children@.len(),
                |i: int|
                    if 0 <= i < self.children@.len() {
                        self.children@[i].item_view()
                    } else {
                        arbitrary()
                    },
            ),
            is_open: self.is_open,
        }
    }
}

/// The views of a list of rows.
pub open spec fn items_view(s: Seq<TableItem>) -> Seq<ItemView> {
    Seq::new(s.len(), |i: int| s[i].item_view())
}

/// A list of rows is larger than the rows below its first row and than
/// the list without its first row.
pub proof fn lemma_seq_decreases(s: Seq<ItemView>)
    requires
        s.len() > 0,
    ensures
        decreases_to!(s => s[0].children),
        decreases_to!(s => s.drop_first()),
{
    broadcast use vstd::seq::axiom_seq_index_decreases, vstd::seq::axiom_seq_subrange_decreases;

    assert(decreases_to!(s => s[0]));
    assert(decreases_to!(s[0] => s[0].children));
    assert(s.drop_first() == s.subrange(1, s.len() as int));
    assert(decreases_to!(s => s.subrange(1, s.len() as int)));
}

/// The number of rows shown for a list of rows: each row, and the rows
/// below the open ones.
pub open spec fn count_rows(s: Seq<ItemView>) -> nat
    decreases s,
{
    if s.len() == 0 {
        0
    } else {
        proof {
            lemma_seq_decreases(s);
        }
        1 + (if s[0].is_open {
            count_rows(s[0].children)
        } else {
            0
        }) + count_rows(s.drop_first())
    }
}

/// The row shown at position `n`.
pub open spec fn nth_row(s: Seq<ItemView>, n: int) -> Option<ItemView>
    decreases s,
{
    if s.len() == 0 || n < 0 {
        None
    } else if n == 0 {
        Some(s[0])
    } else {
        let below = if s[0].is_open {
            count_rows(s[0].children) as int
        } else {
            0
        };
        proof {
            lemma_seq_decreases(s);
        }
        if n - 1 < below {
            nth_row(s[0].children, n - 1)
        } else {
            nth_row(s.drop_first(), n - 1 - below)
        }
    }
}

/// The rows below a row, as values, are the values of its rows below.
pub proof fn lemma_children_view(item: TableItem)
    ensures
        item.item_view().children == items_view(item.children@),
{
    assert(item.item_view().children =~= items_view(item.children@));
}

proof fn lemma_count_skip(v: Seq<ItemView>, i: int)
    requires
        0 <= i < v.len(),
    ensures
        count_rows(v.skip(i)) == 1 + (if v[i].is_open {
            count_rows(v[i].children)
        } else {
            0
        }) + count_rows(v.skip(i + 1)),
{
    assert(v.skip(i).drop_first() =~= v.skip(i + 1));
    assert(v.skip(i)[0] == v[i]);
}

/// Counts the rows shown for a list of rows.
pub fn count_rows_exec(s: &Vec<TableItem>) -> (r: usize)
    requires
        count_rows(items_view(s@)) <= usize::MAX,
    ensures
        r == count_rows(items_view(s@)),
    decreases s@,
{
    let ghost v = items_view(s@);
    let n = s.len();
    let mut total: usize = 0;
    let mut i: usize = 0;
    assert(v.skip(0) =~= v);
    while i < n
        invariant
            n == s@.len(),
            v == items_view(s@),
            i <= n,
            count_rows(v) <= usize::MAX,
            total + count_rows(v.skip(i as int)) == count_rows(v),
        decreases n - i,
    {
        proof {
            lemma_count_skip(v, i as int);
            lemma_children_view(s@[i as int]);
            assert(decreases_to!(s@ => s@[i as int]));
        }
        total = total + 1;
        if s[i].is_open {
            let below = count_rows_exec(&s[i].children);
            total = total + below;
        }
        i = i + 1;
    }
    assert(v.skip(n as int) =~= Seq::<ItemView>::empty());
    total
}

proof fn lemma_nth_skip(v: Seq<ItemView>, i: int, m: int)
    requires
        0 <= i < v.len(),
        m > 0,
    ensures
        nth_row(v.skip(i), m) == ({
            let below = if v[i].is_open {
                count_rows(v[i].children) as int
            } else {
                0
            };
            if m - 1 < below {
                nth_row(v[i].children, m - 1)
            } else {
                nth_row(v.skip(i + 1), m - 1 - below)
            }
        }),
{
    assert(v.skip(i).drop_first() =~= v.skip(i + 1));
    assert(v.skip(i)[0] == v[i]);
}

/// The row shown at position `n`, if there is one.
pub fn nth_row_exec<'a>(s: &'a Vec<TableItem>, n: usize) -> (r: Option<&'a TableItem>)
    requires
        count_rows(items_view(s@)) <= usize::MAX,
    ensures
        match nth_row(items_view(s@), n as int) {
            Some(v) => r matches Some(x) && x.item_view() == v,
            None => r is None,
        },
    decreases s@,
{
    let ghost v = items_view(s@);
    let len = s.len();
    let mut m: usize = n;
    let mut i: usize = 0;
    assert(v.skip(0) =~= v);
    while i < len
        invariant
            len == s@.len(),
            v == items_view(s@),
            i <= len,
            count_rows(v.skip(i as int)) <= usize::MAX,
            nth_row(v, n as int) == nth_row(v.skip(i as int), m as int),
        decreases len - i,
    {
        proof {
            lemma_count_skip(v, i as int);
            lemma_children_view(s@[i as int]);
            assert(decreases_to!(s@ => s@[i as int]));
            assert(v.skip(i as int)[0] == v[i as int]);
        }
        if m == 0 {
            return Some(&s[i]);
        }
        proof {
            lemma_nth_skip(v, i as int, m as int);
        }
        m = m - 1;
        let below = if s[i].is_open {
            count_rows_exec(&s[i].children)
        } else {
            0
        };
        if m < below {
            return nth_row_exec(&s[i].children, m);
        }
        m = m - below;
        i = i + 1;
    }
    assert(v.skip(len as int) =~= Seq::<ItemView>::empty());
    None
}

// ---------------------------------------------------------------------------
// Filtering
// ---------------------------------------------------------------------------

/// Whether `f` occurs in `t`.
pub open spec fn contains_text(t: Seq<char>, f: Seq<char>) -> bool {
    exists|i: int| 0 <= i && i + f.len() <= t.len() && #[trigger] t.subrange(i, i + f.len()) == f
}

fn occurs_at(t: &Vec<char>, f: &Vec<char>, i: usize) -> (r: bool)
    requires
        i + f@.len() <= t@.len(),
    ensures
        r == (t@.subrange(i as int, i + f@.len()) == f@),
{
    let tl = t.len();
    let mut k: usize = 0;
    while k < f.len()
        invariant
            tl == t@.len(),
            i + f@.len() <= t@.len(),
            k <= f@.len(),
            forall|j: int| 0 <= j < k ==> t@[i + j] == f@[j],
        decreases f@.len() - k,
    {
        if t[i + k] != f[k] {
            assert(t@.subrange(i as int, i + f@.len())[k as int] != f@[k as int]);
            return false;
        }
        k = k + 1;
    }
    assert(t@.subrange(i as int, i + f@.len()) =~= f@);
    true
}

fn contains_exec(t: &Vec<char>, f: &Vec<char>) -> (r: bool)
    ensures
        r == contains_text(t@, f@),
{
    if f.len() > t.len() {
        return false;
    }
    let last = t.len() - f.len();
    let mut i: usize = 0;
    loop
        invariant
            i <= last,
            last + f@.len() == t@.len(),
            forall|j: int| 0 <= j < i ==> #[trigger] t@.subrange(j, j + f@.len()) != f@,
        decreases last - i,
    {
        if occurs_at(t, f, i) {
            return true;
        }
        if i == last {
            return false;
        }
        i = i + 1;
    }
}

/// Whether a cell's text, in lower case, holds the filter text.
pub open spec fn cell_matches(c: ColumnData, f: Seq<char>) -> bool {
    contains_text(lowercase(cell_text(c)), f)
}

/// Whether some cell of `cells` matches the filter text.
pub open spec fn any_matches(cells: Seq<ColumnData>, f: Seq<char>) -> bool {
    exists|i: int| 0 <= i < cells.len() && #[trigger] cell_matches(cells[i], f)
}

fn cell_matches_exec(c: &ColumnData, f: &Vec<char>) -> (r: bool)
    ensures
        r == cell_matches(*c, f@),
{
    let text = c.to_string();
    let lower = to_lowercase(text.as_str());
    let chars = crate::gui::windows::filesearch::chars_of(lower.as_str());
    contains_exec(&chars, f)
}

fn any_matches_exec(cells: &[ColumnData], f: &Vec<char>) -> (r: bool)
    ensures
        r == any_matches(cells@, f@),
{
    let mut i: usize = 0;
    while i < cells.len()
        invariant
            i <= cells@.len(),
            forall|j: int| 0 <= j < i ==> !#[trigger] cell_matches(cells@[j], f@),
        decreases cells@.len() - i,
    {
        if cell_matches_exec(&cells[i], f) {
            return true;
        }
        i = i + 1;
    }
    false
}

/// The rows that an item counts for itself and below it: 1 when shut;
/// when open, 1 and, for each row below it, its own count when open and,
/// when shut, 1 unless a filter is set and one of its cells matches it.
pub open spec fn item_length(v: ItemView, f: Option<Seq<char>>) -> nat
    decreases v,
{
    if !v.is_open {
        1
    } else {
        1 + children_length(v.children, f)
    }
}

pub open spec fn children_length(s: Seq<ItemView>, f: Option<Seq<char>>) -> nat
    decreases s,
{
    if s.len() == 0 {
        0
    } else {
        proof {
            lemma_seq_decreases(s);
            broadcast use vstd::seq::axiom_seq_index_decreases;
        }
        (if !s[0].is_open {
            if f matches Some(t) && any_matches(s[0].content, t) {
                0
            } else {
                1
            }
        } else {
            item_length(s[0], f)
        }) + children_length(s.drop_first(), f)
    }
}

/// A filter text, as a value.
pub open spec fn opt_chars(f: Option<Vec<char>>) -> Option<Seq<char>> {
    match f {
        Some(t) => Some(t@),
        None => None,
    }
}

/// What a row below an open row counts.
pub open spec fn child_term(c: ItemView, f: Option<Seq<char>>) -> nat {
    if !c.is_open {
        if f matches Some(t) && any_matches(c.content, t) {
            0
        } else {
            1
        }
    } else {
        item_length(c, f)
    }
}

proof fn lemma_length_skip(v: Seq<ItemView>, i: int, f: Option<Seq<char>>)
    requires
        0 <= i < v.len(),
    ensures
        children_length(v.skip(i), f) == child_term(v[i], f) + children_length(v.skip(i + 1), f),
{
    assert(v.skip(i).drop_first() =~= v.skip(i + 1));
    assert(v.skip(i)[0] == v[i]);
}

fn children_length_exec(s: &Vec<TableItem>, f: &Option<Vec<char>>) -> (r: usize)
    requires
        children_length(items_view(s@), opt_chars(*f)) <= usize::MAX,
    ensures
        r == children_length(items_view(s@), opt_chars(*f)),
    decreases s@,
{
    let ghost v = items_view(s@);
    let ghost fv = opt_chars(*f);
    let n = s.len();
    let mut total: usize = 0;
    let mut i: usize = 0;
    assert(v.skip(0) =~= v);
    while i < n
        invariant
            n == s@.len(),
            v == items_view(s@),
            fv == opt_chars(*f),
            i <= n,
            children_length(v, fv) <= usize::MAX,
            total + children_length(v.skip(i as int), fv) == children_length(v, fv),
        decreases n - i,
    {
        proof {
            lemma_length_skip(v, i as int, fv);
            assert(decreases_to!(s@ => s@[i as int]));
        }
        let term: usize = if !s[i].is_open {
            match f {
                Some(t) => if any_matches_exec(s[i].content.as_slice(), t) {
                    0
                } else {
                    1
                },
                None => 1,
            }
        } else {
            item_length_exec(&s[i], f)
        };
        total = total + term;
        i = i + 1;
    }
    assert(v.skip(n as int) =~= Seq::<ItemView>::empty());
    total
}

fn item_length_exec(item: &TableItem, f: &Option<Vec<char>>) -> (r: usize)
    requires
        item_length(item.item_view(), opt_chars(*f)) <= usize::MAX,
    ensures
        r == item_length(item.item_view(), opt_chars(*f)),
    decreases item,
{
    if !item.is_open {
        1
    } else {
        proof {
            lemma_children_view(*item);
        }
        1 + children_length_exec(&item.children, f)
    }
}

impl TableItem {
    /// A shut row with the given cells and rows below it.
    pub fn new(content: Vec<ColumnData>, children: Vec<TableItem>) -> (r: Self)
        ensures
            r.content == content,
            r.children == children,
            !r.is_open,
    {
        TableItem { content, children, is_open: false }
    }

    /// The same row, open.
    pub fn open(self) -> (r: Self)
        ensures
            r.content == self.content,
            r.children == self.children,
            r.is_open,
    {
        TableItem { is_open: true, ..self }
    }

    /// The same row, open.
    pub fn opened(self) -> (r: Self)
        ensures
            r.content == self.content,
            r.children == self.children,
            r.is_open,
    {
        TableItem { is_open: true, ..self }
    }

    /// The rows that this row counts for itself and below it, under a
    /// filter text (see `item_length`).
    pub fn length(&self, filter_text: Option<&str>) -> (r: usize)
        requires
            item_length(
                self.item_view(),
                match filter_text {
                    Some(t) => Some(t@),
                    None => None,
                },
            ) <= usize::MAX,
        ensures
            r == item_length(
                self.item_view(),
                match filter_text {
                    Some(t) => Some(t@),
                    None => None,
                },
            ),
    {
        let f: Option<Vec<char>> = match filter_text {
            Some(t) => Some(crate::gui::windows::filesearch::chars_of(t)),
            None => None,
        };
        item_length_exec(self, &f)
    }
}

impl Default for TableItem {
    /// A shut row without cells or rows below it.
    fn default() -> (r: Self)
        ensures
            r.content@.len() == 0,
            r.children@.len() == 0,
            !r.is_open,
    {
        TableItem { content: Vec::new(), children: Vec::new(), is_open: false }
    }
}

/// Rows that are open and have nothing below them count one each.
pub proof fn lemma_open_leaves_count(s: Seq<ItemView>, f: Option<Seq<char>>)
    requires
        forall|k: int| 0 <= k < s.len() ==> (#[trigger] s[k]).is_open && s[k].children.len() == 0,
    ensures
        children_length(s, f) == s.len(),
    decreases s.len(),
{
    if s.len() > 0 {
        let t = s.drop_first();
        assert forall|k: int| 0 <= k < t.len() implies (#[trigger] t[k]).is_open && t[k].children.len()
            == 0 by {
            assert(t[k] == s[k + 1]);
        }
        lemma_open_leaves_count(t, f);
        assert(s[0].is_open && s[0].children.len() == 0);
        assert(children_length(s[0].children, f) == 0);
        assert(item_length(s[0], f) == 1);
    }
}

/// The number of rows in a list, shown or not.
pub open spec fn tree_size(s: Seq<ItemView>) -> nat
    decreases s,
{
    if s.len() == 0 {
        0
    } else {
        proof {
            lemma_seq_decreases(s);
        }
        1 + tree_size(s[0].children) + tree_size(s.drop_first())
    }
}

proof fn lemma_bounded_by_size(s: Seq<ItemView>, f: Option<Seq<char>>)
    ensures
        children_length(s, f) <= tree_size(s),
        count_rows(s) <= tree_size(s),
    decreases s,
{
    if s.len() > 0 {
        lemma_seq_decreases(s);
        lemma_bounded_by_size(s.drop_first(), f);
        lemma_bounded_by_size(s[0].children, f);
        if s[0].is_open {
            assert(item_length(s[0], f) == 1 + children_length(s[0].children, f));
        }
    }
}

proof fn lemma_size_skip(v: Seq<ItemView>, i: int)
    requires
        0 <= i < v.len(),
    ensures
        tree_size(v.skip(i)) == 1 + tree_size(v[i].children) + tree_size(v.skip(i + 1)),
{
    assert(v.skip(i).drop_first() =~= v.skip(i + 1));
    assert(v.skip(i)[0] == v[i]);
}

/// The rows after the row at position `n` opens or shuts, and that row as
/// it was.
pub open spec fn toggle_at(s: Seq<ItemView>, n: int) -> (Seq<ItemView>, Option<ItemView>)
    decreases s,
{
    if s.len() == 0 || n < 0 {
        (s, None)
    } else if n == 0 {
        (s.update(0, ItemView { is_open: !s[0].is_open, ..s[0] }), Some(s[0]))
    } else {
        let below = if s[0].is_open {
            count_rows(s[0].children) as int
        } else {
            0
        };
        proof {
            lemma_seq_decreases(s);
        }
        if n - 1 < below {
            let (c, t) = toggle_at(s[0].children, n - 1);
            (s.update(0, ItemView { children: c, ..s[0] }), t)
        } else {
            let (r, t) = toggle_at(s.drop_first(), n - 1 - below);
            (seq![s[0]] + r, t)
        }
    }
}

proof fn lemma_toggle_keeps_row(s: Seq<ItemView>, n: int)
    requires
        0 <= n < count_rows(s),
    ensures
        n < count_rows(toggle_at(s, n).0),
    decreases s,
{
    lemma_seq_decreases(s);
    let t = toggle_at(s, n).0;
    if n == 0 {
        assert(t.drop_first() =~= s.drop_first());
    } else {
        let below = if s[0].is_open {
            count_rows(s[0].children) as int
        } else {
            0
        };
        if n - 1 < below {
            lemma_toggle_keeps_row(s[0].children, n - 1);
            assert(t.drop_first() =~= s.drop_first());
        } else {
            lemma_toggle_keeps_row(s.drop_first(), n - 1 - below);
            assert(t.drop_first() =~= toggle_at(s.drop_first(), n - 1 - below).0);
        }
    }
}

/// Without a filter, what the rows below some rows count is the number of
/// them shown.
proof fn lemma_children_length_unfiltered(s: Seq<ItemView>)
    ensures
        children_length(s, None) == count_rows(s),
    decreases s,
{
    if s.len() > 0 {
        lemma_seq_decreases(s);
        lemma_children_length_unfiltered(s[0].children);
        lemma_children_length_unfiltered(s.drop_first());
        let none = None::<Seq<char>>;
        assert(item_length(s[0], none) == if s[0].is_open {
            1 + children_length(s[0].children, none)
        } else {
            1
        });
        assert(children_length(s, none) == (if !s[0].is_open {
            1
        } else {
            item_length(s[0], none)
        }) + children_length(s.drop_first(), none));
    }
}

/// Opening or shutting the row shown at `n` changes the number of rows
/// shown by the rows shown below it: they leave when it shuts and come when
/// it opens.
proof fn lemma_toggle_count(s: Seq<ItemView>, n: int)
    requires
        0 <= n < count_rows(s),
    ensures
        toggle_at(s, n).1 matches Some(v) && count_rows(toggle_at(s, n).0) == count_rows(s) + (
        if v.is_open {
            -count_rows(v.children)
        } else {
            count_rows(v.children) as int
        }),
    decreases s,
{
    lemma_seq_decreases(s);
    let t = toggle_at(s, n).0;
    if n == 0 {
        assert(t.drop_first() =~= s.drop_first());
    } else {
        let below = if s[0].is_open {
            count_rows(s[0].children) as int
        } else {
            0
        };
        if n - 1 < below {
            lemma_toggle_count(s[0].children, n - 1);
            assert(t.drop_first() =~= s.drop_first());
        } else {
            lemma_toggle_count(s.drop_first(), n - 1 - below);
            assert(t.drop_first() =~= toggle_at(s.drop_first(), n - 1 - below).0);
        }
    }
}

/// Opening or shutting the row at a position twice gives back the rows as
/// they were.
pub proof fn lemma_toggle_twice(s: Seq<ItemView>, n: int)
    ensures
        toggle_at(toggle_at(s, n).0, n).0 == s,
    decreases s,
{
    if s.len() > 0 && n >= 0 {
        lemma_seq_decreases(s);
        let t = toggle_at(s, n).0;
        if n == 0 {
            assert(t.update(0, ItemView { is_open: !t[0].is_open, ..t[0] }) =~= s);
        } else {
            let below = if s[0].is_open {
                count_rows(s[0].children) as int
            } else {
                0
            };
            if n - 1 < below {
                let c = toggle_at(s[0].children, n - 1).0;
                lemma_toggle_keeps_row(s[0].children, n - 1);
                lemma_toggle_twice(s[0].children, n - 1);
                assert(t[0] == ItemView { children: c, ..s[0] });
                assert(t.update(0, ItemView { children: toggle_at(c, n - 1).0, ..t[0] }) =~= s);
            } else {
                let r = toggle_at(s.drop_first(), n - 1 - below).0;
                lemma_toggle_twice(s.drop_first(), n - 1 - below);
                assert(t[0] == s[0]);
                assert(t.drop_first() =~= r);
                assert(seq![t[0]] + toggle_at(r, n - 1 - below).0 =~= s);
            }
        }
    }
}

/// Opens or shuts the row at position `n` of `s`; gives whether it was
/// open, whether it has rows below it, and what those count under the
/// filter.
fn toggle_in(s: &mut Vec<TableItem>, n: usize, f: &Option<Vec<char>>) -> (r: Option<(bool, bool, usize)>)
    requires
        tree_size(items_view(old(s)@)) <= usize::MAX,
    ensures
        items_view(final(s)@) == toggle_at(items_view(old(s)@), n as int).0,
        match toggle_at(items_view(old(s)@), n as int).1 {
            Some(v) => r == Some(
                (v.is_open, v.children.len() > 0, children_length(v.children, opt_chars(*f)) as usize),
            ),
            None => r is None,
        },
        match toggle_at(items_view(old(s)@), n as int).1 {
            Some(v) => children_length(v.children, opt_chars(*f)) <= tree_size(items_view(old(s)@)),
            None => true,
        },
    decreases old(s)@,
{
    let ghost v = items_view(s@);
    let ghost fv = opt_chars(*f);
    let len = s.len();
    let mut m: usize = n;
    let mut i: usize = 0;
    assert(v.skip(0) =~= v);
    assert(v.take(0) + v.skip(0) =~= v);
    while i < len
        invariant
            len == s@.len(),
            s@ == old(s)@,
            v == items_view(s@),
            fv == opt_chars(*f),
            i <= len,
            tree_size(v) <= usize::MAX,
            tree_size(v.skip(i as int)) <= tree_size(v),
            toggle_at(v, n as int) == (
                v.take(i as int) + toggle_at(v.skip(i as int), m as int).0,
                toggle_at(v.skip(i as int), m as int).1,
            ),
        decreases len - i,
    {
        proof {
            lemma_count_skip(v, i as int);
            lemma_size_skip(v, i as int);
            lemma_children_view(s@[i as int]);
            lemma_bounded_by_size(v[i as int].children, fv);
            assert(v.skip(i as int)[0] == v[i as int]);
            assert(v.skip(i as int).drop_first() =~= v.skip(i + 1));
        }
        if m == 0 {
            let was_open = s[i].is_open;
            let nonempty = s[i].children.len() > 0;
            let below = children_length_exec(&s[i].children, f);
            let ghost old_item = s@[i as int];
            s[i].is_open = !was_open;
            proof {
                assert(s@[i as int].item_view() == ItemView {
                    is_open: !was_open,
                    ..old_item.item_view()
                }) by {
                    assert(s@[i as int].item_view().children =~= old_item.item_view().children);
                }
                assert(items_view(s@) =~= v.take(i as int) + v.skip(i as int).update(
                    0,
                    ItemView { is_open: !v[i as int].is_open, ..v[i as int] },
                ));
            }
            return Some((was_open, nonempty, below));
        }
        let below_rows = if s[i].is_open {
            count_rows_exec(&s[i].children)
        } else {
            0
        };
        if m - 1 < below_rows {
            let ghost old_item = s@[i as int];
            proof {
                assert(decreases_to!(old(s)@ => old(s)@[i as int]));
                assert(decreases_to!(old(s)@[i as int] => old(s)@[i as int].children));
                assert(decreases_to!(old(s)@[i as int].children => old(s)@[i as int].children@));
            }
            let r = toggle_in(&mut s[i].children, m - 1, f);
            proof {
                let c = toggle_at(old_item.item_view().children, m - 1).0;
                assert(items_view(s@[i as int].children@) == c);
                assert(s@[i as int].item_view() == ItemView { children: c, ..old_item.item_view() }) by {
                    assert(s@[i as int].item_view().children =~= items_view(
                        s@[i as int].children@,
                    ));
                }
                assert(items_view(s@) =~= v.take(i as int) + v.skip(i as int).update(
                    0,
                    ItemView { children: c, ..v[i as int] },
                ));
            }
            return r;
        }
        m = m - 1 - below_rows;
        i = i + 1;
        proof {
            assert(v.take(i - 1) + (seq![v[i - 1]] + toggle_at(v.skip(i as int), m as int).0)
                =~= v.take(i as int) + toggle_at(v.skip(i as int), m as int).0);
        }
    }
    proof {
        assert(v.skip(len as int) =~= Seq::<ItemView>::empty());
        assert(v.take(len as int) + Seq::<ItemView>::empty() =~= v);
    }
    None
}

// ---------------------------------------------------------------------------
// Rows hidden by the filter
// ---------------------------------------------------------------------------

/// The cells that the filter looks at: those of the range, or all.
pub open spec fn cells_in_range(c: Seq<ColumnData>, range: Option<(usize, usize)>) -> Seq<ColumnData> {
    match range {
        Some((a, b)) => c.subrange(a as int, b as int),
        None => c,
    }
}

/// A row is hidden when a filter is set and one of the cells it looks at
/// holds the filter text.
pub open spec fn is_hidden(v: ItemView, f: Option<Seq<char>>, range: Option<(usize, usize)>) -> bool {
    f matches Some(t) && any_matches(cells_in_range(v.content, range), t)
}

/// The rows that show under a filter: a hidden row hides the rows below
/// it too.
pub open spec fn visible_rows(s: Seq<ItemView>, f: Option<Seq<char>>, range: Option<(usize, usize)>) -> nat
    decreases s,
{
    if s.len() == 0 {
        0
    } else {
        proof {
            lemma_seq_decreases(s);
        }
        (if is_hidden(s[0], f, range) {
            0
        } else {
            1 + (if s[0].is_open && s[0].children.len() > 0 {
                visible_rows(s[0].children, f, range)
            } else {
                0
            })
        }) + visible_rows(s.drop_first(), f, range)
    }
}

/// Whether the filter's range fits the cells of every row that the
/// filter looks at.
pub open spec fn range_fits(s: Seq<ItemView>, f: Option<Seq<char>>, range: Option<(usize, usize)>) -> bool
    decreases s,
{
    if s.len() == 0 || f is None {
        true
    } else {
        proof {
            lemma_seq_decreases(s);
        }
        &&& (range matches Some((a, b)) ==> a <= b <= s[0].content.len())
        &&& (!is_hidden(s[0], f, range) && s[0].is_open && s[0].children.len() > 0 ==> range_fits(
            s[0].children,
            f,
            range,
        ))
        &&& range_fits(s.drop_first(), f, range)
    }
}

fn any_matches_in(cells: &Vec<ColumnData>, a: usize, b: usize, f: &Vec<char>) -> (r: bool)
    requires
        a <= b <= cells@.len(),
    ensures
        r == any_matches(cells@.subrange(a as int, b as int), f@),
{
    let ghost sub = cells@.subrange(a as int, b as int);
    let mut i = a;
    while i < b
        invariant
            a <= i <= b <= cells@.len(),
            sub == cells@.subrange(a as int, b as int),
            forall|j: int| 0 <= j < i - a ==> !#[trigger] cell_matches(sub[j], f@),
        decreases b - i,
    {
        if cell_matches_exec(&cells[i], f) {
            assert(cell_matches(sub[i - a], f@));
            return true;
        }
        i = i + 1;
    }
    false
}

fn is_hidden_exec(item: &TableItem, f: &Option<Vec<char>>, range: Option<(usize, usize)>) -> (r: bool)
    requires
        f is Some ==> (range matches Some((a, b)) ==> a <= b <= item.content@.len()),
    ensures
        r == is_hidden(item.item_view(), opt_chars(*f), range),
{
    match f {
        Some(t) => match range {
            Some((a, b)) => any_matches_in(&item.content, a, b, t),
            None => any_matches_exec(item.content.as_slice(), t),
        },
        None => false,
    }
}

proof fn lemma_visible_skip(v: Seq<ItemView>, i: int, f: Option<Seq<char>>, range: Option<(usize, usize)>)
    requires
        0 <= i < v.len(),
    ensures
        visible_rows(v.skip(i), f, range) == (if is_hidden(v[i], f, range) {
            0
        } else {
            1 + (if v[i].is_open && v[i].children.len() > 0 {
                visible_rows(v[i].children, f, range)
            } else {
                0
            })
        }) + visible_rows(v.skip(i + 1), f, range),
        range_fits(v.skip(i), f, range) ==> range_fits(v.skip(i + 1), f, range),
        range_fits(v.skip(i), f, range) && f is Some ==> (range matches Some((a, b)) ==> a <= b
            <= v[i].content.len()),
        range_fits(v.skip(i), f, range) && !is_hidden(v[i], f, range) && v[i].is_open
            && v[i].children.len() > 0 ==> range_fits(v[i].children, f, range),
{
    assert(v.skip(i).drop_first() =~= v.skip(i + 1));
    assert(v.skip(i)[0] == v[i]);
}

proof fn lemma_fits_skip(v: Seq<ItemView>, i: int, f: Option<Seq<char>>, range: Option<(usize, usize)>)
    requires
        0 <= i < v.len(),
        f is Some,
    ensures
        range_fits(v.skip(i), f, range) == {
            &&& (range matches Some((a, b)) ==> a <= b <= v[i].content.len())
            &&& (!is_hidden(v[i], f, range) && v[i].is_open && v[i].children.len() > 0
                ==> range_fits(v[i].children, f, range))
            &&& range_fits(v.skip(i + 1), f, range)
        },
{
    assert(v.skip(i).drop_first() =~= v.skip(i + 1));
    assert(v.skip(i)[0] == v[i]);
}

/// The number of rows that show under the filter, or `None` when the
/// filter's range does not fit a row that it looks at or the number does
/// not fit a `usize`.
fn checked_visible_rows(s: &Vec<TableItem>, f: &Option<Vec<char>>, range: Option<(usize, usize)>) -> (r: Option<usize>)
    ensures
        match r {
            Some(n) => range_fits(items_view(s@), opt_chars(*f), range) && n == visible_rows(
                items_view(s@),
                opt_chars(*f),
                range,
            ),
            None => !(range_fits(items_view(s@), opt_chars(*f), range) && visible_rows(
                items_view(s@),
                opt_chars(*f),
                range,
            ) <= usize::MAX),
        },
    decreases s@,
{
    let ghost v = items_view(s@);
    let ghost fv = opt_chars(*f);
    let n = s.len();
    let mut total: usize = 0;
    let mut i: usize = 0;
    assert(v.skip(0) =~= v);
    while i < n
        invariant
            n == s@.len(),
            v == items_view(s@),
            fv == opt_chars(*f),
            i <= n,
            range_fits(v, fv, range) == range_fits(v.skip(i as int), fv, range),
            total + visible_rows(v.skip(i as int), fv, range) == visible_rows(v, fv, range),
        decreases n - i,
    {
        proof {
            lemma_visible_skip(v, i as int, fv, range);
            if fv is Some {
                lemma_fits_skip(v, i as int, fv, range);
            }
            lemma_children_view(s@[i as int]);
            assert(decreases_to!(s@ => s@[i as int]));
        }
        if f.is_some() {
            if let Some((a, b)) = range {
                if !(a <= b && b <= s[i].content.len()) {
                    return None;
                }
            }
        }
        if !is_hidden_exec(&s[i], f, range) {
            if total == usize::MAX {
                return None;
            }
            total = total + 1;
            if s[i].is_open && s[i].children.len() > 0 {
                match checked_visible_rows(&s[i].children, f, range) {
                    Some(below) => {
                        if below > usize::MAX - total {
                            return None;
                        }
                        total = total + below;
                    },
                    None => {
                        return None;
                    },
                }
            }
        }
        i = i + 1;
    }
    assert(v.skip(n as int) =~= Seq::<ItemView>::empty());
    Some(total)
}

/// The change in the number of rows shown when a row opens or shuts: what
/// the rows below it count, taken away when it was open, added when it was
/// shut, nothing when it has no rows below it.
pub open spec fn toggle_delta(v: Option<ItemView>, f: Option<Seq<char>>) -> int {
    match v {
        Some(v) => if v.children.len() == 0 {
            0
        } else if v.is_open {
            -children_length(v.children, f)
        } else {
            children_length(v.children, f) as int
        },
        None => 0,
    }
}

proof fn lemma_length_is_visible(s: Seq<ItemView>, range: Option<(usize, usize)>)
    ensures
        children_length(s, None) == visible_rows(s, None, range),
    decreases s,
{
    if s.len() > 0 {
        lemma_seq_decreases(s);
        lemma_length_is_visible(s[0].children, range);
        lemma_length_is_visible(s.drop_first(), range);
        if s[0].is_open && s[0].children.len() == 0 {
            assert(children_length(s[0].children, None) == 0);
        }
        assert(!is_hidden(s[0], None, range));
        if s[0].is_open {
            assert(item_length(s[0], None) == 1 + children_length(s[0].children, None));
        }
        assert(children_length(s, None) == (if !s[0].is_open {
            1
        } else {
            item_length(s[0], None)
        }) + children_length(s.drop_first(), None));
    }
}

proof fn lemma_toggle_shape(s: Seq<ItemView>, n: int)
    ensures
        toggle_at(s, n).0.len() == s.len(),
        toggle_at(s, n).1 is None ==> toggle_at(s, n).0 == s,
    decreases s,
{
    if s.len() > 0 && n > 0 {
        lemma_seq_decreases(s);
        let below = if s[0].is_open {
            count_rows(s[0].children) as int
        } else {
            0
        };
        if n - 1 < below {
            lemma_toggle_shape(s[0].children, n - 1);
            if toggle_at(s, n).1 is None {
                assert(ItemView { children: s[0].children, ..s[0] } == s[0]);
                assert(s.update(0, s[0]) =~= s);
            }
        } else {
            lemma_toggle_shape(s.drop_first(), n - 1 - below);
            if toggle_at(s, n).1 is None {
                assert(seq![s[0]] + s.drop_first() =~= s);
            }
        }
    }
}

/// Without a filter, opening or shutting the row at a position changes the
/// number of rows shown by `toggle_delta`: just what `toggle_item` adds to
/// or takes from the table's count, so that the count stays the number of
/// rows shown.
pub proof fn lemma_toggle_keeps_count(s: Seq<ItemView>, n: int, range: Option<(usize, usize)>)
    ensures
        visible_rows(toggle_at(s, n).0, None, range) == visible_rows(s, None, range) + toggle_delta(
            toggle_at(s, n).1,
            None,
        ),
    decreases s,
{
    lemma_toggle_shape(s, n);
    if s.len() > 0 && n >= 0 {
        lemma_seq_decreases(s);
        let t = toggle_at(s, n).0;
        if n == 0 {
            lemma_length_is_visible(s[0].children, range);
            assert(t.drop_first() =~= s.drop_first());
        } else {
            let below = if s[0].is_open {
                count_rows(s[0].children) as int
            } else {
                0
            };
            if n - 1 < below {
                lemma_toggle_keeps_count(s[0].children, n - 1, range);
                lemma_toggle_shape(s[0].children, n - 1);
                assert(t.drop_first() =~= s.drop_first());
                assert(s[0].children.len() > 0) by {
                    if s[0].children.len() == 0 {
                        assert(count_rows(s[0].children) == 0);
                    }
                }
            } else {
                lemma_toggle_keeps_count(s.drop_first(), n - 1 - below, range);
                assert(t.drop_first() =~= toggle_at(s.drop_first(), n - 1 - below).0);
                assert(t[0] == s[0]);
            }
        }
    }
}

// ---------------------------------------------------------------------------
// The table
// ---------------------------------------------------------------------------

/// The sum of the counts of `item_length` over a list of rows.
pub open spec fn sum_lengths(s: Seq<ItemView>, f: Option<Seq<char>>) -> nat
    decreases s.len(),
{
    if s.len() == 0 {
        0
    } else {
        item_length(s[0], f) + sum_lengths(s.drop_first(), f)
    }
}

/// A filter, as a value.
pub open spec fn opt_text(f: Option<String>) -> Option<Seq<char>> {
    match f {
        Some(t) => Some(t@),
        None => None,
    }
}

/// A table: its rows, its column headers (the first for the open/shut
/// marks), the selected row, the number of rows counted, the sorted
/// column with its order, the filter text (in lower case) and the range of
/// cells that the filter looks at.
#[derive(Debug)]
pub struct TableWidget {
    pub items: Vec<TableItem>,
    pub headers: Vec<String>,
    pub selected_row: usize,
    pub length: usize,
    pub sort: Option<(usize, Option<bool>)>,
    pub filter: Option<String>,
    pub filter_range: Option<(usize, usize)>,
}

fn filter_chars(f: &Option<String>) -> (r: Option<Vec<char>>)
    ensures
        opt_chars(r) == opt_text(*f),
{
    match f {
        Some(t) => Some(crate::gui::windows::filesearch::chars_of(t.as_str())),
        None => None,
    }
}

impl TableWidget {
    pub open spec fn rows_view(self) -> Seq<ItemView> {
        items_view(self.items@)
    }

    /// A table of the given rows; a first, empty header is added for the
    /// column of open/shut marks. The count of rows is that of
    /// `TableItem::length` without a filter, over the rows.
    pub fn new(headers: Vec<String>, items: Vec<TableItem>, filter_range: Option<(usize, usize)>) -> (r: Self)
        requires
            sum_lengths(items_view(items@), None) <= usize::MAX,
        ensures
            r.headers@.len() == headers@.len() + 1,
            r.headers@[0]@ == Seq::<char>::empty(),
            forall|i: int| 0 <= i < headers@.len() ==> #[trigger] r.headers@[i + 1] == headers@[i],
            r.items == items,
            r.length == sum_lengths(items_view(items@), None),
            r.selected_row == 0,
            r.sort is None,
            r.filter is None,
            r.filter_range == filter_range,
    {
        let mut headers = headers;
        headers.insert(0, String::new());
        let ghost v = items_view(items@);
        let n = items.len();
        let mut length: usize = 0;
        let mut i: usize = 0;
        let none: Option<Vec<char>> = None;
        assert(v.skip(0) =~= v);
        while i < n
            invariant
                n == items@.len(),
                v == items_view(items@),
                i <= n,
                opt_chars(none) == None::<Seq<char>>,
                sum_lengths(v, None) <= usize::MAX,
                length + sum_lengths(v.skip(i as int), None) == sum_lengths(v, None),
            decreases n - i,
        {
            proof {
                assert(v.skip(i as int).drop_first() =~= v.skip(i + 1));
                assert(v.skip(i as int)[0] == v[i as int]);
            }
            let l = item_length_exec(&items[i], &none);
            length = length + l;
            i = i + 1;
        }
        assert(v.skip(n as int) =~= Seq::<ItemView>::empty());
        TableWidget {
            items,
            headers,
            selected_row: 0,
            length,
            sort: None,
            filter: None,
            filter_range,
        }
    }

    /// Adds a row at the end; the count grows by what it counts under the
    /// filter.
    pub fn insert_item(&mut self, item: TableItem)
        requires
            old(self).length + item_length(item.item_view(), opt_text(old(self).filter)) <= usize::MAX,
        ensures
            final(self).items@ == old(self).items@.push(item),
            final(self).length == old(self).length + item_length(
                item.item_view(),
                opt_text(old(self).filter),
            ),
            final(self).headers == old(self).headers,
            final(self).selected_row == old(self).selected_row,
            final(self).sort == old(self).sort,
            final(self).filter == old(self).filter,
            final(self).filter_range == old(self).filter_range,
    {
        let f = filter_chars(&self.filter);
        let l = item_length_exec(&item, &f);
        self.length = self.length + l;
        self.items.push(item);
    }

    pub fn filter(&self) -> (r: Option<&String>)
        ensures
            r == match self.filter {
                Some(t) => Some(&t),
                None => None::<&String>,
            },
    {
        match &self.filter {
            Some(t) => Some(t),
            None => None,
        }
    }

    pub fn is_filtered(&self) -> (r: bool)
        ensures
            r == (self.filter is Some),
    {
        self.filter.is_some()
    }

    /// The same table with another range of cells for the filter.
    pub fn filter_range(self, filter_range: Option<(usize, usize)>) -> (r: Self)
        ensures
            r == (TableWidget { filter_range, ..self }),
    {
        TableWidget { filter_range, ..self }
    }

    /// The selected row, counting every row shown regardless of the filter.
    pub fn current_row(&self) -> (r: Option<&TableItem>)
        requires
            self.items@.len() == 0 || self.selected_row < count_rows(self.rows_view()),
            count_rows(self.rows_view()) <= usize::MAX,
        ensures
            self.items@.len() == 0 ==> r is None,
            self.items@.len() > 0 ==> (r matches Some(x) && Some(x.item_view()) == nth_row(
                self.rows_view(),
                self.selected_row as int,
            )),
    {
        if self.items.len() == 0 {
            return None;
        }
        proof {
            lemma_nth_in_range(self.rows_view(), self.selected_row as int);
        }
        nth_row_exec(&self.items, self.selected_row)
    }

    /// Selects the next row, unless the last counted row is selected.
    pub fn next_row(&mut self)
        requires
            old(self).length > 0,
        ensures
            final(self).selected_row == (if old(self).selected_row < old(self).length - 1 {
                old(self).selected_row + 1
            } else {
                old(self).selected_row as int
            }),
            final(self).items == old(self).items,
            final(self).length == old(self).length,
            final(self).sort == old(self).sort,
            final(self).filter == old(self).filter,
    {
        if self.selected_row < self.length - 1 {
            self.selected_row = self.selected_row + 1;
        }
    }

    /// Selects the previous row, stopping at the first.
    pub fn previous_row(&mut self)
        ensures
            final(self).selected_row == (if old(self).selected_row > 0 {
                old(self).selected_row - 1
            } else {
                0
            }),
            final(self).items == old(self).items,
            final(self).length == old(self).length,
            final(self).sort == old(self).sort,
            final(self).filter == old(self).filter,
    {
        self.selected_row = self.selected_row.saturating_sub(1);
    }

    /// Chooses the next column for sorting, its order not chosen yet: the
    /// first data column when none was chosen, none after the last.
    pub fn next_column(&mut self)
        requires
            old(self).sort is Some ==> old(self).headers@.len() > 0,
        ensures
            final(self).sort == match old(self).sort {
                Some((i, _)) => if i < old(self).headers@.len() - 1 {
                    Some(((i + 1) as usize, None::<bool>))
                } else {
                    None
                },
                None => Some((1usize, None::<bool>)),
            },
            final(self).items == old(self).items,
            final(self).selected_row == old(self).selected_row,
            final(self).length == old(self).length,
            final(self).filter == old(self).filter,
    {
        self.sort = match self.sort {
            Some((i, _)) => {
                if i < self.headers.len() - 1 {
                    Some((i + 1, None))
                } else {
                    None
                }
            },
            None => Some((1, None)),
        };
    }

    /// Chooses the previous column for sorting: the last when none was
    /// chosen, none before the first data column.
    pub fn previous_column(&mut self)
        requires
            old(self).sort is None ==> old(self).headers@.len() > 0,
            old(self).sort matches Some((i, _)) ==> i != 0,
        ensures
            final(self).sort == match old(self).sort {
                Some((i, _)) => if i != 1 {
                    Some(((i - 1) as usize, None::<bool>))
                } else {
                    None
                },
                None => Some(((old(self).headers@.len() - 1) as usize, None::<bool>)),
            },
            final(self).items == old(self).items,
            final(self).selected_row == old(self).selected_row,
            final(self).length == old(self).length,
            final(self).filter == old(self).filter,
    {
        self.sort = match self.sort {
            Some((i, _)) => {
                if i != 1 {
                    Some((i - 1, None))
                } else {
                    None
                }
            },
            None => Some((self.headers.len() - 1, None)),
        };
    }

    /// Opens or shuts the selected row (counting every row shown). The
    /// count of rows shrinks by, or grows by, what the rows below it count
    /// under the filter; a row without rows below it changes nothing else.
    pub fn toggle_item(&mut self)
        requires
            tree_size(old(self).rows_view()) <= usize::MAX,
            match toggle_at(old(self).rows_view(), old(self).selected_row as int).1 {
                Some(v) => v.children.len() > 0 ==> if v.is_open {
                    old(self).length >= children_length(v.children, opt_text(old(self).filter))
                } else {
                    old(self).length + children_length(v.children, opt_text(old(self).filter))
                        <= usize::MAX
                },
                None => true,
            },
        ensures
            final(self).rows_view() == toggle_at(old(self).rows_view(), old(self).selected_row as int).0,
            final(self).length == match toggle_at(
                old(self).rows_view(),
                old(self).selected_row as int,
            ).1 {
                Some(v) => if v.children.len() == 0 {
                    old(self).length as int
                } else if v.is_open {
                    old(self).length - children_length(v.children, opt_text(old(self).filter))
                } else {
                    old(self).length + children_length(v.children, opt_text(old(self).filter))
                },
                None => old(self).length as int,
            },
            final(self).selected_row == old(self).selected_row,
            final(self).headers == old(self).headers,
            final(self).sort == old(self).sort,
            final(self).filter == old(self).filter,
            final(self).filter_range == old(self).filter_range,
            old(self).filter is None && old(self).length == count_rows(old(self).rows_view())
                && old(self).selected_row < old(self).length ==> final(self).length == count_rows(
                final(self).rows_view(),
            ),
    {
        proof {
            if old(self).filter is None && old(self).selected_row < count_rows(old(self).rows_view()) {
                lemma_toggle_count(old(self).rows_view(), old(self).selected_row as int);
                let v = toggle_at(old(self).rows_view(), old(self).selected_row as int).1->0;
                lemma_children_length_unfiltered(v.children);
            }
        }
        let f = filter_chars(&self.filter);
        let r = toggle_in(&mut self.items, self.selected_row, &f);
        if let Some((was_open, nonempty, below)) = r {
            if nonempty {
                if was_open {
                    self.length = self.length - below;
                } else {
                    self.length = self.length + below;
                }
            }
        }
    }

    /// Counts the rows that show under the filter.
    pub fn set_length(&mut self)
        requires
            range_fits(old(self).rows_view(), opt_text(old(self).filter), old(self).filter_range),
            visible_rows(old(self).rows_view(), opt_text(old(self).filter), old(self).filter_range)
                <= usize::MAX,
        ensures
            final(self).length == visible_rows(
                old(self).rows_view(),
                opt_text(old(self).filter),
                old(self).filter_range,
            ),
            final(self).items == old(self).items,
            final(self).headers == old(self).headers,
            final(self).selected_row == old(self).selected_row,
            final(self).sort == old(self).sort,
            final(self).filter == old(self).filter,
            final(self).filter_range == old(self).filter_range,
    {
        let f = filter_chars(&self.filter);
        if let Some(n) = checked_visible_rows(&self.items, &f, self.filter_range) {
            self.length = n;
        }
    }

    /// Sets a filter (in lower case) and counts the rows again; an empty
    /// text changes nothing.
    pub fn set_filter(&mut self, text: String)
        requires
            text@.len() > 0 ==> range_fits(
                old(self).rows_view(),
                Some(lowercase(text@)),
                old(self).filter_range,
            ),
            text@.len() > 0 ==> visible_rows(
                old(self).rows_view(),
                Some(lowercase(text@)),
                old(self).filter_range,
            ) <= usize::MAX,
        ensures
            text@.len() == 0 ==> *final(self) == *old(self),
            text@.len() > 0 ==> {
                &&& (final(self).filter matches Some(t) && t@ == lowercase(text@))
                &&& final(self).length == visible_rows(
                    old(self).rows_view(),
                    Some(lowercase(text@)),
                    old(self).filter_range,
                )
                &&& final(self).items == old(self).items
                &&& final(self).selected_row == old(self).selected_row
                &&& final(self).sort == old(self).sort
            },
    {
        if !text.as_str().is_empty() {
            self.filter = Some(to_lowercase(text.as_str()));
            self.set_length();
        }
    }

    /// Sets the filter as `set_filter` does where the filter's range fits
    /// every row that the filter looks at and the count of rows fits a
    /// `usize`; elsewhere changes nothing and gives `false`.
    pub fn try_set_filter(&mut self, text: String) -> (r: bool)
        ensures
            r == (text@.len() == 0 || (range_fits(
                old(self).rows_view(),
                Some(lowercase(text@)),
                old(self).filter_range,
            ) && visible_rows(old(self).rows_view(), Some(lowercase(text@)), old(self).filter_range)
                <= usize::MAX)),
            !r || text@.len() == 0 ==> *final(self) == *old(self),
            r && text@.len() > 0 ==> {
                &&& (final(self).filter matches Some(t) && t@ == lowercase(text@))
                &&& final(self).length == visible_rows(
                    old(self).rows_view(),
                    Some(lowercase(text@)),
                    old(self).filter_range,
                )
                &&& final(self).items == old(self).items
                &&& final(self).selected_row == old(self).selected_row
                &&& final(self).sort == old(self).sort
            },
    {
        if text.as_str().is_empty() {
            return true;
        }
        let lower = to_lowercase(text.as_str());
        let f = Some(crate::gui::windows::filesearch::chars_of(lower.as_str()));
        match checked_visible_rows(&self.items, &f, self.filter_range) {
            Some(_) => {
                self.set_filter(text);
                true
            },
            None => false,
        }
    }

    /// The rows drawn from position `offset`, at most `height` of them,
    /// as the table draws them (see `walk_rows`): for each, its mark and its
    /// cells' texts, the first indented by its depth; and the place among
    /// them of the selected row, when it is drawn. `None` where a row that
    /// is looked at cannot be read or the count of rows passes `u16::MAX`.
    pub fn try_rows(&self, offset: u16, height: u16) -> (r: Option<(Vec<Vec<String>>, Option<usize>)>)
        ensures
            match r {
                Some(x) => {
                    &&& drawn_rows(*self, offset, height).2
                    &&& x.0.deep_view() == drawn_rows(*self, offset, height).1
                    &&& x.1 == drawn_rows(*self, offset, height).3
                },
                None => !drawn_rows(*self, offset, height).2,
            },
    {
        let f = filter_chars(&self.filter);
        let mut row: u16 = 0;
        let mut out: Vec<Vec<String>> = Vec::new();
        let mut sel: Option<usize> = None;
        assert(out.deep_view() =~= Seq::<Seq<Seq<char>>>::empty());
        let ok = walk_exec(
            &self.items,
            0,
            &f,
            self.filter_range,
            offset,
            height,
            self.selected_row,
            &mut row,
            &mut out,
            &mut sel,
        );
        if ok {
            Some((out, sel))
        } else {
            None
        }
    }

    /// The rows drawn from position `offset`, at most `height` of them (see
    /// `try_rows`), on a table whose rows looked at can all be read.
    pub fn rows(&self, offset: u16, height: u16) -> (r: (Vec<Vec<String>>, Option<usize>))
        requires
            drawn_rows(*self, offset, height).2,
        ensures
            r.0.deep_view() == drawn_rows(*self, offset, height).1,
            r.1 == drawn_rows(*self, offset, height).3,
    {
        match self.try_rows(offset, height) {
            Some(x) => x,
            None => (Vec::new(), None),
        }
    }

    /// Removes the filter and counts the rows again.
    pub fn remove_filter(&mut self)
        requires
            visible_rows(old(self).rows_view(), None, old(self).filter_range) <= usize::MAX,
        ensures
            final(self).filter is None,
            final(self).length == visible_rows(old(self).rows_view(), None, old(self).filter_range),
            final(self).items == old(self).items,
            final(self).selected_row == old(self).selected_row,
            final(self).sort == old(self).sort,
    {
        self.filter = None;
        self.set_length();
    }
}

proof fn lemma_nth_in_range(s: Seq<ItemView>, n: int)
    requires
        0 <= n < count_rows(s),
    ensures
        nth_row(s, n) is Some,
    decreases s,
{
    if s.len() > 0 && n > 0 {
        lemma_seq_decreases(s);
        let below = if s[0].is_open {
            count_rows(s[0].children) as int
        } else {
            0
        };
        if n - 1 < below {
            lemma_nth_in_range(s[0].children, n - 1);
        } else {
            lemma_nth_in_range(s.drop_first(), n - 1 - below);
        }
    }
}

// ---------------------------------------------------------------------------
// The rows drawn
// ---------------------------------------------------------------------------

/// Where a walk over the rows, as they are drawn, stands: the number of
/// rows counted, the texts of the rows drawn, whether every row looked at
/// could be read and counted, and the place among the drawn rows of the
/// selected one.
pub type RowWalk = (nat, Seq<Seq<Seq<char>>>, bool, Option<usize>);

/// Whether the cells of a row that the filter looks at can be read: the
/// filter's range fits them.
pub open spec fn range_fits_row(v: ItemView, f: Option<Seq<char>>, range: Option<(usize, usize)>) -> bool {
    f is Some ==> (range matches Some((a, b)) ==> a <= b <= v.content.len())
}

/// The walk over the rows `s`, at `depth` below the top, from `w`. Until
/// `offset` rows are counted, each row is counted, with the rows below it
/// when it is open, and none is drawn or filtered. From there on a row
/// that the filter hides is passed over with the rows below it, and any
/// other row is drawn and counted, with the rows below it when it is open,
/// until `height` rows are drawn. A row looked at whose cells cannot be
/// read, a drawn row without cells, or a count past `u16::MAX` ends the
/// walk as failed.
pub open spec fn walk_rows(
    s: Seq<ItemView>,
    depth: nat,
    w: RowWalk,
    f: Option<Seq<char>>,
    range: Option<(usize, usize)>,
    offset: nat,
    height: nat,
    selected: nat,
) -> RowWalk
    decreases s,
{
    if s.len() == 0 || w.1.len() >= height || !w.2 {
        w
    } else {
        proof {
            lemma_seq_decreases(s);
        }
        let v = s[0];
        let drawn = w.0 >= offset;
        if drawn && !range_fits_row(v, f, range) {
            (w.0, w.1, false, w.3)
        } else if drawn && is_hidden(v, f, range) {
            walk_rows(s.drop_first(), depth, w, f, range, offset, height, selected)
        } else if (drawn && v.content.len() == 0) || w.0 >= u16::MAX {
            (w.0, w.1, false, w.3)
        } else {
            let w1: RowWalk = if drawn {
                (
                    w.0 + 1,
                    w.1.push(row_cells(v, depth)),
                    true,
                    if w.0 == selected {
                        Some(w.1.len() as usize)
                    } else {
                        w.3
                    },
                )
            } else {
                (w.0 + 1, w.1, true, w.3)
            };
            let w2 = if v.is_open && v.children.len() > 0 {
                walk_rows(v.children, depth + 1, w1, f, range, offset, height, selected)
            } else {
                w1
            };
            walk_rows(s.drop_first(), depth, w2, f, range, offset, height, selected)
        }
    }
}

/// The walk over a whole table, drawing `height` rows from position
/// `offset`.
pub open spec fn drawn_rows(t: TableWidget, offset: u16, height: u16) -> RowWalk {
    walk_rows(
        t.rows_view(),
        0,
        (0, Seq::empty(), true, None),
        opt_text(t.filter),
        t.filter_range,
        offset as nat,
        height as nat,
        t.selected_row as nat,
    )
}

proof fn lemma_walk_grows(
    s: Seq<ItemView>,
    depth: nat,
    w: RowWalk,
    f: Option<Seq<char>>,
    range: Option<(usize, usize)>,
    offset: nat,
    height: nat,
    selected: nat,
)
    ensures
        walk_rows(s, depth, w, f, range, offset, height, selected).0 >= w.0,
    decreases s,
{
    if s.len() > 0 && w.1.len() < height && w.2 {
        lemma_seq_decreases(s);
        let v = s[0];
        let drawn = w.0 >= offset;
        if drawn && !range_fits_row(v, f, range) {
        } else if drawn && is_hidden(v, f, range) {
            lemma_walk_grows(s.drop_first(), depth, w, f, range, offset, height, selected);
        } else if (drawn && v.content.len() == 0) || w.0 >= u16::MAX {
        } else {
            let w1: RowWalk = if drawn {
                (
                    w.0 + 1,
                    w.1.push(row_cells(v, depth)),
                    true,
                    if w.0 == selected {
                        Some(w.1.len() as usize)
                    } else {
                        w.3
                    },
                )
            } else {
                (w.0 + 1, w.1, true, w.3)
            };
            let w2 = if v.is_open && v.children.len() > 0 {
                lemma_walk_grows(v.children, depth + 1, w1, f, range, offset, height, selected);
                walk_rows(v.children, depth + 1, w1, f, range, offset, height, selected)
            } else {
                w1
            };
            lemma_walk_grows(s.drop_first(), depth, w2, f, range, offset, height, selected);
        }
    }
}
/// The mark before a row: blank without rows below it, `[-]` when open,
/// `[+]` when shut.
pub open spec fn toggle_mark(v: ItemView) -> Seq<char> {
    if v.children.len() == 0 {
        "  "@
    } else if v.is_open {
        "[-]"@
    } else {
        "[+]"@
    }
}

/// Two spaces for each level of depth.
pub open spec fn indent(depth: nat) -> Seq<char> {
    Seq::new(2 * depth, |i: int| ' ')
}

/// The texts of a drawn row: the mark, then the cells' texts, the first
/// indented by the row's depth.
pub open spec fn row_cells(v: ItemView, depth: nat) -> Seq<Seq<char>> {
    seq![toggle_mark(v)] + Seq::new(
        v.content.len(),
        |k: int|
            if k == 0 {
                indent(depth) + cell_text(v.content[0])
            } else {
                cell_text(v.content[k])
            },
    )
}

fn mark_text(item: &TableItem) -> (r: String)
    ensures
        r@ == toggle_mark(item.item_view()),
{
    proof {
        lemma_children_view(*item);
        reveal_strlit("  ");
        reveal_strlit("[-]");
        reveal_strlit("[+]");
    }
    if item.children.len() == 0 {
        String::from_str("  ")
    } else if item.is_open {
        String::from_str("[-]")
    } else {
        String::from_str("[+]")
    }
}

fn row_cells_exec(item: &TableItem, depth: usize) -> (r: Vec<String>)
    ensures
        r.deep_view() == row_cells(item.item_view(), depth as nat),
{
    let ghost v = item.item_view();
    let mut r: Vec<String> = Vec::new();
    r.push(mark_text(item));
    let n = item.content.len();
    let mut k: usize = 0;
    while k < n
        invariant
            n == item.content@.len(),
            v == item.item_view(),
            k <= n,
            r.deep_view() == row_cells(v, depth as nat).take(k + 1),
        decreases n - k,
    {
        let text = item.content[k].to_string();
        let cell = if k == 0 {
            let mut lead = String::new();
            let mut d: usize = 0;
            while d < depth
                invariant
                    d <= depth,
                    lead@ == indent(d as nat),
                decreases depth - d,
            {
                push_str(&mut lead, "  ");
                proof {
                    reveal_strlit("  ");
                }
                assert(lead@ =~= indent((d + 1) as nat));
                d = d + 1;
            }
            push_str(&mut lead, text.as_str());
            lead
        } else {
            text
        };
        let ghost before = r.deep_view();
        r.push(cell);
        assert(r.deep_view() =~= row_cells(v, depth as nat).take(k + 2)) by {
            assert(r.deep_view() =~= before.push(cell@));
        }
        k = k + 1;
    }
    assert(row_cells(v, depth as nat).take(n + 1) =~= row_cells(v, depth as nat));
    r
}

fn walk_exec(
    s: &Vec<TableItem>,
    depth: usize,
    f: &Option<Vec<char>>,
    range: Option<(usize, usize)>,
    offset: u16,
    height: u16,
    selected: usize,
    row: &mut u16,
    out: &mut Vec<Vec<String>>,
    sel: &mut Option<usize>,
) -> (ok: bool)
    requires
        depth <= *old(row),
    ensures
        ({
            let w = walk_rows(
                items_view(s@),
                depth as nat,
                (*old(row) as nat, old(out).deep_view(), true, *old(sel)),
                opt_chars(*f),
                range,
                offset as nat,
                height as nat,
                selected as nat,
            );
            &&& ok == w.2
            &&& *final(row) == w.0
            &&& final(out).deep_view() == w.1
            &&& *final(sel) == w.3
        }),
    decreases s@,
{
    let ghost v = items_view(s@);
    let ghost fv = opt_chars(*f);
    let ghost target = walk_rows(
        v,
        depth as nat,
        (*row as nat, out.deep_view(), true, *sel),
        fv,
        range,
        offset as nat,
        height as nat,
        selected as nat,
    );
    let n = s.len();
    let mut i: usize = 0;
    assert(v.skip(0) =~= v);
    while i < n
        invariant
            n == s@.len(),
            v == items_view(s@),
            fv == opt_chars(*f),
            i <= n,
            depth <= *row,
            target == walk_rows(
                v,
                depth as nat,
                (*old(row) as nat, old(out).deep_view(), true, *old(sel)),
                fv,
                range,
                offset as nat,
                height as nat,
                selected as nat,
            ),
            walk_rows(
                v.skip(i as int),
                depth as nat,
                (*row as nat, out.deep_view(), true, *sel),
                fv,
                range,
                offset as nat,
                height as nat,
                selected as nat,
            ) == target,
        decreases n - i,
    {
        let ghost wi: RowWalk = (*row as nat, out.deep_view(), true, *sel);
        proof {
            assert(v.skip(i as int).drop_first() =~= v.skip(i + 1));
            assert(v.skip(i as int)[0] == v[i as int]);
            lemma_children_view(s@[i as int]);
            assert(decreases_to!(s@ => s@[i as int]));
            assert(wi.1.len() == out@.len());
            assert(v[i as int] == s@[i as int].item_view());
        }
        if out.len() >= height as usize {
            return true;
        }
        let drawn = *row >= offset;
        if drawn {
            if f.is_some() {
                if let Some((a, b)) = range {
                    if !(a <= b && b <= s[i].content.len()) {
                        return false;
                    }
                }
            }
            if is_hidden_exec(&s[i], f, range) {
                i = i + 1;
                continue;
            }
            if s[i].content.len() == 0 {
                return false;
            }
        }
        if *row == u16::MAX {
            return false;
        }
        if drawn {
            if *row as usize == selected {
                *sel = Some(out.len());
            }
            let cells = row_cells_exec(&s[i], depth);
            out.push(cells);
        }
        *row = *row + 1;
        let ghost w1: RowWalk = (*row as nat, out.deep_view(), true, *sel);
        assert(w1.1 =~= (if drawn {
            wi.1.push(row_cells(v[i as int], depth as nat))
        } else {
            wi.1
        }));
        if s[i].is_open && s[i].children.len() > 0 {
            proof {
                lemma_walk_grows(
                    v[i as int].children,
                    (depth + 1) as nat,
                    w1,
                    fv,
                    range,
                    offset as nat,
                    height as nat,
                    selected as nat,
                );
            }
            let ok = walk_exec(&s[i].children, depth + 1, f, range, offset, height, selected, row, out, sel);
            if !ok {
                assert(walk_rows(
                    v.skip(i + 1),
                    depth as nat,
                    (*row as nat, out.deep_view(), false, *sel),
                    fv,
                    range,
                    offset as nat,
                    height as nat,
                    selected as nat,
                ) == (*row as nat, out.deep_view(), false, *sel));
                return false;
            }
        }
        proof {
            lemma_walk_grows(
                v.skip(i + 1),
                depth as nat,
                (*row as nat, out.deep_view(), true, *sel),
                fv,
                range,
                offset as nat,
                height as nat,
                selected as nat,
            );
        }
        i = i + 1;
    }
    assert(v.skip(n as int) =~= Seq::<ItemView>::empty());
    true
}
// ---------------------------------------------------------------------------
// Headers and keys
// ---------------------------------------------------------------------------

/// The arrow of a sort order: down for ascending, up for descending.
pub open spec fn order_arrow(ascending: bool) -> char {
    if ascending {
        '\u{2193}'
    } else {
        '\u{2191}'
    }
}

/// The headers' texts: the sorted column's header, when it has an order,
/// follows its arrow and a space.
pub open spec fn header_texts_of(headers: Seq<Seq<char>>, sort: Option<(usize, Option<bool>)>) -> Seq<Seq<char>> {
    match sort {
        Some((i, Some(asc))) => headers.update(i as int, seq![order_arrow(asc), ' '] + headers[i as int]),
        _ => headers,
    }
}

impl TableWidget {
    /// The headers' texts, and the column chosen for sorting, which is
    /// drawn highlighted.
    pub fn header_texts(&self) -> (r: (Vec<String>, Option<usize>))
        requires
            self.sort matches Some((i, _)) ==> i < self.headers@.len(),
        ensures
            r.0.deep_view() == header_texts_of(self.headers.deep_view(), self.sort),
            r.1 == match self.sort {
                Some((i, _)) => Some(i),
                None => None::<usize>,
            },
    {
        let n = self.headers.len();
        let mut r: Vec<String> = Vec::new();
        let mut k: usize = 0;
        while k < n
            invariant
                n == self.headers@.len(),
                self.sort matches Some((i, _)) ==> i < n,
                k <= n,
                r.deep_view() == header_texts_of(self.headers.deep_view(), self.sort).take(k as int),
            decreases n - k,
        {
            let text = match self.sort {
                Some((i, Some(asc))) => {
                    if i == k {
                        let mut t = String::new();
                        push_char(&mut t, if asc { '\u{2193}' } else { '\u{2191}' });
                        push_char(&mut t, ' ');
                        push_str(&mut t, self.headers[k].as_str());
                        t
                    } else {
                        self.headers[k].clone()
                    }
                },
                _ => self.headers[k].clone(),
            };
            assert(self.headers.deep_view()[k as int] == self.headers@[k as int]@);
            assert(text@ == header_texts_of(self.headers.deep_view(), self.sort)[k as int]);
            let ghost before = r.deep_view();
            r.push(text);
            assert(r.deep_view() =~= header_texts_of(self.headers.deep_view(), self.sort).take(k + 1)) by {
                assert(r.deep_view() =~= before.push(text@));
            }
            k = k + 1;
        }
        assert(header_texts_of(self.headers.deep_view(), self.sort).take(n as int) =~= header_texts_of(
            self.headers.deep_view(),
            self.sort,
        ));
        let col = match self.sort {
            Some((i, _)) => Some(i),
            None => None,
        };
        (r, col)
    }
}

/// The keys that a table answers.
#[derive(Clone, Copy, Debug, PartialEq, Eq, Structural)]
pub enum TableKey {
    Up,
    Down,
    Enter,
    Left,
    Right,
    /// `s` or `S`.
    Sort,
    ShiftEnter,
    Other,
}

/// What a key does to a table.
#[derive(Clone, Copy, Debug, PartialEq, Eq, Structural)]
pub enum TableAction {
    PreviousRow,
    NextRow,
    Toggle,
    PreviousColumn,
    NextColumn,
    Sort,
    /// The selected row is acted on by the window.
    Interact,
    Nothing,
}

/// Up and Down move the selection, Enter opens or shuts the row, Left and
/// Right choose the column, `s` sorts by it, and Shift+Enter acts on the
/// row.
pub open spec fn table_key_action_of(key: TableKey) -> TableAction {
    match key {
        TableKey::Up => TableAction::PreviousRow,
        TableKey::Down => TableAction::NextRow,
        TableKey::Enter => TableAction::Toggle,
        TableKey::Left => TableAction::PreviousColumn,
        TableKey::Right => TableAction::NextColumn,
        TableKey::Sort => TableAction::Sort,
        TableKey::ShiftEnter => TableAction::Interact,
        TableKey::Other => TableAction::Nothing,
    }
}

pub fn table_key_action(key: TableKey) -> (r: TableAction)
    ensures
        r == table_key_action_of(key),
{
    match key {
        TableKey::Up => TableAction::PreviousRow,
        TableKey::Down => TableAction::NextRow,
        TableKey::Enter => TableAction::Toggle,
        TableKey::Left => TableAction::PreviousColumn,
        TableKey::Right => TableAction::NextColumn,
        TableKey::Sort => TableAction::Sort,
        TableKey::ShiftEnter => TableAction::Interact,
        TableKey::Other => TableAction::Nothing,
    }
}

// ---------------------------------------------------------------------------
// Sorting by a column
// ---------------------------------------------------------------------------

/// The rank of a download status in its order.
pub open spec fn status_rank(s: DownloadStatus) -> int {
    match s {
        DownloadStatus::Queued => 0,
        DownloadStatus::Starting => 1,
        DownloadStatus::Downloading => 2,
        DownloadStatus::Complete => 3,
        DownloadStatus::Failed => 4,
    }
}

fn status_rank_exec(s: DownloadStatus) -> (r: u8)
    ensures
        r == status_rank(s),
{
    match s {
        DownloadStatus::Queued => 0,
        DownloadStatus::Starting => 1,
        DownloadStatus::Downloading => 2,
        DownloadStatus::Complete => 3,
        DownloadStatus::Failed => 4,
    }
}

/// Whether cell `a` comes before cell `b`: cells of one kind by their
/// values (texts by code point), cells of different kinds by their texts.
pub open spec fn cell_less(a: ColumnData, b: ColumnData) -> bool {
    match (a, b) {
        (ColumnData::Empty, ColumnData::Empty) => false,
        (ColumnData::Usize(x), ColumnData::Usize(y)) => x < y,
        (ColumnData::String(x), ColumnData::String(y)) => lex_lt(x@, y@),
        (ColumnData::ByteSize(x), ColumnData::ByteSize(y)) => x.0 < y.0,
        (ColumnData::DownloadStatus(x), ColumnData::DownloadStatus(y)) => status_rank(x)
            < status_rank(y),
        (ColumnData::Percentage(x), ColumnData::Percentage(y)) => x.0 < y.0,
        (ColumnData::Token(x), ColumnData::Token(y)) => x < y,
        _ => lex_lt(cell_text(a), cell_text(b)),
    }
}

fn lex_lt_strings(a: &String, b: &String) -> (r: bool)
    ensures
        r == lex_lt(a@, b@),
{
    let x = crate::gui::windows::filesearch::chars_of(a.as_str());
    let y = crate::gui::windows::filesearch::chars_of(b.as_str());
    crate::gui::windows::filesearch::lex_lt_chars(&x, &y)
}

fn cell_less_exec(a: &ColumnData, b: &ColumnData) -> (r: bool)
    ensures
        r == cell_less(*a, *b),
{
    match (a, b) {
        (ColumnData::Empty, ColumnData::Empty) => false,
        (ColumnData::Usize(x), ColumnData::Usize(y)) => *x < *y,
        (ColumnData::String(x), ColumnData::String(y)) => lex_lt_strings(x, y),
        (ColumnData::ByteSize(x), ColumnData::ByteSize(y)) => x.0 < y.0,
        (ColumnData::DownloadStatus(x), ColumnData::DownloadStatus(y)) => status_rank_exec(*x)
            < status_rank_exec(*y),
        (ColumnData::Percentage(x), ColumnData::Percentage(y)) => x.0 < y.0,
        (ColumnData::Token(x), ColumnData::Token(y)) => *x < *y,
        _ => lex_lt_strings(&a.to_string(), &b.to_string()),
    }
}

/// The cell of a row in a column, if the row has one.
pub open spec fn cell_at(c: Seq<ColumnData>, index: usize) -> Option<ColumnData> {
    if index < c.len() {
        Some(c[index as int])
    } else {
        None
    }
}

/// Whether a row comes strictly before another when sorting by the column
/// `index`: a missing cell first; in descending order the other way round.
pub open spec fn row_before(x: ItemView, e: ItemView, index: usize, ascending: bool) -> bool {
    let (p, q) = if ascending {
        (cell_at(x.content, index), cell_at(e.content, index))
    } else {
        (cell_at(e.content, index), cell_at(x.content, index))
    };
    match (p, q) {
        (None, Some(_)) => true,
        (Some(a), Some(b)) => cell_less(a, b),
        _ => false,
    }
}

fn row_before_exec(x: &TableItem, e: &TableItem, index: usize, ascending: bool) -> (r: bool)
    ensures
        r == row_before(x.item_view(), e.item_view(), index, ascending),
{
    let (p, q) = if ascending {
        (x, e)
    } else {
        (e, x)
    };
    let pc = index < p.content.len();
    let qc = index < q.content.len();
    if !pc {
        qc
    } else if !qc {
        false
    } else {
        cell_less_exec(&p.content[index], &q.content[index])
    }
}

/// Inserts a row before the first row that it comes before, so that rows
/// that compare equal keep their order.
pub open spec fn insert_row(s: Seq<ItemView>, x: ItemView, index: usize, ascending: bool) -> Seq<ItemView>
    decreases s.len(),
{
    if s.len() == 0 {
        seq![x]
    } else if row_before(x, s[0], index, ascending) {
        seq![x] + s
    } else {
        seq![s[0]] + insert_row(s.drop_first(), x, index, ascending)
    }
}

/// The rows sorted by the column, a stable sort.
pub open spec fn sort_rows(s: Seq<ItemView>, index: usize, ascending: bool) -> Seq<ItemView>
    decreases s.len(),
{
    if s.len() == 0 {
        s
    } else {
        insert_row(sort_rows(s.drop_last(), index, ascending), s.last(), index, ascending)
    }
}

/// A row with the rows below it sorted, at every open level.
pub open spec fn sort_tree(v: ItemView, index: usize, ascending: bool) -> ItemView
    decreases v,
{
    if v.is_open {
        ItemView { children: sort_rows(sort_each(v.children, index, ascending), index, ascending), ..v }
    } else {
        v
    }
}

/// Each of the rows with the rows below it sorted, in the order given.
pub open spec fn sort_each(s: Seq<ItemView>, index: usize, ascending: bool) -> Seq<ItemView>
    decreases s,
{
    Seq::new(
        s.len(),
        |i: int|
            if 0 <= i < s.len() {
                sort_tree(s[i], index, ascending)
            } else {
                arbitrary()
            },
    )
}

proof fn lemma_insert_row_at(s: Seq<ItemView>, x: ItemView, index: usize, ascending: bool, j: int)
    requires
        0 <= j <= s.len(),
        forall|k: int| 0 <= k < j ==> !row_before(x, #[trigger] s[k], index, ascending),
        j < s.len() ==> row_before(x, s[j], index, ascending),
    ensures
        insert_row(s, x, index, ascending) == s.take(j).push(x) + s.skip(j),
    decreases j,
{
    if s.len() == 0 {
        assert(s.take(j).push(x) + s.skip(j) =~= seq![x]);
    } else if j == 0 {
        assert(s.take(j).push(x) + s.skip(j) =~= seq![x] + s);
    } else {
        let t = s.drop_first();
        assert forall|k: int| 0 <= k < j - 1 implies !row_before(x, #[trigger] t[k], index, ascending) by {
            assert(t[k] == s[k + 1]);
        }
        if j - 1 < t.len() {
            assert(t[j - 1] == s[j]);
        }
        lemma_insert_row_at(t, x, index, ascending, j - 1);
        assert(!row_before(x, s[0], index, ascending));
        assert(seq![s[0]] + (t.take(j - 1).push(x) + t.skip(j - 1)) =~= s.take(j).push(x) + s.skip(
            j,
        ));
    }
}

/// The position of the first row of `v` that `x` comes before (the end if
/// there is none).
fn insert_position(v: &Vec<TableItem>, x: &TableItem, index: usize, ascending: bool) -> (j: usize)
    ensures
        j <= v@.len(),
        forall|k: int|
            0 <= k < j ==> !row_before(x.item_view(), #[trigger] items_view(v@)[k], index, ascending),
        j < v@.len() ==> row_before(x.item_view(), items_view(v@)[j as int], index, ascending),
{
    let n = v.len();
    let mut j: usize = 0;
    while j < n
        invariant
            n == v@.len(),
            j <= n,
            forall|k: int|
                0 <= k < j ==> !row_before(x.item_view(), #[trigger] items_view(v@)[k], index, ascending),
        decreases n - j,
    {
        assert(items_view(v@)[j as int] == v@[j as int].item_view());
        if row_before_exec(x, &v[j], index, ascending) {
            return j;
        }
        j = j + 1;
    }
    j
}

fn insert_row_exec(v: &mut Vec<TableItem>, x: TableItem, index: usize, ascending: bool)
    ensures
        items_view(final(v)@) == insert_row(items_view(old(v)@), x.item_view(), index, ascending),
{
    let ghost xv = x.item_view();
    let j = insert_position(v, &x, index, ascending);
    proof {
        lemma_insert_row_at(items_view(old(v)@), xv, index, ascending, j as int);
    }
    let ghost before = items_view(v@);
    v.insert(j, x);
    assert(items_view(v@) =~= before.take(j as int).push(xv) + before.skip(j as int));
}

fn sort_rows_exec(items: Vec<TableItem>, index: usize, ascending: bool) -> (r: Vec<TableItem>)
    ensures
        items_view(r@) == sort_rows(items_view(items@), index, ascending),
{
    let ghost v = items_view(items@);
    let mut rest = items;
    let mut out: Vec<TableItem> = Vec::new();
    let n = rest.len();
    let mut i: usize = 0;
    assert(v.skip(0) =~= v);
    assert(v.take(0) =~= Seq::<ItemView>::empty());
    while i < n
        invariant
            n == v.len(),
            i <= n,
            items_view(rest@) == v.skip(i as int),
            items_view(out@) == sort_rows(v.take(i as int), index, ascending),
        decreases n - i,
    {
        assert(rest@.len() > 0) by {
            assert(items_view(rest@).len() == n - i);
        }
        let ghost before = items_view(rest@);
        let x = rest.remove(0);
        assert(items_view(rest@) =~= v.skip(i + 1)) by {
            assert(items_view(rest@) =~= before.drop_first());
        }
        assert(x.item_view() == v[i as int]) by {
            assert(before[0] == v[i as int]);
        }
        insert_row_exec(&mut out, x, index, ascending);
        assert(v.take(i + 1).drop_last() =~= v.take(i as int));
        i = i + 1;
    }
    assert(v.take(n as int) =~= v);
    out
}

fn sort_tree_exec(item: TableItem, index: usize, ascending: bool) -> (r: TableItem)
    ensures
        r.item_view() == sort_tree(item.item_view(), index, ascending),
    decreases item.item_view(),
{
    if !item.is_open {
        return item;
    }
    let ghost iv = item.item_view();
    let ghost whole = item;
    proof {
        lemma_children_view(item);
    }
    let TableItem { content, children, is_open } = item;
    let mut sorted_children: Vec<TableItem> = Vec::new();
    let mut rest = children;
    let n = rest.len();
    let ghost cs = rest@;
    let mut i: usize = 0;
    while i < n
        invariant
            n == cs.len(),
            i <= n,
            rest@ == cs.skip(i as int),
            cs == whole.children@,
            iv == whole.item_view(),
            whole == item,
            iv.children == items_view(cs),
            items_view(sorted_children@) == Seq::new(
                i as nat,
                |k: int| sort_tree(iv.children[k], index, ascending),
            ),
        decreases n - i,
    {
        assert(rest@[0] == cs[i as int]);
        let c = rest.remove(0);
        assert(c == cs[i as int]);
        assert(iv.children[i as int] == c.item_view());
        assert(decreases_to!(whole.item_view() => c.item_view())) by {
            broadcast use vstd::seq::axiom_seq_index_decreases;

            assert(whole.item_view() == iv);
            assert(decreases_to!(iv => iv.children));
            assert(decreases_to!(iv.children => iv.children[i as int]));
        }
        let sc = sort_tree_exec(c, index, ascending);
        let ghost before = items_view(sorted_children@);
        let ghost scv = sc.item_view();
        let ghost scg = sc;
        assert(scv == sort_tree(iv.children[i as int], index, ascending));
        assert(sorted_children@.len() == before.len());
        assert(before.len() == i);
        let ghost prev = sorted_children@;
        sorted_children.push(sc);
        assert forall|k: int| 0 <= k < i implies items_view(sorted_children@)[k] == sort_tree(
            iv.children[k],
            index,
            ascending,
        ) by {
            assert(sorted_children@[k] == prev[k]);
            assert(before[k] == sort_tree(iv.children[k], index, ascending));
        }
        assert(sorted_children@[i as int] == scg);
        assert(items_view(sorted_children@)[i as int] == scv);
        assert(items_view(sorted_children@) =~= Seq::new(
            (i + 1) as nat,
            |k: int| sort_tree(iv.children[k], index, ascending),
        ));
        assert(rest@ =~= cs.skip(i + 1));
        i = i + 1;
    }
    let ghost mapped = items_view(sorted_children@);
    assert(mapped =~= sort_each(iv.children, index, ascending));
    let sorted = sort_rows_exec(sorted_children, index, ascending);
    let r = TableItem { content, children: sorted, is_open };
    proof {
        lemma_children_view(r);
        assert(r.item_view().content == iv.content);
        assert(r.item_view().is_open == iv.is_open);
        assert(iv.is_open);
        assert(r.item_view().children == items_view(sorted@));
        assert(r.item_view().children == sort_tree(iv, index, ascending).children);
    }
    r
}

/// Whether no row of the list comes before the row just above it.
pub open spec fn rows_in_order(s: Seq<ItemView>, index: usize, ascending: bool) -> bool {
    forall|i: int, j: int|
        0 <= i && j == i + 1 && j < s.len() ==> !row_before(
            #[trigger] s[j],
            #[trigger] s[i],
            index,
            ascending,
        )
}

/// The byte count of a row's size cell in column `index` (0 when the cell
/// is not a size).
pub open spec fn size_in(v: ItemView, index: usize) -> u64 {
    match cell_at(v.content, index) {
        Some(ColumnData::ByteSize(b)) => b.0,
        _ => 0,
    }
}

/// Whether every row has a size in column `index`.
pub open spec fn sizes_in_column(s: Seq<ItemView>, index: usize) -> bool {
    forall|k: int| 0 <= k < s.len() ==> (cell_at(#[trigger] s[k].content, index) matches Some(
        ColumnData::ByteSize(_),
    ))
}

/// Sizes compare by their byte counts, not by their texts.
pub proof fn lemma_sizes_compare_by_bytes(x: ByteSize, y: ByteSize)
    ensures
        cell_less(ColumnData::ByteSize(x), ColumnData::ByteSize(y)) == (x.0 < y.0),
{
}

/// Sorting rows by a column of sizes puts the byte counts in order: going
/// down, ascending sorts never decrease, descending sorts never increase.
pub proof fn lemma_sorted_sizes_in_order(s: Seq<ItemView>, index: usize, ascending: bool, i: int, j: int)
    requires
        sizes_in_column(s, index),
        0 <= i < j < sort_rows(s, index, ascending).len(),
    ensures
        ascending ==> size_in(sort_rows(s, index, ascending)[i], index) <= size_in(
            sort_rows(s, index, ascending)[j],
            index,
        ),
        !ascending ==> size_in(sort_rows(s, index, ascending)[i], index) >= size_in(
            sort_rows(s, index, ascending)[j],
            index,
        ),
    decreases j - i,
{
    broadcast use vstd::seq_lib::group_to_multiset_ensures;

    let t = sort_rows(s, index, ascending);
    lemma_sort_rows(s, index, ascending);
    assert(sizes_in_column(t, index)) by {
        assert forall|k: int| 0 <= k < t.len() implies (cell_at(#[trigger] t[k].content, index) matches Some(
            ColumnData::ByteSize(_),
        )) by {
            assert(t.contains(t[k]));
            assert(t.to_multiset().count(t[k]) > 0);
            assert(s.contains(t[k]));
        }
    }
    assert(!row_before(t[j], t[j - 1], index, ascending));
    let a = cell_at(t[j - 1].content, index);
    let b = cell_at(t[j].content, index);
    assert(a matches Some(ColumnData::ByteSize(_)));
    assert(b matches Some(ColumnData::ByteSize(_)));
    if i < j - 1 {
        lemma_sorted_sizes_in_order(s, index, ascending, i, j - 1);
    }
}

proof fn lemma_cell_less_asym(a: ColumnData, b: ColumnData)
    requires
        cell_less(a, b),
    ensures
        !cell_less(b, a),
{
    match (a, b) {
        (ColumnData::String(x), ColumnData::String(y)) => {
            crate::gui::windows::filesearch::lemma_lex_asym(x@, y@);
        },
        (ColumnData::Empty, _) | (ColumnData::Usize(_), _) | (ColumnData::String(_), _)
        | (ColumnData::ByteSize(_), _) | (ColumnData::DownloadStatus(_), _)
        | (ColumnData::Percentage(_), _) | (ColumnData::Token(_), _) => {
            if lex_lt(cell_text(a), cell_text(b)) {
                crate::gui::windows::filesearch::lemma_lex_asym(cell_text(a), cell_text(b));
            }
        },
    }
}

proof fn lemma_row_before_asym(x: ItemView, e: ItemView, index: usize, ascending: bool)
    requires
        row_before(x, e, index, ascending),
    ensures
        !row_before(e, x, index, ascending),
{
    if index < x.content.len() && index < e.content.len() {
        if ascending {
            lemma_cell_less_asym(x.content[index as int], e.content[index as int]);
        } else {
            lemma_cell_less_asym(e.content[index as int], x.content[index as int]);
        }
    }
}

proof fn lemma_insert_row_keeps_order(s: Seq<ItemView>, x: ItemView, index: usize, ascending: bool)
    requires
        rows_in_order(s, index, ascending),
    ensures
        rows_in_order(insert_row(s, x, index, ascending), index, ascending),
        insert_row(s, x, index, ascending).to_multiset() == s.to_multiset().insert(x),
        insert_row(s, x, index, ascending).len() == s.len() + 1,
        insert_row(s, x, index, ascending)[0] == x || (s.len() > 0 && insert_row(
            s,
            x,
            index,
            ascending,
        )[0] == s[0]),
    decreases s.len(),
{
    broadcast use vstd::seq_lib::group_to_multiset_ensures;

    let u = insert_row(s, x, index, ascending);
    if s.len() == 0 {
        assert(seq![x] =~= Seq::<ItemView>::empty().push(x));
    } else if row_before(x, s[0], index, ascending) {
        lemma_row_before_asym(x, s[0], index, ascending);
        assert forall|i: int, j: int|
            0 <= i && j == i + 1 && j < u.len() implies !row_before(
                #[trigger] u[j],
                #[trigger] u[i],
                index,
                ascending,
            ) by {
            if i > 0 {
                assert(u[i] == s[i - 1] && u[j] == s[j - 1]);
            }
        }
        assert(u =~= seq![x] + s);
        vstd::seq_lib::lemma_multiset_commutative(seq![x], s);
        assert(seq![x] =~= Seq::<ItemView>::empty().push(x));
        assert(u.to_multiset() =~= s.to_multiset().insert(x));
    } else {
        let t = s.drop_first();
        assert(rows_in_order(t, index, ascending)) by {
            assert forall|i: int, j: int|
                0 <= i && j == i + 1 && j < t.len() implies !row_before(
                    #[trigger] t[j],
                    #[trigger] t[i],
                    index,
                    ascending,
                ) by {
                assert(t[i] == s[i + 1] && t[j] == s[j + 1]);
            }
        }
        lemma_insert_row_keeps_order(t, x, index, ascending);
        let w = insert_row(t, x, index, ascending);
        assert(u =~= seq![s[0]] + w);
        assert forall|i: int, j: int|
            0 <= i && j == i + 1 && j < u.len() implies !row_before(
                #[trigger] u[j],
                #[trigger] u[i],
                index,
                ascending,
            ) by {
            if i == 0 {
                assert(u[j] == w[0]);
                if w[0] != x {
                    assert(w[0] == t[0] && t[0] == s[1]);
                }
            } else {
                assert(u[i] == w[i - 1] && u[j] == w[j - 1]);
            }
        }
        vstd::seq_lib::lemma_multiset_commutative(seq![s[0]], w);
        vstd::seq_lib::lemma_multiset_commutative(seq![s[0]], t);
        assert(seq![s[0]] + t =~= s);
        assert(u.to_multiset() =~= s.to_multiset().insert(x));
    }
}

/// Sorting by a column keeps the rows, each as often as before, and puts no
/// row below a row that it comes before.
pub proof fn lemma_sort_rows(s: Seq<ItemView>, index: usize, ascending: bool)
    ensures
        sort_rows(s, index, ascending).to_multiset() == s.to_multiset(),
        rows_in_order(sort_rows(s, index, ascending), index, ascending),
    decreases s.len(),
{
    broadcast use vstd::seq_lib::group_to_multiset_ensures;

    if s.len() > 0 {
        lemma_sort_rows(s.drop_last(), index, ascending);
        lemma_insert_row_keeps_order(sort_rows(s.drop_last(), index, ascending), s.last(), index, ascending);
        assert(s.drop_last().push(s.last()) =~= s);
    }
}

/// The next order of a sorted column: none, then ascending, then
/// descending, then none again.
pub open spec fn next_order(o: Option<bool>) -> Option<bool> {
    match o {
        None => Some(true),
        Some(true) => Some(false),
        Some(false) => None,
    }
}

impl TableWidget {
    /// Moves the chosen column on to its next order and, when that is an
    /// order, sorts the rows by the column (the first data column for the
    /// column of marks), at every open level.
    pub fn sort(&mut self)
        ensures
            match old(self).sort {
                Some((col, order)) => {
                    &&& final(self).sort == Some((col, next_order(order)))
                    &&& match next_order(order) {
                        Some(asc) => {
                            let index = (if col > 0 { col - 1 } else { 0 }) as usize;
                            final(self).rows_view() == sort_rows(
                                sort_each(old(self).rows_view(), index, asc),
                                index,
                                asc,
                            )
                        },
                        None => final(self).items == old(self).items,
                    }
                },
                None => *final(self) == *old(self),
            },
            final(self).length == old(self).length,
            final(self).selected_row == old(self).selected_row,
            final(self).filter == old(self).filter,
            final(self).headers == old(self).headers,
    {
        if let Some((col, order)) = self.sort {
            let next = match order {
                None => Some(true),
                Some(true) => Some(false),
                Some(false) => None,
            };
            self.sort = Some((col, next));
            if let Some(asc) = next {
                let index = col.saturating_sub(1);
                let mut items: Vec<TableItem> = Vec::new();
                std::mem::swap(&mut items, &mut self.items);
                let ghost v = items_view(items@);
                let mut trees: Vec<TableItem> = Vec::new();
                let n = items.len();
                let mut i: usize = 0;
                let ghost cs = items@;
                while i < n
                    invariant
                        n == cs.len(),
                        i <= n,
                        items@ == cs.skip(i as int),
                        v == items_view(cs),
                        items_view(trees@) == Seq::new(
                            i as nat,
                            |k: int| sort_tree(v[k], index, asc),
                        ),
                    decreases n - i,
                {
                    assert(items@[0] == cs[i as int]);
                    let c = items.remove(0);
                    assert(c == cs[i as int]);
                    assert(v[i as int] == c.item_view());
                    let t = sort_tree_exec(c, index, asc);
                    let ghost tv = t.item_view();
                    let ghost tg = t;
                    assert(tv == sort_tree(v[i as int], index, asc));
                    assert(items_view(trees@).len() == i);
                    assert(trees@.len() == i);
                    let ghost prev = trees@;
                    let ghost before = items_view(trees@);
                    trees.push(t);
                    assert forall|k: int| 0 <= k < i implies items_view(trees@)[k] == sort_tree(
                        v[k],
                        index,
                        asc,
                    ) by {
                        assert(trees@[k] == prev[k]);
                        assert(before[k] == sort_tree(v[k], index, asc));
                    }
                    assert(trees@[i as int] == tg);
                    assert(items_view(trees@)[i as int] == tv);
                    assert(items_view(trees@) =~= Seq::new(
                        (i + 1) as nat,
                        |k: int| sort_tree(v[k], index, asc),
                    ));
                    assert(items@ =~= cs.skip(i + 1));
                    i = i + 1;
                }
                assert(items_view(trees@) =~= sort_each(v, index, asc));
                self.items = sort_rows_exec(trees, index, asc);
            }
        }
    }
}

} // verus!
