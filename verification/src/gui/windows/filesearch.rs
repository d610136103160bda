//! The file search window: search results grouped for the results table
//! (files sorted by name, split into folder and file name, consecutive
//! files of a folder together), the rows built from them, and what a chosen
//! row asks to download.
use std::collections::HashMap;

use vstd::prelude::*;

use crate::constants::{ByteSize, MAX_RESULTS};
use crate::gui::widgets::table::{
    cell_text, children_length, item_length, items_view, opt_text, ColumnData, ItemView, TableItem,
    TableWidget,
};
use crate::gui::widgets::tabs::Tabs;
use crate::gui::widgets::input::{Input, InputType};
use crate::messages::peer::FileSearchResponse;
use crate::messages::peer::{File, FileModel};
use crate::utils::{decimal, decimal_string, push_char, push_str};

verus! {

/// The characters of a text, in a vector.
pub fn chars_of(s: &str) -> (r: Vec<char>)
    ensures
        r@ == s@,
{
    let mut r: Vec<char> = Vec::new();
    for c in it: s.chars()
        invariant
            r@ == it.seq().take(it.index() as int),
    {
        r.push(c);
    }
    r
}

// ---------------------------------------------------------------------------
// Sorting by name
// ---------------------------------------------------------------------------

/// Whether `a` comes strictly before `b`, comparing code points from the
/// first, a proper prefix first. (UTF-8 keeps code point order, so this is
/// the order of `String`'s comparison.)
pub open spec fn lex_lt(a: Seq<char>, b: Seq<char>) -> bool
    decreases a.len(),
{
    if b.len() == 0 {
        false
    } else if a.len() == 0 {
        true
    } else if a[0] != b[0] {
        (a[0] as u32) < (b[0] as u32)
    } else {
        lex_lt(a.drop_first(), b.drop_first())
    }
}

pub fn lex_lt_chars(a: &Vec<char>, b: &Vec<char>) -> (r: bool)
    ensures
        r == lex_lt(a@, b@),
{
    let mut i: usize = 0;
    assert(a@.skip(0) =~= a@);
    assert(b@.skip(0) =~= b@);
    while i < a.len() && i < b.len()
        invariant
            i <= a@.len(),
            i <= b@.len(),
            lex_lt(a@, b@) == lex_lt(a@.skip(i as int), b@.skip(i as int)),
        decreases a@.len() - i,
    {
        if a[i] != b[i] {
            return (a[i] as u32) < (b[i] as u32);
        }
        assert(a@.skip(i as int).drop_first() =~= a@.skip(i + 1));
        assert(b@.skip(i as int).drop_first() =~= b@.skip(i + 1));
        i = i + 1;
    }
    i < b.len()
}

/// A file as the table sorts it: its name and size.
pub type Entry = (Seq<char>, u64);

/// Inserts `x` before the first entry whose name comes after its own, so
/// that entries of equal names keep the order they came in.
pub open spec fn insert_sorted(s: Seq<Entry>, x: Entry) -> Seq<Entry>
    decreases s.len(),
{
    if s.len() == 0 {
        seq![x]
    } else if lex_lt(x.0, s[0].0) {
        seq![x] + s
    } else {
        seq![s[0]] + insert_sorted(s.drop_first(), x)
    }
}

/// The entries sorted by name, a stable sort: entries of equal names keep
/// their order.
pub open spec fn sort_entries(s: Seq<Entry>) -> Seq<Entry>
    decreases s.len(),
{
    if s.len() == 0 {
        s
    } else {
        insert_sorted(sort_entries(s.drop_last()), s.last())
    }
}

proof fn lemma_insert_at(s: Seq<Entry>, x: Entry, j: int)
    requires
        0 <= j <= s.len(),
        forall|k: int| 0 <= k < j ==> !lex_lt(x.0, #[trigger] s[k].0),
        j < s.len() ==> lex_lt(x.0, s[j].0),
    ensures
        insert_sorted(s, x) == s.take(j).push(x) + s.skip(j),
    decreases j,
{
    if s.len() == 0 {
        assert(s.take(j).push(x) + s.skip(j) =~= seq![x]);
    } else if j == 0 {
        assert(s.take(j).push(x) + s.skip(j) =~= seq![x] + s);
    } else {
        let t = s.drop_first();
        assert forall|k: int| 0 <= k < j - 1 implies !lex_lt(x.0, #[trigger] t[k].0) by {
            assert(t[k] == s[k + 1]);
        }
        if j - 1 < t.len() {
            assert(t[j - 1] == s[j]);
        }
        lemma_insert_at(t, x, j - 1);
        assert(!lex_lt(x.0, s[0].0));
        assert(seq![s[0]] + (t.take(j - 1).push(x) + t.skip(j - 1)) =~= s.take(j).push(x) + s.skip(j));
    }
}

proof fn lemma_chars_deep_view(v: Vec<char>)
    ensures
        v.deep_view() == v@,
{
    assert(v.deep_view() =~= v@);
}

/// Inserts an entry where `insert_sorted` puts it.
pub(crate) fn insert_entry(v: &mut Vec<(Vec<char>, u64)>, x: (Vec<char>, u64))
    ensures
        final(v).deep_view() == insert_sorted(old(v).deep_view(), x.deep_view()),
{
    let ghost xv = x.deep_view();
    proof {
        lemma_chars_deep_view(x.0);
    }
    let mut j: usize = 0;
    while j < v.len() && !lex_lt_chars(&x.0, &v[j].0)
        invariant
            j <= v@.len(),
            v.deep_view() == old(v).deep_view(),
            forall|k: int| 0 <= k < j ==> !lex_lt(x.0@, #[trigger] v.deep_view()[k].0),
        decreases v@.len() - j,
    {
        assert(v.deep_view()[j as int] == v@[j as int].deep_view());
        proof {
            lemma_chars_deep_view(v@[j as int].0);
        }
        j = j + 1;
    }
    proof {
        if j < v@.len() {
            assert(v.deep_view()[j as int] == v@[j as int].deep_view());
            lemma_chars_deep_view(v@[j as int].0);
        }
        lemma_insert_at(old(v).deep_view(), xv, j as int);
    }
    let ghost before = v.deep_view();
    v.insert(j, x);
    assert(v.deep_view() =~= before.take(j as int).push(xv) + before.skip(j as int));
}

/// The name and size of each file, sorted by name.
fn sorted_entries(files: &Vec<File>) -> (r: Vec<(Vec<char>, u64)>)
    ensures
        r.deep_view() == sort_entries(files.deep_view().map_values(|f: FileModel| (f.filename, f.file_size))),
{
    let ghost keys = files.deep_view().map_values(|f: FileModel| (f.filename, f.file_size));
    let mut r: Vec<(Vec<char>, u64)> = Vec::new();
    let n = files.len();
    let mut i: usize = 0;
    while i < n
        invariant
            n == files@.len(),
            i <= n,
            keys == files.deep_view().map_values(|f: FileModel| (f.filename, f.file_size)),
            r.deep_view() == sort_entries(keys.take(i as int)),
        decreases n - i,
    {
        let name = chars_of(files[i].filename.as_str());
        let entry = (name, files[i].file_size);
        assert(keys[i as int] == entry.deep_view());
        insert_entry(&mut r, entry);
        assert(keys.take(i + 1).drop_last() =~= keys.take(i as int));
        i = i + 1;
    }
    assert(keys.take(n as int) =~= keys);
    r
}

// ---------------------------------------------------------------------------
// Folders and file names
// ---------------------------------------------------------------------------

/// The last position of `c` in `s`.
pub open spec fn last_index_of(s: Seq<char>, c: char) -> Option<int>
    decreases s.len(),
{
    if s.len() == 0 {
        None
    } else if s.last() == c {
        Some(s.len() - 1)
    } else {
        last_index_of(s.drop_last(), c)
    }
}

/// A path split after its last `/`, or when it has none after its last
/// `\`: the folder, with the separator, and the file name. A path with
/// neither is a file name in an empty folder.
pub open spec fn split_path(p: Seq<char>) -> (Seq<char>, Seq<char>) {
    match last_index_of(p, '/') {
        Some(i) => (p.take(i + 1), p.skip(i + 1)),
        None => match last_index_of(p, '\\') {
            Some(i) => (p.take(i + 1), p.skip(i + 1)),
            None => (Seq::empty(), p),
        },
    }
}

pub(crate) fn last_index_of_exec(s: &Vec<char>, c: char) -> (r: Option<usize>)
    ensures
        r is None <==> last_index_of(s@, c) is None,
        r matches Some(k) ==> last_index_of(s@, c) == Some(k as int),
{
    let mut i: usize = s.len();
    assert(s@.take(s@.len() as int) =~= s@);
    while i > 0
        invariant
            i <= s@.len(),
            last_index_of(s@, c) == last_index_of(s@.take(i as int), c),
        decreases i,
    {
        assert(s@.take(i as int).drop_last() =~= s@.take(i - 1));
        if s[i - 1] == c {
            return Some(i - 1);
        }
        i = i - 1;
    }
    None
}

/// The characters of `s` from `start` to `end`, as a string.
pub(crate) fn string_of(s: &Vec<char>, start: usize, end: usize) -> (r: String)
    requires
        start <= end <= s@.len(),
    ensures
        r@ == s@.subrange(start as int, end as int),
{
    let mut r = String::new();
    let mut i = start;
    while i < end
        invariant
            start <= i <= end <= s@.len(),
            r@ == s@.subrange(start as int, i as int),
        decreases end - i,
    {
        push_char(&mut r, s[i]);
        assert(r@ =~= s@.subrange(start as int, i + 1));
        i = i + 1;
    }
    r
}

/// A row of the results table: a file's folder, name and size.
#[derive(Debug)]
pub struct ResultRow {
    pub folder: String,
    pub filename: String,
    pub file_size: u64,
}

/// A [`ResultRow`] as a value.
pub struct RowView {
    pub folder: Seq<char>,
    pub filename: Seq<char>,
    pub file_size: u64,
}

impl DeepView for ResultRow {
    type V = RowView;

    open spec fn deep_view(&self) -> RowView {
        RowView { folder: self.folder@, filename: self.filename@, file_size: self.file_size }
    }
}

/// The row of a sorted entry.
pub open spec fn row_of(e: Entry) -> RowView {
    RowView { folder: split_path(e.0).0, filename: split_path(e.0).1, file_size: e.1 }
}

fn row_of_exec(e: &(Vec<char>, u64)) -> (r: ResultRow)
    ensures
        r.deep_view() == row_of((e.0@, e.1)),
{
    let n = e.0.len();
    let cut = match last_index_of_exec(&e.0, '/') {
        Some(i) => Some(i),
        None => last_index_of_exec(&e.0, '\\'),
    };
    match cut {
        Some(i) => {
            proof {
                lemma_last_index_in_range(e.0@, '/');
                lemma_last_index_in_range(e.0@, '\\');
            }
            let folder = string_of(&e.0, 0, i + 1);
            let filename = string_of(&e.0, i + 1, n);
            assert(e.0@.subrange(0, i + 1) =~= e.0@.take(i + 1));
            assert(e.0@.subrange(i + 1, n as int) =~= e.0@.skip(i + 1));
            ResultRow { folder, filename, file_size: e.1 }
        },
        None => {
            let filename = string_of(&e.0, 0, n);
            assert(e.0@.subrange(0, n as int) =~= e.0@);
            ResultRow { folder: String::new(), filename, file_size: e.1 }
        },
    }
}

pub(crate) proof fn lemma_last_index_in_range(s: Seq<char>, c: char)
    ensures
        last_index_of(s, c) matches Some(i) ==> 0 <= i < s.len() && s[i] == c,
    decreases s.len(),
{
    if s.len() > 0 && s.last() != c {
        lemma_last_index_in_range(s.drop_last(), c);
    }
}

// ---------------------------------------------------------------------------
// Grouping by folder
// ---------------------------------------------------------------------------

/// A folder of the results table, with its rows.
#[derive(Debug)]
pub struct ResultFolder {
    pub folder: String,
    pub rows: Vec<ResultRow>,
}

/// A [`ResultFolder`] as a value.
pub struct FolderView {
    pub folder: Seq<char>,
    pub rows: Seq<RowView>,
}

impl DeepView for ResultFolder {
    type V = FolderView;

    open spec fn deep_view(&self) -> FolderView {
        FolderView { folder: self.folder@, rows: self.rows.deep_view() }
    }
}

/// Rows grouped by folder: a run of consecutive rows of one folder makes a
/// group.
pub open spec fn group_rows(s: Seq<RowView>) -> Seq<FolderView>
    decreases s.len(),
{
    if s.len() == 0 {
        Seq::empty()
    } else {
        let g = group_rows(s.drop_last());
        let r = s.last();
        if g.len() > 0 && g.last().folder == r.folder {
            g.update(g.len() - 1, FolderView { folder: r.folder, rows: g.last().rows.push(r) })
        } else {
            g.push(FolderView { folder: r.folder, rows: seq![r] })
        }
    }
}

/// The folders of a search response: its files sorted by name, split into
/// folder and file name, grouped by runs of the same folder.
pub open spec fn spec_group_results(files: Seq<FileModel>) -> Seq<FolderView> {
    group_rows(
        sort_entries(files.map_values(|f: FileModel| (f.filename, f.file_size))).map_values(
            |e: Entry| row_of(e),
        ),
    )
}

/// Groups the files of a search response for the results table.
pub fn group_results(files: &Vec<File>) -> (r: Vec<ResultFolder>)
    ensures
        r.deep_view() == spec_group_results(files.deep_view()),
{
    let sorted = sorted_entries(files);
    let ghost rows = sorted.deep_view().map_values(|e: Entry| row_of(e));
    let mut r: Vec<ResultFolder> = Vec::new();
    let n = sorted.len();
    let mut i: usize = 0;
    while i < n
        invariant
            n == sorted@.len(),
            i <= n,
            rows == sorted.deep_view().map_values(|e: Entry| row_of(e)),
            r.deep_view() == group_rows(rows.take(i as int)),
        decreases n - i,
    {
        proof {
            lemma_chars_deep_view(sorted@[i as int].0);
        }
        let row = row_of_exec(&sorted[i]);
        assert(rows[i as int] == row.deep_view());
        assert(rows.take(i + 1).drop_last() =~= rows.take(i as int));
        let ghost before = r.deep_view();
        let k = r.len();
        if k > 0 && r[k - 1].folder == row.folder {
            let ghost last_rows = r@[k - 1].rows.deep_view();
            let ghost rv = row.deep_view();
            r[k - 1].rows.push(row);
            assert(r@[k - 1 as int].rows.deep_view() =~= last_rows.push(rv));
            assert(r.deep_view() =~= before.update(
                k - 1,
                FolderView { folder: rv.folder, rows: last_rows.push(rv) },
            ));
        } else {
            let folder = row.folder.clone();
            let mut rows_of_folder: Vec<ResultRow> = Vec::new();
            let ghost rv = row.deep_view();
            rows_of_folder.push(row);
            assert(rows_of_folder.deep_view() =~= seq![rv]);
            r.push(ResultFolder { folder, rows: rows_of_folder });
            assert(r.deep_view() =~= before.push(FolderView { folder: rv.folder, rows: seq![rv] }));
        }
        i = i + 1;
    }
    assert(rows.take(n as int) =~= rows);
    r
}

// ---------------------------------------------------------------------------
// The rows of a response
// ---------------------------------------------------------------------------

/// Whether a cell holds the text.
pub open spec fn is_text_cell(c: ColumnData, t: Seq<char>) -> bool {
    c matches ColumnData::String(s) && s@ == t
}

/// The first three cells of every row of a response: the user, the
/// average speed as a size, and the queue length.
pub open spec fn has_user_cells(content: Seq<ColumnData>, user: Seq<char>, speed: u32, queue: u32) -> bool {
    &&& content.len() >= 3
    &&& is_text_cell(content[0], user)
    &&& content[1] == ColumnData::ByteSize(ByteSize(speed as u64))
    &&& content[2] == ColumnData::Usize(queue as usize)
}

/// A file's row: the user's cells, no folder, the file name, its size, and
/// its folder; open, with nothing below it.
pub open spec fn is_file_row(v: ItemView, user: Seq<char>, speed: u32, queue: u32, row: RowView) -> bool {
    &&& v.content.len() == 7
    &&& has_user_cells(v.content, user, speed, queue)
    &&& v.content[3] is Empty
    &&& is_text_cell(v.content[4], row.filename)
    &&& v.content[5] == ColumnData::ByteSize(ByteSize(row.file_size))
    &&& is_text_cell(v.content[6], row.folder)
    &&& v.children.len() == 0
    &&& v.is_open
}

/// A folder's row: the user's cells and the folder; open, with a row for
/// each of its files.
pub open spec fn is_folder_row(v: ItemView, user: Seq<char>, speed: u32, queue: u32, f: FolderView) -> bool {
    &&& v.content.len() == 4
    &&& has_user_cells(v.content, user, speed, queue)
    &&& is_text_cell(v.content[3], f.folder)
    &&& v.children.len() == f.rows.len()
    &&& forall|k: int|
        0 <= k < f.rows.len() ==> is_file_row(#[trigger] v.children[k], user, speed, queue, f.rows[k])
    &&& v.is_open
}

/// The user's row of a response: the user's cells; open, with a row for
/// each folder.
pub open spec fn is_response_row(v: ItemView, user: Seq<char>, speed: u32, queue: u32, folders: Seq<FolderView>) -> bool {
    &&& v.content.len() == 3
    &&& has_user_cells(v.content, user, speed, queue)
    &&& v.children.len() == folders.len()
    &&& forall|k: int|
        0 <= k < folders.len() ==> is_folder_row(#[trigger] v.children[k], user, speed, queue, folders[k])
    &&& v.is_open
}

fn user_cells(user: &String, speed: u32, queue: u32) -> (r: Vec<ColumnData>)
    ensures
        r@.len() == 3,
        has_user_cells(r@, user@, speed, queue),
{
    vec![
        ColumnData::String(user.clone()),
        ColumnData::ByteSize(ByteSize(speed as u64)),
        ColumnData::Usize(queue as usize),
    ]
}

fn file_item(user: &String, speed: u32, queue: u32, row: ResultRow) -> (r: TableItem)
    ensures
        is_file_row(r.item_view(), user@, speed, queue, row.deep_view()),
{
    let mut content = user_cells(user, speed, queue);
    content.push(ColumnData::Empty);
    content.push(ColumnData::String(row.filename));
    content.push(ColumnData::ByteSize(ByteSize(row.file_size)));
    content.push(ColumnData::String(row.folder));
    let r = TableItem::new(content, Vec::new()).opened();
    assert(r.item_view().children =~= Seq::<ItemView>::empty());
    r
}

fn folder_item(user: &String, speed: u32, queue: u32, folder: ResultFolder) -> (r: TableItem)
    ensures
        is_folder_row(r.item_view(), user@, speed, queue, folder.deep_view()),
{
    let ghost fv = folder.deep_view();
    let ResultFolder { folder: name, rows } = folder;
    let mut content = user_cells(user, speed, queue);
    content.push(ColumnData::String(name));
    let mut children: Vec<TableItem> = Vec::new();
    let mut rest = rows;
    let n = rest.len();
    let mut k: usize = 0;
    assert(fv.rows.skip(0) =~= fv.rows);
    while k < n
        invariant
            n == fv.rows.len(),
            k <= n,
            rest.deep_view() == fv.rows.skip(k as int),
            children@.len() == k,
            forall|m: int|
                0 <= m < k ==> is_file_row(
                    #[trigger] children@[m].item_view(),
                    user@,
                    speed,
                    queue,
                    fv.rows[m],
                ),
        decreases n - k,
    {
        assert(rest@.len() > 0) by {
            assert(rest.deep_view().len() == n - k);
        }
        let ghost before = rest.deep_view();
        let row = rest.remove(0);
        assert(row.deep_view() == fv.rows[k as int]) by {
            assert(before[0] == fv.rows[k as int]);
        }
        assert(rest.deep_view() =~= fv.rows.skip(k + 1)) by {
            assert(rest.deep_view() =~= before.drop_first());
        }
        let item = file_item(user, speed, queue, row);
        children.push(item);
        k = k + 1;
    }
    let r = TableItem::new(content, children).opened();
    proof {
        crate::gui::widgets::table::lemma_children_view(r);
        assert forall|m: int| 0 <= m < fv.rows.len() implies is_file_row(
            #[trigger] r.item_view().children[m],
            user@,
            speed,
            queue,
            fv.rows[m],
        ) by {
            assert(r.item_view().children[m] == r.children@[m].item_view());
        }
    }
    r
}

/// The rows of a search response for the results table: the user's row,
/// with a row for each folder and, below it, one for each of its files; or
/// none when the response has no files.
pub fn response_item(user: &String, speed: u32, queue: u32, folders: Vec<ResultFolder>) -> (r: Option<TableItem>)
    ensures
        folders@.len() == 0 ==> r is None,
        folders@.len() > 0 ==> (r matches Some(item) && is_response_row(
            item.item_view(),
            user@,
            speed,
            queue,
            folders.deep_view(),
        )),
{
    if folders.len() == 0 {
        return None;
    }
    let ghost fvs = folders.deep_view();
    let mut children: Vec<TableItem> = Vec::new();
    let mut rest = folders;
    let n = rest.len();
    let mut k: usize = 0;
    assert(fvs.skip(0) =~= fvs);
    while k < n
        invariant
            n == fvs.len(),
            k <= n,
            rest.deep_view() == fvs.skip(k as int),
            children@.len() == k,
            forall|m: int|
                0 <= m < k ==> is_folder_row(
                    #[trigger] children@[m].item_view(),
                    user@,
                    speed,
                    queue,
                    fvs[m],
                ),
        decreases n - k,
    {
        assert(rest@.len() > 0) by {
            assert(rest.deep_view().len() == n - k);
        }
        let ghost before = rest.deep_view();
        let folder = rest.remove(0);
        assert(folder.deep_view() == fvs[k as int]) by {
            assert(before[0] == fvs[k as int]);
        }
        assert(rest.deep_view() =~= fvs.skip(k + 1)) by {
            assert(rest.deep_view() =~= before.drop_first());
        }
        let item = folder_item(user, speed, queue, folder);
        children.push(item);
        k = k + 1;
    }
    let r = TableItem::new(user_cells(user, speed, queue), children).opened();
    proof {
        crate::gui::widgets::table::lemma_children_view(r);
        assert forall|m: int| 0 <= m < fvs.len() implies is_folder_row(
            #[trigger] r.item_view().children[m],
            user@,
            speed,
            queue,
            fvs[m],
        ) by {
            assert(r.item_view().children[m] == r.children@[m].item_view());
        }
    }
    Some(r)
}

/// The empty results table: columns User, Speed, Queue, Folder, Filename
/// and Size, the filter looking at the folder and file name.
pub fn default_results_table() -> (r: TableWidget)
    ensures
        r.rows_view().len() == 0,
        r.headers@.len() == 7,
        r.filter_range == Some((3usize, 5usize)),
        r.length == 0,
        r.selected_row == 0,
        r.sort is None,
        r.filter is None,
{
    let headers = vec![
        String::from_str("User"),
        String::from_str("Speed"),
        String::from_str("Queue"),
        String::from_str("Folder"),
        String::from_str("Filename"),
        String::from_str("Size"),
    ];
    let r = TableWidget::new(headers, Vec::new(), Some((3, 5)));
    assert(items_view(r.items@) =~= Seq::<ItemView>::empty());
    r
}

/// The title of the results table: the number of results, or the most
/// shown followed by `+` when there are more.
pub open spec fn results_title_of(total: u32) -> Seq<char> {
    if total <= MAX_RESULTS {
        decimal(total as nat) + " results"@
    } else {
        decimal(MAX_RESULTS as nat) + "+ results"@
    }
}

pub fn results_title(total: u32) -> (r: String)
    ensures
        r@ == results_title_of(total),
{
    if total <= MAX_RESULTS {
        let mut r = decimal_string(total as u64);
        push_str(&mut r, " results");
        r
    } else {
        let mut r = decimal_string(MAX_RESULTS as u64);
        push_str(&mut r, "+ results");
        r
    }
}

// ---------------------------------------------------------------------------
// Downloading a chosen row
// ---------------------------------------------------------------------------

/// The question asked about a chosen row, and what the row stands for:
/// `None` for a user's row (every file of the user), `Some(true)` for a
/// folder's row, `Some(false)` for a file's row.
pub open spec fn download_question_of(v: ItemView) -> (Seq<char>, Option<bool>) {
    let user = cell_text(v.content[0]);
    if v.content.len() < 4 {
        ("Download all files from "@ + user + "?"@, None)
    } else if v.content.len() > 4 {
        ("Download "@ + cell_text(v.content[4]) + " from "@ + user + "?"@, Some(false))
    } else {
        ("Download "@ + cell_text(v.content[3]) + " from "@ + user + "?"@, Some(true))
    }
}

/// The question to ask before downloading what a row of the results
/// stands for (see `download_question_of`).
pub fn download_question(item: &TableItem) -> (r: (String, Option<bool>))
    requires
        item.content@.len() > 0,
    ensures
        r.0@ == download_question_of(item.item_view()).0,
        r.1 == download_question_of(item.item_view()).1,
{
    let user = item.content[0].to_string();
    let mut q = String::new();
    if item.content.len() < 4 {
        push_str(&mut q, "Download all files from ");
        push_str(&mut q, user.as_str());
        push_str(&mut q, "?");
        (q, None)
    } else {
        let kind = item.content.len() == 4;
        let what = if kind {
            item.content[3].to_string()
        } else {
            item.content[4].to_string()
        };
        push_str(&mut q, "Download ");
        push_str(&mut q, what.as_str());
        push_str(&mut q, " from ");
        push_str(&mut q, user.as_str());
        push_str(&mut q, "?");
        (q, Some(kind))
    }
}

/// A folder's row has its folder's cell, and each file below it its name
/// and size.
pub open spec fn folder_row_ok(v: ItemView) -> bool {
    &&& v.content.len() > 3
    &&& forall|k: int|
        0 <= k < v.children.len() ==> (#[trigger] v.children[k]).content.len() > 5
            && v.children[k].content[5] is ByteSize
}

/// A folder to download: its name, and its files' names and sizes.
pub open spec fn folder_request(v: ItemView) -> (Seq<char>, Seq<(Seq<char>, u64)>) {
    (
        cell_text(v.content[3]),
        Seq::new(
            v.children.len(),
            |k: int| (cell_text(v.children[k].content[4]), v.children[k].content[5]->ByteSize_0.0),
        ),
    )
}

/// What to download for a chosen row.
#[derive(Debug)]
pub enum DownloadRequest {
    /// The folders, each with its files' names and sizes.
    Folders(Vec<(String, Vec<(String, ByteSize)>)>),
    /// One file, with its folder.
    File { folder: String, filename: String, filesize: ByteSize },
}

/// What a row's download asks for: every folder below a user's row, the
/// folder of a folder's row, or the file of a file's row.
pub open spec fn download_rows(v: ItemView, kind: Option<bool>) -> Seq<ItemView> {
    match kind {
        None => v.children,
        Some(true) => seq![v],
        Some(false) => Seq::empty(),
    }
}

fn request_of_folder(item: &TableItem) -> (r: (String, Vec<(String, ByteSize)>))
    requires
        folder_row_ok(item.item_view()),
    ensures
        r.0@ == folder_request(item.item_view()).0,
        r.1@.len() == folder_request(item.item_view()).1.len(),
        forall|k: int|
            0 <= k < r.1@.len() ==> (#[trigger] r.1@[k]).0@ == folder_request(item.item_view()).1[k].0
                && r.1@[k].1.0 == folder_request(item.item_view()).1[k].1,
{
    let ghost v = item.item_view();
    proof {
        crate::gui::widgets::table::lemma_children_view(*item);
    }
    let folder = item.content[3].to_string();
    let mut files: Vec<(String, ByteSize)> = Vec::new();
    let n = item.children.len();
    let mut k: usize = 0;
    while k < n
        invariant
            n == item.children@.len(),
            v == item.item_view(),
            v.children == items_view(item.children@),
            folder_row_ok(v),
            k <= n,
            files@.len() == k,
            forall|m: int|
                0 <= m < k ==> (#[trigger] files@[m]).0@ == folder_request(v).1[m].0 && files@[m].1.0
                    == folder_request(v).1[m].1,
        decreases n - k,
    {
        let c = &item.children[k];
        assert(v.children[k as int] == c.item_view());
        let name = c.content[4].to_string();
        let size = match &c.content[5] {
            ColumnData::ByteSize(b) => *b,
            _ => ByteSize(0),
        };
        files.push((name, size));
        k = k + 1;
    }
    (folder, files)
}

/// What to download for a row of the results (see `download_rows`): the
/// folders, each with its files, or one file with its folder.
pub fn download_request(item: &TableItem, kind: Option<bool>) -> (r: DownloadRequest)
    requires
        kind is Some && kind->0 == false ==> item.content@.len() > 6 && item.content@[5] is ByteSize,
        forall|k: int|
            0 <= k < download_rows(item.item_view(), kind).len() ==> folder_row_ok(
                #[trigger] download_rows(item.item_view(), kind)[k],
            ),
    ensures
        match kind {
            Some(false) => r matches DownloadRequest::File { folder, filename, filesize } && folder@
                == cell_text(item.content@[6]) && filename@ == cell_text(item.content@[4])
                && filesize == item.content@[5]->ByteSize_0,
            _ => r matches DownloadRequest::Folders(folders) && folders@.len() == download_rows(
                item.item_view(),
                kind,
            ).len() && forall|k: int|
                0 <= k < folders@.len() ==> {
                    let want = folder_request(download_rows(item.item_view(), kind)[k]);
                    &&& (#[trigger] folders@[k]).0@ == want.0
                    &&& folders@[k].1@.len() == want.1.len()
                    &&& forall|m: int|
                        0 <= m < want.1.len() ==> (#[trigger] folders@[k].1@[m]).0@ == want.1[m].0
                            && folders@[k].1@[m].1.0 == want.1[m].1
                },
        },
{
    proof {
        crate::gui::widgets::table::lemma_children_view(*item);
    }
    match kind {
        Some(false) => {
            let folder = item.content[6].to_string();
            let filename = item.content[4].to_string();
            let filesize = match &item.content[5] {
                ColumnData::ByteSize(b) => *b,
                _ => ByteSize(0),
            };
            DownloadRequest::File { folder, filename, filesize }
        },
        Some(true) => {
            assert(download_rows(item.item_view(), kind)[0] == item.item_view());
            let one = request_of_folder(item);
            let mut folders: Vec<(String, Vec<(String, ByteSize)>)> = Vec::new();
            folders.push(one);
            assert(folders@[0] == one);
            DownloadRequest::Folders(folders)
        },
        None => {
            let ghost v = item.item_view();
            assert(download_rows(v, kind) == v.children);
            assert forall|j: int| 0 <= j < v.children.len() implies folder_row_ok(
                #[trigger] v.children[j],
            ) by {
                assert(folder_row_ok(download_rows(v, kind)[j]));
            }
            let mut folders: Vec<(String, Vec<(String, ByteSize)>)> = Vec::new();
            let n = item.children.len();
            let mut k: usize = 0;
            while k < n
                invariant
                    n == item.children@.len(),
                    v == item.item_view(),
                    v.children == items_view(item.children@),
                    kind is None,
                    download_rows(v, kind) == v.children,
                    forall|j: int| 0 <= j < v.children.len() ==> folder_row_ok(#[trigger] v.children[j]),
                    k <= n,
                    folders@.len() == k,
                    forall|j: int|
                        0 <= j < k ==> {
                            let want = folder_request(v.children[j]);
                            &&& (#[trigger] folders@[j]).0@ == want.0
                            &&& folders@[j].1@.len() == want.1.len()
                            &&& forall|m: int|
                                0 <= m < want.1.len() ==> (#[trigger] folders@[j].1@[m]).0@
                                    == want.1[m].0 && folders@[j].1@[m].1.0 == want.1[m].1
                        },
                decreases n - k,
            {
                assert(v.children[k as int] == item.children@[k as int].item_view());
                assert(folder_row_ok(v.children[k as int]));
                let one = request_of_folder(&item.children[k]);
                folders.push(one);
                k = k + 1;
            }
            DownloadRequest::Folders(folders)
        },
    }
}

// ---------------------------------------------------------------------------
// The window
// ---------------------------------------------------------------------------

/// The number of files in the folders.
pub open spec fn rows_in(folders: Seq<FolderView>) -> nat
    decreases folders.len(),
{
    if folders.len() == 0 {
        0
    } else {
        folders[0].rows.len() + rows_in(folders.drop_first())
    }
}

proof fn lemma_folder_rows_count(
    s: Seq<ItemView>,
    user: Seq<char>,
    speed: u32,
    queue: u32,
    folders: Seq<FolderView>,
    f: Option<Seq<char>>,
)
    requires
        s.len() == folders.len(),
        forall|k: int| 0 <= k < s.len() ==> is_folder_row(#[trigger] s[k], user, speed, queue, folders[k]),
    ensures
        children_length(s, f) == folders.len() + rows_in(folders),
    decreases s.len(),
{
    if s.len() > 0 {
        let t = s.drop_first();
        let g = folders.drop_first();
        assert forall|k: int| 0 <= k < t.len() implies is_folder_row(#[trigger] t[k], user, speed, queue, g[k]) by {
            assert(t[k] == s[k + 1] && g[k] == folders[k + 1]);
        }
        lemma_folder_rows_count(t, user, speed, queue, g, f);
        let c = s[0];
        assert(is_folder_row(c, user, speed, queue, folders[0]));
        assert forall|k: int| 0 <= k < c.children.len() implies (#[trigger] c.children[k]).is_open
            && c.children[k].children.len() == 0 by {
            assert(is_file_row(c.children[k], user, speed, queue, folders[0].rows[k]));
        }
        crate::gui::widgets::table::lemma_open_leaves_count(c.children, f);
        assert(item_length(c, f) == 1 + folders[0].rows.len());
    }
}

/// The rows that a search response's row counts for itself and below it:
/// itself, its folders and their files.
pub proof fn lemma_response_length(
    v: ItemView,
    user: Seq<char>,
    speed: u32,
    queue: u32,
    folders: Seq<FolderView>,
    f: Option<Seq<char>>,
)
    requires
        is_response_row(v, user, speed, queue, folders),
    ensures
        item_length(v, f) == 1 + folders.len() + rows_in(folders),
{
    lemma_folder_rows_count(v.children, user, speed, queue, folders, f);
}

/// The token of the first entry for a query.
pub open spec fn token_for(map: Seq<(String, u32)>, query: Seq<char>) -> Option<u32>
    decreases map.len(),
{
    if map.len() == 0 {
        None
    } else if map[0].0@ == query {
        Some(map[0].1)
    } else {
        token_for(map.drop_first(), query)
    }
}

/// The file search window: its title, the widget in focus, the tabs of the
/// searches by query, the query being typed, each search's token by its
/// query, and each search's number of results and table by its token.
#[derive(Debug)]
pub struct FileSearchWindow {
    pub title: String,
    pub focus_index: u8,
    pub search_tabs: Tabs,
    pub search_bar: Input,
    pub token_query_map: Vec<(String, u32)>,
    pub results: HashMap<u32, (u32, TableWidget)>,
}

/// How a search starts.
#[derive(Debug, PartialEq, Eq)]
pub enum SearchStart {
    /// The query has a tab already: nothing is searched.
    AlreadyOpen,
    /// The token is another search's: try another.
    TokenTaken,
    /// The search of this query starts, with a tab and an empty table.
    Started(String),
}

proof fn lemma_token_for_front(map: Seq<(String, u32)>, e: (String, u32), q: Seq<char>)
    ensures
        token_for(seq![e] + map, q) == (if e.0@ == q {
            Some(e.1)
        } else {
            token_for(map, q)
        }),
{
    assert((seq![e] + map).drop_first() =~= map);
}

proof fn lemma_token_for_remove(map: Seq<(String, u32)>, i: int, q: Seq<char>)
    requires
        0 <= i < map.len(),
        forall|k: int| 0 <= k < i ==> map[k].0@ != map[i].0@,
    ensures
        token_for(map.remove(i), q) == (if map[i].0@ == q {
            token_for(map.skip(i + 1), q)
        } else {
            token_for(map, q)
        }),
    decreases i,
{
    if i == 0 {
        assert(map.remove(0) =~= map.drop_first());
        assert(map.skip(1) =~= map.drop_first());
    } else {
        let t = map.drop_first();
        assert forall|k: int| 0 <= k < i - 1 implies (#[trigger] t[k]).0@ != t[i - 1].0@ by {
            assert(t[k] == map[k + 1]);
        }
        lemma_token_for_remove(t, i - 1, q);
        assert(map.remove(i).drop_first() =~= t.remove(i - 1));
        assert(map.remove(i)[0] == map[0]);
        assert(t.skip(i) =~= map.skip(i + 1));
    }
}

fn find_query(map: &Vec<(String, u32)>, query: &String) -> (r: Option<usize>)
    ensures
        match r {
            Some(i) => i < map@.len() && map@[i as int].0@ == query@ && forall|k: int|
                0 <= k < i ==> map@[k].0@ != query@,
            None => token_for(map@, query@) is None,
        },
        token_for(map@, query@) == match r {
            Some(i) => Some(map@[i as int].1),
            None => None::<u32>,
        },
{
    let n = map.len();
    let mut i: usize = 0;
    assert(map@.skip(0) =~= map@);
    while i < n
        invariant
            n == map@.len(),
            i <= n,
            forall|k: int| 0 <= k < i ==> map@[k].0@ != query@,
            token_for(map@, query@) == token_for(map@.skip(i as int), query@),
        decreases n - i,
    {
        assert(map@.skip(i as int)[0] == map@[i as int]);
        if map[i].0 == *query {
            return Some(i);
        }
        assert(map@.skip(i as int).drop_first() =~= map@.skip(i + 1));
        i = i + 1;
    }
    None
}

/// What starting a search under `token` does to the window `before`,
/// giving `after` and `r`: nothing when the query typed has a tab already
/// or the token is another search's; otherwise the query gets a tab and
/// the token, with an empty table and no results.
pub open spec fn starts_search(before: FileSearchWindow, after: FileSearchWindow, token: u32, r: SearchStart) -> bool {
    if before.search_tabs.titles().contains(before.search_bar.input_string@) {
        r == SearchStart::AlreadyOpen && after == before
    } else if before.results@.contains_key(token) {
        r == SearchStart::TokenTaken && after == before
    } else {
        &&& r == SearchStart::Started(before.search_bar.input_string)
        &&& token_for(after.token_query_map@, before.search_bar.input_string@) == Some(token)
        &&& after.search_tabs.titles() == before.search_tabs.titles().push(
            before.search_bar.input_string@,
        )
        &&& after.results@.dom() == before.results@.dom().insert(token)
        &&& after.results@[token].0 == 0
        &&& after.results@[token].1.rows_view().len() == 0
    }
}

/// Calls `rand::random` for a `u32`: any value may come back, and two
/// calls may give different ones.
#[verifier::external_body]
fn random_token() -> (r: u32) {
    rand::random::<u32>()
}

/// Whether the results of a search fit the counts of the window `w`
/// (see `FileSearchWindow::add_results`).
pub open spec fn results_fit(w: FileSearchWindow, response: FileSearchResponse) -> bool {
    w.results@.contains_key(response.token) ==> {
        let folders = spec_group_results(response.files.deep_view());
        &&& w.results@[response.token].0 + response.files@.len() <= u32::MAX
        &&& w.results@[response.token].1.length + 1 + folders.len() + rows_in(folders) <= usize::MAX
    }
}

/// What adding the results of a search does to the window `w0`, giving
/// `w1` (see `FileSearchWindow::add_results`).
pub open spec fn results_added(w0: FileSearchWindow, w1: FileSearchWindow, response: FileSearchResponse) -> bool {
    &&& !w0.results@.contains_key(response.token) ==> w1.results@ == w0.results@
    &&& w0.results@.contains_key(response.token) ==> {
        let folders = spec_group_results(response.files.deep_view());
        let before = w0.results@[response.token];
        let after = w1.results@[response.token];
        &&& w1.results@.dom() == w0.results@.dom()
        &&& forall|t: u32|
            t != response.token && w0.results@.contains_key(t) ==> w1.results@[t] == w0.results@[t]
        &&& after.0 == before.0 + response.files@.len()
        &&& folders.len() == 0 ==> after.1 == before.1
        &&& folders.len() > 0 ==> {
            &&& after.1.items@.len() == before.1.items@.len() + 1
            &&& after.1.items@.take(before.1.items@.len() as int) == before.1.items@
            &&& is_response_row(
                after.1.items@.last().item_view(),
                response.username@,
                response.avg_speed,
                response.queue_length,
                folders,
            )
            &&& after.1.length == before.1.length + 1 + folders.len() + rows_in(folders)
            &&& after.1.filter == before.1.filter
            &&& after.1.headers == before.1.headers
        }
    }
    &&& w1.search_tabs == w0.search_tabs
    &&& w1.token_query_map == w0.token_query_map
    &&& w1.title == w0.title
    &&& w1.focus_index == w0.focus_index
    &&& w1.search_bar == w0.search_bar
}

impl FileSearchWindow {
    /// A window titled " File Search " with no search, nothing typed, and
    /// the search bar in focus.
    pub fn new() -> (r: Self)
        ensures
            r.title@ == " File Search "@,
            r.focus_index == 0,
            r.search_tabs.tabs@.len() == 0,
            r.search_bar.value@.len() == 0,
            r.search_bar.cursor == 0,
            r.search_bar.input_string@.len() == 0,
            r.search_bar.input_type == InputType::Standard,
            r.token_query_map@.len() == 0,
            r.results@ == Map::<u32, (u32, TableWidget)>::empty(),
    {
        FileSearchWindow {
            title: String::from_str(" File Search "),
            focus_index: 0,
            search_tabs: Tabs::new(Vec::new()),
            search_bar: Input::default(),
            token_query_map: Vec::new(),
            results: HashMap::new(),
        }
    }

    /// The token of a search, by its query.
    pub fn token_of(&self, query: &String) -> (r: Option<u32>)
        ensures
            r == token_for(self.token_query_map@, query@),
    {
        match find_query(&self.token_query_map, query) {
            Some(i) => Some(self.token_query_map[i].1),
            None => None,
        }
    }

    /// Starts a search of the query typed, under the given token: nothing
    /// when the query has a tab already or the token is another search's;
    /// otherwise the search opens (see `new_table`).
    pub fn start_search(&mut self, token: u32) -> (r: SearchStart)
        ensures
            starts_search(*old(self), *final(self), token, r),
    {
        broadcast use vstd::std_specs::hash::group_hash_axioms;

        let query = self.search_bar.input_string.clone();
        if self.search_tabs.has_tab(&query) {
            return SearchStart::AlreadyOpen;
        }
        if self.results.contains_key(&token) {
            return SearchStart::TokenTaken;
        }
        self.new_table(token, query.clone());
        SearchStart::Started(query)
    }

    /// Starts a search of the query typed (see `start_search`) under a token
    /// drawn at random and not yet another search's, and gives what came of
    /// it with the token. Tokens are drawn up to nine times; when each was
    /// taken, the least token not taken is used. A search so always starts
    /// when the query has no tab yet and some token is free.
    pub fn start_search_at_random(&mut self) -> (r: (SearchStart, u32))
        ensures
            starts_search(*old(self), *final(self), r.1, r.0),
            !old(self).search_tabs.titles().contains(old(self).search_bar.input_string@) && (exists|t: u32|
                !old(self).results@.contains_key(t)) ==> r.0 is Started && !old(self).results@.contains_key(r.1),
    {
        broadcast use vstd::std_specs::hash::group_hash_axioms;

        let mut token = random_token();
        let mut tries: u32 = 0;
        while tries < 8 && self.results.contains_key(&token)
            decreases 8 - tries,
        {
            token = random_token();
            tries = tries + 1;
        }
        if self.results.contains_key(&token) {
            let mut least: u32 = 0;
            while least < u32::MAX && self.results.contains_key(&least)
                invariant
                    forall|s: u32| s < least ==> self.results@.contains_key(s),
                decreases u32::MAX - least,
            {
                least = least + 1;
            }
            proof {
                if self.results@.contains_key(least) {
                    assert forall|t: u32| self.results@.contains_key(t) by {
                        if t < least {
                        } else {
                            assert(t == least);
                        }
                    }
                }
            }
            token = least;
        }
        let started = self.start_search(token);
        (started, token)
    }

    /// The number of results and the table of the search shown, if any.
    pub fn current_table(&self) -> (r: Option<(u32, &TableWidget)>)
        requires
            self.search_tabs.tabs@.len() > 0 ==> self.search_tabs.current < self.search_tabs.tabs@.len()
                && token_for(
                self.token_query_map@,
                self.search_tabs.tabs@[self.search_tabs.current as int]@,
            ) is Some,
        ensures
            self.search_tabs.tabs@.len() == 0 ==> r is None,
            self.search_tabs.tabs@.len() > 0 ==> {
                let token = token_for(
                    self.token_query_map@,
                    self.search_tabs.tabs@[self.search_tabs.current as int]@,
                )->0;
                if self.results@.contains_key(token) {
                    r matches Some((total, table)) && total == self.results@[token].0 && *table
                        == self.results@[token].1
                } else {
                    r is None
                }
            },
    {
        broadcast use vstd::std_specs::hash::group_hash_axioms;

        match self.search_tabs.current_tab() {
            Some(tab) => {
                let token = match self.token_of(tab) {
                    Some(t) => t,
                    None => 0,
                };
                match self.results.get(&token) {
                    Some(entry) => Some((entry.0, &entry.1)),
                    None => None,
                }
            },
            None => None,
        }
    }

    /// Takes a response to a search that is open: its files count as
    /// results, and the user's row, with the folders and files, is added to
    /// the search's table when there are any. A response to no open search
    /// changes nothing.
    pub fn add_results(&mut self, response: FileSearchResponse)
        requires
            results_fit(*old(self), response),
        ensures
            results_added(*old(self), *final(self), response),
    {
        broadcast use vstd::std_specs::hash::group_hash_axioms;

        let token = response.token;
        if !self.results.contains_key(&token) {
            return;
        }
        let folders = group_results(&response.files);
        let ghost fv = folders.deep_view();
        let count = response.files.len();
        let entry = self.results.remove(&token);
        match entry {
            Some((total, table)) => {
                let mut table = table;
                let new_total = total + count as u32;
                match response_item(&response.username, response.avg_speed, response.queue_length, folders) {
                    Some(item) => {
                        proof {
                            lemma_response_length(
                                item.item_view(),
                                response.username@,
                                response.avg_speed,
                                response.queue_length,
                                fv,
                                opt_text(table.filter),
                            );
                        }
                        let ghost before_items = table.items@;
                        table.insert_item(item);
                        assert(table.items@.take(before_items.len() as int) =~= before_items);
                    },
                    None => {},
                }
                self.results.insert(token, (new_total, table));
                assert(self.results@.dom() =~= old(self).results@.dom());
            },
            None => {},
        }
    }

    /// Opens a search: the query's token is the given one, the query gets a
    /// tab, and the token an empty results table with no results counted.
    pub fn new_table(&mut self, token: u32, query: String)
        ensures
            forall|q: Seq<char>|
                token_for(final(self).token_query_map@, q) == (if q == query@ {
                    Some(token)
                } else {
                    token_for(old(self).token_query_map@, q)
                }),
            final(self).search_tabs.titles() == old(self).search_tabs.titles().push(query@),
            final(self).search_tabs.current == old(self).search_tabs.current,
            final(self).search_tabs.selected == old(self).search_tabs.selected,
            final(self).results@.dom() == old(self).results@.dom().insert(token),
            final(self).results@[token].0 == 0,
            final(self).results@[token].1.rows_view().len() == 0,
            final(self).results@[token].1.length == 0,
            final(self).results@[token].1.filter_range == Some((3usize, 5usize)),
            forall|t: u32| t != token && old(self).results@.contains_key(t) ==> final(self).results@[t]
                == old(self).results@[t],
            final(self).search_bar == old(self).search_bar,
    {
        broadcast use vstd::std_specs::hash::group_hash_axioms;

        let ghost old_map = self.token_query_map@;
        match find_query(&self.token_query_map, &query) {
            Some(i) => {
                let ghost before = self.token_query_map@;
                self.token_query_map.remove(i);
                assert(self.token_query_map@ == before.remove(i as int));
                assert forall|q: Seq<char>| q != query@ implies token_for(self.token_query_map@, q)
                    == token_for(old_map, q) by {
                    lemma_token_for_remove(old_map, i as int, q);
                }
            },
            None => {},
        }
        let ghost mid = self.token_query_map@;
        assert(forall|q: Seq<char>| q != query@ ==> token_for(mid, q) == token_for(old_map, q));
        self.token_query_map.insert(0, (query.clone(), token));
        proof {
            assert(self.token_query_map@ =~= seq![(query, token)] + mid);
            assert forall|q: Seq<char>| token_for(self.token_query_map@, q) == (if q == query@ {
                Some(token)
            } else {
                token_for(old_map, q)
            }) by {
                lemma_token_for_front(mid, (query, token), q);
            }
        }
        self.search_tabs.add_tab(query);
        self.results.insert(token, (0, default_results_table()));
    }
}

// ---------------------------------------------------------------------------
// What sorting and grouping keep
// ---------------------------------------------------------------------------

/// Of two texts, at most one comes before the other.
pub proof fn lemma_lex_asym(a: Seq<char>, b: Seq<char>)
    requires
        lex_lt(a, b),
    ensures
        !lex_lt(b, a),
    decreases a.len(),
{
    if a.len() > 0 && b.len() > 0 && a[0] == b[0] {
        lemma_lex_asym(a.drop_first(), b.drop_first());
    }
}

/// A text before a text before a third comes before the third.
pub proof fn lemma_lex_trans(a: Seq<char>, b: Seq<char>, c: Seq<char>)
    requires
        lex_lt(a, b),
        lex_lt(b, c),
    ensures
        lex_lt(a, c),
    decreases a.len(),
{
    if a.len() > 0 && a[0] == b[0] && b[0] == c[0] {
        lemma_lex_trans(a.drop_first(), b.drop_first(), c.drop_first());
    }
}

/// Whether the entries are in order: no entry's name comes before that of
/// an entry ahead of it.
pub open spec fn is_sorted(s: Seq<Entry>) -> bool {
    forall|i: int, j: int| 0 <= i < j < s.len() ==> !lex_lt(#[trigger] s[j].0, #[trigger] s[i].0)
}

proof fn lemma_insert_bounded(s: Seq<Entry>, x: Entry, b: Seq<char>)
    requires
        forall|k: int| 0 <= k < s.len() ==> !lex_lt(#[trigger] s[k].0, b),
        !lex_lt(x.0, b),
    ensures
        forall|k: int|
            0 <= k < insert_sorted(s, x).len() ==> !lex_lt(#[trigger] insert_sorted(s, x)[k].0, b),
        insert_sorted(s, x).len() == s.len() + 1,
    decreases s.len(),
{
    if s.len() > 0 && !lex_lt(x.0, s[0].0) {
        let t = s.drop_first();
        assert forall|k: int| 0 <= k < t.len() implies !lex_lt(#[trigger] t[k].0, b) by {
            assert(t[k] == s[k + 1]);
        }
        lemma_insert_bounded(t, x, b);
        let u = insert_sorted(t, x);
        assert forall|k: int| 0 <= k < insert_sorted(s, x).len() implies !lex_lt(
            #[trigger] insert_sorted(s, x)[k].0,
            b,
        ) by {
            if k > 0 {
                assert(insert_sorted(s, x)[k] == u[k - 1]);
            }
        }
    }
}

proof fn lemma_insert_sorted(s: Seq<Entry>, x: Entry)
    requires
        is_sorted(s),
    ensures
        is_sorted(insert_sorted(s, x)),
        insert_sorted(s, x).to_multiset() == s.to_multiset().insert(x),
    decreases s.len(),
{
    broadcast use vstd::seq_lib::group_to_multiset_ensures, vstd::seq_lib::lemma_multiset_commutative;

    if s.len() == 0 {
        assert(seq![x] =~= Seq::<Entry>::empty().push(x));
    } else if lex_lt(x.0, s[0].0) {
        let u = seq![x] + s;
        assert forall|i: int, j: int| 0 <= i < j < u.len() implies !lex_lt(
            #[trigger] u[j].0,
            #[trigger] u[i].0,
        ) by {
            if i == 0 {
                assert(u[j] == s[j - 1]);
                if lex_lt(s[j - 1].0, x.0) {
                    lemma_lex_trans(s[j - 1].0, x.0, s[0].0);
                    if j - 1 > 0 {
                    } else {
                        lemma_lex_asym(s[0].0, x.0);
                    }
                }
            } else {
                assert(u[i] == s[i - 1] && u[j] == s[j - 1]);
            }
        }
        assert(seq![x] =~= Seq::<Entry>::empty().push(x));
        assert(u.to_multiset() =~= s.to_multiset().insert(x));
    } else {
        let t = s.drop_first();
        assert(is_sorted(t)) by {
            assert forall|i: int, j: int| 0 <= i < j < t.len() implies !lex_lt(
                #[trigger] t[j].0,
                #[trigger] t[i].0,
            ) by {
                assert(t[i] == s[i + 1] && t[j] == s[j + 1]);
            }
        }
        lemma_insert_sorted(t, x);
        assert forall|k: int| 0 <= k < t.len() implies !lex_lt(#[trigger] t[k].0, s[0].0) by {
            assert(t[k] == s[k + 1]);
        }
        lemma_insert_bounded(t, x, s[0].0);
        let v = insert_sorted(t, x);
        let u = seq![s[0]] + v;
        assert forall|i: int, j: int| 0 <= i < j < u.len() implies !lex_lt(
            #[trigger] u[j].0,
            #[trigger] u[i].0,
        ) by {
            assert(u[j] == v[j - 1]);
            if i > 0 {
                assert(u[i] == v[i - 1]);
            }
        }
        assert(seq![s[0]] =~= Seq::<Entry>::empty().push(s[0]));
        assert(s =~= seq![s[0]] + t);
        assert(u.to_multiset() =~= s.to_multiset().insert(x));
    }
}

/// Sorting the files of a response keeps every file, as many times as it
/// came, and puts them in order of their names.
pub proof fn lemma_sort_entries(s: Seq<Entry>)
    ensures
        sort_entries(s).to_multiset() == s.to_multiset(),
        is_sorted(sort_entries(s)),
    decreases s.len(),
{
    broadcast use vstd::seq_lib::group_to_multiset_ensures;

    if s.len() > 0 {
        lemma_sort_entries(s.drop_last());
        lemma_insert_sorted(sort_entries(s.drop_last()), s.last());
        assert(s.drop_last().push(s.last()) =~= s);
    }
}

/// Grouping keeps the rows: the rows of the groups, one group after the
/// other, are the rows grouped; each group holds rows of its folder only,
/// and two groups in a row are of different folders.
pub proof fn lemma_group_rows(s: Seq<RowView>)
    ensures
        group_rows(s).map_values(|g: FolderView| g.rows).flatten() == s,
        forall|g: int, k: int|
            0 <= g < group_rows(s).len() && 0 <= k < group_rows(s)[g].rows.len() ==> (
            #[trigger] group_rows(s)[g].rows[k]).folder == group_rows(s)[g].folder,
        forall|g: int|
            0 <= g < group_rows(s).len() ==> (#[trigger] group_rows(s)[g]).rows.len() > 0,
        forall|g: int|
            0 < g < group_rows(s).len() ==> (#[trigger] group_rows(s)[g]).folder != group_rows(
                s,
            )[g - 1].folder,
    decreases s.len(),
{
    broadcast use Seq::lemma_flatten_push;

    if s.len() == 0 {
        assert(group_rows(s).map_values(|g: FolderView| g.rows) =~= Seq::<Seq<RowView>>::empty());
    } else {
        let p = s.drop_last();
        lemma_group_rows(p);
        let g = group_rows(p);
        let r = s.last();
        let gs = g.map_values(|f: FolderView| f.rows);
        assert(p.push(r) =~= s);
        if g.len() > 0 && g.last().folder == r.folder {
            let n = group_rows(s);
            let ns = n.map_values(|f: FolderView| f.rows);
            assert(gs =~= gs.drop_last().push(gs.last()));
            assert(ns =~= gs.drop_last().push(gs.last().push(r)));
            assert(gs.drop_last().flatten() + gs.last() == gs.flatten());
            assert(ns.flatten() =~= gs.drop_last().flatten() + gs.last().push(r));
            assert(ns.flatten() =~= s);
        } else {
            let n = group_rows(s);
            assert(n.map_values(|f: FolderView| f.rows) =~= gs.push(seq![r]));
            assert(gs.push(seq![r]).flatten() =~= p + seq![r]);
            assert(p + seq![r] =~= s);
        }
    }
}

} // verus!
