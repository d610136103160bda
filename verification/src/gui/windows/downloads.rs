//! The downloads window: a table with a row for each user that files are
//! downloaded from, the folders and files below it, and the status and
//! progress each download was registered with, by its token.
use std::collections::HashMap;

use vstd::prelude::*;

use crate::constants::{ByteSize, DownloadStatus, Percentage, Token};
use crate::gui::widgets::table::{
    cell_text, item_length, items_view, opt_text, ColumnData, ItemView, TableItem, TableWidget,
};

verus! {

/// Every row at the top has the six cells of a user's row, its size in the
/// last of them.
pub open spec fn roots_wf(rows: Seq<ItemView>) -> bool {
    forall|i: int|
        0 <= i < rows.len() ==> #[trigger] rows[i].content.len() == 6 && rows[i].content[5] is ByteSize
}

/// The name in the first cell of a row.
pub open spec fn root_name(v: ItemView) -> Seq<char> {
    cell_text(v.content[0])
}

/// Whether `i` is the first row at the top with the user's name.
pub open spec fn is_first_root(rows: Seq<ItemView>, name: Seq<char>, i: int) -> bool {
    &&& 0 <= i < rows.len()
    &&& root_name(rows[i]) == name
    &&& forall|j: int| 0 <= j < i ==> root_name(#[trigger] rows[j]) != name
}

/// The first row at the top with the user's name, if there is one.
pub open spec fn user_root(rows: Seq<ItemView>, name: Seq<char>) -> Option<int> {
    if exists|i: int| 0 <= i < rows.len() && root_name(#[trigger] rows[i]) == name {
        Some(choose|i: int| is_first_root(rows, name, i))
    } else {
        None
    }
}

/// A user's row: the name, no folder or file name, queued at 0%, the size;
/// the row below it; open.
pub open spec fn user_row(username: String, filesize: ByteSize, item: ItemView) -> ItemView {
    ItemView {
        content: seq![
            ColumnData::String(username),
            ColumnData::Empty,
            ColumnData::Empty,
            ColumnData::DownloadStatus(DownloadStatus::Queued),
            ColumnData::Percentage(Percentage(0)),
            ColumnData::ByteSize(filesize),
        ],
        children: seq![item],
        is_open: true,
    }
}

/// A user's row with one more row below it, and its size grown by that
/// row's size.
pub open spec fn grown_row(v: ItemView, filesize: ByteSize, item: ItemView) -> ItemView {
    ItemView {
        content: v.content.update(
            5,
            ColumnData::ByteSize(ByteSize((v.content[5]->ByteSize_0.0 + filesize.0) as u64)),
        ),
        children: v.children.push(item),
        ..v
    }
}

/// A file's row: the user, no folder, the file name, the status, the
/// progress, the size and the token; open, with no rows below it.
pub open spec fn file_row(
    username: String,
    filename: String,
    filesize: ByteSize,
    token: Token,
    status: DownloadStatus,
    percentage: Percentage,
) -> ItemView {
    ItemView {
        content: seq![
            ColumnData::String(username),
            ColumnData::Empty,
            ColumnData::String(filename),
            ColumnData::DownloadStatus(status),
            ColumnData::Percentage(percentage),
            ColumnData::ByteSize(filesize),
            ColumnData::Token(token.0),
        ],
        children: Seq::empty(),
        is_open: true,
    }
}

/// A folder's row: the user, the folder, no file name, queued at 0%, the
/// size; the given rows below it; open.
pub open spec fn folder_row(username: String, folder: String, filesize: ByteSize, files: Seq<ItemView>) -> ItemView {
    ItemView {
        content: seq![
            ColumnData::String(username),
            ColumnData::String(folder),
            ColumnData::Empty,
            ColumnData::DownloadStatus(DownloadStatus::Queued),
            ColumnData::Percentage(Percentage(0)),
            ColumnData::ByteSize(filesize),
        ],
        children: files,
        is_open: true,
    }
}

/// The rows after a user's folder or file is added: below the user's first
/// row, with the size added to it, or in a new user's row at the end.
pub open spec fn rows_after_add(rows: Seq<ItemView>, username: String, filesize: ByteSize, item: ItemView) -> Seq<ItemView> {
    match user_root(rows, username@) {
        Some(i) => rows.update(i, grown_row(rows[i], filesize, item)),
        None => rows.push(user_row(username, filesize, item)),
    }
}

/// Adding a folder or file keeps every row at the top a user's row, and
/// puts it below the row of its user.
pub proof fn lemma_add_keeps_roots(rows: Seq<ItemView>, username: String, filesize: ByteSize, item: ItemView)
    requires
        roots_wf(rows),
    ensures
        roots_wf(rows_after_add(rows, username, filesize, item)),
        user_root(rows_after_add(rows, username, filesize, item), username@) is Some,
{
    lemma_user_root(rows, username@);
    let r = rows_after_add(rows, username, filesize, item);
    match user_root(rows, username@) {
        Some(i) => {
            assert(root_name(r[i]) == username@);
            assert(exists|k: int| 0 <= k < r.len() && root_name(#[trigger] r[k]) == username@);
        },
        None => {
            let k = rows.len() as int;
            assert(root_name(r[k]) == username@);
        },
    }
}

proof fn lemma_user_root(rows: Seq<ItemView>, name: Seq<char>)
    ensures
        match user_root(rows, name) {
            Some(i) => is_first_root(rows, name, i),
            None => forall|j: int| 0 <= j < rows.len() ==> root_name(#[trigger] rows[j]) != name,
        },
{
    if exists|i: int| 0 <= i < rows.len() && root_name(#[trigger] rows[i]) == name {
        let w = choose|i: int| 0 <= i < rows.len() && root_name(#[trigger] rows[i]) == name;
        lemma_least_root(rows, name, w);
    }
}

proof fn lemma_least_root(rows: Seq<ItemView>, name: Seq<char>, w: int)
    requires
        0 <= w < rows.len(),
        root_name(rows[w]) == name,
    ensures
        exists|i: int| is_first_root(rows, name, i),
    decreases w,
{
    if exists|j: int| 0 <= j < w && root_name(#[trigger] rows[j]) == name {
        let j = choose|j: int| 0 <= j < w && root_name(#[trigger] rows[j]) == name;
        lemma_least_root(rows, name, j);
    } else {
        assert(is_first_root(rows, name, w));
    }
}

proof fn lemma_first_root_unique(rows: Seq<ItemView>, name: Seq<char>, i: int)
    requires
        is_first_root(rows, name, i),
    ensures
        user_root(rows, name) == Some(i),
{
    lemma_user_root(rows, name);
    let c = user_root(rows, name)->0;
    if c < i {
        assert(root_name(rows[c]) != name);
    } else if c > i {
        assert(root_name(rows[i]) != name);
    }
}

/// The downloads window: its title, the widget in focus, the table, and the
/// status and progress each download was registered with, by token.
#[derive(Debug)]
pub struct DownloadsWindow {
    pub title: String,
    pub focus_index: u8,
    pub downloads: TableWidget,
    pub download_state: HashMap<u32, (DownloadStatus, Percentage)>,
}

fn find_user_root(items: &Vec<TableItem>, username: &String) -> (r: Option<usize>)
    requires
        roots_wf(items_view(items@)),
    ensures
        match r {
            Some(i) => user_root(items_view(items@), username@) == Some(i as int),
            None => user_root(items_view(items@), username@) is None,
        },
{
    let ghost rows = items_view(items@);
    proof {
        lemma_user_root(rows, username@);
    }
    let n = items.len();
    let mut i: usize = 0;
    while i < n
        invariant
            n == items@.len(),
            rows == items_view(items@),
            roots_wf(rows),
            i <= n,
            forall|j: int| 0 <= j < i ==> root_name(#[trigger] rows[j]) != username@,
        decreases n - i,
    {
        assert(rows[i as int] == items@[i as int].item_view());
        assert(rows[i as int].content.len() == 6);
        let name = items[i].content[0].to_string();
        if name == *username {
            proof {
                assert(is_first_root(rows, username@, i as int));
                lemma_first_root_unique(rows, username@, i as int);
            }
            return Some(i);
        }
        i = i + 1;
    }
    None
}

/// Whether the window `w0` can take what `DownloadsWindow::add_file` adds.
pub open spec fn file_fits(w0: DownloadsWindow, username: String, folder: String, filename: String, filesize: ByteSize, token: Token, status: DownloadStatus, percentage: Percentage) -> bool {
    &&& roots_wf(w0.downloads.rows_view())
    &&& match user_root(w0.downloads.rows_view(), username@) {
        Some(i) => {
            &&& w0.downloads.rows_view()[i].content[5]->ByteSize_0.0 + filesize.0
                <= u64::MAX
            &&& w0.downloads.length + 2 <= usize::MAX
        },
        None => w0.downloads.length + 3 <= usize::MAX
    }
}

/// What `DownloadsWindow::add_file` does to the window `w0`, giving `w1`.
pub open spec fn file_added(w0: DownloadsWindow, w1: DownloadsWindow, username: String, folder: String, filename: String, filesize: ByteSize, token: Token, status: DownloadStatus, percentage: Percentage) -> bool {
    &&& w1.downloads.rows_view() == rows_after_add(
        w0.downloads.rows_view(),
        username,
        filesize,
        folder_row(
            username,
            folder,
            filesize,
            seq![file_row(username, filename, filesize, token, status, percentage)],
        )
    )
    &&& w1.downloads.length == w0.downloads.length + (if user_root(
        w0.downloads.rows_view(),
        username@
    ) is Some {
        2int
    } else {
        3int
    })
    &&& w1.download_state@ == w0.download_state@.insert(token.0, (status, percentage))
    &&& w1.downloads.filter == w0.downloads.filter
    &&& w1.downloads.selected_row == w0.downloads.selected_row
    &&& w1.title == w0.title
    &&& w1.focus_index == w0.focus_index
}

/// Whether the window `w0` can take what `DownloadsWindow::add_folder` adds.
pub open spec fn folder_fits(w0: DownloadsWindow, username: String, folder: String, files: Seq<(String, ByteSize, Token, DownloadStatus, Percentage)>) -> bool {
    &&& total_size(files) <= u64::MAX
    &&& roots_wf(w0.downloads.rows_view())
    &&& match user_root(w0.downloads.rows_view(), username@) {
        Some(i) => {
            &&& w0.downloads.rows_view()[i].content[5]->ByteSize_0.0 + total_size(
                files,
            ) <= u64::MAX
            &&& w0.downloads.length + files.len() + 1 <= usize::MAX
        },
        None => w0.downloads.length + files.len() + 2 <= usize::MAX
    }
}

/// What `DownloadsWindow::add_folder` does to the window `w0`, giving `w1`.
pub open spec fn folder_added(w0: DownloadsWindow, w1: DownloadsWindow, username: String, folder: String, files: Seq<(String, ByteSize, Token, DownloadStatus, Percentage)>) -> bool {
    &&& w1.downloads.rows_view() == rows_after_add(
        w0.downloads.rows_view(),
        username,
        ByteSize(total_size(files) as u64),
        folder_row(
            username,
            folder,
            ByteSize(total_size(files) as u64),
            file_rows(username, files),
        )
    )
    &&& w1.downloads.length == w0.downloads.length + files.len() + (if user_root(
        w0.downloads.rows_view(),
        username@
    ) is Some {
        1int
    } else {
        2int
    })
    &&& w1.download_state@ == states_after(w0.download_state@, files)
    &&& w1.downloads.filter == w0.downloads.filter
    &&& w1.downloads.selected_row == w0.downloads.selected_row
    &&& w1.title == w0.title
    &&& w1.focus_index == w0.focus_index
}

impl DownloadsWindow {
    /// A window titled " Downloads ", with an empty table of the columns
    /// User, Folder, Filename, Status, Progress and Filesize.
    pub fn new() -> (r: Self)
        ensures
            r.title@ == " Downloads "@,
            r.focus_index == 0,
            r.downloads.rows_view().len() == 0,
            r.downloads.length == 0,
            r.downloads.headers@.len() == 7,
            r.download_state@ == Map::<u32, (DownloadStatus, Percentage)>::empty(),
    {
        let headers = vec![
            String::from_str("User"),
            String::from_str("Folder"),
            String::from_str("Filename"),
            String::from_str("Status"),
            String::from_str("Progress"),
            String::from_str("Filesize"),
        ];
        let downloads = TableWidget::new(headers, Vec::new(), None);
        assert(items_view(downloads.items@) =~= Seq::<ItemView>::empty());
        DownloadsWindow {
            title: String::from_str(" Downloads "),
            focus_index: 0,
            downloads,
            download_state: HashMap::new(),
        }
    }

    /// Puts a folder's or file's row below the first row of its user, and
    /// adds the size to that row's; or, when the user has no row, adds an
    /// open row for the user with the given row below it. The count of rows
    /// grows by what the row counts under the filter.
    fn add_item_helper(&mut self, item: TableItem, username: String, filesize: ByteSize)
        requires
            roots_wf(old(self).downloads.rows_view()),
            match user_root(old(self).downloads.rows_view(), username@) {
                Some(i) => {
                    &&& old(self).downloads.rows_view()[i].content[5]->ByteSize_0.0 + filesize.0
                        <= u64::MAX
                    &&& old(self).downloads.length + item_length(
                        item.item_view(),
                        opt_text(old(self).downloads.filter),
                    ) <= usize::MAX
                },
                None => old(self).downloads.length + item_length(
                    user_row(username, filesize, item.item_view()),
                    opt_text(old(self).downloads.filter),
                ) <= usize::MAX,
            },
        ensures
            final(self).downloads.rows_view() == rows_after_add(
                old(self).downloads.rows_view(),
                username,
                filesize,
                item.item_view(),
            ),
            final(self).downloads.length == old(self).downloads.length + match user_root(
                old(self).downloads.rows_view(),
                username@,
            ) {
                Some(_) => item_length(item.item_view(), opt_text(old(self).downloads.filter)),
                None => item_length(
                    user_row(username, filesize, item.item_view()),
                    opt_text(old(self).downloads.filter),
                ),
            },
            final(self).downloads.filter == old(self).downloads.filter,
            final(self).downloads.selected_row == old(self).downloads.selected_row,
            final(self).download_state == old(self).download_state,
            final(self).title == old(self).title,
            final(self).focus_index == old(self).focus_index,
    {
        let ghost rows = self.downloads.rows_view();
        let ghost iv = item.item_view();
        proof {
            lemma_user_root(rows, username@);
        }
        match find_user_root(&self.downloads.items, &username) {
            Some(i) => {
                assert(user_root(rows, username@) == Some(i as int));
                assert(rows[i as int] == self.downloads.items@[i as int].item_view());
                let f: Option<&str> = match self.downloads.filter() {
                    Some(t) => Some(t.as_str()),
                    None => None,
                };
                let item_len = item.length(f);
                self.downloads.length = self.downloads.length + item_len;
                let old_size: u64 = match &self.downloads.items[i].content[5] {
                    ColumnData::ByteSize(b) => b.0,
                    _ => 0,
                };
                assert(rows[i as int] == self.downloads.items@[i as int].item_view());
                assert(old_size == rows[i as int].content[5]->ByteSize_0.0);
                let ghost before = self.downloads.items@[i as int];
                self.downloads.items[i].content.set(5, ColumnData::ByteSize(ByteSize(old_size + filesize.0)));
                self.downloads.items[i].children.push(item);
                proof {
                    let after = self.downloads.items@[i as int];
                    assert(after.children@ == before.children@.push(item));
                    assert(after.content@ == before.content@.update(
                        5,
                        ColumnData::ByteSize(ByteSize((old_size + filesize.0) as u64)),
                    ));
                    assert(after.is_open == before.is_open);
                    assert(after.item_view().children =~= before.item_view().children.push(iv));
                    assert(after.item_view() == grown_row(rows[i as int], filesize, iv));
                    assert(self.downloads.rows_view() =~= rows.update(i as int, grown_row(rows[i as int], filesize, iv)));
                }
            },
            None => {
                assert(user_root(rows, username@) is None);
                let row = TableItem::new(
                    vec![
                        ColumnData::String(username),
                        ColumnData::Empty,
                        ColumnData::Empty,
                        ColumnData::DownloadStatus(DownloadStatus::Queued),
                        ColumnData::Percentage(Percentage(0)),
                        ColumnData::ByteSize(filesize),
                    ],
                    vec![item],
                ).open();
                proof {
                    assert(row.item_view().content =~= user_row(username, filesize, iv).content);
                    assert(row.item_view().children =~= seq![iv]);
                }
                self.downloads.insert_item(row);
                assert(self.downloads.rows_view() =~= rows.push(user_row(username, filesize, iv)));
            },
        }
    }
}


/// The total size of the files of a folder.
pub open spec fn total_size(files: Seq<(String, ByteSize, Token, DownloadStatus, Percentage)>) -> int
    decreases files.len(),
{
    if files.len() == 0 {
        0
    } else {
        total_size(files.drop_last()) + files.last().1.0
    }
}

/// The rows of a folder's files.
pub open spec fn file_rows(username: String, files: Seq<(String, ByteSize, Token, DownloadStatus, Percentage)>) -> Seq<ItemView> {
    Seq::new(
        files.len(),
        |k: int| file_row(username, files[k].0, files[k].1, files[k].2, files[k].3, files[k].4),
    )
}

/// The registered states after a folder's files are registered, one after
/// the other.
pub open spec fn states_after(
    m: Map<u32, (DownloadStatus, Percentage)>,
    files: Seq<(String, ByteSize, Token, DownloadStatus, Percentage)>,
) -> Map<u32, (DownloadStatus, Percentage)>
    decreases files.len(),
{
    if files.len() == 0 {
        m
    } else {
        states_after(m, files.drop_last()).insert(files.last().2.0, (files.last().3, files.last().4))
    }
}

impl DownloadsWindow {
    /// Adds a file below its user's row, in a row of its own folder that
    /// holds the file's row, and registers the download's status and
    /// progress under its token.
    pub fn add_file(
        &mut self,
        username: String,
        folder: String,
        filename: String,
        filesize: ByteSize,
        token: Token,
        status: DownloadStatus,
        percentage: Percentage,
    )
        requires
            file_fits(*old(self), username, folder, filename, filesize, token, status, percentage),
        ensures
            file_added(*old(self), *final(self), username, folder, filename, filesize, token, status, percentage),
    {
        let file = TableItem::new(
            vec![
                ColumnData::String(username.clone()),
                ColumnData::Empty,
                ColumnData::String(filename),
                ColumnData::DownloadStatus(status),
                ColumnData::Percentage(percentage),
                ColumnData::ByteSize(filesize),
                ColumnData::Token(token.0),
            ],
            Vec::new(),
        ).open();
        let ghost fv = file.item_view();
        assert(fv.content =~= file_row(username, filename, filesize, token, status, percentage).content);
        assert(fv.children =~= Seq::<ItemView>::empty());
        let item = TableItem::new(
            vec![
                ColumnData::String(username.clone()),
                ColumnData::String(folder),
                ColumnData::Empty,
                ColumnData::DownloadStatus(DownloadStatus::Queued),
                ColumnData::Percentage(Percentage(0)),
                ColumnData::ByteSize(filesize),
            ],
            vec![file],
        ).open();
        let ghost iv = item.item_view();
        let ghost fr = file_row(username, filename, filesize, token, status, percentage);
        assert(iv.children =~= seq![fr]);
        assert(iv.content =~= folder_row(username, folder, filesize, seq![fr]).content);
        assert(iv == folder_row(username, folder, filesize, seq![fr]));
        proof {
            let f = opt_text(self.downloads.filter);
            crate::gui::widgets::table::lemma_open_leaves_count(seq![fr], f);
            assert(item_length(iv, f) == 2);
            let u = user_row(username, filesize, iv);
            assert(u.children == seq![iv]);
            assert(item_length(u, f) == 3) by {
                assert(u.children.drop_first() =~= Seq::<ItemView>::empty());
                assert(crate::gui::widgets::table::children_length(u.children.drop_first(), f) == 0);
                assert(u.children[0] == iv);
                assert(crate::gui::widgets::table::children_length(u.children, f) == 2);
            }
        }
        broadcast use vstd::std_specs::hash::group_hash_axioms;

        self.download_state.insert(token.0, (status, percentage));
        self.add_item_helper(item, username, filesize);
    }

    /// Adds a folder below its user's row, with a row for each of its files
    /// and their total size, and registers each download's status and
    /// progress under its token.
    pub fn add_folder(
        &mut self,
        username: String,
        folder: String,
        files: Vec<(String, ByteSize, Token, DownloadStatus, Percentage)>,
    )
        requires
            folder_fits(*old(self), username, folder, files@),
        ensures
            folder_added(*old(self), *final(self), username, folder, files@),
    {
        broadcast use vstd::std_specs::hash::group_hash_axioms;

        let ghost fs = files@;
        let n = files.len();
        let mut total: u64 = 0;
        let mut i: usize = 0;
        while i < n
            invariant
                n == fs.len(),
                fs == files@,
                i <= n,
                total_size(fs) <= u64::MAX,
                total == total_size(fs.take(i as int)),
            decreases n - i,
        {
            proof {
                lemma_total_prefix(fs, i as int + 1);
                assert(fs.take(i + 1).drop_last() =~= fs.take(i as int));
            }
            total = total + files[i].1.0;
            i = i + 1;
        }
        assert(fs.take(n as int) =~= fs);
        let mut children: Vec<TableItem> = Vec::new();
        let ghost start = self.download_state@;
        let mut rest = files;
        let mut k: usize = 0;
        assert(fs.skip(0) =~= fs);
        while k < n
            invariant
                n == fs.len(),
                k <= n,
                rest@ == fs.skip(k as int),
                items_view(children@) == file_rows(username, fs.take(k as int)),
                self.download_state@ == states_after(start, fs.take(k as int)),
                self.downloads == old(self).downloads,
                start == old(self).download_state@,
                self.title == old(self).title,
                self.focus_index == old(self).focus_index,
            decreases n - k,
        {
            assert(rest@[0] == fs[k as int]);
            let (filename, filesize, token, status, percentage) = rest.remove(0);
            self.download_state.insert(token.0, (status, percentage));
            let child = TableItem::new(
                vec![
                    ColumnData::String(username.clone()),
                    ColumnData::Empty,
                    ColumnData::String(filename),
                    ColumnData::DownloadStatus(status),
                    ColumnData::Percentage(percentage),
                    ColumnData::ByteSize(filesize),
                    ColumnData::Token(token.0),
                ],
                Vec::new(),
            ).open();
            let ghost cv = child.item_view();
            assert(cv.content =~= file_row(username, filename, filesize, token, status, percentage).content);
            assert(cv.children =~= Seq::<ItemView>::empty());
            let ghost before = children@;
            children.push(child);
            proof {
                assert(fs.take(k + 1).drop_last() =~= fs.take(k as int));
                assert(fs.take(k + 1).last() == fs[k as int]);
                assert(children@ == before.push(child));
                assert(items_view(children@) =~= items_view(before).push(cv));
                assert(file_rows(username, fs.take(k + 1)) =~= file_rows(username, fs.take(k as int)).push(
                    cv,
                ));
                assert(rest@ =~= fs.skip(k + 1));
            }
            k = k + 1;
        }
        assert(fs.take(n as int) =~= fs);
        let size = ByteSize(total);
        let item = TableItem::new(
            vec![
                ColumnData::String(username.clone()),
                ColumnData::String(folder),
                ColumnData::Empty,
                ColumnData::DownloadStatus(DownloadStatus::Queued),
                ColumnData::Percentage(Percentage(0)),
                ColumnData::ByteSize(size),
            ],
            children,
        ).open();
        let ghost iv = item.item_view();
        let ghost rows_of_files = file_rows(username, fs);
        proof {
            crate::gui::widgets::table::lemma_children_view(item);
            assert(iv.children == rows_of_files);
            assert(iv.content =~= folder_row(username, folder, size, rows_of_files).content);
            assert(iv == folder_row(username, folder, size, rows_of_files));
            let f = opt_text(self.downloads.filter);
            assert forall|m: int| 0 <= m < rows_of_files.len() implies (#[trigger] rows_of_files[m]).is_open
                && rows_of_files[m].children.len() == 0 by {}
            crate::gui::widgets::table::lemma_open_leaves_count(rows_of_files, f);
            assert(item_length(iv, f) == n + 1);
            let u = user_row(username, size, iv);
            assert(item_length(u, f) == n + 2) by {
                assert(u.children.drop_first() =~= Seq::<ItemView>::empty());
                assert(crate::gui::widgets::table::children_length(u.children.drop_first(), f) == 0);
                assert(u.children[0] == iv);
                assert(crate::gui::widgets::table::children_length(u.children, f) == n + 1);
            }
        }
        self.add_item_helper(item, username, size);
    }
}

impl Default for DownloadsWindow {
    /// The same window as `new`.
    fn default() -> (r: Self)
        ensures
            r.title@ == " Downloads "@,
            r.focus_index == 0,
            r.downloads.rows_view().len() == 0,
            r.downloads.length == 0,
            r.download_state@ == Map::<u32, (DownloadStatus, Percentage)>::empty(),
    {
        DownloadsWindow::new()
    }
}

proof fn lemma_total_prefix(fs: Seq<(String, ByteSize, Token, DownloadStatus, Percentage)>, i: int)
    requires
        0 <= i <= fs.len(),
    ensures
        total_size(fs.take(i)) <= total_size(fs),
    decreases fs.len(),
{
    if i < fs.len() {
        assert(fs.drop_last().take(i) =~= fs.take(i));
        lemma_total_prefix(fs.drop_last(), i);
    } else {
        assert(fs.take(i) =~= fs);
    }
}

} // verus!
