//! The index of shared files, apart from its database: the search terms of
//! a file name or of a query (the words in lower case, each once, in
//! order), and the shared file list built from the rows of the folders and
//! their files.
use vstd::prelude::*;
use vstd::utf8::encode_utf8;

use crate::gui::windows::filesearch::{
    chars_of, last_index_of, last_index_of_exec, lemma_last_index_in_range, lex_lt, lemma_lex_asym,
    lemma_lex_trans, string_of,
};
use crate::messages::peer::{
    Directory, DirectoryModel, File, FileAttribute, FileModel, SharedFileListResponse,
    SharedFileListResponseModel,
};
use crate::utils::{lowercase, push_char, push_str, to_lowercase};

verus! {

/// What `char::is_alphanumeric` gives (whether Unicode counts the
/// character as alphabetic or numeric).
pub uninterp spec fn alphanumeric(c: char) -> bool;

/// Calls `char::is_alphanumeric`; what it gives is named by
/// `alphanumeric`.
#[verifier::external_body]
fn is_alphanumeric(c: char) -> (r: bool)
    ensures
        r == alphanumeric(c),
{
    c.is_alphanumeric()
}

/// The pieces of a text between its characters that are not alphanumeric,
/// empty pieces included, as `str::split` gives them.
pub open spec fn split_pieces(s: Seq<char>) -> Seq<Seq<char>>
    decreases s.len(),
{
    if s.len() == 0 {
        seq![Seq::empty()]
    } else {
        let p = split_pieces(s.drop_last());
        if alphanumeric(s.last()) {
            p.update(p.len() - 1, p.last().push(s.last()))
        } else {
            p.push(Seq::empty())
        }
    }
}

/// A term takes more than one byte in UTF-8.
pub open spec fn long_enough(t: Seq<char>) -> bool {
    encode_utf8(t).len() > 1
}

/// A search term of a text: a piece of the text in lower case, more than
/// one byte long.
pub open spec fn is_search_term(t: Seq<char>, s: Seq<char>) -> bool {
    split_pieces(lowercase(s)).contains(t) && long_enough(t)
}

/// Whether `found` holds exactly the pieces that are long enough.
pub open spec fn holds_terms_of(found: Seq<Seq<char>>, pieces: Seq<Seq<char>>) -> bool {
    forall|t: Seq<char>|
        #![trigger found.contains(t)]
        #![trigger pieces.contains(t)]
        found.contains(t) <==> (pieces.contains(t) && long_enough(t))
}

/// Whether the terms are in strictly increasing order, so each once.
pub open spec fn strictly_sorted(s: Seq<Seq<char>>) -> bool {
    forall|i: int, j: int| 0 <= i < j < s.len() ==> lex_lt(#[trigger] s[i], #[trigger] s[j])
}

proof fn lemma_pieces_nonempty(s: Seq<char>)
    ensures
        split_pieces(s).len() >= 1,
    decreases s.len(),
{
    if s.len() > 0 {
        lemma_pieces_nonempty(s.drop_last());
    }
}

proof fn lemma_encode_len(t: Seq<char>)
    ensures
        encode_utf8(t).len() >= t.len(),
        t.len() == 1 ==> (encode_utf8(t).len() > 1 <==> t[0] as u32 > 0x7F),
    decreases t.len(),
{
    if t.len() > 0 {
        lemma_encode_len(t.drop_first());
        vstd::utf8::char_is_scalar(t[0]);
        if t.len() == 1 {
            assert(t.drop_first().len() == 0);
            assert(encode_utf8(t.drop_first()).len() == 0);
        }
    }
}

/// Whether the characters take more than one byte in UTF-8.
fn long_enough_exec(t: &Vec<char>) -> (r: bool)
    ensures
        r == long_enough(t@),
{
    proof {
        lemma_encode_len(t@);
    }
    if t.len() >= 2 {
        true
    } else if t.len() == 1 {
        (t[0] as u32) > 0x7F
    } else {
        false
    }
}

proof fn lemma_lex_total(a: Seq<char>, b: Seq<char>)
    requires
        a != b,
    ensures
        lex_lt(a, b) || lex_lt(b, a),
    decreases a.len(),
{
    if a.len() > 0 && b.len() > 0 && a[0] == b[0] {
        if a.drop_first() == b.drop_first() {
            assert(a =~= seq![a[0]] + a.drop_first());
            assert(b =~= seq![b[0]] + b.drop_first());
        }
        lemma_lex_total(a.drop_first(), b.drop_first());
    } else if a.len() > 0 && b.len() > 0 {
        assert((a[0] as u32) != (b[0] as u32)) by {
            vstd::utf8::char_u32_cast(a[0], a[0] as u32);
            vstd::utf8::char_u32_cast(b[0], b[0] as u32);
        }
    } else if a.len() == 0 && b.len() == 0 {
        assert(a =~= b);
    }
}

proof fn lemma_lex_irrefl(a: Seq<char>)
    ensures
        !lex_lt(a, a),
    decreases a.len(),
{
    if a.len() > 0 {
        lemma_lex_irrefl(a.drop_first());
    }
}

/// The position of the first term that does not come before `t`.
fn term_position(found: &Vec<Vec<char>>, t: &Vec<char>) -> (j: usize)
    ensures
        j <= found@.len(),
        forall|k: int| 0 <= k < j ==> lex_lt(#[trigger] found.deep_view()[k], t@),
        j < found@.len() ==> !lex_lt(found.deep_view()[j as int], t@),
{
    let n = found.len();
    let mut j: usize = 0;
    while j < n
        invariant
            n == found@.len(),
            j <= n,
            forall|k: int| 0 <= k < j ==> lex_lt(#[trigger] found.deep_view()[k], t@),
        decreases n - j,
    {
        assert(found.deep_view()[j as int] == found@[j as int]@);
        if !crate::gui::windows::filesearch::lex_lt_chars(&found[j], t) {
            return j;
        }
        j = j + 1;
    }
    j
}

/// Adds a term to strictly sorted terms, unless it is there already.
fn insert_term(found: &mut Vec<Vec<char>>, t: Vec<char>)
    requires
        strictly_sorted(old(found).deep_view()),
    ensures
        strictly_sorted(final(found).deep_view()),
        forall|u: Seq<char>|
            final(found).deep_view().contains(u) <==> (old(found).deep_view().contains(u) || u
                == t@),
{
    let ghost s = found.deep_view();
    let ghost x = t@;
    let n = found.len();
    let j = term_position(found, &t);
    proof {
        if j < n {
            assert(s[j as int] == found@[j as int]@);
        }
    }
    if j < n && chars_equal(&found[j], &t) {
        assert(s[j as int] == x);
        assert(s.contains(x));
        return;
    }
    proof {
        if j < n {
            assert(s[j as int] != x);
            lemma_lex_total(s[j as int], x);
            assert(lex_lt(x, s[j as int]));
        }
    }
    let ghost before = found@;
    found.insert(j, t);
    let ghost u = found.deep_view();
    assert(u =~= s.take(j as int).push(x) + s.skip(j as int)) by {
        assert(found@ == before.insert(j as int, t));
        assert forall|k: int| 0 <= k < u.len() implies #[trigger] u[k] == (s.take(j as int).push(x) + s.skip(
            j as int,
        ))[k] by {
            assert(u[k] == found@[k]@);
            if k < j {
                assert(found@[k] == before[k]);
            } else if k > j {
                assert(found@[k] == before[k - 1]);
            }
        }
    }
    assert forall|a: int, b: int| 0 <= a < b < u.len() implies lex_lt(#[trigger] u[a], #[trigger] u[b]) by {
        if b < j {
            assert(u[a] == s[a] && u[b] == s[b]);
        } else if b == j {
            assert(u[b] == x && u[a] == s[a]);
        } else if a < j {
            assert(u[a] == s[a] && u[b] == s[b - 1]);
            assert(lex_lt(s[a], x));
            if b - 1 == j {
                lemma_lex_trans(s[a], x, s[j as int]);
            } else {
                lemma_lex_trans(s[a], x, s[j as int]);
                lemma_lex_trans(s[a], s[j as int], s[b - 1]);
            }
        } else if a == j {
            assert(u[a] == x && u[b] == s[b - 1]);
            if b - 1 > j {
                lemma_lex_trans(x, s[j as int], s[b - 1]);
            }
        } else {
            assert(u[a] == s[a - 1] && u[b] == s[b - 1]);
        }
    }
    assert forall|w: Seq<char>| u.contains(w) <==> (s.contains(w) || w == x) by {
        if u.contains(w) {
            let k = choose|k: int| 0 <= k < u.len() && u[k] == w;
            if k < j {
                assert(s[k] == w);
            } else if k > j {
                assert(s[k - 1] == w);
            }
        }
        if s.contains(w) {
            let k = choose|k: int| 0 <= k < s.len() && s[k] == w;
            if k < j {
                assert(u[k] == w);
            } else {
                assert(u[k + 1] == w);
            }
        }
        if w == x {
            assert(u[j as int] == w);
        }
    }
}

fn chars_equal(a: &Vec<char>, b: &Vec<char>) -> (r: bool)
    ensures
        r == (a@ == b@),
{
    if a.len() != b.len() {
        return false;
    }
    let n = a.len();
    let mut i: usize = 0;
    while i < n
        invariant
            n == a@.len(),
            n == b@.len(),
            i <= n,
            forall|k: int| 0 <= k < i ==> a@[k] == b@[k],
        decreases n - i,
    {
        if a[i] != b[i] {
            return false;
        }
        i = i + 1;
    }
    assert(a@ =~= b@);
    true
}

proof fn lemma_contains_push(p: Seq<Seq<char>>, d: Seq<char>)
    ensures
        forall|t: Seq<char>| p.push(d).contains(t) <==> (p.contains(t) || t == d),
{
    assert forall|t: Seq<char>| p.push(d).contains(t) <==> (p.contains(t) || t == d) by {
        if p.push(d).contains(t) {
            let k = choose|k: int| 0 <= k < p.push(d).len() && p.push(d)[k] == t;
            if k < p.len() {
                assert(p[k] == t);
            }
        }
        if p.contains(t) {
            let k = choose|k: int| 0 <= k < p.len() && p[k] == t;
            assert(p.push(d)[k] == t);
        }
        if t == d {
            assert(p.push(d)[p.len() as int] == t);
        }
    }
}

/// The search terms of a text: its pieces between characters that are not
/// alphanumeric, in lower case, those longer than one byte, sorted, each
/// once.
pub fn extract_terms(string: &str) -> (r: Vec<String>)
    ensures
        strictly_sorted(r.deep_view()),
        forall|t: Seq<char>| r.deep_view().contains(t) <==> is_search_term(t, string@),
{
    let lower = to_lowercase(string);
    let chars = chars_of(lower.as_str());
    let ghost c = chars@;
    let mut found: Vec<Vec<char>> = Vec::new();
    let mut piece: Vec<char> = Vec::new();
    let n = chars.len();
    let mut i: usize = 0;
    assert(c.take(0) =~= Seq::<char>::empty());
    while i < n
        invariant
            n == c.len(),
            c == chars@,
            c == lowercase(string@),
            i <= n,
            split_pieces(c.take(i as int)).len() >= 1,
            piece@ == split_pieces(c.take(i as int)).last(),
            strictly_sorted(found.deep_view()),
            holds_terms_of(found.deep_view(), split_pieces(c.take(i as int)).drop_last()),
        decreases n - i,
    {
        let ghost p = split_pieces(c.take(i as int));
        assert(c.take(i + 1).drop_last() =~= c.take(i as int));
        assert(c.take(i + 1).last() == c[i as int]);
        if is_alphanumeric(chars[i]) {
            piece.push(chars[i]);
            proof {
                let q = split_pieces(c.take(i + 1));
                assert(q == p.update(p.len() - 1, p.last().push(c[i as int])));
                assert(q.drop_last() =~= p.drop_last());
            }
        } else {
            let done = piece;
            piece = Vec::new();
            let ghost d = done@;
            let ghost old_found = found.deep_view();
            if long_enough_exec(&done) {
                insert_term(&mut found, done);
            }
            assert(forall|t: Seq<char>| found.deep_view().contains(t) <==> (old_found.contains(t) || (
            long_enough(d) && t == d)));
            proof {
                let q = split_pieces(c.take(i + 1));
                assert(q == p.push(Seq::empty()));
                assert(q.drop_last() =~= p);
                assert(p =~= p.drop_last().push(d));
                lemma_contains_push(p.drop_last(), d);
                assert forall|t: Seq<char>| found.deep_view().contains(t) <==> (q.drop_last().contains(
                    t,
                ) && long_enough(t)) by {
                    assert(q.drop_last().contains(t) <==> (p.drop_last().contains(t) || t == d));
                    assert(old_found.contains(t) <==> (p.drop_last().contains(t) && long_enough(t)));
                    assert(found.deep_view().contains(t) <==> (old_found.contains(t) || (long_enough(d)
                        && t == d)));
                }
            }
        }
        i = i + 1;
    }
    assert(c.take(n as int) =~= c);
    let ghost p = split_pieces(c);
    let ghost d = piece@;
    let ghost old_found = found.deep_view();
    if long_enough_exec(&piece) {
        insert_term(&mut found, piece);
    }
    assert(forall|t: Seq<char>| found.deep_view().contains(t) <==> (old_found.contains(t) || (
    long_enough(d) && t == d)));
    proof {
        assert(p =~= p.drop_last().push(d));
        lemma_contains_push(p.drop_last(), d);
        assert forall|t: Seq<char>| found.deep_view().contains(t) <==> is_search_term(t, string@) by {
            assert(p.contains(t) <==> (p.drop_last().contains(t) || t == d));
            assert(old_found.contains(t) <==> (p.drop_last().contains(t) && long_enough(t)));
            assert(found.deep_view().contains(t) <==> (old_found.contains(t) || (long_enough(d) && t
                == d)));
        }
    }
    let ghost fv = found.deep_view();
    let mut r: Vec<String> = Vec::new();
    let m = found.len();
    let mut k: usize = 0;
    while k < m
        invariant
            m == fv.len(),
            fv == found.deep_view(),
            k <= m,
            r.deep_view() == fv.take(k as int),
        decreases m - k,
    {
        let mut s = String::new();
        let w = &found[k];
        let wl = w.len();
        let mut j: usize = 0;
        while j < wl
            invariant
                wl == w@.len(),
                j <= wl,
                s@ == w@.take(j as int),
            decreases wl - j,
        {
            push_char(&mut s, w[j]);
            assert(w@.take(j + 1) =~= w@.take(j as int).push(w@[j as int]));
            j = j + 1;
        }
        assert(w@.take(wl as int) =~= w@);
        assert(fv[k as int] == w@);
        let ghost before = r.deep_view();
        r.push(s);
        assert(r.deep_view() =~= fv.take(k + 1)) by {
            assert(r.deep_view() =~= before.push(s@));
        }
        k = k + 1;
    }
    assert(fv.take(m as int) =~= fv);
    r
}

// ---------------------------------------------------------------------------
// The shared file list
// ---------------------------------------------------------------------------

/// The extension of a file name: what follows its last `.`, or nothing.
pub open spec fn extension_of(name: Seq<char>) -> Seq<char> {
    match last_index_of(name, '.') {
        Some(i) => name.skip(i + 1),
        None => Seq::empty(),
    }
}

/// The extension of a file name (see `extension_of`).
pub fn extension(name: &str) -> (r: String)
    ensures
        r@ == extension_of(name@),
{
    let chars = chars_of(name);
    proof {
        lemma_last_index_in_range(chars@, '.');
    }
    match last_index_of_exec(&chars, '.') {
        Some(i) => {
            assert(i < chars@.len());
            let r = string_of(&chars, i + 1, chars.len());
            assert(chars@.subrange(i + 1, chars@.len() as int) =~= chars@.skip(i + 1));
            r
        },
        None => String::new(),
    }
}

/// A file of a shared folder, as the index gives it: its folder's number,
/// its name, size and attributes.
#[derive(Debug)]
pub struct IndexFile {
    pub folder_id: i64,
    pub filename: String,
    pub file_size: u64,
    pub attributes: Vec<FileAttribute>,
}

/// A row of the index over the shared folders, in the order of the folders'
/// aliases and the files' names: a folder's alias, whether only buddies see
/// it, and one of its files (none for a folder without files).
#[derive(Debug)]
pub struct IndexRow {
    pub file: Option<IndexFile>,
    pub alias: String,
    pub is_buddy_only: bool,
}

/// An [`IndexFile`] as a value.
pub struct IndexFileModel {
    pub folder_id: i64,
    pub filename: Seq<char>,
    pub file_size: u64,
    pub attributes: Seq<FileAttribute>,
}

/// An [`IndexRow`] as a value.
pub struct IndexRowModel {
    pub file: Option<IndexFileModel>,
    pub alias: Seq<char>,
    pub is_buddy_only: bool,
}

impl DeepView for IndexFile {
    type V = IndexFileModel;

    open spec fn deep_view(&self) -> IndexFileModel {
        IndexFileModel {
            folder_id: self.folder_id,
            filename: self.filename@,
            file_size: self.file_size,
            attributes: self.attributes.deep_view(),
        }
    }
}

impl DeepView for IndexRow {
    type V = IndexRowModel;

    open spec fn deep_view(&self) -> IndexRowModel {
        IndexRowModel {
            file: match self.file {
                Some(f) => Some(f.deep_view()),
                None => None,
            },
            alias: self.alias@,
            is_buddy_only: self.is_buddy_only,
        }
    }
}

/// The listing so far: the directories seen by all and by buddies only,
/// the files of the directory being filled, its folder's number, its path,
/// and whether the last file was for buddies only.
pub struct ListState {
    pub dirs: Seq<DirectoryModel>,
    pub privs: Seq<DirectoryModel>,
    pub files: Seq<FileModel>,
    pub previous: Option<i64>,
    pub path: Option<Seq<char>>,
    pub last_buddy: bool,
}

/// A file of the listing.
pub open spec fn listed_file(f: IndexFileModel) -> FileModel {
    FileModel {
        code: 1,
        filename: f.filename,
        file_size: f.file_size,
        extension: extension_of(f.filename),
        attributes: f.attributes,
    }
}

/// A row taken into the listing. A folder without files is listed at once,
/// for all. A file joins the directory being filled; when its folder
/// differs from the previous file's, the directory filled so far is first
/// listed, for buddies only when the new file's folder is, and a new one is
/// begun under the new file's alias.
pub open spec fn list_step(s: ListState, r: IndexRowModel) -> ListState {
    match r.file {
        None => ListState {
            dirs: s.dirs.push(DirectoryModel { path: r.alias, files: Seq::empty() }),
            ..s
        },
        Some(f) => {
            let path = if s.path is None {
                Some(r.alias)
            } else {
                s.path
            };
            let flush = s.previous is Some && s.previous->0 != f.folder_id && s.files.len() > 0;
            let dir = DirectoryModel { path: path->0, files: s.files };
            ListState {
                dirs: if flush && !r.is_buddy_only {
                    s.dirs.push(dir)
                } else {
                    s.dirs
                },
                privs: if flush && r.is_buddy_only {
                    s.privs.push(dir)
                } else {
                    s.privs
                },
                files: if flush {
                    seq![listed_file(f)]
                } else {
                    s.files.push(listed_file(f))
                },
                previous: Some(f.folder_id),
                path: if flush {
                    Some(r.alias)
                } else {
                    path
                },
                last_buddy: r.is_buddy_only,
            }
        },
    }
}

/// The listing after the rows, one after the other.
pub open spec fn list_rows(rows: Seq<IndexRowModel>) -> ListState
    decreases rows.len(),
{
    if rows.len() == 0 {
        ListState {
            dirs: Seq::empty(),
            privs: Seq::empty(),
            files: Seq::empty(),
            previous: None,
            path: None,
            last_buddy: false,
        }
    } else {
        list_step(list_rows(rows.drop_last()), rows.last())
    }
}

/// The shared file list of the rows: the listing, with the last directory
/// added for buddies only when the last file was.
pub open spec fn file_list_of(rows: Seq<IndexRowModel>) -> SharedFileListResponseModel {
    let s = list_rows(rows);
    let last = DirectoryModel { path: s.path->0, files: s.files };
    SharedFileListResponseModel {
        directories: if s.last_buddy {
            s.dirs
        } else {
            s.dirs.push(last)
        },
        _unknown_0: 0,
        priv_directories: if s.last_buddy {
            s.privs.push(last)
        } else {
            s.privs
        },
    }
}

proof fn lemma_list_path(rows: Seq<IndexRowModel>)
    ensures
        (exists|i: int| 0 <= i < rows.len() && (#[trigger] rows[i]).file is Some) ==> list_rows(
            rows,
        ).path is Some,
        list_rows(rows).previous is Some ==> list_rows(rows).path is Some,
        list_rows(rows).files.len() > 0 ==> list_rows(rows).previous is Some,
    decreases rows.len(),
{
    if rows.len() > 0 {
        lemma_list_path(rows.drop_last());
        if exists|i: int| 0 <= i < rows.len() && (#[trigger] rows[i]).file is Some {
            let i = choose|i: int| 0 <= i < rows.len() && (#[trigger] rows[i]).file is Some;
            if i < rows.len() - 1 {
                assert(rows.drop_last()[i] == rows[i]);
            }
        }
    }
}

/// The number of files in the directories.
pub open spec fn files_in(d: Seq<DirectoryModel>) -> nat
    decreases d.len(),
{
    if d.len() == 0 {
        0
    } else {
        files_in(d.drop_last()) + d.last().files.len()
    }
}

/// The number of rows that hold a file.
pub open spec fn file_rows(rows: Seq<IndexRowModel>) -> nat
    decreases rows.len(),
{
    if rows.len() == 0 {
        0
    } else {
        file_rows(rows.drop_last()) + (if rows.last().file is Some {
            1nat
        } else {
            0nat
        })
    }
}

proof fn lemma_files_in_push(d: Seq<DirectoryModel>, x: DirectoryModel)
    ensures
        files_in(d.push(x)) == files_in(d) + x.files.len(),
{
    assert(d.push(x).drop_last() =~= d);
}

proof fn lemma_list_counts(rows: Seq<IndexRowModel>)
    ensures
        files_in(list_rows(rows).dirs) + files_in(list_rows(rows).privs) + list_rows(rows).files.len()
            == file_rows(rows),
    decreases rows.len(),
{
    if rows.len() > 0 {
        lemma_list_counts(rows.drop_last());
        let s = list_rows(rows.drop_last());
        let r = rows.last();
        match r.file {
            None => {
                lemma_files_in_push(s.dirs, DirectoryModel { path: r.alias, files: Seq::empty() });
            },
            Some(f) => {
                let path = if s.path is None {
                    Some(r.alias)
                } else {
                    s.path
                };
                let dir = DirectoryModel { path: path->0, files: s.files };
                lemma_files_in_push(s.dirs, dir);
                lemma_files_in_push(s.privs, dir);
            },
        }
    }
}

/// The shared file list holds every file of the rows: the files of its
/// directories, seen by all or by buddies only, are as many as the rows
/// that hold a file.
pub proof fn lemma_file_list_keeps_files(rows: Seq<IndexRowModel>)
    ensures
        files_in(file_list_of(rows).directories) + files_in(file_list_of(rows).priv_directories)
            == file_rows(rows),
{
    lemma_list_counts(rows);
    let s = list_rows(rows);
    let last = DirectoryModel { path: s.path->0, files: s.files };
    lemma_files_in_push(s.dirs, last);
    lemma_files_in_push(s.privs, last);
}

/// The shared file list of the rows of the index (see `file_list_of`).
pub fn file_list(rows: Vec<IndexRow>) -> (r: SharedFileListResponse)
    requires
        exists|i: int| 0 <= i < rows@.len() && (#[trigger] rows@[i]).file is Some,
    ensures
        r.deep_view() == file_list_of(rows.deep_view()),
{
    let ghost model = rows.deep_view();
    proof {
        let i = choose|i: int| 0 <= i < rows@.len() && (#[trigger] rows@[i]).file is Some;
        assert(model[i].file is Some);
        lemma_list_path(model);
    }
    let mut directories: Vec<Directory> = Vec::new();
    let mut priv_directories: Vec<Directory> = Vec::new();
    let mut dir_files: Vec<File> = Vec::new();
    let mut previous_id: Option<i64> = None;
    let mut dir_path: Option<String> = None;
    let mut last_is_buddy_only = false;
    let mut rest = rows;
    let n = rest.len();
    let mut i: usize = 0;
    assert(model.skip(0) =~= model);
    assert(model.take(0) =~= Seq::<IndexRowModel>::empty());
    while i < n
        invariant
            n == model.len(),
            i <= n,
            rest.deep_view() == model.skip(i as int),
            ({
                let s = list_rows(model.take(i as int));
                &&& directories.deep_view() == s.dirs
                &&& priv_directories.deep_view() == s.privs
                &&& dir_files.deep_view() == s.files
                &&& previous_id == s.previous
                &&& match dir_path {
                    Some(p) => s.path == Some(p@),
                    None => s.path is None,
                }
                &&& last_is_buddy_only == s.last_buddy
            }),
        decreases n - i,
    {
        proof {
            lemma_list_path(model.take(i as int));
        }
        assert(rest@.len() > 0) by {
            assert(rest.deep_view().len() == n - i);
        }
        let ghost before = rest.deep_view();
        let ghost s = list_rows(model.take(i as int));
        let row = rest.remove(0);
        let ghost rv = row.deep_view();
        assert(rv == model[i as int]) by {
            assert(before[0] == model[i as int]);
        }
        assert(rest.deep_view() =~= model.skip(i + 1)) by {
            assert(rest.deep_view() =~= before.drop_first());
        }
        assert(model.take(i + 1).drop_last() =~= model.take(i as int));
        assert(list_rows(model.take(i + 1)) == list_step(s, rv));
        let IndexRow { file, alias, is_buddy_only } = row;
        match file {
            None => {
                let ghost before_dirs = directories.deep_view();
                let empty: Vec<File> = Vec::new();
                assert(empty.deep_view() =~= Seq::<FileModel>::empty());
                directories.push(Directory { path: alias, files: empty });
                assert(directories.deep_view() =~= before_dirs.push(
                    DirectoryModel { path: rv.alias, files: Seq::empty() },
                ));
            },
            Some(f) => {
                let ghost fv = f.deep_view();
                let IndexFile { folder_id, filename, file_size, attributes } = f;
                if dir_path.is_none() {
                    dir_path = Some(alias.clone());
                }
                let flush = match previous_id {
                    Some(p) => p != folder_id && dir_files.len() > 0,
                    None => false,
                };
                previous_id = Some(folder_id);
                if flush {
                    let mut files: Vec<File> = Vec::new();
                    std::mem::swap(&mut files, &mut dir_files);
                    let path = match dir_path.take() {
                        Some(p) => p,
                        None => String::new(),
                    };
                    let dir = Directory { path, files };
                    let ghost dv = dir.deep_view();
                    if is_buddy_only {
                        let ghost bp = priv_directories.deep_view();
                        priv_directories.push(dir);
                        assert(priv_directories.deep_view() =~= bp.push(dv));
                    } else {
                        let ghost bd = directories.deep_view();
                        directories.push(dir);
                        assert(directories.deep_view() =~= bd.push(dv));
                    }
                    dir_path = Some(alias);
                }
                let ext = extension(filename.as_str());
                let file = File { code: 1, filename, file_size, extension: ext, attributes };
                assert(file.deep_view() == listed_file(fv));
                let ghost bf = dir_files.deep_view();
                dir_files.push(file);
                assert(dir_files.deep_view() =~= bf.push(listed_file(fv)));
                last_is_buddy_only = is_buddy_only;
            },
        }
        i = i + 1;
    }
    assert(model.take(n as int) =~= model);
    let path = match dir_path {
        Some(p) => p,
        None => String::new(),
    };
    let last_dir = Directory { path, files: dir_files };
    let ghost lv = last_dir.deep_view();
    if last_is_buddy_only {
        let ghost bp = priv_directories.deep_view();
        priv_directories.push(last_dir);
        assert(priv_directories.deep_view() =~= bp.push(lv));
    } else {
        let ghost bd = directories.deep_view();
        directories.push(last_dir);
        assert(directories.deep_view() =~= bd.push(lv));
    }
    SharedFileListResponse { directories, _unknown_0: 0, priv_directories }
}

/// A file found by a search: named by its folder's alias and its own name,
/// with its size (0 when unknown), its extension and attributes.
pub fn search_result(folder_alias: &str, filename: &str, file_size: Option<u64>, attributes: Vec<FileAttribute>) -> (r: File)
    ensures
        r.deep_view() == (FileModel {
            code: 1,
            filename: folder_alias@ + seq!['\\'] + filename@,
            file_size: match file_size {
                Some(n) => n,
                None => 0,
            },
            extension: extension_of(filename@),
            attributes: attributes.deep_view(),
        }),
{
    let mut name = String::new();
    push_str(&mut name, folder_alias);
    push_char(&mut name, '\\');
    push_str(&mut name, filename);
    assert(name@ =~= folder_alias@ + seq!['\\'] + filename@);
    let size = match file_size {
        Some(n) => n,
        None => 0,
    };
    File { code: 1, filename: name, file_size: size, extension: extension(filename), attributes }
}

/// A file found by a search, as the index gives it: its folder's alias,
/// its name, whether its folder is shared with buddies only, its size if
/// known, and its attributes.
#[derive(Debug)]
pub struct SearchRow {
    pub folder_alias: String,
    pub filename: String,
    pub is_buddy_only: bool,
    pub file_size: Option<u64>,
    pub attributes: Vec<FileAttribute>,
}

/// The file that a search row gives (see `search_result`).
pub open spec fn result_of(row: SearchRow) -> FileModel {
    FileModel {
        code: 1,
        filename: row.folder_alias@ + seq!['\\'] + row.filename@,
        file_size: match row.file_size {
            Some(n) => n,
            None => 0,
        },
        extension: extension_of(row.filename@),
        attributes: row.attributes.deep_view(),
    }
}

/// The files of the rows whose folders are shared with buddies only
/// (`buddy`) or with everyone (`!buddy`), in the rows' order.
pub open spec fn results_shared(rows: Seq<SearchRow>, buddy: bool) -> Seq<FileModel>
    decreases rows.len(),
{
    if rows.len() == 0 {
        Seq::empty()
    } else {
        let rest = results_shared(rows.drop_last(), buddy);
        if rows.last().is_buddy_only == buddy {
            rest.push(result_of(rows.last()))
        } else {
            rest
        }
    }
}

/// The files that a search found, in the index's order: those shared with
/// everyone, and those shared with buddies only.
pub fn search_results(rows: Vec<SearchRow>) -> (r: (Vec<File>, Vec<File>))
    ensures
        r.0.deep_view() == results_shared(rows@, false),
        r.1.deep_view() == results_shared(rows@, true),
{
    let ghost all = rows@;
    let mut public: Vec<File> = Vec::new();
    let mut private: Vec<File> = Vec::new();
    let mut rest = rows;
    let n = rest.len();
    let mut k: usize = 0;
    assert(all.skip(0) =~= all);
    while k < n
        invariant
            n == all.len(),
            k <= n,
            rest@ == all.skip(k as int),
            public.deep_view() == results_shared(all.take(k as int), false),
            private.deep_view() == results_shared(all.take(k as int), true),
        decreases n - k,
    {
        assert(rest@[0] == all[k as int]);
        assert(all.take(k + 1).drop_last() =~= all.take(k as int));
        assert(all.take(k + 1).last() == all[k as int]);
        let row = rest.remove(0);
        assert(rest@ =~= all.skip(k + 1));
        let ghost rv = row;
        let buddy = row.is_buddy_only;
        let file = search_result(row.folder_alias.as_str(), row.filename.as_str(), row.file_size, row.attributes);
        assert(file.deep_view() == result_of(rv));
        if buddy {
            let ghost b = private.deep_view();
            private.push(file);
            assert(private.deep_view() =~= b.push(result_of(rv)));
        } else {
            let ghost b = public.deep_view();
            public.push(file);
            assert(public.deep_view() =~= b.push(result_of(rv)));
        }
        k = k + 1;
    }
    assert(all.take(n as int) =~= all);
    (public, private)
}

/// An entry that a walk of a shared folder found: the path of its folder
/// below the shared folder (for a file, the folder holding it; for a
/// folder, the folder itself), names joined by `\`, and, for a file, its
/// name.
#[derive(Debug)]
pub struct WalkedEntry {
    pub relative: String,
    pub file_name: Option<String>,
}

/// What the index stores of a walked entry: the alias of its folder, and,
/// for a file, its name with the text its search terms are taken from (the
/// folder's alias, `\`, the name).
#[derive(Debug)]
pub struct IndexEntry {
    pub folder_alias: String,
    pub file: Option<(String, String)>,
}

/// What the index stores of a walked entry of the shared folder `alias`.
pub open spec fn index_entry_of(alias: Seq<char>, e: WalkedEntry) -> (Seq<char>, Option<(Seq<char>, Seq<char>)>) {
    let folder = subfolder_alias_of(alias, e.relative@);
    (
        folder,
        match e.file_name {
            Some(name) => Some((name@, folder + seq!['\\'] + name@)),
            None => None,
        },
    )
}

/// The view of a stored entry.
pub open spec fn index_entry_view(e: IndexEntry) -> (Seq<char>, Option<(Seq<char>, Seq<char>)>) {
    (
        e.folder_alias@,
        match e.file {
            Some((name, text)) => Some((name@, text@)),
            None => None,
        },
    )
}

/// What the index stores of the entries that a walk of the shared folder
/// `alias` found, one for each, in the walk's order.
pub fn index_entries(alias: &str, entries: &Vec<WalkedEntry>) -> (r: Vec<IndexEntry>)
    ensures
        r@.len() == entries@.len(),
        forall|k: int|
            0 <= k < r@.len() ==> index_entry_view(#[trigger] r@[k]) == index_entry_of(alias@, entries@[k]),
{
    let mut r: Vec<IndexEntry> = Vec::new();
    let n = entries.len();
    let mut k: usize = 0;
    while k < n
        invariant
            n == entries@.len(),
            k <= n,
            r@.len() == k,
            forall|j: int|
                0 <= j < k ==> index_entry_view(#[trigger] r@[j]) == index_entry_of(alias@, entries@[j]),
        decreases n - k,
    {
        let e = &entries[k];
        let folder = subfolder_alias(alias, e.relative.as_str());
        let file = match &e.file_name {
            Some(name) => {
                let mut text = folder.clone();
                push_char(&mut text, '\\');
                push_str(&mut text, name.as_str());
                assert(text@ =~= folder@ + seq!['\\'] + name@);
                Some((name.clone(), text))
            },
            None => None,
        };
        r.push(IndexEntry { folder_alias: folder, file });
        k = k + 1;
    }
    r
}

/// The alias of a folder below a shared folder: the shared folder's alias,
/// then `\` and the path below it when there is one.
pub open spec fn subfolder_alias_of(alias: Seq<char>, relative: Seq<char>) -> Seq<char> {
    if relative.len() == 0 {
        alias
    } else {
        alias + seq!['\\'] + relative
    }
}

/// The alias of a folder below a shared folder (see `subfolder_alias_of`).
pub fn subfolder_alias(alias: &str, relative: &str) -> (r: String)
    ensures
        r@ == subfolder_alias_of(alias@, relative@),
{
    let mut r = String::new();
    push_str(&mut r, alias);
    if !relative.is_empty() {
        push_char(&mut r, '\\');
        push_str(&mut r, relative);
        assert(r@ =~= alias@ + seq!['\\'] + relative@);
    } else {
        assert(r@ =~= alias@);
    }
    r
}

/// The first position of `c` in `s`.
pub open spec fn first_index_of(s: Seq<char>, c: char) -> Option<int>
    decreases s.len(),
{
    if s.len() == 0 {
        None
    } else if s[0] == c {
        Some(0)
    } else {
        match first_index_of(s.drop_first(), c) {
            Some(i) => Some(i + 1),
            None => None,
        }
    }
}

proof fn lemma_first_index(s: Seq<char>, c: char)
    ensures
        first_index_of(s, c) matches Some(i) ==> 0 <= i < s.len() && s[i] == c && forall|k: int|
            0 <= k < i ==> s[k] != c,
        first_index_of(s, c) is None ==> forall|k: int| 0 <= k < s.len() ==> s[k] != c,
    decreases s.len(),
{
    if s.len() > 0 && s[0] != c {
        lemma_first_index(s.drop_first(), c);
        assert forall|k: int| 0 < k < s.len() implies s[k] == s.drop_first()[k - 1] by {}
    }
}

/// A file named through an alias, split into the alias, the path below the
/// shared folder, and the file's name: at the last `\` and then at the
/// first `\` before it. Nothing when either is missing.
pub open spec fn split_aliased_of(aliased: Seq<char>) -> Option<(Seq<char>, Seq<char>, Seq<char>)> {
    match last_index_of(aliased, '\\') {
        Some(j) => {
            let folder = aliased.take(j);
            match first_index_of(folder, '\\') {
                Some(i) => Some((folder.take(i), folder.skip(i + 1), aliased.skip(j + 1))),
                None => None,
            }
        },
        None => None,
    }
}

/// The first position before `end` that holds `c`, or `end`.
fn first_position(chars: &Vec<char>, end: usize, c: char) -> (i: usize)
    requires
        end <= chars@.len(),
    ensures
        i <= end,
        forall|k: int| 0 <= k < i ==> chars@[k] != c,
        i < end ==> chars@[i as int] == c,
{
    let mut i: usize = 0;
    while i < end
        invariant
            end <= chars@.len(),
            i <= end,
            forall|k: int| 0 <= k < i ==> chars@[k] != c,
        decreases end - i,
    {
        if chars[i] == c {
            return i;
        }
        i = i + 1;
    }
    i
}

/// A file named through an alias, split (see `split_aliased_of`).
pub fn split_aliased(aliased: &str) -> (r: Option<(String, String, String)>)
    ensures
        match split_aliased_of(aliased@) {
            Some((a, b, c)) => r matches Some((x, y, z)) && x@ == a && y@ == b && z@ == c,
            None => r is None,
        },
{
    let chars = chars_of(aliased);
    proof {
        lemma_last_index_in_range(chars@, '\\');
    }
    match last_index_of_exec(&chars, '\\') {
        Some(j) => {
            assert(j < chars@.len());
            let ghost folder = chars@.take(j as int);
            proof {
                lemma_first_index(folder, '\\');
            }
            let i = first_position(&chars, j, '\\');
            if i == j {
                assert(first_index_of(folder, '\\') is None) by {
                    if first_index_of(folder, '\\') is Some {
                        let k = first_index_of(folder, '\\')->0;
                        assert(folder[k] == chars@[k]);
                    }
                }
                return None;
            }
            assert(chars@[i as int] == '\\');
            assert(first_index_of(folder, '\\') == Some(i as int)) by {
                if first_index_of(folder, '\\') is None {
                    assert(folder[i as int] == chars@[i as int]);
                } else {
                    let k = first_index_of(folder, '\\')->0;
                    if k < i {
                        assert(folder[k] == chars@[k]);
                    } else if k > i {
                        assert(folder[i as int] == chars@[i as int]);
                    }
                }
            }
            let a = string_of(&chars, 0, i);
            let b = string_of(&chars, i + 1, j);
            let len = chars.len();
            assert(j < len);
            let c = string_of(&chars, j + 1, len);
            assert(chars@.subrange(0, i as int) =~= folder.take(i as int));
            assert(chars@.subrange(i + 1, j as int) =~= folder.skip(i + 1));
            assert(chars@.subrange(j + 1, chars@.len() as int) =~= chars@.skip(j + 1));
            Some((a, b, c))
        },
        None => None,
    }
}

} // verus!
