//! The chat rooms window: the order of the list of all rooms, the rows of
//! the sidebar that lists the users of the room shown, and the rooms joined,
//! left and written to from the window.
use vstd::prelude::*;

use crate::constants::ByteSize;
use crate::gui::widgets::chatroom::ChatroomState;
use crate::gui::widgets::dropdown::{Dropdown, DropdownHeader};
use crate::gui::widgets::input::{Input, InputType};
use crate::gui::widgets::table::{items_view, ColumnData, ItemView, TableItem, TableWidget};
use crate::gui::widgets::tabs::Tabs;
use crate::gui::windows::filesearch::{insert_entry, is_sorted, lemma_sort_entries, sort_entries, Entry};
use crate::messages::server::UserStats;

verus! {

// ---------------------------------------------------------------------------
// The list of rooms
// ---------------------------------------------------------------------------

/// Inserts a room after every room with no more users than it has, so that
/// rooms with as many users keep their order.
pub open spec fn insert_by_users(s: Seq<(Seq<char>, u32)>, x: (Seq<char>, u32)) -> Seq<(Seq<char>, u32)>
    decreases s.len(),
{
    if s.len() == 0 {
        seq![x]
    } else if x.1 < s[0].1 {
        seq![x] + s
    } else {
        seq![s[0]] + insert_by_users(s.drop_first(), x)
    }
}

/// The rooms sorted by their numbers of users, fewest first, a stable sort.
pub open spec fn sort_by_users(s: Seq<(Seq<char>, u32)>) -> Seq<(Seq<char>, u32)>
    decreases s.len(),
{
    if s.len() == 0 {
        s
    } else {
        insert_by_users(sort_by_users(s.drop_last()), s.last())
    }
}

/// The names of the rooms, most users first: the stable sort by the number
/// of users, turned round.
pub open spec fn rooms_order(s: Seq<(Seq<char>, u32)>) -> Seq<Seq<char>> {
    sort_by_users(s).reverse().map_values(|e: (Seq<char>, u32)| e.0)
}

proof fn lemma_insert_by_users_at(s: Seq<(Seq<char>, u32)>, x: (Seq<char>, u32), j: int)
    requires
        0 <= j <= s.len(),
        forall|k: int| 0 <= k < j ==> !(x.1 < #[trigger] s[k].1),
        j < s.len() ==> x.1 < s[j].1,
    ensures
        insert_by_users(s, x) == s.take(j).push(x) + s.skip(j),
    decreases j,
{
    if s.len() == 0 {
        assert(s.take(j).push(x) + s.skip(j) =~= seq![x]);
    } else if j == 0 {
        assert(s.take(j).push(x) + s.skip(j) =~= seq![x] + s);
    } else {
        let t = s.drop_first();
        assert forall|k: int| 0 <= k < j - 1 implies !(x.1 < #[trigger] t[k].1) by {
            assert(t[k] == s[k + 1]);
        }
        if j - 1 < t.len() {
            assert(t[j - 1] == s[j]);
        }
        lemma_insert_by_users_at(t, x, j - 1);
        assert(!(x.1 < s[0].1));
        assert(seq![s[0]] + (t.take(j - 1).push(x) + t.skip(j - 1)) =~= s.take(j).push(x)
            + s.skip(j));
    }
}

proof fn lemma_room_view(v: Vec<(String, u32)>, i: int)
    requires
        0 <= i < v@.len(),
    ensures
        v.deep_view()[i] == (v@[i].0@, v@[i].1),
{
}

fn room_position(v: &Vec<(String, u32)>, x: &(String, u32)) -> (j: usize)
    ensures
        j <= v@.len(),
        forall|k: int| 0 <= k < j ==> !(x.1 < #[trigger] v.deep_view()[k].1),
        j < v@.len() ==> x.1 < v.deep_view()[j as int].1,
{
    let n = v.len();
    let mut j: usize = 0;
    while j < n
        invariant
            n == v@.len(),
            j <= n,
            forall|k: int| 0 <= k < j ==> !(x.1 < #[trigger] v.deep_view()[k].1),
        decreases n - j,
    {
        proof {
            lemma_room_view(*v, j as int);
        }
        if x.1 < v[j].1 {
            return j;
        }
        j = j + 1;
    }
    j
}

fn insert_room(v: &mut Vec<(String, u32)>, x: (String, u32))
    ensures
        final(v).deep_view() == insert_by_users(old(v).deep_view(), x.deep_view()),
{
    let ghost xv = x.deep_view();
    let j = room_position(v, &x);
    proof {
        lemma_insert_by_users_at(old(v).deep_view(), xv, j as int);
    }
    let ghost before = v.deep_view();
    v.insert(j, x);
    assert(v.deep_view() =~= before.take(j as int).push(xv) + before.skip(j as int));
}

/// The rooms' names, most users first; rooms with as many users come in
/// the reverse of the order given.
pub fn rooms_by_users(rooms: Vec<(String, u32)>) -> (r: Vec<String>)
    ensures
        r.deep_view() == rooms_order(rooms.deep_view()),
{
    let ghost keys = rooms.deep_view();
    let mut sorted: Vec<(String, u32)> = Vec::new();
    let mut rest = rooms;
    let n = rest.len();
    let mut i: usize = 0;
    assert(keys.skip(0) =~= keys);
    while i < n
        invariant
            n == keys.len(),
            i <= n,
            rest.deep_view() == keys.skip(i as int),
            sorted.deep_view() == sort_by_users(keys.take(i as int)),
        decreases n - i,
    {
        assert(rest@.len() > 0) by {
            assert(rest.deep_view().len() == n - i);
        }
        let ghost before = rest.deep_view();
        let x = rest.remove(0);
        assert(rest.deep_view() =~= keys.skip(i + 1)) by {
            assert(rest.deep_view() =~= before.drop_first());
        }
        assert(x.deep_view() == keys[i as int]) by {
            assert(before[0] == keys[i as int]);
        }
        insert_room(&mut sorted, x);
        assert(keys.take(i + 1).drop_last() =~= keys.take(i as int));
        i = i + 1;
    }
    assert(keys.take(n as int) =~= keys);
    let ghost s = sorted.deep_view();
    let mut r: Vec<String> = Vec::new();
    let mut k: usize = sorted.len();
    while k > 0
        invariant
            k <= sorted@.len(),
            s == sorted.deep_view(),
            s.len() == sorted@.len(),
            r.deep_view() == s.skip(k as int).reverse().map_values(|e: (Seq<char>, u32)| e.0),
        decreases k,
    {
        k = k - 1;
        let name = sorted[k].0.clone();
        proof {
            lemma_room_view(sorted, k as int);
        }
        let ghost before = r.deep_view();
        assert(name@ == s[k as int].0);
        r.push(name);
        assert(r.deep_view() =~= before.push(s[k as int].0));
        assert(s.skip(k as int).reverse() =~= s.skip(k + 1).reverse().push(s[k as int]));
        assert(r.deep_view() =~= s.skip(k as int).reverse().map_values(
            |e: (Seq<char>, u32)| e.0,
        ));
    }
    assert(s.skip(0) =~= s);
    r
}

/// Whether no room has more users than a room after it.
pub open spec fn fewest_first(s: Seq<(Seq<char>, u32)>) -> bool {
    forall|i: int, j: int| 0 <= i < j < s.len() ==> #[trigger] s[i].1 <= #[trigger] s[j].1
}

proof fn lemma_insert_by_users(s: Seq<(Seq<char>, u32)>, x: (Seq<char>, u32))
    requires
        fewest_first(s),
    ensures
        fewest_first(insert_by_users(s, x)),
        insert_by_users(s, x).to_multiset() == s.to_multiset().insert(x),
    decreases s.len(),
{
    broadcast use vstd::seq_lib::group_to_multiset_ensures, vstd::seq_lib::lemma_multiset_commutative;

    let u = insert_by_users(s, x);
    if s.len() == 0 {
        assert(seq![x] =~= Seq::<(Seq<char>, u32)>::empty().push(x));
    } else if x.1 < s[0].1 {
        assert forall|i: int, j: int| 0 <= i < j < u.len() implies #[trigger] u[i].1
            <= #[trigger] u[j].1 by {
            if i > 0 {
                assert(u[i] == s[i - 1] && u[j] == s[j - 1]);
            } else {
                assert(u[j] == s[j - 1]);
            }
        }
        assert(seq![x] =~= Seq::<(Seq<char>, u32)>::empty().push(x));
        assert(u.to_multiset() =~= s.to_multiset().insert(x));
    } else {
        let t = s.drop_first();
        assert(fewest_first(t)) by {
            assert forall|i: int, j: int| 0 <= i < j < t.len() implies #[trigger] t[i].1
                <= #[trigger] t[j].1 by {
                assert(t[i] == s[i + 1] && t[j] == s[j + 1]);
            }
        }
        lemma_insert_by_users(t, x);
        let w = insert_by_users(t, x);
        assert(u =~= seq![s[0]] + w);
        assert forall|k: int| 0 <= k < w.len() implies s[0].1 <= #[trigger] w[k].1 by {
            assert(w.to_multiset().count(w[k]) > 0);
            assert(t.to_multiset().insert(x).count(w[k]) > 0);
            if w[k] != x {
                assert(t.contains(w[k]));
                let m = choose|m: int| 0 <= m < t.len() && t[m] == w[k];
                assert(t[m] == s[m + 1]);
            }
        }
        assert forall|i: int, j: int| 0 <= i < j < u.len() implies #[trigger] u[i].1
            <= #[trigger] u[j].1 by {
            if i > 0 {
                assert(u[i] == w[i - 1] && u[j] == w[j - 1]);
            } else {
                assert(u[j] == w[j - 1]);
            }
        }
        assert(seq![s[0]] + t =~= s);
        assert(u.to_multiset() =~= s.to_multiset().insert(x));
    }
}

/// The list of rooms holds each room as often as it was given, and a room
/// comes before every room with fewer users.
pub proof fn lemma_rooms_order(s: Seq<(Seq<char>, u32)>)
    ensures
        sort_by_users(s).to_multiset() == s.to_multiset(),
        forall|i: int, j: int|
            0 <= i < j < s.len() ==> #[trigger] sort_by_users(s).reverse()[i].1
                >= #[trigger] sort_by_users(s).reverse()[j].1,
        rooms_order(s).len() == s.len(),
    decreases s.len(),
{
    broadcast use vstd::seq_lib::group_to_multiset_ensures;

    lemma_sort_by_users(s);
    let t = sort_by_users(s);
    assert(t.len() == s.len()) by {
        assert(t.to_multiset().len() == t.len());
    }
    assert forall|i: int, j: int| 0 <= i < j < s.len() implies #[trigger] t.reverse()[i].1
        >= #[trigger] t.reverse()[j].1 by {
        assert(t.reverse()[i] == t[t.len() - 1 - i]);
        assert(t.reverse()[j] == t[t.len() - 1 - j]);
    }
}

proof fn lemma_sort_by_users(s: Seq<(Seq<char>, u32)>)
    ensures
        sort_by_users(s).to_multiset() == s.to_multiset(),
        fewest_first(sort_by_users(s)),
    decreases s.len(),
{
    broadcast use vstd::seq_lib::group_to_multiset_ensures;

    if s.len() > 0 {
        lemma_sort_by_users(s.drop_last());
        lemma_insert_by_users(sort_by_users(s.drop_last()), s.last());
        assert(s.drop_last().push(s.last()) =~= s);
    }
}

// ---------------------------------------------------------------------------
// The users' sidebar
// ---------------------------------------------------------------------------

/// A character in ASCII lower case: `A` to `Z` become `a` to `z`, the rest
/// stay.
pub open spec fn ascii_lower(c: char) -> char {
    if 'A' <= c <= 'Z' {
        ((c as u32) + 32) as char
    } else {
        c
    }
}

/// A text in ASCII lower case.
pub open spec fn ascii_lower_text(s: Seq<char>) -> Seq<char> {
    s.map_values(|c: char| ascii_lower(c))
}

fn ascii_lower_chars(s: &str) -> (r: Vec<char>)
    ensures
        r@ == ascii_lower_text(s@),
{
    let mut r: Vec<char> = Vec::new();
    for c in it: s.chars()
        invariant
            r@ == ascii_lower_text(it.seq().take(it.index() as int)),
    {
        let l = if 'A' <= c && c <= 'Z' {
            ((c as u8) + 32) as char
        } else {
            c
        };
        assert(l == ascii_lower(c)) by {
            if 'A' <= c && c <= 'Z' {
                assert((c as u8) as u32 == c as u32);
            }
        }
        r.push(l);
        assert(it.seq().take(it.index() + 1) =~= it.seq().take(it.index() as int).push(c));
    }
    r
}

/// Each user's name in lower case, with the user's position.
pub open spec fn user_keys(users: Seq<(String, UserStats)>) -> Seq<Entry> {
    Seq::new(users.len(), |i: int| (ascii_lower_text(users[i].0@), i as u64))
}

/// The positions of the users, sorted by their names in lower case; users
/// whose names differ only in case keep their order.
pub open spec fn sidebar_order(users: Seq<(String, UserStats)>) -> Seq<Entry> {
    sort_entries(user_keys(users))
}

/// The sidebar's row for a user: the name, the average upload speed as a
/// size, and the number of files; no rows below it, shut.
pub open spec fn is_sidebar_row(item: TableItem, user: (String, UserStats)) -> bool {
    &&& item.content@.len() == 3
    &&& item.content@[0] matches ColumnData::String(n) && n@ == user.0@
    &&& item.content@[1] == ColumnData::ByteSize(ByteSize(user.1.avg_speeds as u64))
    &&& item.content@[2] == ColumnData::Usize(user.1.num_of_files as usize)
    &&& item.children@.len() == 0
    &&& !item.is_open
}

/// Whether the rows are the sidebar's for the users: one row for each
/// user, in the order of `sidebar_order`.
pub open spec fn lists_users(rows: Seq<TableItem>, users: Seq<(String, UserStats)>) -> bool {
    &&& rows.len() == users.len()
    &&& forall|i: int|
        0 <= i < rows.len() ==> {
            &&& sidebar_order(users)[i].1 < users.len()
            &&& is_sidebar_row(#[trigger] rows[i], users[sidebar_order(users)[i].1 as int])
        }
}

/// The sidebar lists every user once, by names in lower case.
pub proof fn lemma_sidebar_order(users: Seq<(String, UserStats)>)
    ensures
        sidebar_order(users).to_multiset() == user_keys(users).to_multiset(),
        is_sorted(sidebar_order(users)),
{
    lemma_sort_entries(user_keys(users));
}

/// The rows of the sidebar for the users of a room, sorted by name in
/// lower case.
pub fn sidebar_items(state: &ChatroomState) -> (r: Vec<TableItem>)
    ensures
        lists_users(r@, state.users_seq()),
{
    broadcast use vstd::seq_lib::group_to_multiset_ensures;

    let users = state.users();
    let ghost keys = user_keys(users@);
    let n = users.len();
    let mut order: Vec<(Vec<char>, u64)> = Vec::new();
    let mut i: usize = 0;
    while i < n
        invariant
            n == users@.len(),
            i <= n,
            keys == user_keys(users@),
            order.deep_view() == sort_entries(keys.take(i as int)),
        decreases n - i,
    {
        let name = ascii_lower_chars(users[i].0.as_str());
        let entry = (name, i as u64);
        assert(keys[i as int] == entry.deep_view()) by {
            assert(entry.deep_view().0 == name@);
        }
        insert_entry(&mut order, entry);
        assert(keys.take(i + 1).drop_last() =~= keys.take(i as int));
        i = i + 1;
    }
    assert(keys.take(n as int) =~= keys);
    let ghost sorted = order.deep_view();
    proof {
        lemma_sort_entries(keys);
        assert(sorted.len() == n) by {
            assert(sorted.to_multiset().len() == sorted.len());
            assert(keys.to_multiset().len() == keys.len());
        }
        assert forall|k: int| 0 <= k < sorted.len() implies #[trigger] sorted[k].1 < n by {
            assert(sorted.to_multiset().count(sorted[k]) > 0);
            assert(keys.contains(sorted[k]));
            let m = choose|m: int| 0 <= m < keys.len() && keys[m] == sorted[k];
        }
    }
    let mut r: Vec<TableItem> = Vec::new();
    let mut k: usize = 0;
    while k < n
        invariant
            n == users@.len(),
            n == order@.len(),
            sorted == order.deep_view(),
            sorted == sidebar_order(users@),
            forall|m: int| 0 <= m < sorted.len() ==> #[trigger] sorted[m].1 < n,
            k <= n,
            r@.len() == k,
            forall|m: int|
                0 <= m < k ==> is_sidebar_row(#[trigger] r@[m], users@[sorted[m].1 as int]),
        decreases n - k,
    {
        let j = order[k].1;
        assert(j == sorted[k as int].1);
        let j = j as usize;
        let name = users[j].0.clone();
        let stats = &users[j].1;
        let item = TableItem::new(
            vec![
                ColumnData::String(name),
                ColumnData::ByteSize(ByteSize(stats.avg_speeds as u64)),
                ColumnData::Usize(stats.num_of_files as usize),
            ],
            Vec::new(),
        );
        r.push(item);
        k = k + 1;
    }
    r
}

// ---------------------------------------------------------------------------
// The window
// ---------------------------------------------------------------------------

/// The chat rooms window, apart from each room's messages and users: the
/// tabs of the rooms joined, the sidebar of the users of the room shown,
/// the menu of all rooms, the message being typed, and the widget in
/// focus.
#[derive(Debug)]
pub struct ChatroomsWindow {
    pub title: String,
    pub room_name_tabs: Tabs,
    pub room_sidebar: TableWidget,
    pub rooms_dropdown: Dropdown,
    pub message_input: Input,
    pub focus_index: u8,
}

impl ChatroomsWindow {
    /// A window titled " Chatrooms ", with no room joined, an empty sidebar
    /// of the columns User, Upload Speed and Files, an empty menu titled
    /// "All Rooms", nothing typed, and the tabs in focus.
    pub fn new() -> (r: Self)
        ensures
            r.title@ == " Chatrooms "@,
            r.room_name_tabs.tabs@.len() == 0,
            r.room_sidebar.rows_view().len() == 0,
            r.room_sidebar.headers@.len() == 4,
            r.rooms_dropdown.header matches DropdownHeader::Title(t) && t@ == "All Rooms"@,
            r.rooms_dropdown.children@.len() == 0,
            r.rooms_dropdown.fetched_text is None,
            r.message_input.value@.len() == 0,
            r.message_input.cursor == 0,
            r.message_input.input_string@.len() == 0,
            r.message_input.input_type == InputType::Standard,
            r.focus_index == 0,
    {
        let sidebar = TableWidget::new(
            vec![String::from_str("User"), String::from_str("Upload Speed"), String::from_str("Files")],
            Vec::new(),
            None,
        );
        assert(items_view(sidebar.items@) =~= Seq::<ItemView>::empty());
        ChatroomsWindow {
            title: String::from_str(" Chatrooms "),
            room_name_tabs: Tabs::new(Vec::new()),
            room_sidebar: sidebar,
            rooms_dropdown: Dropdown::new(DropdownHeader::Title(String::from_str("All Rooms")), Vec::new()),
            message_input: Input::default(),
            focus_index: 0,
        }
    }

    /// Lists in the sidebar the users of the room shown, or none when no
    /// room is joined.
    pub fn update_sidebar(&mut self, room: Option<&ChatroomState>)
        requires
            old(self).room_name_tabs.tabs@.len() > 0 ==> room is Some,
        ensures
            old(self).room_name_tabs.tabs@.len() == 0 ==> final(self).room_sidebar.items@.len() == 0,
            old(self).room_name_tabs.tabs@.len() > 0 ==> lists_users(
                final(self).room_sidebar.items@,
                room->0.users_seq(),
            ),
            final(self).room_name_tabs == old(self).room_name_tabs,
            final(self).room_sidebar.length == old(self).room_sidebar.length,
            final(self).room_sidebar.selected_row == old(self).room_sidebar.selected_row,
            final(self).rooms_dropdown == old(self).rooms_dropdown,
            final(self).message_input == old(self).message_input,
    {
        if self.room_name_tabs.tabs.len() > 0 {
            match room {
                Some(state) => {
                    self.room_sidebar.items = sidebar_items(state);
                },
                None => {},
            }
        } else {
            self.room_sidebar.items = Vec::new();
        }
    }

    /// Takes the room chosen in the menu of all rooms: when it has no tab
    /// yet, it gets one and is the room to join. The menu forgets the
    /// choice.
    pub fn join_fetched_room(&mut self) -> (r: Option<String>)
        ensures
            final(self).rooms_dropdown.fetched_text is None,
            match old(self).rooms_dropdown.fetched_text {
                Some(room) => if old(self).room_name_tabs.titles().contains(room@) {
                    r is None && final(self).room_name_tabs == old(self).room_name_tabs
                } else {
                    r == Some(room) && final(self).room_name_tabs.titles()
                        == old(self).room_name_tabs.titles().push(room@)
                },
                None => r is None && final(self).room_name_tabs == old(self).room_name_tabs,
            },
            final(self).room_name_tabs.current == old(self).room_name_tabs.current,
            final(self).room_name_tabs.selected == old(self).room_name_tabs.selected,
            final(self).message_input == old(self).message_input,
    {
        let fetched = self.rooms_dropdown.fetched_text.take();
        match fetched {
            Some(room) => {
                if self.room_name_tabs.has_tab(&room) {
                    None
                } else {
                    self.room_name_tabs.add_tab(room.clone());
                    Some(room)
                }
            },
            None => None,
        }
    }

    /// Takes the room whose tab was just closed: the room to leave.
    pub fn take_removed_room(&mut self) -> (r: Option<String>)
        ensures
            r == old(self).room_name_tabs.removed_tab,
            final(self).room_name_tabs.removed_tab is None,
            final(self).room_name_tabs.tabs == old(self).room_name_tabs.tabs,
            final(self).room_name_tabs.current == old(self).room_name_tabs.current,
            final(self).room_name_tabs.selected == old(self).room_name_tabs.selected,
    {
        self.room_name_tabs.removed_tab.take()
    }

    /// The message typed, to be said in the room shown: the typing is
    /// cleared. Nothing when no room is joined.
    pub fn message_to_send(&mut self) -> (r: Option<(String, String)>)
        requires
            old(self).room_name_tabs.tabs@.len() > 0 ==> old(self).room_name_tabs.current < old(
                self,
            ).room_name_tabs.tabs@.len(),
        ensures
            old(self).room_name_tabs.tabs@.len() == 0 ==> r is None && final(self).message_input
                == old(self).message_input,
            old(self).room_name_tabs.tabs@.len() > 0 ==> r == Some(
                (
                    old(self).room_name_tabs.tabs@[old(self).room_name_tabs.current as int],
                    old(self).message_input.value,
                ),
            ) && final(self).message_input.value@.len() == 0 && final(self).message_input.cursor == 0
                && final(self).message_input.input_string@.len() == 0
                && final(self).message_input.input_type == old(self).message_input.input_type,
            final(self).room_name_tabs == old(self).room_name_tabs,
    {
        match self.room_name_tabs.current_tab() {
            Some(room) => {
                let room = room.clone();
                let message = self.message_input.value.clone();
                self.message_input.clear();
                Some((room, message))
            },
            None => None,
        }
    }
}

} // verus!
