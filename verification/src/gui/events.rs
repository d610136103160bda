//! What the events of the session do to the interface: one step from the
//! interface's state and an event to the next state and what follows.
use vstd::prelude::*;

use crate::gui::widgets::chatroom::{chat_line_of, ChatroomState};
use crate::gui::widgets::dropdown::DropdownItem;
use crate::gui::windows::chatrooms::{lists_users, rooms_by_users, rooms_order, ChatroomsWindow};
use crate::constants::{ByteSize, DownloadStatus, Percentage, Token};
use crate::gui::windows::downloads::{file_added, file_fits, folder_added, folder_fits, DownloadsWindow};
use crate::gui::windows::filesearch::{results_added, results_fit, FileSearchWindow};
use crate::gui::windows::login::{login_result_shown, LoginWindow};
use crate::messages::peer::FileSearchResponse;
use crate::messages::server::UserStats;
use crate::utils::push_str;

verus! {

/// An event of the session that the interface shows.
#[derive(Debug)]
pub enum GuiEvent {
    /// The server answered a login.
    LoginResult { success: bool, reason: Option<String> },
    /// The session ends, to start again or not.
    Quit { restart: bool },
    /// The rooms of the server, with their numbers of users.
    RoomList(Vec<(String, u32)>),
    /// Users in a room, with their statistics.
    UpdateRoom { room: String, stats: Vec<(String, UserStats)> },
    /// A message said in a room, by a user when one is named.
    ChatroomMessage { room: String, username: Option<String>, message: String },
    /// A user's results of a search.
    SearchResults(FileSearchResponse),
    /// Files of a user's folder to download, each with its size and token.
    NewDownloads { username: String, folder: String, files: Vec<(String, ByteSize, Token)>, from_all: bool },
    /// One file of a user's folder to download.
    NewDownload { username: String, folder: String, filename: String, filesize: ByteSize, token: Token },
}

/// What follows a step.
#[derive(Debug, PartialEq, Eq)]
pub enum GuiOutcome {
    /// The interface goes on.
    Continue,
    /// The interface ends, to start again or not.
    Exit { restart: bool },
    /// The interface goes on, and the session is to report the status of
    /// these downloads, each by its full name (folder and file name) and its
    /// token; for a folder, whether all of the user's files were asked for.
    Track { files: Vec<(String, u32)>, from_all: Option<bool> },
}

/// The downloads of a folder's files to report: the full name and token
/// of each.
pub open spec fn to_report(folder: Seq<char>, files: Seq<(String, ByteSize, Token)>) -> Seq<(Seq<char>, u32)> {
    files.map_values(|f: (String, ByteSize, Token)| (folder + f.0@, f.2.0))
}

/// The full name and token of each file of a folder.
fn track_files(folder: &String, files: &Vec<(String, ByteSize, Token)>) -> (r: Vec<(String, u32)>)
    ensures
        r.deep_view() == to_report(folder@, files@),
{
    let mut r: Vec<(String, u32)> = Vec::new();
    let n = files.len();
    let mut k: usize = 0;
    while k < n
        invariant
            n == files@.len(),
            k <= n,
            r.deep_view() == to_report(folder@, files@.take(k as int)),
        decreases n - k,
    {
        let mut name = folder.clone();
        push_str(&mut name, files[k].0.as_str());
        let ghost before = r.deep_view();
        r.push((name, files[k].2.0));
        assert(r.deep_view() =~= before.push((folder@ + files@[k as int].0@, files@[k as int].2.0)));
        assert(to_report(folder@, files@.take(k + 1)) =~= to_report(folder@, files@.take(k as int)).push(
            (folder@ + files@[k as int].0@, files@[k as int].2.0),
        ));
        k = k + 1;
    }
    assert(files@.take(n as int) =~= files@);
    r
}

/// The state of the interface that the events change: the login window,
/// the chat rooms window, the state of each room known, by name, the file
/// search window and the downloads window.
#[derive(Debug)]
pub struct GuiState {
    pub login: LoginWindow,
    pub chatrooms: ChatroomsWindow,
    pub rooms: Vec<(String, ChatroomState)>,
    pub filesearch: FileSearchWindow,
    pub downloads: DownloadsWindow,
}

/// Files to download as they start: queued, at 0 percent.
pub open spec fn queued(files: Seq<(String, ByteSize, Token)>) -> Seq<(String, ByteSize, Token, DownloadStatus, Percentage)> {
    files.map_values(
        |f: (String, ByteSize, Token)| (f.0, f.1, f.2, DownloadStatus::Queued, Percentage(0)),
    )
}

fn queue_files(files: Vec<(String, ByteSize, Token)>) -> (r: Vec<(String, ByteSize, Token, DownloadStatus, Percentage)>)
    ensures
        r@ == queued(files@),
{
    let mut r: Vec<(String, ByteSize, Token, DownloadStatus, Percentage)> = Vec::new();
    let n = files.len();
    let mut k: usize = 0;
    while k < n
        invariant
            n == files@.len(),
            k <= n,
            r@ == queued(files@.take(k as int)),
        decreases n - k,
    {
        let f = &files[k];
        r.push((f.0.clone(), f.1, f.2, DownloadStatus::Queued, Percentage(0)));
        assert(queued(files@.take(k + 1)) =~= queued(files@.take(k as int)).push(
            (files@[k as int].0, files@[k as int].1, files@[k as int].2, DownloadStatus::Queued, Percentage(0)),
        ));
        k = k + 1;
    }
    assert(files@.take(n as int) =~= files@);
    r
}

/// The names of the rooms known, in order.
pub open spec fn names_of(rooms: Seq<(String, ChatroomState)>) -> Seq<Seq<char>> {
    rooms.map_values(|e: (String, ChatroomState)| e.0@)
}

/// The position of the room `name` (the last entry with that name).
pub open spec fn room_pos(rooms: Seq<(String, ChatroomState)>, name: Seq<char>) -> Option<int>
    decreases rooms.len(),
{
    if rooms.len() == 0 {
        None
    } else if rooms.last().0@ == name {
        Some(rooms.len() - 1)
    } else {
        room_pos(rooms.drop_last(), name)
    }
}

/// The names of `names` that are neither in `have` nor earlier in
/// `names`, in order.
pub open spec fn missing(names: Seq<Seq<char>>, have: Seq<Seq<char>>) -> Seq<Seq<char>>
    decreases names.len(),
{
    if names.len() == 0 {
        Seq::empty()
    } else {
        let a = missing(names.drop_last(), have);
        if (have + a).contains(names.last()) {
            a
        } else {
            a.push(names.last())
        }
    }
}

/// The users of a room after users join it one after the other.
pub open spec fn users_after(before: Map<Seq<char>, UserStats>, stats: Seq<(String, UserStats)>) -> Map<
    Seq<char>,
    UserStats,
>
    decreases stats.len(),
{
    if stats.len() == 0 {
        before
    } else {
        users_after(before, stats.drop_last()).insert(stats.last().0@, stats.last().1)
    }
}

proof fn lemma_room_pos(rooms: Seq<(String, ChatroomState)>, name: Seq<char>)
    ensures
        room_pos(rooms, name) matches Some(i) ==> 0 <= i < rooms.len() && rooms[i].0@ == name,
        room_pos(rooms, name) is None <==> !names_of(rooms).contains(name),
    decreases rooms.len(),
{
    if rooms.len() > 0 {
        lemma_room_pos(rooms.drop_last(), name);
        assert(names_of(rooms.drop_last()) =~= names_of(rooms).drop_last());
        if rooms.last().0@ == name {
            assert(names_of(rooms)[rooms.len() - 1] == name);
        } else {
            if names_of(rooms).contains(name) {
                let k = choose|k: int| 0 <= k < names_of(rooms).len() && names_of(rooms)[k] == name;
                assert(names_of(rooms.drop_last())[k] == name);
            }
        }
    } else {
        assert(!names_of(rooms).contains(name));
    }
}

proof fn lemma_room_pos_names(a: Seq<(String, ChatroomState)>, b: Seq<(String, ChatroomState)>, name: Seq<char>)
    requires
        names_of(a) == names_of(b),
    ensures
        room_pos(a, name) == room_pos(b, name),
    decreases a.len(),
{
    assert(names_of(a).len() == a.len() && names_of(b).len() == b.len());
    if a.len() > 0 {
        assert(names_of(a)[a.len() - 1] == names_of(b)[b.len() - 1]);
        assert(names_of(a.drop_last()) =~= names_of(a).drop_last());
        assert(names_of(b.drop_last()) =~= names_of(b).drop_last());
        lemma_room_pos_names(a.drop_last(), b.drop_last(), name);
    }
}

/// Whether the sidebar lists the users of the room of the tab shown.
pub open spec fn lists_users_of_shown(s: GuiState) -> bool {
    let tab = s.chatrooms.room_name_tabs.tabs@[s.chatrooms.room_name_tabs.current as int]@;
    lists_users(s.chatrooms.room_sidebar.items@, s.rooms@[room_pos(s.rooms@, tab)->0].1.users_seq())
}

/// The position of the room `name`, if it is known.
pub fn find_room(rooms: &Vec<(String, ChatroomState)>, name: &String) -> (r: Option<usize>)
    ensures
        match r {
            Some(i) => room_pos(rooms@, name@) == Some(i as int),
            None => room_pos(rooms@, name@) is None,
        },
{
    let mut j = rooms.len();
    assert(rooms@.take(j as int) =~= rooms@);
    while j > 0
        invariant
            j <= rooms@.len(),
            room_pos(rooms@, name@) == room_pos(rooms@.take(j as int), name@),
        decreases j,
    {
        let ghost t = rooms@.take(j as int);
        assert(t.last() == rooms@[j - 1]);
        assert(t.drop_last() =~= rooms@.take(j - 1));
        if rooms[j - 1].0 == *name {
            return Some(j - 1);
        }
        j = j - 1;
    }
    None
}

/// The menu entries of the room names: each shut, with no entries below.
fn room_items(names: Vec<String>) -> (r: Vec<DropdownItem>)
    ensures
        r@.len() == names@.len(),
        forall|k: int|
            0 <= k < r@.len() ==> (#[trigger] r@[k]).text == names@[k] && r@[k].children@.len() == 0
                && !r@[k].is_open && r@[k].selected == 0,
{
    let mut r: Vec<DropdownItem> = Vec::new();
    let n = names.len();
    let mut k: usize = 0;
    while k < n
        invariant
            n == names@.len(),
            k <= n,
            r@.len() == k,
            forall|j: int|
                0 <= j < k ==> (#[trigger] r@[j]).text == names@[j] && r@[j].children@.len() == 0
                    && !r@[j].is_open && r@[j].selected == 0,
        decreases n - k,
    {
        r.push(DropdownItem { text: names[k].clone(), children: Vec::new(), is_open: false, selected: 0 });
        k = k + 1;
    }
    r
}

impl GuiState {
    /// A state for each room of `names` that has none yet, empty, in order.
    fn add_missing_rooms(&mut self, names: &Vec<String>)
        ensures
            names_of(final(self).rooms@) == names_of(old(self).rooms@) + missing(
                names.deep_view(),
                names_of(old(self).rooms@),
            ),
            final(self).rooms@.take(old(self).rooms@.len() as int) == old(self).rooms@,
            forall|j: int|
                old(self).rooms@.len() <= j < final(self).rooms@.len() ==> (#[trigger] final(self).rooms@[j]).1.messages_view().len() == 0 && final(self).rooms@[j].1.users_view()
                    == Map::<Seq<char>, UserStats>::empty(),
            final(self).login == old(self).login,
            final(self).chatrooms == old(self).chatrooms,
            final(self).filesearch == old(self).filesearch,
            final(self).downloads == old(self).downloads,
    {
        let ghost start = self.rooms@;
        let ghost have = names_of(start);
        let ghost dv = names.deep_view();
        let n = names.len();
        let mut k: usize = 0;
        assert(names_of(self.rooms@) =~= have + missing(dv.take(0), have));
        while k < n
            invariant
                n == names@.len(),
                dv == names.deep_view(),
                k <= n,
                names_of(self.rooms@) == have + missing(dv.take(k as int), have),
                self.rooms@.len() >= start.len(),
                self.rooms@.take(start.len() as int) == start,
                forall|j: int|
                    start.len() <= j < self.rooms@.len() ==> (#[trigger] self.rooms@[j]).1.messages_view().len()
                        == 0 && self.rooms@[j].1.users_view() == Map::<Seq<char>, UserStats>::empty(),
                self.login == old(self).login,
                self.chatrooms == old(self).chatrooms,
                self.filesearch == old(self).filesearch,
                self.downloads == old(self).downloads,
                start == old(self).rooms@,
                have == names_of(start),
            decreases n - k,
        {
            assert(dv.take(k + 1).drop_last() =~= dv.take(k as int));
            assert(dv.take(k + 1).last() == names@[k as int]@);
            let found = find_room(&self.rooms, &names[k]);
            proof {
                lemma_room_pos(self.rooms@, names@[k as int]@);
            }
            if found.is_none() {
                let ghost before = self.rooms@;
                self.rooms.push((names[k].clone(), ChatroomState::new()));
                assert(names_of(self.rooms@) =~= names_of(before).push(names@[k as int]@));
                assert(self.rooms@.take(start.len() as int) =~= before.take(start.len() as int));
            }
            k = k + 1;
        }
        assert(dv.take(n as int) =~= dv);
    }

    /// Shows in the sidebar the users of the room of the tab shown; empties
    /// it when no room is joined.
    fn show_sidebar(&mut self)
        requires
            old(self).chatrooms.room_name_tabs.tabs@.len() > 0 ==> {
                &&& old(self).chatrooms.room_name_tabs.current < old(self).chatrooms.room_name_tabs.tabs@.len()
                &&& room_pos(
                    old(self).rooms@,
                    old(self).chatrooms.room_name_tabs.tabs@[old(self).chatrooms.room_name_tabs.current as int]@,
                ) is Some
            },
        ensures
            final(self).chatrooms.room_name_tabs.tabs@.len() > 0 ==> lists_users_of_shown(*final(self)),
            final(self).rooms == old(self).rooms,
            final(self).login == old(self).login,
            final(self).chatrooms.room_name_tabs == old(self).chatrooms.room_name_tabs,
            final(self).chatrooms.rooms_dropdown == old(self).chatrooms.rooms_dropdown,
            final(self).filesearch == old(self).filesearch,
            final(self).downloads == old(self).downloads,
    {
        if self.chatrooms.room_name_tabs.tabs.len() > 0 {
            let tab = &self.chatrooms.room_name_tabs.tabs[self.chatrooms.room_name_tabs.current];
            let i = find_room(&self.rooms, tab).unwrap();
            proof {
                lemma_room_pos(self.rooms@, tab@);
            }
            self.chatrooms.update_sidebar(Some(&self.rooms[i].1));
        } else {
            self.chatrooms.update_sidebar(None);
        }
    }

    /// One step: what an event does to the interface.
    /// - A login answer shows on the login window (see `login_result_shown`).
    /// - Quit ends the interface, to start again or not.
    /// - A room list fills the rooms menu, rooms with more users first, each
    ///   entry shut, and gives each listed room not yet known an empty state.
    /// - Users of a room join its state one after the other, and the sidebar
    ///   shows the users of the room shown.
    /// - A message said by a named user joins its room's messages, stamped
    ///   with the time; one without a user is passed over.
    /// - A user's search results join the table of their search (see
    ///   `results_added`).
    /// - Files to download join the downloads window under their user and
    ///   folder, queued at 0 percent (see `folder_added`, `file_added`), and
    ///   the session is to report their status (`GuiOutcome::Track`).
    pub fn on_event(&mut self, event: GuiEvent) -> (r: GuiOutcome)
        requires
            event matches GuiEvent::LoginResult { success, reason } ==> (!success ==> reason is Some),
            event matches GuiEvent::UpdateRoom { room, .. } ==> {
                &&& room_pos(old(self).rooms@, room@) is Some
                &&& old(self).chatrooms.room_name_tabs.tabs@.len() > 0 ==> {
                    &&& old(self).chatrooms.room_name_tabs.current < old(self).chatrooms.room_name_tabs.tabs@.len()
                    &&& room_pos(
                        old(self).rooms@,
                        old(self).chatrooms.room_name_tabs.tabs@[old(self).chatrooms.room_name_tabs.current as int]@,
                    ) is Some
                }
            },
            event matches GuiEvent::ChatroomMessage { room, username, .. } ==> (username is Some
                ==> room_pos(old(self).rooms@, room@) is Some),
            event matches GuiEvent::SearchResults(response) ==> results_fit(old(self).filesearch, response),
            event matches GuiEvent::NewDownloads { username, folder, files, .. } ==> folder_fits(
                old(self).downloads,
                username,
                folder,
                queued(files@),
            ),
            event matches GuiEvent::NewDownload { username, folder, filename, filesize, token }
                ==> file_fits(
                old(self).downloads,
                username,
                folder,
                filename,
                filesize,
                token,
                DownloadStatus::Queued,
                Percentage(0),
            ),
        ensures
            !(event is SearchResults) ==> final(self).filesearch == old(self).filesearch,
            !(event is NewDownloads || event is NewDownload) ==> final(self).downloads == old(self).downloads,
            match event {
                GuiEvent::LoginResult { success, reason } => {
                    &&& r == GuiOutcome::Continue
                    &&& login_result_shown(old(self).login, final(self).login, success, reason)
                    &&& final(self).chatrooms == old(self).chatrooms
                    &&& final(self).rooms == old(self).rooms
                },
                GuiEvent::Quit { restart } => r == (GuiOutcome::Exit { restart }) && *final(self)
                    == *old(self),
                GuiEvent::RoomList(rooms) => {
                    &&& r == GuiOutcome::Continue
                    &&& final(self).chatrooms.rooms_dropdown.children@.len() == rooms_order(
                        rooms.deep_view(),
                    ).len()
                    &&& forall|k: int|
                        0 <= k < final(self).chatrooms.rooms_dropdown.children@.len() ==> {
                            &&& (#[trigger] final(self).chatrooms.rooms_dropdown.children@[k]).text@
                                == rooms_order(rooms.deep_view())[k]
                            &&& final(self).chatrooms.rooms_dropdown.children@[k].children@.len() == 0
                            &&& !final(self).chatrooms.rooms_dropdown.children@[k].is_open
                        }
                    &&& names_of(final(self).rooms@) == names_of(old(self).rooms@) + missing(
                        rooms_order(rooms.deep_view()),
                        names_of(old(self).rooms@),
                    )
                    &&& final(self).rooms@.take(old(self).rooms@.len() as int) == old(self).rooms@
                    &&& forall|j: int|
                        old(self).rooms@.len() <= j < final(self).rooms@.len() ==> (#[trigger] final(self).rooms@[j]).1.messages_view().len() == 0
                            && final(self).rooms@[j].1.users_view() == Map::<
                            Seq<char>,
                            UserStats,
                        >::empty()
                    &&& final(self).login == old(self).login
                    &&& final(self).chatrooms.room_name_tabs == old(self).chatrooms.room_name_tabs
                    &&& final(self).chatrooms.room_sidebar == old(self).chatrooms.room_sidebar
                },
                GuiEvent::UpdateRoom { room, stats } => {
                    let i = room_pos(old(self).rooms@, room@)->0;
                    &&& r == GuiOutcome::Continue
                    &&& final(self).rooms@.len() == old(self).rooms@.len()
                    &&& forall|j: int|
                        0 <= j < old(self).rooms@.len() && j != i ==> final(self).rooms@[j] == old(self).rooms@[j]
                    &&& final(self).rooms@[i].0 == old(self).rooms@[i].0
                    &&& final(self).rooms@[i].1.users_view() == users_after(
                        old(self).rooms@[i].1.users_view(),
                        stats@,
                    )
                    &&& final(self).rooms@[i].1.messages_view() == old(self).rooms@[i].1.messages_view()
                    &&& final(self).login == old(self).login
                    &&& final(self).chatrooms.room_name_tabs == old(self).chatrooms.room_name_tabs
                    &&& final(self).chatrooms.rooms_dropdown == old(self).chatrooms.rooms_dropdown
                    &&& final(self).chatrooms.room_name_tabs.tabs@.len() > 0 ==> lists_users_of_shown(*final(self))
                },
                GuiEvent::NewDownloads { username, folder, files, from_all } => {
                    &&& r matches GuiOutcome::Track { files: t, from_all: a } && t.deep_view()
                        == to_report(folder@, files@) && a == Some(from_all)
                    &&& folder_added(old(self).downloads, final(self).downloads, username, folder, queued(files@))
                    &&& final(self).login == old(self).login
                    &&& final(self).chatrooms == old(self).chatrooms
                    &&& final(self).rooms == old(self).rooms
                    &&& final(self).filesearch == old(self).filesearch
                },
                GuiEvent::NewDownload { username, folder, filename, filesize, token } => {
                    &&& r matches GuiOutcome::Track { files: t, from_all: a } && t.deep_view() == seq![
                        (folder@ + filename@, token.0),
                    ] && a is None
                    &&& file_added(
                        old(self).downloads,
                        final(self).downloads,
                        username,
                        folder,
                        filename,
                        filesize,
                        token,
                        DownloadStatus::Queued,
                        Percentage(0),
                    )
                    &&& final(self).login == old(self).login
                    &&& final(self).chatrooms == old(self).chatrooms
                    &&& final(self).rooms == old(self).rooms
                    &&& final(self).filesearch == old(self).filesearch
                },
                GuiEvent::SearchResults(response) => {
                    &&& r == GuiOutcome::Continue
                    &&& results_added(old(self).filesearch, final(self).filesearch, response)
                    &&& final(self).downloads == old(self).downloads
                    &&& final(self).login == old(self).login
                    &&& final(self).chatrooms == old(self).chatrooms
                    &&& final(self).rooms == old(self).rooms
                },
                GuiEvent::ChatroomMessage { room, username, message } => {
                    &&& r == GuiOutcome::Continue
                    &&& final(self).login == old(self).login
                    &&& final(self).chatrooms == old(self).chatrooms
                    &&& match username {
                        None => final(self).rooms == old(self).rooms,
                        Some(u) => {
                            let i = room_pos(old(self).rooms@, room@)->0;
                            &&& final(self).rooms@.len() == old(self).rooms@.len()
                            &&& forall|j: int|
                                0 <= j < old(self).rooms@.len() && j != i ==> final(self).rooms@[j]
                                    == old(self).rooms@[j]
                            &&& final(self).rooms@[i].0 == old(self).rooms@[i].0
                            &&& final(self).rooms@[i].1.users_view() == old(self).rooms@[i].1.users_view()
                            &&& exists|time: Seq<char>|
                                final(self).rooms@[i].1.messages_view() == old(self).rooms@[i].1.messages_view().push(
                                    #[trigger] chat_line_of(u@, time, message@),
                                )
                        },
                    }
                },
            },
    {
        match event {
            GuiEvent::LoginResult { success, reason } => {
                let ghost old_login = self.login;
                let ghost why = reason;
                self.login.on_login_result(success, reason);
                assert(login_result_shown(old_login, self.login, success, why));
                GuiOutcome::Continue
            },
            GuiEvent::Quit { restart } => GuiOutcome::Exit { restart },
            GuiEvent::RoomList(rooms) => {
                let names = rooms_by_users(rooms);
                self.add_missing_rooms(&names);
                let items = room_items(names);
                self.chatrooms.rooms_dropdown.children = items;
                GuiOutcome::Continue
            },
            GuiEvent::UpdateRoom { room, stats } => {
                let i = find_room(&self.rooms, &room).unwrap();
                proof {
                    lemma_room_pos(self.rooms@, room@);
                }
                let ghost before = self.rooms@;
                let mut entry = self.rooms.remove(i);
                let n = stats.len();
                let mut k: usize = 0;
                let ghost start_users = entry.1.users_view();
                let ghost start_messages = entry.1.messages_view();
                let ghost name = entry.0;
                assert(stats@.take(0) =~= Seq::<(String, UserStats)>::empty());
                while k < n
                    invariant
                        n == stats@.len(),
                        k <= n,
                        entry.1.users_view() == users_after(start_users, stats@.take(k as int)),
                        entry.1.messages_view() == start_messages,
                        entry.0 == name,
                    decreases n - k,
                {
                    assert(stats@.take(k + 1).drop_last() =~= stats@.take(k as int));
                    entry.1.add_user(stats[k].0.clone(), stats[k].1);
                    k = k + 1;
                }
                assert(stats@.take(n as int) =~= stats@);
                self.rooms.insert(i, entry);
                assert(self.rooms@ =~= before.update(i as int, self.rooms@[i as int]));
                proof {
                    assert(names_of(self.rooms@) =~= names_of(before));
                    if self.chatrooms.room_name_tabs.tabs@.len() > 0 {
                        lemma_room_pos_names(
                            self.rooms@,
                            before,
                            self.chatrooms.room_name_tabs.tabs@[self.chatrooms.room_name_tabs.current as int]@,
                        );
                    }
                }
                self.show_sidebar();
                GuiOutcome::Continue
            },
            GuiEvent::NewDownloads { username, folder, files, from_all } => {
                let track = track_files(&folder, &files);
                let files = queue_files(files);
                let ghost before = self.downloads;
                let ghost (u, d, q) = (username, folder, files@);
                self.downloads.add_folder(username, folder, files);
                assert(folder_added(before, self.downloads, u, d, q));
                GuiOutcome::Track { files: track, from_all: Some(from_all) }
            },
            GuiEvent::NewDownload { username, folder, filename, filesize, token } => {
                let mut name = folder.clone();
                push_str(&mut name, filename.as_str());
                let mut track: Vec<(String, u32)> = Vec::new();
                track.push((name, token.0));
                assert(track.deep_view() =~= seq![(folder@ + filename@, token.0)]);
                let ghost before = self.downloads;
                let ghost (u, d, f) = (username, folder, filename);
                self.downloads.add_file(
                    username,
                    folder,
                    filename,
                    filesize,
                    token,
                    DownloadStatus::Queued,
                    Percentage(0),
                );
                assert(file_added(before, self.downloads, u, d, f, filesize, token, DownloadStatus::Queued, Percentage(0)));
                GuiOutcome::Track { files: track, from_all: None }
            },
            GuiEvent::SearchResults(response) => {
                let ghost before = self.filesearch;
                let ghost resp = response;
                self.filesearch.add_results(response);
                assert(results_added(before, self.filesearch, resp));
                GuiOutcome::Continue
            },
            GuiEvent::ChatroomMessage { room, username, message } => {
                match username {
                    Some(u) => {
                        let i = find_room(&self.rooms, &room).unwrap();
                        proof {
                            lemma_room_pos(self.rooms@, room@);
                        }
                        let ghost before = self.rooms@;
                        let mut entry = self.rooms.remove(i);
                        entry.1.add_chat_message(u.as_str(), message.as_str());
                        self.rooms.insert(i, entry);
                        assert(self.rooms@ =~= before.update(i as int, self.rooms@[i as int]));
                    },
                    None => {},
                }
                GuiOutcome::Continue
            },
        }
    }
}

} // verus!
