use slsk::gui::events::{GuiEvent, GuiOutcome, GuiState};
use slsk::constants::{ByteSize, DownloadStatus, Percentage, Token};
use slsk::gui::app::{on_key, window_titles, AppFocus, FocusAction, KeyMods, NavKey};
use slsk::gui::widgets::list::{first_shown_message, fit_to_height};
use slsk::gui::widgets::chatroom::ChatroomState;
use slsk::gui::widgets::table::ColumnData;
use slsk::gui::widgets::dialog::{Dialog, DialogAnswer, DialogKey};
use slsk::gui::widgets::dropdown::DropdownHeader;
use slsk::gui::windows::chatrooms::{rooms_by_users, sidebar_items, ChatroomsWindow};
use slsk::gui::windows::login::{LoginAction, LoginWindow};
use slsk::gui::widgets::input::{EditKey, KeyPress};
use slsk::gui::windows::downloads::DownloadsWindow;
use slsk::gui::windows::filesearch::FileSearchWindow;
use slsk::messages::server::UserStats;

fn focus(current: u8, select: u8, widget: u8) -> AppFocus {
    AppFocus { current_index: current, select_index: select, focused_widget: widget }
}

#[test]
fn window_keys_move_the_highlight_round() {
    let (f, a) = on_key(AppFocus::new(), KeyMods::Control, NavKey::Tab, 4, 2, 1);
    assert_eq!(f, focus(0, 1, 1));
    assert_eq!(a, FocusAction::Handled);
    let (f, _) = on_key(focus(0, 3, 0), KeyMods::Control, NavKey::Tab, 4, 2, 0);
    assert_eq!(f.select_index, 0);
    let (f, _) = on_key(focus(0, 0, 0), KeyMods::ShiftControl, NavKey::BackTab, 4, 2, 0);
    assert_eq!(f.select_index, 3);
    let (f, _) = on_key(focus(0, 2, 0), KeyMods::ShiftControl, NavKey::BackTab, 4, 2, 0);
    assert_eq!(f.select_index, 1);
    let (f, a) = on_key(focus(0, 2, 0), KeyMods::Control, NavKey::Enter, 4, 2, 0);
    assert_eq!(f, focus(2, 2, 0));
    assert_eq!(a, FocusAction::Handled);
}

#[test]
fn widget_keys_move_the_focus_round() {
    let (f, a) = on_key(focus(1, 1, 0), KeyMods::Other, NavKey::Tab, 4, 4, 3);
    assert_eq!(f.focused_widget, 0);
    assert_eq!(a, FocusAction::FocusWidget(0));
    let (f, a) = on_key(focus(1, 1, 0), KeyMods::Shift, NavKey::BackTab, 4, 4, 0);
    assert_eq!(f.focused_widget, 3);
    assert_eq!(a, FocusAction::FocusWidget(3));
    let (f, a) = on_key(focus(1, 1, 0), KeyMods::Shift, NavKey::BackTab, 4, 4, 2);
    assert_eq!(f.focused_widget, 1);
    assert_eq!(a, FocusAction::FocusWidget(1));
}

#[test]
fn other_keys_go_to_the_widget_and_shift_esc_quits() {
    let (f, a) = on_key(focus(1, 2, 0), KeyMods::Shift, NavKey::Esc, 4, 4, 2);
    assert_eq!(f, focus(1, 2, 2));
    assert_eq!(a, FocusAction::Quit);
    let (_, a) = on_key(focus(1, 2, 0), KeyMods::Other, NavKey::Enter, 4, 4, 2);
    assert_eq!(a, FocusAction::PassOn(2));
    let (_, a) = on_key(focus(1, 2, 0), KeyMods::Control, NavKey::Esc, 4, 4, 1);
    assert_eq!(a, FocusAction::PassOn(1));
    let (_, a) = on_key(focus(1, 2, 0), KeyMods::ShiftControl, NavKey::Tab, 4, 4, 1);
    assert_eq!(a, FocusAction::PassOn(1));
}

#[test]
fn rooms_are_listed_most_users_first() {
    let rooms = vec![
        (String::from("a"), 3),
        (String::from("b"), 10),
        (String::from("c"), 3),
        (String::from("d"), 1),
    ];
    assert_eq!(rooms_by_users(rooms), vec!["b", "c", "a", "d"]);
    assert!(rooms_by_users(vec![]).is_empty());
}

fn stats(speed: u32, files: u32) -> UserStats {
    UserStats { avg_speeds: speed, upload_num: 0, num_of_files: files, num_of_dirs: 0 }
}

#[test]
fn the_sidebar_lists_users_by_name() {
    let mut room = ChatroomState::new();
    room.add_user(String::from("bob"), stats(100, 5));
    room.add_user(String::from("Alice"), stats(7, 9));
    room.add_user(String::from("carl"), stats(0, 1));
    let rows = sidebar_items(&room);
    let names: Vec<String> = rows.iter().map(|r| r.content[0].to_string()).collect();
    assert_eq!(names, vec!["Alice", "bob", "carl"]);
    assert!(matches!(rows[0].content[1], ColumnData::ByteSize(ByteSize(7))));
    assert!(matches!(rows[0].content[2], ColumnData::Usize(9)));
    assert!(matches!(rows[1].content[1], ColumnData::ByteSize(ByteSize(100))));
    assert!(rows.iter().all(|r| r.children.is_empty() && !r.is_open));
    assert!(sidebar_items(&ChatroomState::new()).is_empty());
}

#[test]
fn downloads_are_grouped_by_user() {
    let mut w = DownloadsWindow::new();
    assert_eq!(w.title, " Downloads ");
    assert_eq!(w.downloads.headers.len(), 7);
    w.add_file(
        String::from("u1"),
        String::from("music\\"),
        String::from("a.mp3"),
        ByteSize(100),
        Token(7),
        DownloadStatus::Queued,
        Percentage(0),
    );
    assert_eq!(w.downloads.items.len(), 1);
    assert_eq!(w.downloads.length, 3);
    w.add_file(
        String::from("u1"),
        String::from("other\\"),
        String::from("b.mp3"),
        ByteSize(50),
        Token(8),
        DownloadStatus::Queued,
        Percentage(0),
    );
    assert_eq!(w.downloads.items.len(), 1);
    assert_eq!(w.downloads.length, 5);
    let root = &w.downloads.items[0];
    assert!(matches!(root.content[5], ColumnData::ByteSize(ByteSize(150))));
    assert_eq!(root.children.len(), 2);
    assert_eq!(root.children[1].content[1].to_string(), "other\\");
    assert_eq!(root.children[1].children[0].content[2].to_string(), "b.mp3");
    assert!(matches!(root.children[1].children[0].content[6], ColumnData::Token(8)));
    w.add_folder(
        String::from("u2"),
        String::from("dir\\"),
        vec![
            (String::from("x"), ByteSize(1), Token(9), DownloadStatus::Queued, Percentage(0)),
            (String::from("y"), ByteSize(2), Token(10), DownloadStatus::Starting, Percentage(5)),
        ],
    );
    assert_eq!(w.downloads.items.len(), 2);
    assert_eq!(w.downloads.length, 9);
    let root = &w.downloads.items[1];
    assert_eq!(root.content[0].to_string(), "u2");
    assert!(matches!(root.content[5], ColumnData::ByteSize(ByteSize(3))));
    assert_eq!(root.children[0].children.len(), 2);
    assert_eq!(root.children[0].children[1].content[3].to_string(), "Starting");
    assert_eq!(w.download_state.len(), 4);
    assert_eq!(w.download_state[&10], (DownloadStatus::Starting, Percentage(5)));
    assert!(DownloadsWindow::default().download_state.is_empty());
}

#[test]
fn the_shown_window_title_is_in_capitals() {
    let titles = vec![String::from(" Login "), String::from(" Chatrooms ")];
    assert_eq!(window_titles(titles.clone(), 1), vec![" Login ", " CHATROOMS "]);
    assert_eq!(window_titles(vec![String::from("ab1é")], 0), vec!["AB1é"]);
    assert!(window_titles(vec![], 3).is_empty());
}

#[test]
fn messages_are_cut_to_the_height() {
    assert_eq!(first_shown_message(10, 4), 6);
    assert_eq!(first_shown_message(3, 4), 0);
    // 2 + 3 + 1 lines in a block of 4: two lines of the first message go.
    assert_eq!(fit_to_height(&vec![2, 3, 1], 4), (0, 2));
    // In a block of 3: the first message goes, then one line of the second.
    assert_eq!(fit_to_height(&vec![2, 3, 1], 3), (1, 1));
    assert_eq!(fit_to_height(&vec![1, 1], 5), (0, 0));
    assert_eq!(fit_to_height(&vec![], 5), (0, 0));
}

#[test]
fn the_dialog_answers_with_what_it_was_opened_about() {
    let mut d: Dialog<u32> = Dialog::new();
    assert_eq!(d.question, "Yes or No?");
    d.set_question(String::from("Download?"));
    d.state = Some(7);
    d.open();
    assert_eq!(d.on_key(0, DialogKey::Other), DialogAnswer::Nothing);
    assert!(d.visible);
    assert_eq!(d.on_key(0, DialogKey::Enter), DialogAnswer::Yes(7));
    assert!(!d.visible);
    assert_eq!(d.state, None);
    d.state = Some(8);
    d.open();
    assert_eq!(d.on_key(1, DialogKey::Enter), DialogAnswer::No(8));
    d.state = Some(9);
    d.open();
    assert_eq!(d.on_key(1, DialogKey::Esc), DialogAnswer::Nothing);
    assert!(!d.visible);
    assert_eq!(d.state, Some(9));
    assert_eq!(Dialog::<u32>::new().on_key(0, DialogKey::Enter), DialogAnswer::Nothing);
    assert_eq!(d.question, "Download?");
}

#[test]
fn logging_in_and_out() {
    let mut w = LoginWindow::new();
    assert_eq!(w.title, " Login ");
    assert_eq!(w.press_login(), None);
    for c in "me".chars() {
        assert_eq!(w.perform_action(0, KeyPress { code: EditKey::Char(c), mods: 0 }), LoginAction::Nothing);
    }
    assert_eq!(w.username_input.value, "me");
    assert_eq!(w.press_login(), None);
    assert_eq!(w.perform_action(2, KeyPress { code: EditKey::Other, mods: 0 }), LoginAction::Nothing);
    for c in "pw".chars() {
        w.perform_action(1, KeyPress { code: EditKey::Char(c), mods: 0 });
    }
    assert_eq!(w.password_input.value, "**");
    assert_eq!(w.password_input.input_string, "pw");
    assert_eq!(w.press_login(), Some((String::from("me"), String::from("pw"))));
    assert_eq!(w.perform_action(2, KeyPress { code: EditKey::Char('x'), mods: 0 }), LoginAction::Nothing);
    assert_eq!(
        w.perform_action(2, KeyPress { code: EditKey::Enter, mods: 0 }),
        LoginAction::TryLogin { username: String::from("me"), password: String::from("pw") }
    );
    assert!(w.press_logout());
    assert_eq!(w.perform_action(3, KeyPress { code: EditKey::Other, mods: 0 }), LoginAction::Nothing);
    assert_eq!(w.perform_action(3, KeyPress { code: EditKey::Enter, mods: 0 }), LoginAction::Restart);
    w.on_login_result(false, Some(String::from("INVALIDPASS")));
    assert_eq!(w.login_button.label, "LOG IN FAILED: INVALIDPASS");
    assert!(!w.login_button.disabled);
    w.on_login_result(true, None);
    assert_eq!(w.login_button.label, "LOGGED IN");
    assert_eq!(w.logout_button.label, "LOGOUT");
    assert!(w.login_button.disabled);
    assert_eq!(w.press_login(), None);
}

#[test]
fn rooms_are_joined_once_and_messages_go_to_the_room_shown() {
    let mut w = ChatroomsWindow::new();
    assert_eq!(w.title, " Chatrooms ");
    assert!(matches!(&w.rooms_dropdown.header, DropdownHeader::Title(t) if t == "All Rooms"));
    assert_eq!(w.room_sidebar.headers, vec!["", "User", "Upload Speed", "Files"]);
    assert_eq!(w.join_fetched_room(), None);
    for c in "hi".chars() {
        w.message_input.handle_event(KeyPress { code: EditKey::Char(c), mods: 0 });
    }
    assert_eq!(w.message_to_send(), None);
    assert_eq!(w.message_input.value, "hi");
    w.rooms_dropdown.fetched_text = Some(String::from("rust"));
    assert_eq!(w.join_fetched_room(), Some(String::from("rust")));
    assert_eq!(w.rooms_dropdown.fetched_text, None);
    w.rooms_dropdown.fetched_text = Some(String::from("rust"));
    assert_eq!(w.join_fetched_room(), None);
    assert_eq!(w.room_name_tabs.tabs, vec!["rust"]);
    assert_eq!(w.message_to_send(), Some((String::from("rust"), String::from("hi"))));
    assert_eq!(w.message_input.value, "");
    assert_eq!(w.message_input.input_string, "");
    let mut room = ChatroomState::new();
    room.add_user(String::from("zed"), stats(1, 1));
    room.add_user(String::from("amy"), stats(2, 2));
    w.update_sidebar(Some(&room));
    assert_eq!(w.room_sidebar.items[0].content[0].to_string(), "amy");
    w.room_name_tabs.removed_tab = Some(String::from("rust"));
    assert_eq!(w.take_removed_room(), Some(String::from("rust")));
    assert_eq!(w.room_name_tabs.removed_tab, None);
    let mut empty = ChatroomsWindow::new();
    empty.update_sidebar(None);
    assert!(empty.room_sidebar.items.is_empty());
}

#[test]
fn session_events_change_the_interface() {
    let mut gui = GuiState {
        login: LoginWindow::new(),
        chatrooms: ChatroomsWindow::new(),
        rooms: Vec::new(),
        filesearch: FileSearchWindow::new(),
        downloads: DownloadsWindow::new(),
    };
    assert_eq!(
        gui.on_event(GuiEvent::LoginResult { success: false, reason: Some(String::from("INVALIDPASS")) }),
        GuiOutcome::Continue
    );
    assert_eq!(gui.login.login_button.label, "LOG IN FAILED: INVALIDPASS");
    gui.on_event(GuiEvent::LoginResult { success: true, reason: None });
    assert_eq!(gui.login.login_button.label, "LOGGED IN");
    gui.on_event(GuiEvent::RoomList(vec![(String::from("a"), 1), (String::from("b"), 5)]));
    let texts: Vec<&str> = gui.chatrooms.rooms_dropdown.children.iter().map(|c| c.text.as_str()).collect();
    assert_eq!(texts, vec!["b", "a"]);
    let names: Vec<&str> = gui.rooms.iter().map(|r| r.0.as_str()).collect();
    assert_eq!(names, vec!["b", "a"]);
    gui.on_event(GuiEvent::RoomList(vec![(String::from("c"), 9), (String::from("a"), 1)]));
    let names: Vec<&str> = gui.rooms.iter().map(|r| r.0.as_str()).collect();
    assert_eq!(names, vec!["b", "a", "c"]);
    gui.on_event(GuiEvent::UpdateRoom {
        room: String::from("b"),
        stats: vec![(String::from("zed"), stats(1, 1)), (String::from("amy"), stats(2, 2))],
    });
    assert_eq!(gui.rooms[0].1.users().len(), 2);
    assert!(gui.chatrooms.room_sidebar.items.is_empty());
    gui.on_event(GuiEvent::ChatroomMessage {
        room: String::from("b"),
        username: Some(String::from("amy")),
        message: String::from("hi"),
    });
    assert!(gui.rooms[0].1.messages()[0].starts_with("amy ["));
    assert!(gui.rooms[0].1.messages()[0].ends_with("] hi"));
    gui.on_event(GuiEvent::ChatroomMessage { room: String::from("b"), username: None, message: String::from("x") });
    assert_eq!(gui.rooms[0].1.messages().len(), 1);
    let outcome = gui.on_event(GuiEvent::NewDownloads {
        username: String::from("amy"),
        folder: String::from("music\\"),
        files: vec![(String::from("a.mp3"), ByteSize(10), Token(1)), (String::from("b.mp3"), ByteSize(20), Token(2))],
        from_all: true,
    });
    assert_eq!(
        outcome,
        GuiOutcome::Track {
            files: vec![(String::from("music\\a.mp3"), 1), (String::from("music\\b.mp3"), 2)],
            from_all: Some(true),
        }
    );
    assert_eq!(gui.downloads.download_state.get(&2), Some(&(DownloadStatus::Queued, Percentage(0))));
    let rows_after_folder = gui.downloads.downloads.length;
    let outcome = gui.on_event(GuiEvent::NewDownload {
        username: String::from("amy"),
        folder: String::from("other\\"),
        filename: String::from("c.mp3"),
        filesize: ByteSize(5),
        token: Token(3),
    });
    assert_eq!(outcome, GuiOutcome::Track { files: vec![(String::from("other\\c.mp3"), 3)], from_all: None });
    assert_eq!(gui.downloads.download_state.len(), 3);
    assert_eq!(gui.downloads.downloads.length, rows_after_folder + 2);
    assert_eq!(gui.on_event(GuiEvent::Quit { restart: true }), GuiOutcome::Exit { restart: true });
}
