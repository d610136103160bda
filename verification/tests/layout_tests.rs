use slsk::gui::windows::downloads::DownloadsWindow;
use slsk::gui::events::{GuiEvent, GuiOutcome, GuiState};
use slsk::gui::windows::chatrooms::ChatroomsWindow;
use slsk::gui::windows::login::LoginWindow;
use slsk::gui::hints::{hints_fit, wrap_hints, HintPiece};
use slsk::constants::ByteSize;
use slsk::gui::widgets::input::{EditKey, Input, KeyPress};
use slsk::gui::widgets::table::{ColumnData, TableItem};
use slsk::gui::windows::filesearch::{
    chars_of, default_results_table, download_question, download_request, group_results,
    response_item, results_title, DownloadRequest, FileSearchWindow, SearchStart,
};
use slsk::messages::peer::FileSearchResponse;
use slsk::messages::peer::File;

fn file(name: &str, size: u64) -> File {
    File {
        code: 1,
        filename: String::from(name),
        file_size: size,
        extension: String::new(),
        attributes: Vec::new(),
    }
}

#[test]
fn results_are_sorted_split_and_grouped() {
    let files = vec![
        file("b\\x.mp3", 1),
        file("a/y.mp3", 2),
        file("a/z.mp3", 3),
        file("c.mp3", 4),
        file("b\\w.mp3", 5),
    ];
    let groups = group_results(&files);
    assert_eq!(groups.len(), 3);
    assert_eq!(groups[0].folder, "a/");
    assert_eq!(groups[0].rows.len(), 2);
    assert_eq!(groups[0].rows[0].filename, "y.mp3");
    assert_eq!(groups[0].rows[1].file_size, 3);
    assert_eq!(groups[1].folder, "b\\");
    assert_eq!(groups[1].rows[0].filename, "w.mp3");
    assert_eq!(groups[1].rows[1].filename, "x.mp3");
    assert_eq!(groups[2].folder, "");
    assert_eq!(groups[2].rows[0].filename, "c.mp3");
    assert_eq!(groups[2].rows[0].folder, "");
}

#[test]
fn a_forward_slash_wins_over_a_backslash() {
    let groups = group_results(&vec![file("a\\b/c", 1)]);
    assert_eq!(groups[0].folder, "a\\b/");
    assert_eq!(groups[0].rows[0].filename, "c");
}

#[test]
fn equal_names_keep_their_order() {
    let groups = group_results(&vec![file("d/s", 9), file("d/s", 1), file("d/r", 5)]);
    assert_eq!(groups.len(), 1);
    let sizes: Vec<u64> = groups[0].rows.iter().map(|r| r.file_size).collect();
    assert_eq!(sizes, vec![5, 9, 1]);
}

#[test]
fn names_sort_by_code_point() {
    let groups = group_results(&vec![file("é", 1), file("z", 2), file("Z", 3), file("zz", 4)]);
    let names: Vec<&str> = groups[0].rows.iter().map(|r| r.filename.as_str()).collect();
    assert_eq!(names, vec!["Z", "z", "zz", "é"]);
    assert!(group_results(&Vec::new()).is_empty());
}

#[test]
fn chars_of_a_text() {
    assert_eq!(chars_of("aé"), vec!['a', 'é']);
}

#[test]
fn hints_wrap_at_the_room() {
    let (lines, count) = wrap_hints(&vec![10, 10, 10], 1, 30);
    assert_eq!(
        lines,
        vec![
            vec![HintPiece::Hint(0), HintPiece::Divider, HintPiece::Hint(1)],
            vec![HintPiece::Hint(2)],
        ]
    );
    assert_eq!(count, 2);
    let (lines, count) = wrap_hints(&vec![5, 5], 1, 100);
    assert_eq!(lines, vec![vec![HintPiece::Hint(0), HintPiece::Divider, HintPiece::Hint(1)]]);
    assert_eq!(count, 1);
}

#[test]
fn a_hint_wider_than_the_room_starts_a_new_line() {
    let (lines, count) = wrap_hints(&vec![50], 1, 30);
    assert_eq!(lines, vec![vec![], vec![HintPiece::Hint(0)]]);
    assert_eq!(count, 2);
    let (lines, count) = wrap_hints(&Vec::new(), 1, 2);
    assert!(lines.is_empty());
    assert_eq!(count, 1);
}

#[test]
fn widths_that_overflow_do_not_fit() {
    assert!(hints_fit(&vec![10, 10, 10], 1, 30));
    assert!(!hints_fit(&vec![65535, 1], 0, 10));
}

fn texts(item: &TableItem) -> Vec<String> {
    item.content.iter().map(|c| c.to_string()).collect()
}

#[test]
fn a_response_becomes_a_user_row_with_folders_and_files() {
    let files = vec![file("music\\b.mp3", 2000), file("music\\a.mp3", 1000), file("docs/c.txt", 5)];
    let folders = group_results(&files);
    let item = response_item(&String::from("bob"), 1500, 3, folders).unwrap();
    assert!(item.is_open);
    assert_eq!(item.content.len(), 3);
    assert_eq!(item.content[0].to_string(), "bob");
    assert!(matches!(item.content[1], ColumnData::ByteSize(ByteSize(1500))));
    assert!(matches!(item.content[2], ColumnData::Usize(3)));
    assert_eq!(item.children.len(), 2);
    assert_eq!(texts(&item.children[0])[3], "docs/");
    assert_eq!(texts(&item.children[1])[3], "music\\");
    let a = &item.children[1].children[0];
    assert_eq!(a.content.len(), 7);
    assert!(matches!(a.content[3], ColumnData::Empty));
    assert_eq!(texts(a)[4], "a.mp3");
    assert!(matches!(a.content[5], ColumnData::ByteSize(ByteSize(1000))));
    assert_eq!(texts(a)[6], "music\\");
    assert!(response_item(&String::from("bob"), 1, 1, vec![]).is_none());
}

#[test]
fn the_results_table_and_its_title() {
    let t = default_results_table();
    assert_eq!(t.headers, vec!["", "User", "Speed", "Queue", "Folder", "Filename", "Size"]);
    assert_eq!(t.filter_range, Some((3, 5)));
    assert!(t.items.is_empty());
    assert_eq!(results_title(12), "12 results");
    assert_eq!(results_title(1500), "1500 results");
    assert_eq!(results_title(1501), "1500+ results");
}

#[test]
fn a_chosen_row_asks_what_to_download() {
    let files = vec![file("music\\b.mp3", 2000), file("music\\a.mp3", 1000)];
    let item = response_item(&String::from("bob"), 1, 0, group_results(&files)).unwrap();
    assert_eq!(download_question(&item), (String::from("Download all files from bob?"), None));
    let folder = &item.children[0];
    assert_eq!(download_question(folder), (String::from("Download music\\ from bob?"), Some(true)));
    let a = &folder.children[0];
    assert_eq!(download_question(a), (String::from("Download a.mp3 from bob?"), Some(false)));
    match download_request(&item, None) {
        DownloadRequest::Folders(f) => {
            assert_eq!(f.len(), 1);
            assert_eq!(f[0].0, "music\\");
            assert_eq!(f[0].1, vec![(String::from("a.mp3"), ByteSize(1000)), (String::from("b.mp3"), ByteSize(2000))]);
        }
        other => panic!("{other:?}"),
    }
    match download_request(folder, Some(true)) {
        DownloadRequest::Folders(f) => assert_eq!(f[0].1.len(), 2),
        other => panic!("{other:?}"),
    }
    match download_request(a, Some(false)) {
        DownloadRequest::File { folder, filename, filesize } => {
            assert_eq!((folder.as_str(), filename.as_str(), filesize), ("music\\", "a.mp3", ByteSize(1000)));
        }
        other => panic!("{other:?}"),
    }
}

fn response(token: u32, files: Vec<File>) -> FileSearchResponse {
    FileSearchResponse {
        username: String::from("bob"),
        token,
        files,
        slot_free: true,
        avg_speed: 100,
        queue_length: 2,
        unknown_0: 0,
        private_files: None,
    }
}

#[test]
fn searches_open_once_and_gather_their_results() {
    let mut w = FileSearchWindow::new();
    assert_eq!(w.title, " File Search ");
    assert!(w.current_table().is_none());
    w.search_bar = typed("jazz");
    assert_eq!(w.start_search(7), SearchStart::Started(String::from("jazz")));
    assert_eq!(w.start_search(8), SearchStart::AlreadyOpen);
    w.search_bar = typed("rock");
    assert_eq!(w.start_search(7), SearchStart::TokenTaken);
    assert_eq!(w.start_search(9), SearchStart::Started(String::from("rock")));
    assert_eq!(w.token_of(&String::from("jazz")), Some(7));
    assert_eq!(w.token_of(&String::from("rock")), Some(9));
    assert_eq!(w.token_of(&String::from("pop")), None);
    assert_eq!(w.search_tabs.tabs, vec!["jazz", "rock"]);
    let (total, table) = w.current_table().unwrap();
    assert_eq!(total, 0);
    assert!(table.items.is_empty());
    w.add_results(response(7, vec![file("a\\x.mp3", 1), file("a\\y.mp3", 2), file("b\\z.mp3", 3)]));
    let (total, table) = w.current_table().unwrap();
    assert_eq!(total, 3);
    assert_eq!(table.items.len(), 1);
    assert_eq!(table.length, 1 + 2 + 3);
    assert_eq!(table.items[0].children.len(), 2);
    w.add_results(response(7, vec![]));
    assert_eq!(w.current_table().unwrap().1.items.len(), 1);
    w.add_results(response(42, vec![file("c", 1)]));
    assert_eq!(w.results.len(), 2);
    w.new_table(11, String::from("jazz"));
    assert_eq!(w.token_of(&String::from("jazz")), Some(11));
}

#[test]
fn a_search_started_at_random_gets_its_token() {
    let mut w = FileSearchWindow::new();
    w.search_bar = typed("blues");
    let (started, token) = w.start_search_at_random();
    assert_eq!(started, SearchStart::Started(String::from("blues")));
    assert_eq!(w.token_of(&String::from("blues")), Some(token));
    let (again, _) = w.start_search_at_random();
    assert_eq!(again, SearchStart::AlreadyOpen);
    assert_eq!(w.search_tabs.tabs, vec!["blues"]);
}

fn typed(text: &str) -> Input {
    let mut input = Input::default();
    for c in text.chars() {
        input.handle_event(KeyPress { code: EditKey::Char(c), mods: 0 });
    }
    input
}

#[test]
fn search_results_reach_their_search() {
    let mut gui = GuiState {
        login: LoginWindow::new(),
        chatrooms: ChatroomsWindow::new(),
        rooms: Vec::new(),
        filesearch: FileSearchWindow::new(),
        downloads: DownloadsWindow::new(),
    };
    gui.filesearch.search_bar = typed("jazz");
    assert_eq!(gui.filesearch.start_search(7), SearchStart::Started(String::from("jazz")));
    assert_eq!(gui.on_event(GuiEvent::SearchResults(response(7, vec![file("a\\x.mp3", 1)]))), GuiOutcome::Continue);
    assert_eq!(gui.filesearch.current_table().unwrap().0, 1);
    gui.on_event(GuiEvent::SearchResults(response(8, vec![file("a\\y.mp3", 1)])));
    assert_eq!(gui.filesearch.current_table().unwrap().0, 1);
}
