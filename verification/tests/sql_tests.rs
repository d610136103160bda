use slsk::messages::peer::FileAttribute;
use slsk::sql::{
    extension, extract_terms, file_list, index_entries, search_result, search_results, split_aliased,
    subfolder_alias, IndexFile, IndexRow, SearchRow, WalkedEntry,
};

#[test]
fn terms_are_the_lower_case_words_sorted_once() {
    assert_eq!(
        extract_terms("The Beatles - Hey_Jude (1968).MP3"),
        vec!["1968", "beatles", "hey", "jude", "mp3", "the"]
    );
    assert_eq!(extract_terms("ab AB ab"), vec!["ab"]);
}

#[test]
fn one_byte_words_are_no_terms() {
    assert!(extract_terms("a b c").is_empty());
    assert!(extract_terms("").is_empty());
    assert!(extract_terms("--__..").is_empty());
    // A single character of two bytes is long enough.
    assert_eq!(extract_terms("é x"), vec!["é"]);
}

#[test]
fn extensions_follow_the_last_dot() {
    assert_eq!(extension("song.tar.gz"), "gz");
    assert_eq!(extension("noext"), "");
    assert_eq!(extension(".hidden"), "hidden");
    assert_eq!(extension("dot."), "");
}

#[test]
fn a_search_result_is_named_by_its_folder() {
    let f = search_result("music\\rock", "a.mp3", None, vec![FileAttribute::Bitrate(320)]);
    assert_eq!(f.code, 1);
    assert_eq!(f.filename, "music\\rock\\a.mp3");
    assert_eq!(f.file_size, 0);
    assert_eq!(f.extension, "mp3");
    assert_eq!(f.attributes, vec![FileAttribute::Bitrate(320)]);
    assert_eq!(search_result("m", "b", Some(9), vec![]).file_size, 9);
}

fn row(alias: &str, file: Option<(i64, &str, u64)>, buddy: bool) -> IndexRow {
    IndexRow {
        file: file.map(|(folder_id, name, size)| IndexFile {
            folder_id,
            filename: String::from(name),
            file_size: size,
            attributes: Vec::new(),
        }),
        alias: String::from(alias),
        is_buddy_only: buddy,
    }
}

#[test]
fn the_file_list_groups_files_by_folder() {
    let rows = vec![
        row("a\\empty", None, false),
        row("music", Some((1, "x.mp3", 10)), false),
        row("music", Some((1, "y.flac", 20)), false),
        row("secret", Some((2, "z.txt", 30)), true),
    ];
    let list = file_list(rows);
    assert_eq!(list._unknown_0, 0);
    assert_eq!(list.directories.len(), 1);
    assert_eq!(list.directories[0].path, "a\\empty");
    assert!(list.directories[0].files.is_empty());
    // A directory is filed by the flag of the row that ends it.
    assert_eq!(list.priv_directories.len(), 2);
    assert_eq!(list.priv_directories[0].path, "music");
    let names: Vec<&str> = list.priv_directories[0].files.iter().map(|f| f.filename.as_str()).collect();
    assert_eq!(names, vec!["x.mp3", "y.flac"]);
    assert_eq!(list.priv_directories[0].files[1].extension, "flac");
    assert_eq!(list.priv_directories[0].files[1].file_size, 20);
    assert_eq!(list.priv_directories[1].path, "secret");
    assert_eq!(list.priv_directories[1].files[0].filename, "z.txt");
}

#[test]
fn public_folders_are_listed_for_all() {
    let rows = vec![
        row("one", Some((1, "a", 1)), false),
        row("two", Some((2, "b", 2)), false),
    ];
    let list = file_list(rows);
    assert_eq!(list.directories.len(), 2);
    assert_eq!(list.directories[1].path, "two");
    assert!(list.priv_directories.is_empty());
}

#[test]
fn subfolders_are_named_below_their_alias() {
    assert_eq!(subfolder_alias("music", ""), "music");
    assert_eq!(subfolder_alias("music", "rock/old"), "music\\rock/old");
}

#[test]
fn aliased_names_split_into_alias_path_and_file() {
    assert_eq!(
        split_aliased("music\\rock\\old\\a.mp3"),
        Some((String::from("music"), String::from("rock\\old"), String::from("a.mp3")))
    );
    assert_eq!(
        split_aliased("music\\\\a.mp3"),
        Some((String::from("music"), String::new(), String::from("a.mp3")))
    );
    assert_eq!(split_aliased("music\\a.mp3"), None);
    assert_eq!(split_aliased("a.mp3"), None);
}

#[test]
fn the_file_list_keeps_every_file() {
    let rows = vec![
        row("e", None, false),
        row("one", Some((1, "a", 1)), true),
        row("one", Some((1, "b", 1)), true),
        row("two", Some((2, "c", 2)), false),
        row("three", Some((3, "d", 2)), true),
    ];
    let list = file_list(rows);
    let count: usize = list.directories.iter().chain(list.priv_directories.iter()).map(|d| d.files.len()).sum();
    assert_eq!(count, 4);
}

fn search_row(alias: &str, name: &str, buddy: bool) -> SearchRow {
    SearchRow {
        folder_alias: String::from(alias),
        filename: String::from(name),
        is_buddy_only: buddy,
        file_size: Some(3),
        attributes: Vec::new(),
    }
}

#[test]
fn search_results_split_by_sharing_in_order() {
    let (public, private) = search_results(vec![
        search_row("music\\a", "x.mp3", false),
        search_row("secret", "y.flac", true),
        search_row("music", "z.ogg", false),
    ]);
    let names: Vec<&str> = public.iter().map(|f| f.filename.as_str()).collect();
    assert_eq!(names, vec!["music\\a\\x.mp3", "music\\z.ogg"]);
    assert_eq!(private.len(), 1);
    assert_eq!(private[0].filename, "secret\\y.flac");
    assert_eq!(private[0].extension, "flac");
    assert_eq!(private[0].file_size, 3);
}

#[test]
fn walked_entries_are_stored_under_their_folder_alias() {
    let entries = vec![
        WalkedEntry { relative: String::new(), file_name: None },
        WalkedEntry { relative: String::new(), file_name: Some(String::from("a.mp3")) },
        WalkedEntry { relative: String::from("live\\1999"), file_name: Some(String::from("b.mp3")) },
    ];
    let stored = index_entries("music", &entries);
    assert_eq!(stored.len(), 3);
    assert_eq!(stored[0].folder_alias, "music");
    assert_eq!(stored[0].file, None);
    assert_eq!(stored[1].file, Some((String::from("a.mp3"), String::from("music\\a.mp3"))));
    assert_eq!(stored[2].folder_alias, "music\\live\\1999");
    assert_eq!(stored[2].file, Some((String::from("b.mp3"), String::from("music\\live\\1999\\b.mp3"))));
}
