use slsk::gui::widgets::chatroom::{chat_line, ChatroomState};
use slsk::gui::widgets::dropdown::{
    centered_title, key_action, list_dimensions, Dropdown, DropdownAction, DropdownHeader, DropdownItem, MenuKey,
};
use slsk::gui::widgets::input::{cursor_spans, mask, EditKey, Input, InputType, KeyPress};
use slsk::gui::widgets::tabs::{TabKey, Tabs};
use slsk::gui::widgets::SelectItem;
use slsk::messages::server::UserStats;

fn menu() -> Dropdown {
    Dropdown::new(
        DropdownHeader::Title(String::from("Menu")),
        vec![
            DropdownItem::flat("x", vec![String::from("y"), String::from("z")]),
            DropdownItem::empty("w"),
        ],
    )
}

#[test]
fn dropdown_items_are_built_shut() {
    let item = DropdownItem::flat("x", vec![String::from("y"), String::from("z")]);
    assert_eq!(item.text, "x");
    assert_eq!(item.children.len(), 2);
    assert_eq!(item.children[1].text, "z");
    assert!(!item.is_open());
    assert_eq!(item.selected(), None);
    let d = DropdownItem::default();
    assert_eq!(d.text, "DropdownItem");
    let n = DropdownItem::new("n", vec![DropdownItem::empty("c")]);
    assert_eq!(n.children[0].text, "c");
}

#[test]
fn dropdown_item_selection_is_clamped() {
    let mut item = DropdownItem::flat("x", vec![String::from("a"), String::from("b")]);
    item.select_next();
    item.select_next();
    assert_eq!(item.selected, 1);
    item.select_previous();
    item.select_previous();
    assert_eq!(item.selected, 0);
    item.open();
    assert_eq!(item.get_index(), Some(0));
    item.set_index(None);
    assert_eq!(item.get_index(), Some(0));
}

#[test]
fn dropdown_walks_down_and_back() {
    let mut m = menu();
    m.open();
    assert!(m.is_open());
    assert_eq!(m.depth, 1);
    m.select_next();
    assert_eq!(m.selected, 1);
    m.select_next();
    assert_eq!(m.selected, 1);
    m.select_previous();
    assert_eq!(m.selected, 0);
    m.open();
    assert_eq!(m.depth, 2);
    assert!(m.children[0].is_open);
    m.select_next();
    assert_eq!(m.children[0].selected, 1);
    m.click();
    assert_eq!(m.fetched_text, Some(String::from("z")));
    m.close();
    assert_eq!(m.depth, 1);
    assert!(!m.children[0].is_open);
    m.close();
    assert_eq!(m.depth, 0);
    assert!(!m.is_open());
}

#[test]
fn closing_undoes_opening() {
    let mut m = menu();
    m.open();
    m.open();
    let selected = m.children[0].selected;
    m.close();
    assert_eq!(m.depth, 1);
    assert!(!m.children[0].is_open);
    assert_eq!(m.children[0].selected, selected);
    m.close();
    assert_eq!(m.depth, 0);
    assert!(!m.is_open());
}

#[test]
fn an_entry_without_children_does_not_open() {
    let mut m = menu();
    m.open();
    m.select_next();
    m.open();
    assert_eq!(m.depth, 1);
    m.click();
    assert_eq!(m.fetched_text, Some(String::from("w")));
}

#[test]
fn clicking_the_header_fetches_the_search_text() {
    let mut title = menu();
    title.click();
    assert_eq!(title.fetched_text, None);
    let mut search = Dropdown::new(DropdownHeader::Search(String::from("query")), Vec::new());
    search.click();
    assert_eq!(search.fetched_text, Some(String::from("query")));
}

#[test]
fn an_out_of_range_selection_cannot_be_followed() {
    let mut m = menu();
    m.open();
    m.set_index(Some(5));
    assert!(!m.can_alter(DropdownAction::Open));
    assert!(m.can_alter(DropdownAction::Close));
    m.set_index(Some(0));
    assert!(m.can_alter(DropdownAction::Open));
}

#[test]
fn default_dropdown_has_four_entries() {
    let d = Dropdown::default();
    assert_eq!(d.children.len(), 4);
    assert_eq!(d.children[3].text, "DropdownItem");
    assert!(matches!(d.header, DropdownHeader::Title(ref t) if t == "Dropdown"));
    assert_eq!(d.get_index(), None);
}

#[test]
fn menu_keys() {
    assert_eq!(key_action(MenuKey::Enter), DropdownAction::Open);
    assert_eq!(key_action(MenuKey::Esc), DropdownAction::Close);
    assert_eq!(key_action(MenuKey::Up), DropdownAction::Previous);
    assert_eq!(key_action(MenuKey::Down), DropdownAction::Next);
    assert_eq!(key_action(MenuKey::ShiftEnter), DropdownAction::Click);
}

fn stats(n: u32) -> UserStats {
    UserStats { avg_speeds: n, upload_num: 0, num_of_files: 0, num_of_dirs: 0 }
}

#[test]
fn chat_rooms_keep_messages_and_users() {
    let mut room = ChatroomState::default();
    room.add_message(String::from("a: hi"));
    room.add_message(String::from("b: hello"));
    assert_eq!(room.messages(), &vec![String::from("a: hi"), String::from("b: hello")]);
    room.add_user(String::from("a"), stats(1));
    room.add_user(String::from("b"), stats(2));
    room.add_user(String::from("a"), stats(3));
    assert_eq!(room.users().len(), 2);
    assert_eq!(room.users()[0], (String::from("a"), stats(3)));
    room.remove_user(String::from("a"));
    assert_eq!(room.users(), &vec![(String::from("b"), stats(2))]);
    room.remove_user(String::from("nobody"));
    assert_eq!(room.users().len(), 1);
    room.remove_user(String::from("b"));
    assert!(room.users().is_empty());
}

#[test]
fn tabs_move_and_close() {
    let mut t = Tabs::new(vec![String::from("a"), String::from("b"), String::from("c")]);
    assert!(!t.handle_key(TabKey::Left));
    assert_eq!(t.selected, 0);
    t.handle_key(TabKey::Right);
    t.handle_key(TabKey::Right);
    t.handle_key(TabKey::Right);
    assert_eq!(t.selected, 2);
    assert!(t.handle_key(TabKey::Enter));
    assert_eq!(t.current, 2);
    assert_eq!(t.current_tab(), Some(&String::from("c")));
    t.handle_key(TabKey::Backspace);
    assert_eq!(t.tabs, vec![String::from("a"), String::from("b")]);
    assert_eq!(t.selected, 1);
    assert_eq!(t.selected_tab(), Some(&String::from("b")));
    t.add_tab(String::from("d"));
    assert_eq!(t.tabs.len(), 3);
    t.set_index(Some(0));
    t.remove_selected_tab();
    assert_eq!(t.tabs, vec![String::from("b"), String::from("d")]);
    assert_eq!(t.selected, 0);
}

#[test]
fn empty_tabs() {
    let mut t = Tabs::default();
    assert_eq!(t.selected_tab(), None);
    assert_eq!(t.current_tab(), None);
    t.remove_selected_tab();
    t.select_next();
    t.select_previous();
    assert_eq!(t.selected, 0);
    assert_eq!(t.get_index(), Some(0));
}

#[test]
fn a_menu_list_is_as_wide_as_its_widest_entry() {
    assert_eq!(list_dimensions(&vec![(3, 1), (7, 2), (5, 1)]), (9, 6));
    assert_eq!(list_dimensions(&vec![]), (2, 2));
}

#[test]
fn menu_titles_are_centred() {
    assert_eq!(centered_title("All Rooms", 13), "  All Rooms  ");
    assert_eq!(centered_title("ab", 5), " ab  ");
    assert_eq!(centered_title("long title", 4), "long title");
}

#[test]
fn the_cursor_is_drawn_on_its_character() {
    let s = |v: Vec<(String, bool)>| v.into_iter().map(|(t, h)| (t, h)).collect::<Vec<_>>();
    assert_eq!(s(cursor_spans("abc", 1, false)), vec![(String::from("abc"), false)]);
    assert_eq!(
        s(cursor_spans("abc", 3, true)),
        vec![(String::from("abc"), false), (String::from(" "), true)]
    );
    assert_eq!(
        s(cursor_spans("abc", 1, true)),
        vec![(String::from("a"), false), (String::from("b"), true), (String::from("c"), false)]
    );
    assert_eq!(mask("pässword"), "********");
    assert_eq!(mask(""), "");
}

#[test]
fn chat_lines_carry_the_name_and_the_time() {
    assert_eq!(chat_line("alice", "2024-01-02 03:04:05", "hi all"), "alice [2024-01-02 03:04:05] hi all");
    let mut room = ChatroomState::new();
    room.add_chat_message("bob", "hello");
    let line = &room.messages()[0];
    assert!(line.starts_with("bob ["));
    assert!(line.ends_with("] hello"));
    assert_eq!(line.len(), "bob [2024-01-02 03:04:05] hello".len());
}

fn press(code: EditKey) -> KeyPress {
    KeyPress { code, mods: 0 }
}

#[test]
fn keys_edit_the_shown_text_at_the_cursor_and_the_typed_text_at_its_end() {
    let mut input = Input::default();
    assert_eq!(input.handle_event(press(EditKey::Char('a'))), Some((true, true)));
    assert_eq!((input.value.as_str(), input.cursor, input.input_string.as_str()), ("a", 1, "a"));
    assert_eq!(input.handle_event(press(EditKey::Left)), Some((false, true)));
    assert_eq!(input.cursor, 0);
    input.handle_event(press(EditKey::Char('b')));
    assert_eq!((input.value.as_str(), input.cursor, input.input_string.as_str()), ("ba", 1, "ab"));
    assert_eq!(input.handle_event(press(EditKey::Home)), Some((false, true)));
    assert_eq!(input.handle_event(press(EditKey::Home)), None);
    assert_eq!(input.handle_event(press(EditKey::Delete)), Some((true, false)));
    assert_eq!((input.value.as_str(), input.cursor, input.input_string.as_str()), ("a", 0, "ab"));
    assert_eq!(input.handle_event(press(EditKey::End)), Some((false, true)));
    assert_eq!(input.handle_event(press(EditKey::Right)), None);
    assert_eq!(input.handle_event(press(EditKey::Backspace)), Some((true, true)));
    assert_eq!((input.value.as_str(), input.cursor, input.input_string.as_str()), ("", 0, "a"));
    assert_eq!(input.handle_event(press(EditKey::Other)), None);
    assert_eq!(input.handle_event(KeyPress { code: EditKey::Char('C'), mods: 1 }), Some((true, true)));
    assert_eq!((input.value.as_str(), input.input_string.as_str()), ("C", "aC"));
}

#[test]
fn control_keys_edit_by_words_and_lines() {
    let mut input = Input::default();
    for c in "ab cd".chars() {
        input.handle_event(press(EditKey::Char(c)));
    }
    input.handle_event(KeyPress { code: EditKey::Char('w'), mods: 2 });
    assert_eq!((input.value.as_str(), input.cursor, input.input_string.as_str()), ("ab ", 3, "ab "));
    input.handle_event(KeyPress { code: EditKey::Char('u'), mods: 2 });
    assert_eq!((input.value.as_str(), input.cursor, input.input_string.as_str()), ("", 0, ""));
}

#[test]
fn a_password_shows_a_star_for_each_character() {
    let mut input = Input::default().input_type(InputType::Password);
    for c in "xyz".chars() {
        input.handle_event(press(EditKey::Char(c)));
    }
    assert_eq!((input.value.as_str(), input.cursor, input.input_string.as_str()), ("***", 3, "xyz"));
    input.handle_event(press(EditKey::Left));
    assert_eq!((input.value.as_str(), input.cursor), ("***", 2));
    input.handle_event(press(EditKey::Backspace));
    assert_eq!((input.value.as_str(), input.cursor, input.input_string.as_str()), ("**", 1, "xy"));
    input.make_focused();
    assert!(input.in_focus);
    input.clear();
    assert_eq!((input.value.as_str(), input.cursor, input.input_string.as_str()), ("", 0, ""));
    assert_eq!(input.input_type, InputType::Password);
}
