use slsk::constants::{ByteSize, DownloadStatus, Percentage};
use slsk::gui::widgets::table::{
    count_rows_exec, nth_row_exec, table_key_action, ColumnData, TableAction, TableItem, TableKey,
    TableWidget,
};

fn text(s: &str) -> ColumnData {
    ColumnData::String(String::from(s))
}

fn first_cell(item: &TableItem) -> String {
    item.content[0].to_string()
}

fn tree() -> Vec<TableItem> {
    vec![
        TableItem::new(
            vec![text("b"), ColumnData::Usize(2)],
            vec![
                TableItem::new(vec![text("z"), ColumnData::Usize(1)], vec![]),
                TableItem::new(vec![text("y"), ColumnData::Usize(5)], vec![]),
            ],
        ),
        TableItem::new(vec![text("a"), ColumnData::Usize(1000)], vec![]),
    ]
}

fn names(items: &Vec<TableItem>) -> Vec<String> {
    items.iter().map(first_cell).collect()
}

#[test]
fn cells_show_their_values() {
    assert_eq!(ColumnData::Empty.to_string(), "");
    assert_eq!(ColumnData::Usize(1000).to_string(), "1,000");
    assert_eq!(text("Song.mp3").to_string(), "Song.mp3");
    assert_eq!(ColumnData::ByteSize(ByteSize(10000)).to_string(), "10.00 KB");
    assert_eq!(ColumnData::DownloadStatus(DownloadStatus::Complete).to_string(), "Complete");
    assert_eq!(ColumnData::Percentage(Percentage(42)).to_string(), "42%");
    assert_eq!(ColumnData::Token(7).to_string(), "7");
}

#[test]
fn rows_count_what_is_open() {
    let items = tree();
    assert_eq!(count_rows_exec(&items), 2);
    let shut = TableItem::new(vec![text("b")], vec![TableItem::default()]);
    assert_eq!(shut.length(None), 1);
    let open = tree().remove(0).open();
    assert!(open.is_open);
    assert_eq!(open.length(None), 3);
    assert_eq!(open.length(Some("z")), 2);
    let opened = vec![tree().remove(0).opened()];
    assert_eq!(count_rows_exec(&opened), 3);
    assert_eq!(first_cell(nth_row_exec(&opened, 2).unwrap()), "y");
    assert!(nth_row_exec(&opened, 3).is_none());
    let d = TableItem::default();
    assert!(d.content.is_empty() && d.children.is_empty() && !d.is_open);
}

#[test]
fn a_new_table_counts_its_rows() {
    let table = TableWidget::new(
        vec![String::from("Name"), String::from("Size")],
        tree(),
        None,
    );
    assert_eq!(table.headers, vec!["", "Name", "Size"]);
    assert_eq!(table.length, 2);
    assert_eq!(table.selected_row, 0);
    assert!(!table.is_filtered());
    assert_eq!(table.filter(), None);
    assert_eq!(first_cell(table.current_row().unwrap()), "b");
    let empty = TableWidget::new(vec![], vec![], Some((0, 1)));
    assert!(empty.current_row().is_none());
    assert_eq!(empty.filter_range, Some((0, 1)));
    assert_eq!(empty.filter_range(None).filter_range, None);
}

#[test]
fn toggling_opens_and_shuts_the_selected_row() {
    let mut table = TableWidget::new(vec![String::from("Name")], tree(), None);
    table.toggle_item();
    assert!(table.items[0].is_open);
    assert_eq!(table.length, 4);
    table.next_row();
    assert_eq!(first_cell(table.current_row().unwrap()), "z");
    table.previous_row();
    table.toggle_item();
    assert!(!table.items[0].is_open);
    assert_eq!(table.length, 2);
    // A row without rows below it flips without changing the count.
    table.next_row();
    table.toggle_item();
    assert!(table.items[1].is_open);
    assert_eq!(table.length, 2);
}

#[test]
fn selection_stays_within_the_counted_rows() {
    let mut table = TableWidget::new(vec![String::from("Name")], tree(), None);
    table.previous_row();
    assert_eq!(table.selected_row, 0);
    table.next_row();
    table.next_row();
    table.next_row();
    assert_eq!(table.selected_row, 1);
}

#[test]
fn columns_are_chosen_in_turn() {
    let mut table = TableWidget::new(
        vec![String::from("Name"), String::from("Size")],
        tree(),
        None,
    );
    table.next_column();
    assert_eq!(table.sort, Some((1, None)));
    table.next_column();
    assert_eq!(table.sort, Some((2, None)));
    table.next_column();
    assert_eq!(table.sort, None);
    table.previous_column();
    assert_eq!(table.sort, Some((2, None)));
    table.previous_column();
    table.previous_column();
    assert_eq!(table.sort, None);
}

#[test]
fn sorting_cycles_through_the_orders() {
    let mut table = TableWidget::new(vec![String::from("Name")], tree(), None);
    table.toggle_item();
    table.sort();
    assert_eq!(table.sort, None);
    table.next_column();
    table.sort();
    assert_eq!(table.sort, Some((1, Some(true))));
    assert_eq!(names(&table.items), vec!["a", "b"]);
    assert_eq!(names(&table.items[1].children), vec!["y", "z"]);
    table.sort();
    assert_eq!(table.sort, Some((1, Some(false))));
    assert_eq!(names(&table.items), vec!["b", "a"]);
    assert_eq!(names(&table.items[0].children), vec!["z", "y"]);
    table.sort();
    assert_eq!(table.sort, Some((1, None)));
    assert_eq!(names(&table.items), vec!["b", "a"]);
    assert_eq!(table.length, 4);
}

#[test]
fn sorting_by_numbers_and_keeping_ties_in_order() {
    let items = vec![
        TableItem::new(vec![text("p"), ColumnData::Usize(30)], vec![]),
        TableItem::new(vec![text("q"), ColumnData::Usize(4)], vec![]),
        TableItem::new(vec![text("r"), ColumnData::Usize(30)], vec![]),
        TableItem::new(vec![text("s")], vec![]),
    ];
    let mut table = TableWidget::new(vec![String::from("Name"), String::from("Size")], items, None);
    table.next_column();
    table.next_column();
    table.sort();
    // A row without the cell comes first; equal rows keep their order.
    assert_eq!(names(&table.items), vec!["s", "q", "p", "r"]);
    table.sort();
    assert_eq!(names(&table.items), vec!["p", "r", "q", "s"]);
}

#[test]
fn a_filter_hides_the_rows_that_hold_it() {
    let mut table = TableWidget::new(vec![String::from("Name")], tree(), None);
    table.toggle_item();
    table.set_filter(String::from("Z"));
    assert!(table.is_filtered());
    assert_eq!(table.filter(), Some(&String::from("z")));
    assert_eq!(table.length, 3);
    table.set_filter(String::new());
    assert_eq!(table.filter(), Some(&String::from("z")));
    table.remove_filter();
    assert!(!table.is_filtered());
    assert_eq!(table.length, 4);
}

#[test]
fn a_filter_range_limits_the_cells_looked_at() {
    let mut table = TableWidget::new(vec![String::from("Name")], tree(), Some((1, 2)));
    table.set_filter(String::from("a"));
    assert_eq!(table.length, 2);
    table.set_filter(String::from("1,0"));
    assert_eq!(table.length, 1);
}

#[test]
fn inserting_a_row_counts_it() {
    let mut table = TableWidget::new(vec![String::from("Name")], tree(), None);
    table.insert_item(tree().remove(0).open());
    assert_eq!(table.items.len(), 3);
    assert_eq!(table.length, 5);
    table.set_length();
    assert_eq!(table.length, 5);
}

#[test]
fn a_filter_is_refused_where_its_range_does_not_fit() {
    let mut table = TableWidget::new(vec![String::from("Name")], tree(), Some((1, 3)));
    assert!(!table.try_set_filter(String::from("a")));
    assert!(!table.is_filtered());
    assert_eq!(table.length, 2);
    assert!(table.try_set_filter(String::new()));
    assert!(!table.is_filtered());
    let mut fitting = TableWidget::new(vec![String::from("Name")], tree(), Some((0, 1)));
    assert!(fitting.try_set_filter(String::from("A")));
    assert_eq!(fitting.filter(), Some(&String::from("a")));
    assert_eq!(fitting.length, 1);
}

#[test]
fn rows_are_drawn_indented_with_their_marks() {
    let mut table = TableWidget::new(vec![String::from("Name")], tree(), None);
    table.toggle_item();
    let (rows, selected) = table.rows(0, 10);
    assert_eq!(
        rows,
        vec![
            vec!["[-]", "b", "2"],
            vec!["  ", "  z", "1"],
            vec!["  ", "  y", "5"],
            vec!["  ", "a", "1,000"],
        ]
    );
    assert_eq!(selected, Some(0));
    let (rows, selected) = table.rows(1, 2);
    assert_eq!(rows, vec![vec!["  ", "  z", "1"], vec!["  ", "  y", "5"]]);
    assert_eq!(selected, None);
    let (rows, selected) = table.rows(5, 2);
    assert!(rows.is_empty());
    assert_eq!(selected, None);
    table.set_filter(String::from("z"));
    let (rows, _) = table.rows(0, 10);
    let firsts: Vec<&str> = rows.iter().map(|r| r[1].as_str()).collect();
    assert_eq!(firsts, vec!["b", "  y", "a"]);
    let shut = TableWidget::new(vec![String::from("Name")], tree(), None);
    assert_eq!(shut.rows(0, 10).0[0][0], "[+]");
}

#[test]
fn rows_before_the_offset_are_counted_without_the_filter() {
    let mut table = TableWidget::new(vec![String::from("Name")], tree(), None);
    table.toggle_item();
    table.set_filter(String::from("b"));
    let (rows, _) = table.rows(0, 10);
    let firsts: Vec<&str> = rows.iter().map(|r| r[1].as_str()).collect();
    assert_eq!(firsts, vec!["a"]);
    let (rows, selected) = table.rows(1, 10);
    let firsts: Vec<&str> = rows.iter().map(|r| r[1].as_str()).collect();
    assert_eq!(firsts, vec!["  z", "  y", "a"]);
    assert_eq!(selected, None);
}

#[test]
fn rows_are_refused_where_a_looked_at_row_cannot_be_read() {
    let mut table = TableWidget::new(vec![String::from("Name")], tree(), Some((1, 3)));
    table.filter = Some(String::from("a"));
    assert_eq!(table.try_rows(0, 10), None);
    assert_eq!(table.try_rows(10, 5), Some((Vec::new(), None)));
    assert_eq!(table.try_rows(0, 0), Some((Vec::new(), None)));
}

#[test]
fn headers_show_the_sort_order() {
    let mut table = TableWidget::new(vec![String::from("Name"), String::from("Size")], tree(), None);
    assert_eq!(table.header_texts(), (vec![String::new(), String::from("Name"), String::from("Size")], None));
    table.next_column();
    assert_eq!(table.header_texts().1, Some(1));
    assert_eq!(table.header_texts().0[1], "Name");
    table.sort();
    assert_eq!(table.header_texts().0[1], "\u{2193} Name");
    table.sort();
    assert_eq!(table.header_texts().0[1], "\u{2191} Name");
    assert_eq!(table.header_texts().0[2], "Size");
}

#[test]
fn table_keys() {
    assert_eq!(table_key_action(TableKey::Up), TableAction::PreviousRow);
    assert_eq!(table_key_action(TableKey::Down), TableAction::NextRow);
    assert_eq!(table_key_action(TableKey::Enter), TableAction::Toggle);
    assert_eq!(table_key_action(TableKey::Left), TableAction::PreviousColumn);
    assert_eq!(table_key_action(TableKey::Right), TableAction::NextColumn);
    assert_eq!(table_key_action(TableKey::Sort), TableAction::Sort);
    assert_eq!(table_key_action(TableKey::ShiftEnter), TableAction::Interact);
    assert_eq!(table_key_action(TableKey::Other), TableAction::Nothing);
}

#[test]
fn toggling_keeps_the_count_of_rows_shown() {
    let mut table = TableWidget::new(vec![String::from("Name")], tree(), None);
    table.toggle_item();
    let counted = table.length;
    table.set_length();
    assert_eq!(table.length, counted);
    table.toggle_item();
    let counted = table.length;
    table.set_length();
    assert_eq!(table.length, counted);
}

#[test]
fn toggling_keeps_the_count_equal_to_the_rows_shown() {
    let mut table = TableWidget::new(vec![String::from("Name")], tree(), None);
    assert_eq!(table.length, count_rows_exec(&table.items));
    table.toggle_item();
    assert_eq!(table.length, count_rows_exec(&table.items));
    assert_eq!(table.length, 4);
    table.toggle_item();
    assert_eq!(table.length, count_rows_exec(&table.items));
    assert_eq!(table.length, 2);
}
