use assistant_cli::cells::{
    can_cut_notes, can_make_cell, cut_notes, make_cell, place_columns, ColumnWidth,
};
use assistant_cli::column::{Column, SortDirection};
use assistant_cli::items::ListItem;

fn item() -> ListItem {
    ListItem {
        id: "i1".to_string(),
        title: "Milk".to_string(),
        tags: vec!["a".to_string(), "b".to_string(), "c".to_string(), "d".to_string()],
        url: None,
        notes: None,
        completed: None,
    }
}

#[test]
fn column_names_are_read_in_any_case() {
    assert_eq!(Column::from_str("  TITLE "), Some(Column::Title));
    assert_eq!(Column::from_str("name"), Some(Column::Title));
    assert_eq!(Column::from_str("Status"), Some(Column::Status));
    assert_eq!(Column::from_str("completed"), Some(Column::Status));
    assert_eq!(Column::from_str("tag"), Some(Column::Tags));
    assert_eq!(Column::from_str("tags"), Some(Column::Tags));
    assert_eq!(Column::from_str("url"), Some(Column::Url));
    assert_eq!(Column::from_str("Link\t"), Some(Column::Url));
    assert_eq!(Column::from_str("note"), Some(Column::Notes));
    assert_eq!(Column::from_str("notes"), Some(Column::Notes));
    assert_eq!(Column::from_str("description"), Some(Column::Notes));
    assert_eq!(Column::from_str("price"), None);
    assert_eq!(Column::from_str(""), None);
}

#[test]
fn unicode_white_space_is_trimmed_from_column_names() {
    assert_eq!(Column::from_str("\u{a0}\u{2003}url\u{3000}\u{85}"), Some(Column::Url));
    assert_eq!(Column::from_str("\u{200b}url"), None);
}

#[test]
fn field_names_read_back() {
    for column in [Column::Status, Column::Title, Column::Tags, Column::Url, Column::Notes] {
        assert_eq!(Column::from_str(column.aql_field()), Some(column));
    }
}

#[test]
fn headings() {
    assert_eq!(Column::Status.header(), "");
    assert_eq!(Column::Title.header(), "Title");
    assert_eq!(Column::Tags.header(), "Tags");
    assert_eq!(Column::Url.header(), "URL");
    assert_eq!(Column::Notes.header(), "📝");
    let title = Column::Title;
    assert_eq!(title.make_heading(Some(Column::Title), SortDirection::Desc), "Title ▼");
    assert_eq!(title.make_heading(Some(Column::Title), SortDirection::Asc), "Title ▲");
    assert_eq!(title.make_heading(Some(Column::Tags), SortDirection::Asc), "Title");
    assert_eq!(title.make_heading(None, SortDirection::Asc), "Title");
}

#[test]
fn directions_toggle() {
    assert_eq!(SortDirection::Asc.toggle(), SortDirection::Desc);
    assert_eq!(SortDirection::Desc.toggle(), SortDirection::Asc);
    assert_eq!(SortDirection::Asc.aql_suffix(), "asc");
    assert_eq!(SortDirection::Desc.aql_suffix(), "desc");
    assert_eq!(SortDirection::Asc.indicator(), "▲");
    assert_eq!(SortDirection::Desc.indicator(), "▼");
}

#[test]
fn widths() {
    assert_eq!(Column::Status.width(), ColumnWidth::Fixed(2));
    assert_eq!(Column::Title.width(), ColumnWidth::Min(20));
    assert_eq!(Column::Tags.width(), ColumnWidth::Fixed(20));
    assert_eq!(Column::Url.width(), ColumnWidth::Fixed(3));
    assert_eq!(Column::Notes.width(), ColumnWidth::Min(30));
}

#[test]
fn cells_of_an_open_item() {
    let i = item();
    assert_eq!(make_cell(&i, Column::Status), "○");
    assert_eq!(make_cell(&i, Column::Title), "Milk");
    assert_eq!(make_cell(&i, Column::Tags), "a, b, c");
    assert_eq!(make_cell(&i, Column::Url), "  ");
    assert_eq!(make_cell(&i, Column::Notes), "");
}

#[test]
fn cells_of_a_completed_item() {
    let mut i = item();
    i.completed = Some(true);
    i.url = Some("http://x".to_string());
    i.tags = vec![];
    i.notes = Some("first\r\nsecond".to_string());
    assert_eq!(make_cell(&i, Column::Status), "✓");
    assert_eq!(make_cell(&i, Column::Title), "\u{336}Milk");
    assert_eq!(make_cell(&i, Column::Tags), "");
    assert_eq!(make_cell(&i, Column::Url), "🔗");
    assert_eq!(make_cell(&i, Column::Notes), "first");
}

#[test]
fn notes_are_cut_behind_forty_bytes() {
    let forty = "a".repeat(40);
    assert_eq!(cut_notes(&forty), forty);
    let more = "b".repeat(41);
    assert_eq!(cut_notes(&more), format!("{}...", "b".repeat(37)));
    assert_eq!(cut_notes("\nsecond"), "");
    assert_eq!(cut_notes("one\rtwo\nthree"), "one\rtwo");
}

#[test]
fn notes_that_would_be_cut_inside_a_character() {
    // The character behind 36 letters takes two bytes.
    let inside = format!("{}é{}", "a".repeat(36), "b".repeat(10));
    assert!(!can_cut_notes(&inside));
    let between = format!("{}é{}", "a".repeat(35), "b".repeat(10));
    assert!(can_cut_notes(&between));
    assert_eq!(cut_notes(&between), format!("{}é...", "a".repeat(35)));
    let mut i = item();
    i.notes = Some(inside);
    assert!(!can_make_cell(&i, Column::Notes));
    assert!(can_make_cell(&i, Column::Title));
}

#[test]
fn columns_share_the_room_that_is_left() {
    // 60 cells, one between: 59 - 40 = 19 more for the title.
    assert_eq!(
        place_columns(&vec![Column::Title, Column::Tags], 10, 60),
        Some(vec![(Column::Title, 10, 49), (Column::Tags, 50, 70)])
    );
    // 100 cells, two between: 98 - 53 = 45, so 22 more for each of two.
    assert_eq!(
        place_columns(&vec![Column::Title, Column::Url, Column::Notes], 0, 100),
        Some(vec![(Column::Title, 0, 42), (Column::Url, 43, 46), (Column::Notes, 47, 99)])
    );
}

#[test]
fn columns_keep_their_least_width() {
    assert_eq!(
        place_columns(&vec![Column::Status, Column::Title, Column::Tags], 1, 5),
        Some(vec![(Column::Status, 1, 3), (Column::Title, 4, 24), (Column::Tags, 25, 45)])
    );
    assert_eq!(
        place_columns(&vec![Column::Tags, Column::Url], 0, 500),
        Some(vec![(Column::Tags, 0, 20), (Column::Url, 21, 24)])
    );
    assert_eq!(place_columns(&vec![], 7, 500), Some(vec![]));
}

#[test]
fn columns_beyond_the_largest_coordinate_have_no_place() {
    assert_eq!(place_columns(&vec![Column::Notes; 3000], 0, 80), None);
    assert_eq!(place_columns(&vec![Column::Url], 65531, 10), Some(vec![(Column::Url, 65531, 65534)]));
    assert_eq!(place_columns(&vec![Column::Url], 65532, 10), None);
}
