use assistant_cli::action::Action;
use assistant_cli::column::{Column, SortDirection};
use assistant_cli::draw::render_detail;
use assistant_cli::input::{Input, Key, KeyInput, MouseInput, MouseKind};
use assistant_cli::items::{ListInfo, ListItem};
use assistant_cli::layout::Area;
use assistant_cli::screen::{Body, Screen, Tone};
use assistant_cli::state::{EditFocus, Focus, InputMode, ListsTableBrowser, Panel};

fn list(id: &str, name: &str) -> ListInfo {
    ListInfo { id: id.to_string(), name: name.to_string(), tags: vec![], description: None }
}

fn item(id: &str) -> ListItem {
    ListItem {
        id: id.to_string(),
        title: format!("Title {}", id),
        tags: vec!["x".to_string(), "y".to_string()],
        url: Some("http://u".to_string()),
        notes: Some("some notes".to_string()),
        completed: Some(true),
    }
}

/// A browser that shows the first of two lists with two items.
fn with_items() -> ListsTableBrowser {
    let (mut b, _) = ListsTableBrowser::new("http://h".to_string(), String::new());
    b.lists = vec![list("l1", "Groceries"), list("l2", "Work")];
    b.items = vec![item("a"), item("b")];
    b.items[0].completed = None;
    b.table_state.select(Some(1));
    b.view = Panel::Items;
    b.focus = Focus::Table;
    b
}

fn press(b: &mut ListsTableBrowser, code: Key) -> Action {
    b.try_update(Input::Key(KeyInput { code, shift: false, ctrl: false, press: true })).unwrap()
}

fn click(b: &mut ListsTableBrowser, x: u16, y: u16) -> Action {
    b.try_update(Input::Mouse(MouseInput { kind: MouseKind::LeftDown, x, y })).unwrap()
}

fn draw(b: &mut ListsTableBrowser) -> Screen {
    b.try_render(80, 24).unwrap()
}

fn area(x: u16, y: u16, width: u16, height: u16) -> Area {
    Area { x, y, width, height }
}

#[test]
fn the_screen_is_divided() {
    let mut b = with_items();
    let s = draw(&mut b);
    // The longest name has nine letters.
    assert_eq!(s.sidebar.area, area(0, 0, 15, 22));
    assert_eq!(s.sidebar.inner, area(1, 1, 13, 20));
    assert_eq!(s.panel.area, area(15, 0, 65, 22));
    assert_eq!(s.panel.inner, area(16, 1, 63, 20));
    assert_eq!(s.input_area, area(0, 22, 80, 1));
    assert_eq!(s.status_area, area(0, 23, 80, 1));
    assert!(!s.sidebar.focused && s.panel.focused);
    assert_eq!(b.sidebar_area, s.sidebar.inner);
    assert_eq!(b.table_area, s.panel.inner);
}

#[test]
fn the_sidebar_grows_with_the_names() {
    let mut b = with_items();
    b.lists[0].name = "n".repeat(20);
    assert_eq!(draw(&mut b).sidebar.area.width, 26);
    b.lists[0].name = "n".repeat(100);
    assert_eq!(draw(&mut b).sidebar.area.width, 40);
    b.lists.clear();
    assert_eq!(draw(&mut b).sidebar.area.width, 16);
}

#[test]
fn a_small_screen_is_drawn_too() {
    let mut b = with_items();
    for (width, height) in [(0, 0), (1, 1), (10, 2), (10, 3), (3, 100)] {
        let s = b.try_render(width, height).unwrap();
        assert_eq!(s.input_area, area(0, height.saturating_sub(2), width, 1));
        assert_eq!(s.status_area, area(0, height.saturating_sub(1), width, 1));
    }
    let s = b.try_render(10, 3).unwrap();
    assert_eq!(s.sidebar.area, area(0, 0, 10, 1));
    assert_eq!(s.panel.area, area(10, 0, 0, 1));
    assert_eq!(s.rows.len(), 0);
}

#[test]
fn the_sidebar_lists_names() {
    let mut b = with_items();
    b.list_index = 1;
    let s = draw(&mut b);
    assert_eq!(s.sidebar.title, " Lists (2) ");
    assert_eq!(s.rows.len(), 2);
    assert_eq!(s.rows[0].text, "  Groceries");
    assert_eq!(s.rows[0].area, area(1, 1, 13, 1));
    assert!(!s.rows[0].selected);
    assert_eq!(s.rows[1].text, "▶ Work");
    assert_eq!(s.rows[1].area, area(1, 2, 13, 1));
    assert!(s.rows[1].selected);
    b.list_filter = "wor".to_string();
    let s = draw(&mut b);
    assert_eq!(s.sidebar.title, " /wor (1) ");
    assert_eq!(s.rows.len(), 1);
    b.list_filter = String::new();
    b.lists[0].name = "n".repeat(100);
    assert_eq!(draw(&mut b).rows[0].text, format!("  {}", "n".repeat(36)));
}

#[test]
fn rows_beyond_the_sidebar_are_left_out() {
    let mut b = with_items();
    for i in 0..50 {
        b.lists.push(list("l", &format!("List {}", i)));
    }
    assert_eq!(draw(&mut b).rows.len(), 20);
}

#[test]
fn titles_of_the_panel() {
    let mut b = with_items();
    assert_eq!(draw(&mut b).panel.title, " Groceries (2 items) ");
    b.list_index = 9;
    assert_eq!(draw(&mut b).panel.title, " Items ");
    b.view = Panel::Lists;
    assert_eq!(draw(&mut b).panel.title, " Select a list ");
    b.view = Panel::Search;
    b.search_query = "milk".to_string();
    assert_eq!(draw(&mut b).panel.title, " Search: \"milk\" (0 results) ");
    b.view = Panel::AqlQuery;
    b.aql_query = "q".to_string();
    assert_eq!(draw(&mut b).panel.title, " AQL: q (0 results) ");
    b.list_index = 1;
    assert_eq!(draw(&mut b).panel.title, " AQL [Work]: q (0 results) ");
    b.view = Panel::Detail;
    assert_eq!(draw(&mut b).panel.title, " Detail ");
    b.detail_item = Some(item("z"));
    assert_eq!(draw(&mut b).panel.title, " Title z ");
    b.view = Panel::Edit;
    assert_eq!(draw(&mut b).panel.title, " Edit ");
    b.view = Panel::Items;
    press(&mut b, Key::Char('e'));
    assert_eq!(draw(&mut b).panel.title, " Edit: Title b ");
}

#[test]
fn hints() {
    let mut b = with_items();
    b.view = Panel::Lists;
    assert!(matches!(draw(&mut b).body, Body::Hint(text) if text == "Select a list from the sidebar and press Enter"));
    b.view = Panel::Search;
    assert!(matches!(draw(&mut b).body, Body::Hint(text) if text == "No items"));
    b.view = Panel::Detail;
    assert!(matches!(draw(&mut b).body, Body::Nothing));
    b.view = Panel::Edit;
    assert!(matches!(draw(&mut b).body, Body::Nothing));
}

#[test]
fn the_table_shows_titles_and_tags() {
    let mut b = with_items();
    b.sort_column = Some(Column::Tags);
    b.sort_direction = SortDirection::Asc;
    match draw(&mut b).body {
        Body::Table(table) => {
            assert_eq!(table.columns, vec![Column::Title, Column::Tags]);
            assert_eq!(table.header, vec!["Title", "Tags ▲"]);
            assert_eq!(table.rows.len(), 2);
            assert_eq!(table.rows[0].cells, vec!["Title a", "x, y"]);
            assert!(!table.rows[0].done);
            assert_eq!(table.rows[1].cells, vec!["\u{336}Title b", "x, y"]);
            assert!(table.rows[1].done);
            assert_eq!(table.selected, Some(1));
        }
        other => panic!("no table: {:?}", other),
    }
    // 63 cells: 62 without the one between, 22 more for the title.
    assert_eq!(b.column_positions, vec![(Column::Title, 16, 58), (Column::Tags, 59, 79)]);
}

#[test]
fn a_query_chooses_the_columns() {
    let mut b = with_items();
    b.aql_results = vec![item("q")];
    b.aql_columns = Some(vec![Column::Status, Column::Url, Column::Notes]);
    b.view = Panel::AqlQuery;
    match draw(&mut b).body {
        Body::Table(table) => {
            assert_eq!(table.header, vec!["", "URL", "📝"]);
            assert_eq!(table.rows[0].cells, vec!["✓", "🔗", "some notes"]);
            assert_eq!(table.selected, None);
        }
        other => panic!("no table: {:?}", other),
    }
    b.aql_columns = None;
    match draw(&mut b).body {
        Body::Table(table) => assert_eq!(table.columns, vec![Column::Title, Column::Tags]),
        other => panic!("no table: {:?}", other),
    }
}

#[test]
fn a_table_that_cannot_be_drawn_changes_nothing() {
    let mut b = with_items();
    b.aql_results = vec![item("q")];
    b.aql_results[0].notes = Some(format!("{}é{}", "a".repeat(36), "b".repeat(10)));
    b.aql_columns = Some(vec![Column::Notes]);
    b.view = Panel::AqlQuery;
    assert!(!b.can_render(80, 24));
    assert!(b.try_render(80, 24).is_none());
    assert_eq!(b.table_area, area(0, 0, 0, 0));
    b.aql_columns = Some(vec![Column::Title; 4000]);
    assert!(!b.can_render(80, 24));
    b.aql_columns = None;
    assert!(b.can_render(80, 24));
}

#[test]
fn an_item_is_shown_in_full() {
    let mut b = with_items();
    press(&mut b, Key::Enter);
    match draw(&mut b).body {
        Body::Detail(detail) => {
            let lines: Vec<(&str, Tone)> =
                detail.lines.iter().map(|l| (l.line.text.as_str(), l.line.tone)).collect();
            assert_eq!(
                lines,
                vec![
                    ("Title", Tone::Accent),
                    ("  Title b", Tone::Primary),
                    ("", Tone::Plain),
                    ("Status", Tone::Accent),
                    ("  ✓ Completed", Tone::Completed),
                    ("", Tone::Plain),
                    ("URL", Tone::Accent),
                    ("  http://u", Tone::Link),
                    ("", Tone::Plain),
                    ("Tags", Tone::Accent),
                    ("  x, y", Tone::Tag),
                    ("", Tone::Plain),
                    ("Notes", Tone::Accent),
                ]
            );
            assert_eq!(detail.lines[2].area, area(16, 3, 63, 1));
            let (place, notes) = detail.notes.unwrap();
            assert_eq!(notes, "some notes");
            assert_eq!(place, area(18, 14, 61, 7));
        }
        other => panic!("no detail: {:?}", other),
    }
}

#[test]
fn a_bare_item_has_few_lines() {
    let mut b = with_items();
    b.view = Panel::Detail;
    let mut bare = item("c");
    bare.completed = Some(false);
    bare.url = None;
    bare.tags = vec![];
    bare.notes = None;
    b.detail_item = Some(bare);
    match draw(&mut b).body {
        Body::Detail(detail) => {
            let lines: Vec<&str> = detail.lines.iter().map(|l| l.line.text.as_str()).collect();
            assert_eq!(lines, vec!["Title", "  Title c", "", "Status", "  ◯ Not completed", ""]);
            assert!(detail.notes.is_none());
        }
        other => panic!("no detail: {:?}", other),
    }
}

#[test]
fn an_item_shown_in_full_is_scrolled() {
    let mut b = with_items();
    press(&mut b, Key::Enter);
    b.detail_scroll = 12;
    match draw(&mut b).body {
        Body::Detail(detail) => {
            assert_eq!(detail.lines.len(), 1);
            assert_eq!(detail.lines[0].line.text, "Notes");
            assert_eq!(detail.lines[0].area, area(16, 1, 63, 1));
            assert_eq!(detail.notes.unwrap().0, area(18, 2, 61, 19));
        }
        other => panic!("no detail: {:?}", other),
    }
    b.detail_scroll = 500;
    match draw(&mut b).body {
        Body::Detail(detail) => {
            assert_eq!(detail.lines.len(), 0);
            assert_eq!(detail.notes.unwrap().0, area(18, 1, 61, 20));
        }
        other => panic!("no detail: {:?}", other),
    }
    b.detail_scroll = 0;
    match b.try_render(30, 10).unwrap().body {
        Body::Detail(detail) => {
            assert_eq!(detail.lines.len(), 6);
            assert!(detail.notes.is_none());
            assert_eq!(detail.lines[1].line.text, "  Title b");
        }
        other => panic!("no detail: {:?}", other),
    }
}

#[test]
fn the_edit_view_is_divided() {
    let mut b = with_items();
    press(&mut b, Key::Char('e'));
    press(&mut b, Key::Tab);
    match draw(&mut b).body {
        Body::Edit(places) => {
            assert_eq!(places.form, area(16, 1, 63, 6));
            assert_eq!(places.label, area(16, 7, 63, 1));
            assert_eq!(places.notes, area(16, 8, 63, 12));
            assert_eq!(places.notes_inner, area(17, 9, 61, 10));
            assert_eq!(places.buttons, area(16, 20, 63, 1));
            assert_eq!(places.focus, EditFocus::Notes);
        }
        other => panic!("no form: {:?}", other),
    }
    match b.try_render(80, 12).unwrap().body {
        Body::Edit(places) => {
            assert_eq!(places.form, area(16, 1, 63, 6));
            assert_eq!(places.label, area(16, 7, 63, 1));
            assert_eq!(places.notes, area(16, 8, 63, 1));
            assert_eq!(places.buttons, area(16, 9, 63, 0));
        }
        other => panic!("no form: {:?}", other),
    }
}

#[test]
fn the_input_row() {
    let mut b = with_items();
    assert!(draw(&mut b).input.is_none());
    b.status_message = Some("fine".to_string());
    let line = draw(&mut b).input.unwrap();
    assert_eq!((line.text.as_str(), line.tone), ("fine", Tone::Success));
    b.error_message = Some("bad".to_string());
    let line = draw(&mut b).input.unwrap();
    assert_eq!((line.text.as_str(), line.tone), ("bad", Tone::Failure));
    for (mode, text, tone) in [
        (InputMode::Search, "Search: s▌", Tone::Accent),
        (InputMode::AddItem, "New item: a▌", Tone::Success),
        (InputMode::AqlQuery, "AQL: q▌", Tone::Tag),
        (InputMode::ListFilter, "Filter lists: g▌", Tone::Accent),
    ] {
        b.search_query = "s".to_string();
        b.add_item_text = "a".to_string();
        b.aql_query = "q".to_string();
        b.list_filter = "g".to_string();
        b.input_mode = mode;
        let line = draw(&mut b).input.unwrap();
        assert_eq!((line.text.as_str(), line.tone), (text, tone));
    }
}

#[test]
fn the_status_row() {
    let mut b = with_items();
    assert_eq!(
        draw(&mut b).status,
        "⚡ q:quit  /:search  ::aql  n:new  e:edit  d:del  Space:✓  o:open  y:copy "
    );
    b.ws_connected = true;
    b.view = Panel::Detail;
    assert_eq!(draw(&mut b).status, "🔗 Esc:back  e:edit  o:open-url  j/k:scroll  q:quit ");
    b.view = Panel::Edit;
    assert_eq!(draw(&mut b).status, "🔗 Tab:focus  Enter:save  Esc:cancel ");
    for (mode, text) in [
        (InputMode::Search, "🔗 Enter:search  Esc:cancel "),
        (InputMode::AddItem, "🔗 Enter:add  Esc:cancel "),
        (InputMode::AqlQuery, "🔗 Enter:run-query  Esc:cancel "),
        (InputMode::ListFilter, "🔗 Enter:select  Esc:clear-filter "),
    ] {
        b.input_mode = mode;
        assert_eq!(draw(&mut b).status, text);
    }
}

#[test]
fn the_dialog_asks() {
    let mut b = with_items();
    assert!(draw(&mut b).dialog.is_none());
    press(&mut b, Key::Char('d'));
    assert_eq!(draw(&mut b).dialog.as_deref(), Some("Delete \"Title b\"?"));
    press(&mut b, Key::Escape);
    assert!(draw(&mut b).dialog.is_none());
}

#[test]
fn a_click_opens_the_list_that_was_drawn() {
    let mut b = with_items();
    let row = draw(&mut b).rows[1].area;
    match click(&mut b, row.x + row.width - 1, row.y) {
        Action::Call { request, .. } => assert_eq!(request.body, r#"{"limit":100,"listId":"l2"}"#),
        other => panic!("no call: {:?}", other),
    }
    assert_eq!(b.list_index, 1);
    assert_eq!(b.focus, Focus::Sidebar);
    b.list_index = 0;
    assert!(matches!(click(&mut b, 1, 10), Action::Idle));
    assert_eq!(b.list_index, 0);
    // On the frame nothing is hit.
    b.focus = Focus::Table;
    assert!(matches!(click(&mut b, 0, 2), Action::Idle));
    assert!(matches!(click(&mut b, 14, 2), Action::Idle));
    assert_eq!(b.focus, Focus::Table);
}

#[test]
fn an_item_is_shown_at_the_edge() {
    // Without notes there is nothing to indent, and no row below the last line.
    let mut plain = item("a");
    plain.notes = None;
    let shown = render_detail(&plain, 11, area(65535, 65535, 0, 30));
    assert_eq!(shown.lines.len(), 1);
    assert_eq!(shown.lines[0].area, area(65535, 65535, 0, 1));
    assert!(shown.notes.is_none());
    let shown = render_detail(&item("a"), 20, area(65533, 65535, 2, 2));
    assert_eq!(shown.lines.len(), 0);
    assert_eq!(shown.notes.unwrap().0, area(65535, 65535, 0, 2));
}

#[test]
fn a_click_selects_a_row_and_opens_it() {
    let mut b = with_items();
    draw(&mut b);
    click(&mut b, 20, 2);
    assert_eq!(b.table_state.selected, Some(0));
    assert_eq!(b.view, Panel::Items);
    click(&mut b, 20, 4);
    assert_eq!(b.table_state.selected, Some(0));
    click(&mut b, 20, 2);
    assert_eq!(b.view, Panel::Detail);
    assert_eq!(b.detail_item.as_ref().unwrap().id, "a");
}

/// The body of the request that an action makes.
fn body(action: Action) -> String {
    match action {
        Action::Call { request, .. } => request.body,
        other => panic!("no call: {:?}", other),
    }
}

#[test]
fn a_click_on_a_heading_sorts() {
    let mut b = with_items();
    draw(&mut b);
    b.focus = Focus::Sidebar;
    assert_eq!(
        body(click(&mut b, 59, 1)),
        r#"{"limit":100,"listId":"l1","query":"order by tags desc"}"#
    );
    assert_eq!(b.focus, Focus::Table);
    assert_eq!(b.sort_column, Some(Column::Tags));
    assert_eq!(
        body(click(&mut b, 78, 1)),
        r#"{"limit":100,"listId":"l1","query":"order by tags asc"}"#
    );
    assert_eq!(
        body(click(&mut b, 16, 1)),
        r#"{"limit":100,"listId":"l1","query":"order by title desc"}"#
    );
    // Between the columns there is none.
    assert!(matches!(click(&mut b, 58, 1), Action::Idle));
    assert_eq!(b.get_column_at_x(57), Some(Column::Title));
    assert_eq!(b.get_column_at_x(58), None);
    b.view = Panel::Search;
    assert!(matches!(click(&mut b, 16, 1), Action::Idle));
}

#[test]
fn a_query_of_any_letters_is_sorted() {
    let mut b = with_items();
    draw(&mut b);
    b.aql_query = "İ show é, title".to_string();
    assert_eq!(
        body(click(&mut b, 16, 1)),
        r#"{"limit":100,"listId":"l1","query":"İ show é, title order by title desc"}"#
    );
    assert_eq!(b.aql_columns, Some(vec![Column::Title]));
}

#[test]
fn clicks_outside_hit_nothing() {
    let mut b = with_items();
    draw(&mut b);
    assert!(matches!(click(&mut b, 79, 1), Action::Idle));
    assert!(matches!(click(&mut b, 30, 21), Action::Idle));
    assert!(matches!(click(&mut b, 30, 23), Action::Idle));
    assert_eq!(b.table_state.selected, Some(1));
}
