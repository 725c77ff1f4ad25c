use assistant_cli::action::{Action, AfterLists, Pending, Reply};
use assistant_cli::column::Column;
use assistant_cli::edit::{FormData, FormValue};
use assistant_cli::input::{Input, Key, KeyInput, MouseInput, MouseKind};
use assistant_cli::items::{ListInfo, ListItem};
use assistant_cli::state::{EditFocus, Focus, InputMode, ListsTableBrowser, Panel};
use assistant_cli::update::base_url_or_default;

const OPERATIONS: &str = "http://h/api/plugins/lists/operations/";

fn list(id: &str, name: &str) -> ListInfo {
    ListInfo { id: id.to_string(), name: name.to_string(), tags: vec![], description: None }
}

fn item(id: &str, completed: bool) -> ListItem {
    ListItem {
        id: id.to_string(),
        title: format!("Title {}", id),
        tags: vec![],
        url: None,
        notes: None,
        completed: Some(completed),
    }
}

fn key(code: Key) -> Input {
    Input::Key(KeyInput { code, shift: false, ctrl: false, press: true })
}

fn ctrl(c: char) -> Input {
    Input::Key(KeyInput { code: Key::Char(c), shift: false, ctrl: true, press: true })
}

fn press(b: &mut ListsTableBrowser, code: Key) -> Action {
    b.try_update(key(code)).unwrap()
}

fn type_text(b: &mut ListsTableBrowser, text: &str) {
    for c in text.chars() {
        press(b, Key::Char(c));
    }
}

/// The request of an action: its operation, its body, and what it is for.
fn call(action: Action) -> (String, String, Pending) {
    match action {
        Action::Call { request, then } => {
            (request.url.strip_prefix(OPERATIONS).unwrap().to_string(), request.body, then)
        }
        other => panic!("no call: {:?}", other),
    }
}

/// A browser with three lists.
fn with_lists() -> ListsTableBrowser {
    let (mut b, action) = ListsTableBrowser::new("http://h".to_string(), String::new());
    let (operation, body, then) = call(action);
    assert_eq!((operation.as_str(), body.as_str()), ("list", "{}"));
    let lists = vec![list("l1", "Groceries"), list("l2", "Work"), list("l3", "Books")];
    assert!(matches!(b.resume(then, Reply::Lists(Ok(lists))), Action::Idle));
    b
}

/// A browser that shows the first list with two open items and a completed one.
fn with_items() -> ListsTableBrowser {
    let mut b = with_lists();
    let (operation, body, then) = call(press(&mut b, Key::Enter));
    assert_eq!(operation, "items-list");
    assert_eq!(body, r#"{"limit":100,"listId":"l1"}"#);
    let items = vec![item("a", false), item("b", true), item("c", false)];
    assert!(matches!(b.resume(then, Reply::Items(Ok(items))), Action::Idle));
    b
}

fn ids(items: &[ListItem]) -> Vec<&str> {
    items.iter().map(|i| i.id.as_str()).collect()
}

fn status(b: &ListsTableBrowser) -> &str {
    b.status_message.as_deref().unwrap_or("")
}

fn error(b: &ListsTableBrowser) -> &str {
    b.error_message.as_deref().unwrap_or("")
}

fn failed() -> String {
    "down".to_string()
}

#[test]
fn the_address_has_a_default() {
    assert_eq!(base_url_or_default(None), "http://localhost:3000");
    assert_eq!(base_url_or_default(Some("http://x".to_string())), "http://x");
}

#[test]
fn the_browser_begins_with_the_lists() {
    let b = with_lists();
    assert_eq!(b.lists.len(), 3);
    assert_eq!(status(&b), "Loaded 3 lists");
    assert_eq!(b.view, Panel::Lists);
    assert_eq!(b.focus, Focus::Sidebar);
    assert_eq!(b.input_mode, InputMode::Normal);
    assert!(b.ws_open && !b.ws_connected);
}

#[test]
fn configured_words_keep_lists() {
    let (mut b, action) = ListsTableBrowser::new("http://h".to_string(), "WORK".to_string());
    let (_, _, then) = call(action);
    b.resume(then, Reply::Lists(Ok(vec![list("l1", "Groceries"), list("l2", "Work")])));
    assert_eq!(b.lists.len(), 1);
    assert_eq!(b.lists[0].id, "l2");
    assert_eq!(status(&b), "Loaded 1 lists");
}

#[test]
fn lists_that_cannot_be_loaded() {
    let (mut b, action) = ListsTableBrowser::new("http://h".to_string(), String::new());
    let (_, _, then) = call(action);
    b.resume(then, Reply::Lists(Err(failed())));
    assert_eq!(error(&b), "Failed to load lists: down");
    assert_eq!(b.lists.len(), 0);
    assert!(matches!(press(&mut b, Key::Enter), Action::Idle));
}

#[test]
fn opening_a_list_shows_its_items() {
    let b = with_items();
    assert_eq!(ids(&b.items), vec!["a", "c", "b"]);
    assert_eq!(b.table_state.selected, Some(0));
    assert_eq!(b.view, Panel::Items);
    assert_eq!(b.focus, Focus::Table);
    assert_eq!(status(&b), "Loaded 3 items");
}

#[test]
fn an_empty_list_has_no_selection() {
    let mut b = with_lists();
    let (_, _, then) = call(press(&mut b, Key::Enter));
    b.resume(then, Reply::Items(Ok(vec![])));
    assert_eq!(b.table_state.selected, None);
    assert_eq!(status(&b), "Loaded 0 items");
}

#[test]
fn items_that_cannot_be_loaded_leave_the_others() {
    let mut b = with_items();
    let action = b.load_items(None);
    let (_, _, then) = call(action);
    b.resume(then, Reply::Items(Err(failed())));
    assert_eq!(error(&b), "Failed to load items: down");
    assert_eq!(ids(&b.items), vec!["a", "c", "b"]);
    assert_eq!(b.view, Panel::Items);
}

#[test]
fn a_reply_of_another_kind_does_nothing() {
    let mut b = with_items();
    b.resume(Pending::Aql, Reply::Done(Ok(())));
    assert_eq!(ids(&b.items), vec!["a", "c", "b"]);
    assert_eq!(status(&b), "Loaded 3 items");
}

#[test]
fn the_sidebar_is_walked() {
    let mut b = with_lists();
    press(&mut b, Key::Up);
    assert_eq!(b.list_index, 0);
    press(&mut b, Key::Char('j'));
    press(&mut b, Key::Down);
    press(&mut b, Key::Down);
    assert_eq!(b.list_index, 2);
    press(&mut b, Key::Char('k'));
    assert_eq!(b.list_index, 1);
    let (_, body, _) = call(press(&mut b, Key::Enter));
    assert_eq!(body, r#"{"limit":100,"listId":"l2"}"#);
}

#[test]
fn the_table_is_walked() {
    let mut b = with_items();
    press(&mut b, Key::Down);
    assert_eq!(b.table_state.selected, Some(1));
    press(&mut b, Key::Down);
    press(&mut b, Key::Down);
    assert_eq!(b.table_state.selected, Some(2));
    press(&mut b, Key::Up);
    assert_eq!(b.table_state.selected, Some(1));
    b.table_state.select(None);
    press(&mut b, Key::Down);
    assert_eq!(b.table_state.selected, None);
}

#[test]
fn tab_changes_the_side() {
    let mut b = with_items();
    press(&mut b, Key::Tab);
    assert_eq!(b.focus, Focus::Sidebar);
    press(&mut b, Key::Tab);
    assert_eq!(b.focus, Focus::Table);
}

#[test]
fn going_back_clears_the_selection_first() {
    let mut b = with_items();
    press(&mut b, Key::Escape);
    assert_eq!(b.table_state.selected, None);
    assert_eq!(b.view, Panel::Items);
    press(&mut b, Key::Backspace);
    assert_eq!(b.view, Panel::Lists);
    assert_eq!(b.focus, Focus::Sidebar);
    press(&mut b, Key::Escape);
    assert_eq!(b.view, Panel::Lists);
}

#[test]
fn an_item_is_shown_in_full_and_closed() {
    let mut b = with_items();
    press(&mut b, Key::Down);
    press(&mut b, Key::Enter);
    assert_eq!(b.view, Panel::Detail);
    assert_eq!(b.detail_item.as_ref().unwrap().id, "c");
    press(&mut b, Key::Down);
    press(&mut b, Key::Down);
    press(&mut b, Key::Up);
    assert_eq!(b.detail_scroll, 1);
    press(&mut b, Key::Escape);
    assert_eq!(b.view, Panel::Items);
    assert!(b.detail_item.is_none());
    assert_eq!(b.table_state.selected, Some(1));
}

#[test]
fn a_scroll_position_at_its_end_is_not_accepted() {
    let mut b = with_items();
    press(&mut b, Key::Enter);
    b.detail_scroll = usize::MAX;
    assert!(!b.accepts(key(Key::Down)));
    assert!(b.try_update(key(Key::Char('j'))).is_none());
    assert_eq!(b.detail_scroll, usize::MAX);
    assert!(b.accepts(key(Key::Up)));
}

#[test]
fn an_item_left_open_returns_to_a_search_that_is_left() {
    let mut b = with_items();
    b.search_results = vec![item("s", false)];
    b.search_query = "x".to_string();
    press(&mut b, Key::Enter);
    press(&mut b, Key::Escape);
    assert_eq!(b.view, Panel::Search);
}

#[test]
fn a_search_runs_while_it_is_typed() {
    let mut b = with_items();
    press(&mut b, Key::Char('/'));
    assert_eq!(b.input_mode, InputMode::Search);
    let (operation, body, then) = call(press(&mut b, Key::Char('q')));
    assert_eq!(operation, "items-search");
    assert_eq!(body, r#"{"limit":50,"listId":"l1","query":"q"}"#);
    b.resume(then, Reply::Items(Ok(vec![item("x", true), item("y", false)])));
    assert_eq!(ids(&b.search_results), vec!["y", "x"]);
    assert_eq!(b.search_table_state.selected, Some(0));
    assert_eq!(b.view, Panel::Search);
    assert_eq!(status(&b), "Found 2 results (in list)");
    let (_, body, _) = call(press(&mut b, Key::Char('u')));
    assert_eq!(body, r#"{"limit":50,"listId":"l1","query":"qu"}"#);
    let (_, body, _) = call(press(&mut b, Key::Backspace));
    assert_eq!(body, r#"{"limit":50,"listId":"l1","query":"q"}"#);
    assert!(matches!(press(&mut b, Key::Backspace), Action::Idle));
    assert_eq!(b.search_results.len(), 0);
    press(&mut b, Key::Enter);
    assert_eq!(b.input_mode, InputMode::Normal);
}

#[test]
fn a_search_without_a_list_covers_all() {
    let (mut b, _) = ListsTableBrowser::new("http://h".to_string(), String::new());
    b.focus = Focus::Table;
    press(&mut b, Key::Char('/'));
    let (_, body, then) = call(press(&mut b, Key::Char('q')));
    assert_eq!(body, r#"{"limit":50,"query":"q"}"#);
    b.resume(then, Reply::Items(Ok(vec![])));
    assert_eq!(status(&b), "Found 0 results (all lists)");
    assert_eq!(b.search_table_state.selected, None);
    let (_, _, then) = call(press(&mut b, Key::Char('r')));
    b.resume(then, Reply::Items(Err(failed())));
    assert_eq!(error(&b), "Search failed: down");
}

#[test]
fn interrupting_clears_first_and_leaves_next() {
    let mut b = with_items();
    press(&mut b, Key::Char('/'));
    press(&mut b, Key::Char('x'));
    b.search_results = vec![item("s", false)];
    assert!(matches!(b.try_update(ctrl('c')).unwrap(), Action::Idle));
    assert_eq!(b.search_query, "");
    assert_eq!(b.search_results.len(), 0);
    assert_eq!(b.input_mode, InputMode::Search);
    b.try_update(ctrl('c'));
    assert_eq!(b.input_mode, InputMode::Normal);
    assert!(matches!(b.try_update(ctrl('c')).unwrap(), Action::Quit));
    assert!(matches!(press(&mut b, Key::Char('q')), Action::Quit));
    assert!(matches!(press(&mut b, Key::Char('c')), Action::Idle));
}

#[test]
fn escape_ends_typing() {
    for (command, mode) in [
        ('/', InputMode::Search),
        (':', InputMode::AqlQuery),
        ('n', InputMode::AddItem),
    ] {
        let mut b = with_items();
        press(&mut b, Key::Char(command));
        type_text(&mut b, "ab");
        assert_eq!(b.input_mode, mode);
        assert!(matches!(press(&mut b, Key::Escape), Action::Idle));
        assert_eq!(b.input_mode, InputMode::Normal);
        assert_eq!(b.search_query, "");
        assert_eq!(b.aql_query, "");
        assert_eq!(b.add_item_text, "");
    }
}

#[test]
fn a_filter_narrows_the_sidebar() {
    let mut b = with_lists();
    press(&mut b, Key::Down);
    press(&mut b, Key::Char('/'));
    assert_eq!(b.input_mode, InputMode::ListFilter);
    type_text(&mut b, "oO");
    assert_eq!(b.list_index, 1);
    let names: Vec<String> = b.filtered_lists().iter().map(|l| l.name.clone()).collect();
    assert_eq!(names, vec!["Books".to_string()]);
    assert!(b.selected_list().is_none());
    press(&mut b, Key::Backspace);
    assert_eq!(b.list_index, 0);
    let names: Vec<String> = b.filtered_lists().iter().map(|l| l.name.clone()).collect();
    assert_eq!(names, vec!["Groceries".to_string(), "Work".to_string(), "Books".to_string()]);
    press(&mut b, Key::Down);
    press(&mut b, Key::Up);
    press(&mut b, Key::Down);
    let (_, body, _) = call(press(&mut b, Key::Enter));
    assert_eq!(body, r#"{"limit":100,"listId":"l2"}"#);
    assert_eq!(b.input_mode, InputMode::Normal);
    press(&mut b, Key::Escape);
    assert_eq!(b.list_filter, "");
    assert_eq!(b.list_index, 0);
}

#[test]
fn configured_words_keep_lists_by_name() {
    let (mut b, action) = ListsTableBrowser::new("http://h".to_string(), "work".to_string());
    let (_, _, then) = call(action);
    b.resume(then, Reply::Lists(Ok(vec![list("work-1", "Home"), list("2", "My Work")])));
    let kept: Vec<&str> = b.lists.iter().map(|l| l.id.as_str()).collect();
    assert_eq!(kept, vec!["2"]);
    assert_eq!(status(&b), "Loaded 1 lists");
}

#[test]
fn a_filter_that_nothing_passes_opens_nothing() {
    let mut b = with_lists();
    press(&mut b, Key::Char('/'));
    type_text(&mut b, "zzz");
    assert!(matches!(press(&mut b, Key::Enter), Action::Idle));
    assert_eq!(b.selected_list_id(), None);
    press(&mut b, Key::Char('/'));
    b.try_update(ctrl('c'));
    assert_eq!(b.list_filter, "");
    assert_eq!(b.selected_list_id(), Some("l1".to_string()));
    b.try_update(ctrl('c'));
    assert_eq!(b.input_mode, InputMode::Normal);
}

#[test]
fn a_filter_knows_letters_outside_ascii() {
    let mut b = with_lists();
    b.lists.push(list("l4", "ÜBUNG"));
    b.list_filter = "übu".to_string();
    assert_eq!(b.filtered_lists().len(), 1);
    assert_eq!(b.selected_list_id(), Some("l4".to_string()));
}

#[test]
fn a_query_is_run() {
    let mut b = with_items();
    press(&mut b, Key::Char(':'));
    type_text(&mut b, "tag=x show url");
    let (operation, body, then) = call(press(&mut b, Key::Enter));
    assert_eq!(operation, "items-aql");
    assert_eq!(body, r#"{"limit":100,"listId":"l1","query":"tag=x show url"}"#);
    assert_eq!(b.input_mode, InputMode::Normal);
    assert_eq!(b.aql_columns.as_ref().unwrap().len(), 1);
    b.resume(then, Reply::Items(Ok(vec![item("x", true), item("y", false)])));
    assert_eq!(ids(&b.aql_results), vec!["y", "x"]);
    assert_eq!(b.view, Panel::AqlQuery);
    assert_eq!(status(&b), "AQL: 2 results");
    press(&mut b, Key::Char(':'));
    assert_eq!(b.aql_query, "tag=x show url");
    b.resume(Pending::Aql, Reply::Items(Err(failed())));
    assert_eq!(error(&b), "AQL error: down");
    assert_eq!(b.aql_results.len(), 2);
}

#[test]
fn a_query_needs_a_list_and_a_text() {
    let mut b = with_lists();
    press(&mut b, Key::Char(':'));
    assert!(matches!(press(&mut b, Key::Enter), Action::Idle));
    assert_eq!(error(&b), "");
    b.lists.clear();
    press(&mut b, Key::Char(':'));
    type_text(&mut b, "x");
    assert!(matches!(press(&mut b, Key::Enter), Action::Idle));
    assert_eq!(error(&b), "Select a list first");
}

#[test]
fn a_query_may_hold_any_letters() {
    let mut b = with_lists();
    press(&mut b, Key::Char(':'));
    type_text(&mut b, "İ show é, title");
    assert!(b.accepts(key(Key::Enter)));
    let (_, body, then) = call(press(&mut b, Key::Enter));
    assert_eq!(body, r#"{"limit":100,"listId":"l1","query":"İ show é, title"}"#);
    assert!(matches!(then, Pending::Aql));
    assert_eq!(b.aql_columns, Some(vec![Column::Title]));
}

#[test]
fn enter_opens_the_detail_in_every_table() {
    let mut b = with_items();
    press(&mut b, Key::Char(':'));
    type_text(&mut b, "x");
    let (_, _, then) = call(press(&mut b, Key::Enter));
    b.resume(then, Reply::Items(Ok(vec![item("x", false), item("y", false)])));
    press(&mut b, Key::Char('j'));
    b.detail_scroll = 3;
    assert_eq!((b.view, b.focus), (Panel::AqlQuery, Focus::Table));
    assert!(matches!(press(&mut b, Key::Enter), Action::Idle));
    assert_eq!(b.view, Panel::Detail);
    assert_eq!(b.detail_item.as_ref().unwrap().id, "y");
    assert_eq!(b.detail_scroll, 0);
}

#[test]
fn an_item_is_added() {
    let mut b = with_items();
    press(&mut b, Key::Down);
    press(&mut b, Key::Char('n'));
    assert_eq!(b.input_mode, InputMode::AddItem);
    type_text(&mut b, "Eggs!");
    press(&mut b, Key::Backspace);
    let (operation, body, then) = call(press(&mut b, Key::Enter));
    assert_eq!(operation, "item-add");
    assert_eq!(body, r#"{"listId":"l1","title":"Eggs"}"#);
    assert_eq!(b.add_item_text, "");
    b.resume(then, Reply::Item(Ok(item("new", false))));
    assert_eq!(ids(&b.items), vec!["new", "a", "c", "b"]);
    assert_eq!(b.table_state.selected, Some(0));
    assert_eq!(status(&b), "Item added");
    b.resume(Pending::Add, Reply::Item(Err(failed())));
    assert_eq!(error(&b), "Failed to add item: down");
    assert_eq!(b.items.len(), 4);
}

#[test]
fn an_empty_item_is_not_added() {
    let mut b = with_items();
    press(&mut b, Key::Char('n'));
    assert!(matches!(press(&mut b, Key::Enter), Action::Idle));
    assert_eq!(b.input_mode, InputMode::Normal);
    let mut b = with_lists();
    press(&mut b, Key::Char('n'));
    assert_eq!(b.input_mode, InputMode::Normal);
}

#[test]
fn a_deletion_is_confirmed() {
    let mut b = with_items();
    press(&mut b, Key::Down);
    press(&mut b, Key::Down);
    assert!(matches!(press(&mut b, Key::Char('d')), Action::Idle));
    assert!(b.confirming());
    // Only the dialog listens.
    assert!(matches!(press(&mut b, Key::Char('q')), Action::Idle));
    assert!(matches!(b.try_update(Input::Other).unwrap(), Action::Idle));
    let (operation, body, then) = call(press(&mut b, Key::Enter));
    assert_eq!(operation, "item-remove");
    assert_eq!(body, r#"{"id":"b","listId":"l1"}"#);
    assert!(!b.confirming());
    b.resume(then, Reply::Done(Ok(())));
    assert_eq!(ids(&b.items), vec!["a", "c"]);
    assert_eq!(b.table_state.selected, Some(1));
    assert_eq!(status(&b), "Item deleted");
}

#[test]
fn a_deletion_is_given_up() {
    for way in [vec![Key::Escape], vec![Key::Tab, Key::Enter], vec![Key::Right, Key::Enter]] {
        let mut b = with_items();
        press(&mut b, Key::Char('d'));
        for code in way {
            assert!(matches!(press(&mut b, code), Action::Idle));
        }
        assert!(!b.confirming());
        assert!(b.delete_confirm.is_none());
        assert_eq!(b.items.len(), 3);
    }
    // Twice to the other button is back on the first.
    let mut b = with_items();
    press(&mut b, Key::Char('d'));
    press(&mut b, Key::Left);
    press(&mut b, Key::Tab);
    assert_eq!(call(press(&mut b, Key::Enter)).0, "item-remove");
}

#[test]
fn a_released_key_does_not_answer_the_dialog() {
    let mut b = with_items();
    press(&mut b, Key::Char('d'));
    let release = KeyInput { code: Key::Enter, shift: false, ctrl: false, press: false };
    assert!(matches!(b.try_update(Input::Key(release)).unwrap(), Action::Idle));
    assert!(b.confirming());
    let shifted = KeyInput { code: Key::Tab, shift: true, ctrl: true, press: true };
    b.try_update(Input::Key(shifted));
    assert!(matches!(press(&mut b, Key::Enter), Action::Idle));
    assert!(!b.confirming());
}

#[test]
fn a_deletion_that_fails() {
    let mut b = with_items();
    b.resume(Pending::Delete { item_id: "a".to_string() }, Reply::Done(Err(failed())));
    assert_eq!(error(&b), "Failed to delete: down");
    assert_eq!(b.items.len(), 3);
}

#[test]
fn the_last_item_leaves_no_selection() {
    let mut b = with_items();
    b.items.truncate(1);
    b.resume(Pending::Delete { item_id: "a".to_string() }, Reply::Done(Ok(())));
    assert_eq!(b.items.len(), 0);
    assert_eq!(b.table_state.selected, None);
    press(&mut b, Key::Char('d'));
    assert!(!b.confirming());
}

#[test]
fn an_item_is_completed_and_goes_down() {
    let mut b = with_items();
    let (operation, body, then) = call(press(&mut b, Key::Char(' ')));
    assert_eq!(operation, "item-update");
    assert_eq!(body, r#"{"completed":true,"id":"a","listId":"l1"}"#);
    b.resume(then, Reply::Item(Ok(item("a", true))));
    assert_eq!(ids(&b.items), vec!["c", "a", "b"]);
    assert_eq!(b.items[1].completed, Some(true));
    assert_eq!(status(&b), "✓ Completed");
    press(&mut b, Key::Down);
    let (_, body, then) = call(press(&mut b, Key::Char(' ')));
    assert_eq!(body, r#"{"completed":false,"id":"a","listId":"l1"}"#);
    b.resume(then, Reply::Item(Ok(item("a", false))));
    assert_eq!(ids(&b.items), vec!["c", "a", "b"]);
    assert_eq!(status(&b), "○ Uncompleted");
    b.resume(Pending::Toggle { row: 0, completed: true }, Reply::Item(Err(failed())));
    assert_eq!(error(&b), "Failed to update: down");
}

#[test]
fn an_item_is_moved() {
    let mut b = with_items();
    press(&mut b, Key::Down);
    let (operation, body, then) = call(press(&mut b, Key::Char('t')));
    assert_eq!(operation, "item-update");
    assert_eq!(body, r#"{"id":"c","listId":"l1","position":0}"#);
    let (operation, _, _) = call(b.resume(then, Reply::Item(Ok(item("c", false)))));
    assert_eq!(operation, "items-list");
    assert_eq!(status(&b), "↑ Moved to top");
    let (_, body, then) = call(press(&mut b, Key::Char('b')));
    assert_eq!(body, r#"{"id":"c","listId":"l1","position":2}"#);
    b.resume(then, Reply::Item(Ok(item("c", false))));
    assert_eq!(status(&b), "↓ Moved to bottom");
    b.resume(Pending::Move { to_top: true }, Reply::Item(Err(failed())));
    assert_eq!(error(&b), "Failed to move: down");
    b.view = Panel::Search;
    assert!(matches!(press(&mut b, Key::Char('t')), Action::Idle));
    assert_eq!(status(&b), "Move only works in list view");
}

#[test]
fn lists_are_refreshed() {
    let mut b = with_items();
    let (operation, _, then) = call(press(&mut b, Key::Char('r')));
    assert_eq!(operation, "list");
    assert!(matches!(then, Pending::Lists(AfterLists::Reload)));
    let next = b.resume(then, Reply::Lists(Ok(vec![list("l9", "New")])));
    assert_eq!(call(next).1, r#"{"limit":100,"listId":"l9"}"#);
    let mut b = with_lists();
    let (_, _, then) = call(press(&mut b, Key::Char('r')));
    assert!(matches!(b.resume(then, Reply::Lists(Ok(vec![]))), Action::Idle));
}

#[test]
fn addresses_are_opened() {
    let mut b = with_items();
    assert!(matches!(press(&mut b, Key::Char('o')), Action::Idle));
    b.items[0].url = Some("http://x".to_string());
    assert!(matches!(press(&mut b, Key::Char('o')), Action::OpenUrl(url) if url == "http://x"));
    press(&mut b, Key::Enter);
    assert!(matches!(press(&mut b, Key::Char('o')), Action::OpenUrl(url) if url == "http://x"));
}

#[test]
fn items_are_copied() {
    let mut b = with_items();
    match press(&mut b, Key::Char('y')) {
        Action::Copy { sequence, text } => {
            assert_eq!(text, "Title a");
            assert_eq!(sequence, "\u{1b}]52;c;VGl0bGUgYQ==\u{7}");
            b.copied(&text, true);
        }
        other => panic!("no copy: {:?}", other),
    }
    assert_eq!(status(&b), "Copied: Title a");
    b.items[0].url = Some("http://x".to_string());
    assert!(matches!(press(&mut b, Key::Char('y')), Action::Copy { text, .. } if text == "http://x"));
    b.copied(&"é".repeat(50), true);
    assert_eq!(status(&b), format!("Copied: {}", "é".repeat(40)));
    b.copied("x", false);
    assert_eq!(error(&b), "Copy failed: write error");
    let mut b = with_lists();
    assert!(matches!(press(&mut b, Key::Char('y')), Action::Idle));
}

#[test]
fn an_item_is_saved_untouched() {
    let mut b = with_items();
    b.items[0].tags = vec!["x".to_string(), "y".to_string()];
    b.items[0].notes = Some("one\r\n\ttwo\u{7f}".to_string());
    assert!(matches!(press(&mut b, Key::Char('e')), Action::Idle));
    assert_eq!(b.view, Panel::Edit);
    assert_eq!(b.edit_focus, EditFocus::Form);
    press(&mut b, Key::Tab);
    press(&mut b, Key::Tab);
    assert_eq!(b.edit_focus, EditFocus::Buttons);
    assert!(matches!(press(&mut b, Key::Char('x')), Action::Idle));
    let (operation, body, then) = call(press(&mut b, Key::Enter));
    assert_eq!(operation, "item-update");
    assert_eq!(
        body,
        r#"{"completed":false,"id":"a","listId":"l1","notes":"one\n\ttwo","tags":["x","y"],"title":"Title a","url":null}"#
    );
    let (operation, _, _) = call(b.resume(then, Reply::Item(Ok(item("a", false)))));
    assert_eq!(operation, "items-list");
    assert_eq!(status(&b), "Item saved");
    assert_eq!(b.view, Panel::Items);
    assert!(b.edit_item.is_none() && b.edit_form.is_none());
}

#[test]
fn an_item_is_edited_and_saved() {
    let mut b = with_items();
    press(&mut b, Key::Char('e'));
    press(&mut b, Key::End);
    type_text(&mut b, "!?");
    press(&mut b, Key::Backspace);
    press(&mut b, Key::Home);
    press(&mut b, Key::Delete);
    press(&mut b, Key::Char('t'));
    press(&mut b, Key::Down);
    type_text(&mut b, "http://u");
    press(&mut b, Key::Down);
    type_text(&mut b, "a,, b");
    press(&mut b, Key::Down);
    press(&mut b, Key::Char(' '));
    assert_eq!(b.edit_form.as_ref().unwrap().place(), (3, 0, false, false));
    press(&mut b, Key::Tab);
    assert!(matches!(press(&mut b, Key::Char('n')), Action::Idle));
    press(&mut b, Key::PageUp);
    press(&mut b, Key::Tab);
    let (_, body, _) = call(press(&mut b, Key::Enter));
    assert_eq!(
        body,
        r#"{"completed":true,"id":"a","listId":"l1","notes":"n","tags":["a","b"],"title":"title a!","url":"http://u"}"#
    );
}

#[test]
fn notes_take_keys() {
    let mut b = with_items();
    b.items[0].notes = Some("one two".to_string());
    press(&mut b, Key::Char('e'));
    let mut take = |code: Key, shift: bool, ctrl: bool| {
        b.edit_notes_event(KeyInput { code, shift, ctrl, press: true });
        b.edit_notes.text()
    };
    assert_eq!(take(Key::Char('!'), false, false), "one two!");
    assert_eq!(take(Key::Enter, false, false), "one two!\n");
    assert_eq!(take(Key::Backspace, false, false), "one two!");
    // Control characters are not typed, tabs are.
    assert_eq!(take(Key::Char('\u{7}'), false, false), "one two!");
    assert_eq!(take(Key::Char('\t'), false, false), "one two!\t");
    assert_eq!(take(Key::Char('z'), false, true), "one two!");
    assert_eq!(take(Key::Char('y'), false, true), "one two!\t");
    // Other keys leave the text as it is.
    for code in [
        Key::Home, Key::End, Key::PageUp, Key::PageDown, Key::Up, Key::Down, Key::Left, Key::Right,
        Key::Tab, Key::BackTab, Key::Escape, Key::Other,
    ] {
        assert_eq!(take(code, false, false), "one two!\t");
    }
    assert_eq!(take(Key::Char('x'), false, true), "one two!\t");
    take(Key::Home, false, false);
    assert_eq!(take(Key::Delete, false, false), "ne two!\t");
    // What is selected is replaced.
    take(Key::Right, true, false);
    assert_eq!(take(Key::Char('N'), true, false), "Ne two!\t");
    take(Key::Right, false, true);
    assert_eq!(take(Key::Char('k'), false, true), "Ne ");
    assert_eq!(take(Key::Backspace, false, true), "");
    take(Key::Char('é'), false, false);
    take(Key::Char('a'), false, true);
    assert_eq!(take(Key::Char('z'), false, false), "z");
}

#[test]
fn keys_go_to_the_notes_while_they_have_the_focus() {
    let mut b = with_items();
    b.items[0].notes = Some("one\ntwo".to_string());
    press(&mut b, Key::Char('e'));
    press(&mut b, Key::Tab);
    assert_eq!(b.edit_focus, EditFocus::Notes);
    type_text(&mut b, "!");
    assert_eq!(b.edit_notes.text(), "one\ntwo!");
    // The cursor goes up a line; with Shift it selects on the way back.
    press(&mut b, Key::Up);
    type_text(&mut b, "?");
    assert_eq!(b.edit_notes.text(), "one?\ntwo!");
    let down = KeyInput { code: Key::Down, shift: true, ctrl: false, press: true };
    b.try_update(Input::Key(down));
    type_text(&mut b, "-");
    assert_eq!(b.edit_notes.text(), "one?-");
    b.try_update(ctrl('z'));
    assert_eq!(b.edit_notes.text(), "one?");
    // What is done elsewhere keeps the cursor and the history.
    press(&mut b, Key::Home);
    for _ in 0..3 {
        press(&mut b, Key::Tab);
    }
    b.try_update(ctrl('z'));
    assert_eq!(b.edit_notes.text(), "one?\ntwo!");
    b.try_update(ctrl('y'));
    press(&mut b, Key::Home);
    type_text(&mut b, "x");
    assert_eq!(b.edit_notes.text(), "xone?");
}

#[test]
fn the_cursor_goes_through_the_notes_by_lines() {
    let mut b = with_items();
    b.items[0].notes = Some("first\nab\n\tthird".to_string());
    press(&mut b, Key::Char('e'));
    press(&mut b, Key::Tab);
    let place = |b: &ListsTableBrowser| {
        let cursor = b.edit_notes.widget().cursor();
        (cursor.line, cursor.grapheme)
    };
    assert_eq!(place(&b), (2, 6));
    // The last line has none below.
    press(&mut b, Key::Down);
    press(&mut b, Key::PageDown);
    assert_eq!(place(&b), (2, 6));
    // A shorter line is left at its end, and the column is not remembered.
    press(&mut b, Key::Up);
    assert_eq!(place(&b), (1, 2));
    press(&mut b, Key::PageUp);
    assert_eq!(place(&b), (0, 2));
    press(&mut b, Key::Up);
    press(&mut b, Key::PageUp);
    assert_eq!(place(&b), (0, 2));
    // A page is one line.
    press(&mut b, Key::PageDown);
    assert_eq!(place(&b), (1, 2));
    press(&mut b, Key::Down);
    assert_eq!(place(&b), (2, 2));
    assert!(b.edit_notes.widget().selection().is_none());
    // Arrows select with Shift, pages do not.
    let shifted = |code: Key| Input::Key(KeyInput { code, shift: true, ctrl: false, press: true });
    b.try_update(shifted(Key::Up));
    b.try_update(shifted(Key::Up));
    assert_eq!(b.edit_notes.widget().selected_text(), Some("rst\nab\n\tt".to_string()));
    b.try_update(shifted(Key::PageDown));
    assert_eq!(place(&b), (1, 2));
    assert!(b.edit_notes.widget().selection().is_none());
    assert_eq!(b.edit_notes.text(), "first\nab\n\tthird");
    // Other marks end lines too.
    b.items[0].notes = Some("a\u{2028}b\u{2029}c".to_string());
    press(&mut b, Key::Escape);
    press(&mut b, Key::Char('e'));
    press(&mut b, Key::Tab);
    assert_eq!(place(&b).0, 2);
    press(&mut b, Key::Up);
    assert_eq!(place(&b).0, 1);
}

#[test]
fn values_and_notes_are_saved() {
    let mut b = with_items();
    press(&mut b, Key::Char('e'));
    let data = FormData { values: vec![("Title".to_string(), FormValue::Text("T".to_string()))] };
    let (_, body, _) = call(b.save_values(&data, ""));
    assert_eq!(body, r#"{"id":"a","listId":"l1","title":"T"}"#);
    let (_, body, _) = call(b.save_values(&data, "N"));
    assert_eq!(body, r#"{"id":"a","listId":"l1","notes":"N","title":"T"}"#);
}

#[test]
fn enter_submits_the_form() {
    let mut b = with_items();
    press(&mut b, Key::Char('e'));
    let data = b.edit_form.as_ref().unwrap().data();
    assert_eq!(data.text("Title"), Some("Title a"));
    assert_eq!(data.flag("Completed"), Some(false));
    press(&mut b, Key::Enter);
    assert_eq!(b.edit_form.as_ref().unwrap().place(), (0, 0, true, false));
    // A submitted form takes no keys.
    press(&mut b, Key::Char('x'));
    assert_eq!(b.edit_form.as_ref().unwrap().data().text("Title"), Some("Title a"));
}

#[test]
fn a_save_that_fails_closes_the_form() {
    let mut b = with_items();
    press(&mut b, Key::Char('e'));
    b.resume(Pending::Save, Reply::Item(Err(failed())));
    assert_eq!(error(&b), "Failed to save: down");
    assert!(b.edit_item.is_none() && b.edit_form.is_none());
    assert_eq!(b.view, Panel::Edit);
    assert!(matches!(press(&mut b, Key::Char('x')), Action::Idle));
    b.edit_focus = EditFocus::Buttons;
    assert!(matches!(press(&mut b, Key::Enter), Action::Idle));
}

#[test]
fn editing_is_given_up() {
    let mut b = with_items();
    press(&mut b, Key::Char('e'));
    let back = KeyInput { code: Key::Tab, shift: true, ctrl: false, press: true };
    b.try_update(Input::Key(back));
    assert_eq!(b.edit_focus, EditFocus::Buttons);
    let release = KeyInput { code: Key::Escape, shift: false, ctrl: false, press: false };
    b.try_update(Input::Key(release));
    assert_eq!(b.view, Panel::Edit);
    press(&mut b, Key::Escape);
    assert_eq!(b.view, Panel::Items);
    assert!(b.edit_item.is_none());
    assert_eq!(ids(&b.items), vec!["a", "c", "b"]);
}

#[test]
fn focus_goes_round_the_edit_view() {
    assert_eq!(EditFocus::Form.next(), EditFocus::Notes);
    assert_eq!(EditFocus::Notes.next(), EditFocus::Buttons);
    assert_eq!(EditFocus::Buttons.next(), EditFocus::Form);
    assert_eq!(EditFocus::Form.prev(), EditFocus::Buttons);
    assert_eq!(EditFocus::Notes.prev(), EditFocus::Form);
    assert_eq!(EditFocus::Buttons.prev(), EditFocus::Notes);
}

#[test]
fn the_wheel_moves_the_selection() {
    let wheel = |kind| Input::Mouse(MouseInput { kind, x: 0, y: 0 });
    let mut b = with_lists();
    b.try_update(wheel(MouseKind::ScrollDown));
    b.try_update(wheel(MouseKind::ScrollDown));
    assert_eq!(b.list_index, 2);
    b.try_update(wheel(MouseKind::ScrollUp));
    assert_eq!(b.list_index, 1);
    let mut b = with_items();
    b.try_update(wheel(MouseKind::ScrollDown));
    assert_eq!(b.table_state.selected, Some(1));
    b.try_update(wheel(MouseKind::Other));
    assert_eq!(b.table_state.selected, Some(1));
}
