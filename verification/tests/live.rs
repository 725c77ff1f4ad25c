use assistant_cli::action::{Action, AfterLists, Pending, Reply};
use assistant_cli::items::ListInfo;
use assistant_cli::socket::WsEvent;
use assistant_cli::state::{ListsTableBrowser, Panel};

fn list(id: &str) -> ListInfo {
    ListInfo { id: id.to_string(), name: id.to_string(), tags: vec![], description: None }
}

fn showing_first_list() -> ListsTableBrowser {
    let (mut b, _) = ListsTableBrowser::new("http://h".to_string(), String::new());
    b.lists = vec![list("l1"), list("l2")];
    b.view = Panel::Items;
    b
}

fn update(list_id: &str, action: &str) -> WsEvent {
    WsEvent::ListUpdate { list_id: list_id.to_string(), action: action.to_string() }
}

#[test]
fn the_connection_is_shown() {
    let mut b = showing_first_list();
    assert!(matches!(b.poll_ws_events(vec![WsEvent::Connected], false), Action::Idle));
    assert!(b.ws_connected);
    assert_eq!(b.status_message.as_deref(), Some("🔗 Connected"));
    b.poll_ws_events(vec![WsEvent::Disconnected("Read error: x".to_string())], false);
    assert!(!b.ws_connected && b.ws_open);
    assert_eq!(b.status_message.as_deref(), Some("⚠ Read error: x"));
}

#[test]
fn a_change_of_the_shown_list_loads_its_items() {
    let mut b = showing_first_list();
    let events = vec![update("l1", "item-added"), update("l2", "item-gone"), update("l1", "item-moved")];
    match b.poll_ws_events(events, false) {
        Action::Call { request, then: Pending::Items(Some(note)) } => {
            assert_eq!(request.body, r#"{"limit":100,"listId":"l1"}"#);
            assert_eq!(note, "↻ item-moved");
            b.resume(Pending::Items(Some(note)), Reply::Items(Ok(vec![])));
        }
        other => panic!("no items: {:?}", other),
    }
    assert_eq!(b.status_message.as_deref(), Some("↻ item-moved"));
}

#[test]
fn a_change_of_another_list_does_nothing() {
    let mut b = showing_first_list();
    assert!(matches!(b.poll_ws_events(vec![update("l2", "item-added")], false), Action::Idle));
    b.view = Panel::Search;
    assert!(matches!(b.poll_ws_events(vec![update("l1", "item-added")], false), Action::Idle));
}

#[test]
fn a_change_of_lists_loads_them() {
    let mut b = showing_first_list();
    match b.poll_ws_events(vec![update("l2", "list-created")], false) {
        Action::Call { request, then: Pending::Lists(AfterLists::Stop) } => {
            assert_eq!(request.url, "http://h/api/plugins/lists/operations/list");
        }
        other => panic!("no lists: {:?}", other),
    }
}

#[test]
fn a_change_of_the_shown_list_itself_loads_both() {
    let mut b = showing_first_list();
    let then = match b.poll_ws_events(vec![update("l1", "list-renamed")], false) {
        Action::Call { then, .. } => then,
        other => panic!("no lists: {:?}", other),
    };
    assert!(matches!(&then, Pending::Lists(AfterLists::Announce(text)) if text == "↻ list-renamed"));
    match b.resume(then, Reply::Lists(Ok(vec![list("l1")]))) {
        Action::Call { then: Pending::Items(Some(note)), .. } => assert_eq!(note, "↻ list-renamed"),
        other => panic!("no items: {:?}", other),
    }
}

#[test]
fn the_message_appears_even_where_the_list_is_gone() {
    let mut b = showing_first_list();
    let then = Pending::Lists(AfterLists::Announce("↻ list-deleted".to_string()));
    assert!(matches!(b.resume(then, Reply::Lists(Ok(vec![]))), Action::Idle));
    assert_eq!(b.status_message.as_deref(), Some("↻ list-deleted"));
}

#[test]
fn a_closed_channel_stays_closed() {
    let mut b = showing_first_list();
    b.poll_ws_events(vec![WsEvent::Connected], true);
    assert!(!b.ws_open && !b.ws_connected);
    assert_eq!(b.status_message.as_deref(), Some("⚠ Channel closed"));
    assert!(matches!(b.poll_ws_events(vec![update("l1", "list-x")], false), Action::Idle));
    b.poll_ws_events(vec![WsEvent::Connected], false);
    assert!(!b.ws_connected);
}
