use assistant_cli::socket::{
    hello, list_update, ws_step, ws_url, PanelEventPayload, ServerMessage, WsAction, WsEvent,
    WsInput, WsStep,
};

const BASE: &str = "http://host:3000";

fn message(kind: &str, panel: Option<&str>, list: Option<&str>, action: Option<&str>) -> ServerMessage {
    ServerMessage {
        msg_type: kind.to_string(),
        panel_type: panel.map(|s| s.to_string()),
        payload: Some(PanelEventPayload {
            event_type: Some("update".to_string()),
            list_id: list.map(|s| s.to_string()),
            action: action.map(|s| s.to_string()),
        }),
    }
}

fn reason(step: &WsStep) -> &str {
    match &step.event {
        Some(WsEvent::Disconnected(reason)) => reason,
        _ => panic!("not disconnected"),
    }
}

#[test]
fn addresses_of_web_sockets() {
    assert_eq!(ws_url("http://host:3000"), "ws://host:3000/ws");
    assert_eq!(ws_url("https://host"), "wss://host/ws");
    assert_eq!(ws_url("host"), "host/ws");
}

#[test]
fn connections_begin_with_an_address() {
    let step = ws_step("http://HOST:80/a b", WsInput::Begin);
    assert!(step.event.is_none());
    match step.action {
        WsAction::Open(address) => assert_eq!(address, "ws://host/a%20b/ws"),
        _ => panic!("not opened"),
    }
}

#[test]
fn bad_addresses_are_reported() {
    let step = ws_step("nonsense", WsInput::Begin);
    assert_eq!(reason(&step), "Invalid URL: relative URL without a base");
    assert!(matches!(step.action, WsAction::Wait(5)));
}

#[test]
fn connections_are_greeted() {
    let step = ws_step(BASE, WsInput::Opened);
    assert!(matches!(step.event, Some(WsEvent::Connected)));
    match step.action {
        WsAction::Greet(text) => assert_eq!(
            text,
            r#"{"protocolVersion":2,"type":"hello","userAgent":"lists-tui/1.0"}"#
        ),
        _ => panic!("not greeted"),
    }
    assert_eq!(hello(), r#"{"protocolVersion":2,"type":"hello","userAgent":"lists-tui/1.0"}"#);
    let step = ws_step(BASE, WsInput::Greeted);
    assert!(step.event.is_none());
    assert!(matches!(step.action, WsAction::Read));
}

#[test]
fn failures_are_reported_and_followed_by_a_pause() {
    let step = ws_step(BASE, WsInput::OpenFailed("refused".to_string()));
    assert_eq!(reason(&step), "Connect failed: refused");
    assert!(matches!(step.action, WsAction::Wait(5)));
    let step = ws_step(BASE, WsInput::GreetFailed("gone".to_string()));
    assert_eq!(reason(&step), "Send hello failed: gone");
    assert!(matches!(step.action, WsAction::Wait(5)));
    let step = ws_step(BASE, WsInput::ReadFailed("reset".to_string()));
    assert_eq!(reason(&step), "Read error: reset");
    assert!(matches!(step.action, WsAction::Wait(3)));
    let step = ws_step(BASE, WsInput::Closed);
    assert_eq!(reason(&step), "Server closed connection");
    assert!(matches!(step.action, WsAction::Wait(3)));
}

#[test]
fn pings_are_answered() {
    let step = ws_step(BASE, WsInput::Ping(vec![1, 2]));
    assert!(matches!(step.action, WsAction::Pong(data) if data == vec![1, 2]));
    assert!(matches!(ws_step(BASE, WsInput::Answered).action, WsAction::Read));
    assert!(matches!(ws_step(BASE, WsInput::Other).action, WsAction::Read));
    assert!(matches!(ws_step(BASE, WsInput::Message(None)).action, WsAction::Read));
}

#[test]
fn changes_of_lists_are_reported() {
    let step = ws_step(
        BASE,
        WsInput::Message(Some(message("panel_event", Some("lists"), Some("l1"), Some("item-added")))),
    );
    assert!(matches!(
        step.event,
        Some(WsEvent::ListUpdate { list_id, action }) if list_id == "l1" && action == "item-added"
    ));
    assert!(matches!(step.action, WsAction::Read));
}

#[test]
fn other_messages_report_nothing() {
    assert!(list_update(message("hello", Some("lists"), Some("l"), Some("a"))).is_none());
    assert!(list_update(message("panel_event", Some("notes"), Some("l"), Some("a"))).is_none());
    assert!(list_update(message("panel_event", None, Some("l"), Some("a"))).is_none());
    assert!(list_update(message("panel_event", Some("lists"), None, Some("a"))).is_none());
    assert!(list_update(message("panel_event", Some("lists"), Some("l"), None)).is_none());
    let mut empty = message("panel_event", Some("lists"), Some("l"), Some("a"));
    empty.payload = None;
    assert!(list_update(empty).is_none());
}
