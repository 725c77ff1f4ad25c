//! The live connection: which address it goes to, what each message means, and what to do next.
use vstd::prelude::*;
use vstd::string::*;
use crate::items::opt_text;
use crate::json::{json_text, new_object, no_fields, put, write_object, Json, JsonModel};
use crate::text::{concat2, occurs_at, occurs_in, replace, replaced, replaced_from, same_text};

verus! {

/// What the connection tells the browser.
#[derive(Debug)]
pub enum WsEvent {
    Connected,
    Disconnected(String),
    ListUpdate { list_id: String, action: String },
}

/// What an event holds.
pub enum WsEventModel {
    Connected,
    Disconnected(Seq<char>),
    ListUpdate { list_id: Seq<char>, action: Seq<char> },
}

impl View for WsEvent {
    type V = WsEventModel;

    open spec fn view(&self) -> WsEventModel {
        match self {
            WsEvent::Connected => WsEventModel::Connected,
            WsEvent::Disconnected(reason) => WsEventModel::Disconnected(reason@),
            WsEvent::ListUpdate { list_id, action } => WsEventModel::ListUpdate {
                list_id: list_id@,
                action: action@,
            },
        }
    }
}

/// The payload of a panel event.
#[derive(Debug)]
pub struct PanelEventPayload {
    pub event_type: Option<String>,
    pub list_id: Option<String>,
    pub action: Option<String>,
}

/// A message from the server.
#[derive(Debug)]
pub struct ServerMessage {
    pub msg_type: String,
    pub panel_type: Option<String>,
    pub payload: Option<PanelEventPayload>,
}

/// The change of a list that a message reports: only panel events of the lists panel report one,
/// and only with both a list and an action.
pub open spec fn reported_update(message: ServerMessage) -> Option<WsEventModel> {
    if message.msg_type@ == "panel_event"@ && opt_text(message.panel_type) == Some("lists"@) {
        match message.payload {
            Some(payload) => match (payload.list_id, payload.action) {
                (Some(list_id), Some(action)) => Some(
                    WsEventModel::ListUpdate { list_id: list_id@, action: action@ },
                ),
                _ => None,
            },
            None => None,
        }
    } else {
        None
    }
}

/// What an optional event holds.
pub open spec fn opt_event(e: Option<WsEvent>) -> Option<WsEventModel> {
    match e {
        Some(event) => Some(event@),
        None => None,
    }
}

/// The change of a list that a message reports.
pub fn list_update(message: ServerMessage) -> (r: Option<WsEvent>)
    ensures
        opt_event(r) == reported_update(message),
{
    if !same_text(message.msg_type.as_str(), "panel_event") {
        return None;
    }
    match message.panel_type {
        Some(panel_type) => {
            if !same_text(panel_type.as_str(), "lists") {
                return None;
            }
        },
        None => {
            return None;
        },
    }
    match message.payload {
        Some(payload) => match (payload.list_id, payload.action) {
            (Some(list_id), Some(action)) => Some(WsEvent::ListUpdate { list_id, action }),
            _ => None,
        },
        None => None,
    }
}

// ---------------------------------------------------------------------------
// The address
// ---------------------------------------------------------------------------
/// The address of the live connection: the server's, with the web protocols replaced.
pub open spec fn ws_address(base_url: Seq<char>) -> Seq<char> {
    replaced(replaced(base_url, "http://"@, "ws://"@), "https://"@, "wss://"@) + "/ws"@
}

/// The address of the live connection.
pub fn ws_url(base_url: &str) -> (r: String)
    ensures
        r@ == ws_address(base_url@),
{
    proof {
        reveal_strlit("http://");
        reveal_strlit("https://");
    }
    let plain = replace(base_url, "http://", "ws://");
    let address = replace(plain.as_str(), "https://", "wss://");
    concat2(address.as_str(), "/ws")
}

/// What `url::Url::parse` makes of a text: the address in normal form, or the reason why it is
/// none.
pub uninterp spec fn url_parsed(text: Seq<char>) -> Result<Seq<char>, Seq<char>>;

/// What a result of two texts holds.
pub open spec fn text_result(r: Result<String, String>) -> Result<Seq<char>, Seq<char>> {
    match r {
        Ok(t) => Ok(t@),
        Err(e) => Err(e@),
    }
}

/// Calls `url::Url::parse` and gives the address, or the error, as text. Which texts are addresses
/// is left to the name of the result.
#[verifier::external_body]
pub(crate) fn parse_url(text: &str) -> (r: Result<String, String>)
    ensures
        text_result(r) == url_parsed(text@),
{
    match url::Url::parse(text) {
        Ok(address) => Ok(address.to_string()),
        Err(error) => Err(error.to_string()),
    }
}

// ---------------------------------------------------------------------------
// One step after the other
// ---------------------------------------------------------------------------
/// What happened on the connection.
#[derive(Debug)]
pub enum WsInput {
    /// The connection is to be made, at the start or after a pause.
    Begin,
    /// The connection was made.
    Opened,
    /// The connection could not be made.
    OpenFailed(String),
    /// The greeting was sent.
    Greeted,
    /// The greeting could not be sent.
    GreetFailed(String),
    /// A text message was read; the message where it could be understood.
    Message(Option<ServerMessage>),
    /// A ping was read.
    Ping(Vec<u8>),
    /// The answer to a ping was sent, or could not be.
    Answered,
    /// The server closed the connection.
    Closed,
    /// Reading failed.
    ReadFailed(String),
    /// Something else was read.
    Other,
}

/// What to do on the connection.
#[derive(Debug)]
pub enum WsAction {
    /// Connect to an address.
    Open(String),
    /// Send a greeting.
    Greet(String),
    /// Read the next message.
    Read,
    /// Answer a ping.
    Pong(Vec<u8>),
    /// Pause for some seconds, then begin again.
    Wait(u64),
}

/// What an action holds.
pub enum WsActionModel {
    Open(Seq<char>),
    Greet(Seq<char>),
    Read,
    Pong(Seq<u8>),
    Wait(nat),
}

impl View for WsAction {
    type V = WsActionModel;

    open spec fn view(&self) -> WsActionModel {
        match self {
            WsAction::Open(address) => WsActionModel::Open(address@),
            WsAction::Greet(text) => WsActionModel::Greet(text@),
            WsAction::Read => WsActionModel::Read,
            WsAction::Pong(data) => WsActionModel::Pong(data@),
            WsAction::Wait(seconds) => WsActionModel::Wait(*seconds as nat),
        }
    }
}

/// What to tell the browser, if anything, and what to do next.
#[derive(Debug)]
pub struct WsStep {
    pub event: Option<WsEvent>,
    pub action: WsAction,
}

/// The greeting that opens a session.
pub open spec fn greeting() -> Seq<char> {
    json_text(
        no_fields().insert("type"@, JsonModel::Text("hello"@)).insert(
            "protocolVersion"@,
            JsonModel::Number(2),
        ).insert("userAgent"@, JsonModel::Text("lists-tui/1.0"@)),
    )
}

/// A report that the connection is down.
pub open spec fn down(reason: Seq<char>) -> Option<WsEventModel> {
    Some(WsEventModel::Disconnected(reason))
}

/// The step of a fresh start, given what the address parsed to.
pub open spec fn begin_step(parsed: Result<Seq<char>, Seq<char>>) -> (
    Option<WsEventModel>,
    WsActionModel,
) {
    match parsed {
        Ok(address) => (None, WsActionModel::Open(address)),
        Err(error) => (down("Invalid URL: "@ + error), WsActionModel::Wait(5)),
    }
}

/// The step that answers what happened.
pub open spec fn step_for(base_url: Seq<char>, input: WsInput) -> (
    Option<WsEventModel>,
    WsActionModel,
) {
    match input {
        WsInput::Begin => begin_step(url_parsed(ws_address(base_url))),
        WsInput::Opened => (Some(WsEventModel::Connected), WsActionModel::Greet(greeting())),
        WsInput::OpenFailed(error) => (
            down("Connect failed: "@ + error@),
            WsActionModel::Wait(5),
        ),
        WsInput::Greeted => (None, WsActionModel::Read),
        WsInput::GreetFailed(error) => (
            down("Send hello failed: "@ + error@),
            WsActionModel::Wait(5),
        ),
        WsInput::Message(Some(message)) => (reported_update(message), WsActionModel::Read),
        WsInput::Message(None) => (None, WsActionModel::Read),
        WsInput::Ping(data) => (None, WsActionModel::Pong(data@)),
        WsInput::Answered => (None, WsActionModel::Read),
        WsInput::Closed => (down("Server closed connection"@), WsActionModel::Wait(3)),
        WsInput::ReadFailed(error) => (down("Read error: "@ + error@), WsActionModel::Wait(3)),
        WsInput::Other => (None, WsActionModel::Read),
    }
}

impl WsStep {
    /// What the step holds.
    pub open spec fn model(self) -> (Option<WsEventModel>, WsActionModel) {
        (opt_event(self.event), self.action@)
    }

    /// A step that tells the browser nothing.
    fn quiet(action: WsAction) -> (r: WsStep)
        ensures
            r.model() == (None::<WsEventModel>, action@),
    {
        WsStep { event: None, action }
    }

    /// A step that reports the connection down and pauses.
    fn pause(what: &str, error: &str, seconds: u64) -> (r: WsStep)
        ensures
            r.model() == (down(what@ + error@), WsActionModel::Wait(seconds as nat)),
    {
        WsStep {
            event: Some(WsEvent::Disconnected(concat2(what, error))),
            action: WsAction::Wait(seconds),
        }
    }
}

/// The greeting that opens a session.
pub fn hello() -> (r: String)
    ensures
        r@ == greeting(),
{
    let mut body = new_object();
    put(&mut body, "type", Json::Text("hello".to_owned()));
    put(&mut body, "protocolVersion", Json::Number(2));
    put(&mut body, "userAgent", Json::Text("lists-tui/1.0".to_owned()));
    write_object(body)
}

/// The step of a fresh start, given what the address parsed to.
pub fn begin(parsed: Result<String, String>) -> (r: WsStep)
    ensures
        r.model() == begin_step(text_result(parsed)),
{
    match parsed {
        Ok(address) => WsStep::quiet(WsAction::Open(address)),
        Err(error) => WsStep::pause("Invalid URL: ", error.as_str(), 5),
    }
}

/// The step that answers what happened on the connection.
pub fn ws_step(base_url: &str, input: WsInput) -> (r: WsStep)
    ensures
        r.model() == step_for(base_url@, input),
{
    match input {
        WsInput::Begin => {
            let address = ws_url(base_url);
            begin(parse_url(address.as_str()))
        },
        WsInput::Opened => WsStep {
            event: Some(WsEvent::Connected),
            action: WsAction::Greet(hello()),
        },
        WsInput::OpenFailed(error) => WsStep::pause("Connect failed: ", error.as_str(), 5),
        WsInput::Greeted => WsStep::quiet(WsAction::Read),
        WsInput::GreetFailed(error) => WsStep::pause("Send hello failed: ", error.as_str(), 5),
        WsInput::Message(Some(message)) => WsStep {
            event: list_update(message),
            action: WsAction::Read,
        },
        WsInput::Message(None) => WsStep::quiet(WsAction::Read),
        WsInput::Ping(data) => WsStep::quiet(WsAction::Pong(data)),
        WsInput::Answered => WsStep::quiet(WsAction::Read),
        WsInput::Closed => WsStep {
            event: Some(WsEvent::Disconnected("Server closed connection".to_owned())),
            action: WsAction::Wait(3),
        },
        WsInput::ReadFailed(error) => WsStep::pause("Read error: ", error.as_str(), 3),
        WsInput::Other => WsStep::quiet(WsAction::Read),
    }
}

// ---------------------------------------------------------------------------
// Laws
// ---------------------------------------------------------------------------
/// Where a pattern does not occur, replacing it changes nothing.
pub proof fn lemma_replaced_none(s: Seq<char>, from: Seq<char>, to: Seq<char>, i: int)
    requires
        from.len() > 0,
        0 <= i <= s.len(),
        forall|j: int| i <= j ==> !occurs_at(s, from, j),
    ensures
        replaced_from(s, from, to, i) == s.skip(i),
    decreases s.len() - i,
{
    if i < s.len() {
        lemma_replaced_none(s, from, to, i + 1);
        assert(seq![s[i]] + s.skip(i + 1) =~= s.skip(i));
    } else {
        assert(s.skip(i) =~= Seq::<char>::empty());
    }
}

/// A pattern that does not occur in the tail of a text does not occur behind its head.
proof fn lemma_tail_occurs(head: Seq<char>, tail: Seq<char>, pattern: Seq<char>, j: int)
    requires
        !occurs_in(tail, pattern),
        j >= head.len(),
    ensures
        !occurs_at(head + tail, pattern, j),
{
    if occurs_at(head + tail, pattern, j) {
        let k = j - head.len();
        assert(tail.subrange(k, k + pattern.len()) =~= (head + tail).subrange(
            j,
            j + pattern.len(),
        ));
        assert(occurs_at(tail, pattern, k));
    }
}

/// A web address becomes the address of a web socket on the same host: `http` becomes `ws`,
/// `https` becomes `wss`, and the path of the connection follows.
pub proof fn law_ws_address(rest: Seq<char>)
    requires
        !occurs_in(rest, "http://"@),
        !occurs_in(rest, "https://"@),
    ensures
        ws_address("http://"@ + rest) == "ws://"@ + rest + "/ws"@,
        ws_address("https://"@ + rest) == "wss://"@ + rest + "/ws"@,
{
    reveal_strlit("http://");
    reveal_strlit("https://");
    reveal_strlit("ws://");
    reveal_strlit("wss://");
    let plain = "http://"@;
    let safe = "https://"@;
    // http
    let s = plain + rest;
    assert(s.subrange(0, 7) =~= plain);
    assert forall|j: int| 7 <= j implies !occurs_at(s, plain, j) by {
        lemma_tail_occurs(plain, rest, plain, j);
    }
    lemma_replaced_none(s, plain, "ws://"@, 7);
    assert(s.skip(7) =~= rest);
    let t = "ws://"@ + rest;
    assert(replaced(s, plain, "ws://"@) == t);
    assert forall|j: int| 0 <= j implies !occurs_at(t, safe, j) by {
        if j < 5 {
            if occurs_at(t, safe, j) {
                assert(t.subrange(j, j + 8)[0] == 'h');
            }
        } else {
            lemma_tail_occurs("ws://"@, rest, safe, j);
        }
    }
    lemma_replaced_none(t, safe, "wss://"@, 0);
    assert(t.skip(0) =~= t);
    // https
    let u = safe + rest;
    assert forall|j: int| 0 <= j implies !occurs_at(u, plain, j) by {
        if j < 8 {
            if occurs_at(u, plain, j) {
                assert(u.subrange(j, j + 7)[0] == 'h');
                assert(u.subrange(j, j + 7)[4] == ':');
            }
        } else {
            lemma_tail_occurs(safe, rest, plain, j);
        }
    }
    lemma_replaced_none(u, plain, "ws://"@, 0);
    assert(u.skip(0) =~= u);
    assert(u.subrange(0, 8) =~= safe);
    assert forall|j: int| 8 <= j implies !occurs_at(u, safe, j) by {
        lemma_tail_occurs(safe, rest, safe, j);
    }
    lemma_replaced_none(u, safe, "wss://"@, 8);
    assert(u.skip(8) =~= rest);
}

/// Whatever happens, the connection goes on: after a failure it pauses and begins again, and
/// otherwise it connects, greets, reads or answers. A failure is always reported.
pub proof fn law_failures_are_reported(base_url: Seq<char>, input: WsInput)
    ensures
        step_for(base_url, input).1 is Wait ==> step_for(base_url, input).0 matches Some(
            WsEventModel::Disconnected(_),
        ),
        step_for(base_url, input).0 matches Some(WsEventModel::Disconnected(_)) ==> step_for(
            base_url,
            input,
        ).1 is Wait,
{
}

} // verus!
