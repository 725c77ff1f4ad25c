//! What is sent to and read from the server, on either connection, and how the browser begins.
use vstd::prelude::*;
use vstd::string::*;
use crate::action::{ActionModel, AfterListsModel, PendingModel};
use crate::api::{quoted_bytes, update_fields, ApiResponse};
use crate::column::SortDirection;
use crate::edit::{flag_value, tags_in, text_value, value_of, DataModel, ValueModel};
use crate::editor::AreaModel;
use crate::json::{json_text, JsonModel};
use crate::layout::Area;
use crate::socket::{reported_update, step_for, url_parsed, ws_address, ServerMessage, WsActionModel, WsEventModel, WsInput};
use crate::state::{Browser, EditFocus, Focus, InputMode, Panel};
use crate::promises::{asks_for_lists, chosen_list, lemma_chosen, post};
use crate::reading::law_replaced;
use crate::text::{bytes, lemma_found_from, occurs_in};
use crate::update::base_url;

verus! {

// ---------------------------------------------------------------------------
// Requests and replies
// ---------------------------------------------------------------------------
/// A request that changes an item names the list and the item, holds each of the other fields where
/// it is given, and nothing else. An empty address or empty notes are sent as missing.
pub proof fn law_changed_fields(
    list_id: Seq<char>,
    item_id: Seq<char>,
    title: Option<Seq<char>>,
    url: Option<Seq<char>>,
    tags: Option<Seq<Seq<char>>>,
    notes: Option<Seq<char>>,
    completed: Option<bool>,
    name: Seq<char>,
)
    ensures
        ({
            let f = update_fields(list_id, item_id, title, url, tags, notes, completed);
            let holds = |key: Seq<char>, value: JsonModel| f.dom().contains(key) && f[key] == value;
            let or_null = |t: Seq<char>| if t.len() == 0 {
                JsonModel::Null
            } else {
                JsonModel::Text(t)
            };
            &&& holds("listId"@, JsonModel::Text(list_id))
            &&& holds("id"@, JsonModel::Text(item_id))
            &&& title matches Some(t) ==> holds("title"@, JsonModel::Text(t))
            &&& url matches Some(t) ==> holds("url"@, or_null(t))
            &&& tags matches Some(t) ==> holds("tags"@, JsonModel::Texts(t))
            &&& notes matches Some(t) ==> holds("notes"@, or_null(t))
            &&& completed matches Some(c) ==> holds("completed"@, JsonModel::Bool(c))
            &&& f.dom().contains(name) ==> {
                ||| name == "listId"@
                ||| name == "id"@
                ||| name == "title"@ && title is Some
                ||| name == "url"@ && url is Some
                ||| name == "tags"@ && tags is Some
                ||| name == "notes"@ && notes is Some
                ||| name == "completed"@ && completed is Some
            }
        }),
{
    reveal_strlit("listId");
    reveal_strlit("id");
    reveal_strlit("title");
    reveal_strlit("url");
    reveal_strlit("tags");
    reveal_strlit("notes");
    reveal_strlit("completed");
    assert("listId"@.len() == 6 && "id"@.len() == 2 && "title"@.len() == 5 && "url"@.len() == 3
        && "tags"@.len() == 4 && "notes"@.len() == 5 && "completed"@.len() == 9);
    assert("title"@[0] == 't' && "notes"@[0] == 'n');
}

/// Whatever fields a form has, saving sends those of its values that an item has, under their
/// names, and the notes where there are any.
pub proof fn law_values_are_sent(b: Browser, data: DataModel, notes: Seq<char>)
    ensures
        b.edit_item is None || chosen_list(b) is None ==> b.save_values(data, notes)
            == ActionModel::Idle,
        b.edit_item is Some && chosen_list(b) is Some ==> b.save_values(data, notes) == (
        ActionModel::Call {
            request: post(
                b.base_url,
                "item-update"@,
                update_fields(
                    chosen_list(b)->0.id,
                    b.edit_item->0.id,
                    text_value(data, "Title"@),
                    text_value(data, "URL"@),
                    if text_value(data, "Tags"@) is Some {
                        Some(tags_in(text_value(data, "Tags"@)->0))
                    } else {
                        None
                    },
                    if notes.len() > 0 {
                        Some(notes)
                    } else {
                        None
                    },
                    flag_value(data, "Completed"@),
                ),
            ),
            then: PendingModel::Save,
        }),
        b.edit_form matches Some(form) ==> b.save_edit() == b.save_values(
            form.values,
            b.edit_notes.area.text,
        ),
        b.edit_form is None ==> b.save_edit() == ActionModel::Idle,
{
    lemma_chosen(b);
}

/// A reply that is in order gives its result; one that is not gives what it says went wrong.
pub proof fn law_reply_amounts_to<T>(reply: ApiResponse<T>)
    ensures
        reply.amounts_to() is Ok <==> reply.ok && reply.result is Some,
        reply.amounts_to() matches Ok(value) ==> reply.result == Some(value),
        !reply.ok && reply.error is Some ==> reply.amounts_to() == Err::<T, Seq<char>>(
            reply.error->0@,
        ),
        !reply.ok && reply.error is None ==> reply.amounts_to() == Err::<T, Seq<char>>(
            "Unknown error"@,
        ),
        reply.ok && reply.result is None ==> reply.amounts_to() == Err::<T, Seq<char>>(
            "Empty result"@,
        ),
{
}

/// An error message quotes all of a short reply, and two hundred bytes of a longer one.
pub proof fn law_quoted_bytes(body: Seq<char>)
    ensures
        bytes(body).len() <= 200 ==> quoted_bytes(body) == bytes(body).len(),
        bytes(body).len() > 200 ==> quoted_bytes(body) == 200,
{
}

/// The value of a label is that of the first field with this label; as a text it is there where the
/// field is one for text, and as a flag where it is a checkbox.
pub proof fn law_values_by_label(data: DataModel, label: Seq<char>, i: int)
    requires
        0 <= i < data.len(),
        data[i].0 == label,
        forall|j: int| 0 <= j < i ==> (#[trigger] data[j]).0 != label,
    ensures
        value_of(data, label) == Some(data[i].1),
        text_value(data, label) == (match data[i].1 {
            ValueModel::Text(text) => Some(text),
            _ => None,
        }),
        flag_value(data, label) == (match data[i].1 {
            ValueModel::Bool(flag) => Some(flag),
            _ => None,
        }),
    decreases i,
{
    if i > 0 {
        assert(data[0].0 != label);
        let rest = data.drop_first();
        assert forall|j: int| 0 <= j < i - 1 implies (#[trigger] rest[j]).0 != label by {
            assert(rest[j] == data[j + 1]);
        }
        law_values_by_label(rest, label, i - 1);
    }
}

/// A label that no field has, has no value.
pub proof fn law_no_value(data: DataModel, label: Seq<char>)
    requires
        forall|j: int| 0 <= j < data.len() ==> (#[trigger] data[j]).0 != label,
    ensures
        value_of(data, label) is None,
        text_value(data, label) is None,
        flag_value(data, label) is None,
    decreases data.len(),
{
    if data.len() > 0 {
        assert(data[0].0 != label);
        let rest = data.drop_first();
        assert forall|j: int| 0 <= j < rest.len() implies (#[trigger] rest[j]).0 != label by {
            assert(rest[j] == data[j + 1]);
        }
        law_no_value(rest, label);
    }
}

// ---------------------------------------------------------------------------
// The live connection
// ---------------------------------------------------------------------------
/// A message of the server is an update of a list where it is an event of the panel for lists that
/// names a list and what happened to it; no other message is.
pub proof fn law_reported_update(message: ServerMessage)
    ensures
        reported_update(message) is Some <==> {
            &&& message.msg_type@ == "panel_event"@
            &&& message.panel_type is Some && message.panel_type->0@ == "lists"@
            &&& message.payload is Some
            &&& message.payload->0.list_id is Some
            &&& message.payload->0.action is Some
        },
        reported_update(message) matches Some(event) ==> event == (WsEventModel::ListUpdate {
            list_id: message.payload->0.list_id->0@,
            action: message.payload->0.action->0@,
        }),
{
}

/// The connection is opened at the address of the web socket, greets once it is open, and then reads
/// on and on. It hands on what the messages report and answers pings with what they hold. What goes
/// wrong is reported with its reason, and after a pause, of five seconds before anything was read
/// and of three after, it begins again.
pub proof fn law_connection_goes_on(address: Seq<char>, input: WsInput)
    ensures
        ({
            let step = step_for(address, input);
            let fails = |text: Seq<char>, seconds: nat| (
                Some(WsEventModel::Disconnected(text)),
                WsActionModel::Wait(seconds),
            );
            let reads = (None::<WsEventModel>, WsActionModel::Read);
            match input {
                WsInput::Begin => match url_parsed(ws_address(address)) {
                    Ok(url) => step == (None::<WsEventModel>, WsActionModel::Open(url)),
                    Err(error) => step == fails("Invalid URL: "@ + error, 5),
                },
                WsInput::Opened => step == (
                    Some(WsEventModel::Connected),
                    WsActionModel::Greet(
                        json_text(
                            Map::empty().insert("type"@, JsonModel::Text("hello"@)).insert(
                                "protocolVersion"@,
                                JsonModel::Number(2),
                            ).insert("userAgent"@, JsonModel::Text("lists-tui/1.0"@)),
                        ),
                    ),
                ),
                WsInput::OpenFailed(error) => step == fails("Connect failed: "@ + error@, 5),
                WsInput::GreetFailed(error) => step == fails("Send hello failed: "@ + error@, 5),
                WsInput::Closed => step == fails("Server closed connection"@, 3),
                WsInput::ReadFailed(error) => step == fails("Read error: "@ + error@, 3),
                WsInput::Message(Some(message)) => step == (
                    reported_update(message),
                    WsActionModel::Read,
                ),
                WsInput::Ping(data) => step == (None::<WsEventModel>, WsActionModel::Pong(data@)),
                WsInput::Greeted
                | WsInput::Answered
                | WsInput::Other
                | WsInput::Message(None) => step == reads,
            }
        }),
{
}

/// An address without the scheme of a web page is that of the web socket, with `/ws` behind it.
pub proof fn law_ws_address_without_scheme(address: Seq<char>)
    requires
        !occurs_in(address, "http://"@),
        !occurs_in(address, "https://"@),
    ensures
        ws_address(address) == address + "/ws"@,
{
    reveal_strlit("http://");
    reveal_strlit("https://");
    lemma_found_from(address, "http://"@, 0);
    lemma_found_from(address, "https://"@, 0);
    law_replaced(address, "http://"@, "ws://"@);
    law_replaced(address, "https://"@, "wss://"@);
}

// ---------------------------------------------------------------------------
// The beginning
// ---------------------------------------------------------------------------
/// The server is the configured one, else one on this machine.
pub proof fn law_base_url(configured: Seq<char>)
    ensures
        base_url(Some(configured)) == configured,
        base_url(None) == "http://localhost:3000"@,
{
}

/// Asking for the lists is one request, whatever follows; that is also the first one of all.
pub proof fn law_first_request(b: Browser, then: AfterListsModel)
    ensures
        b.refresh_lists(then) == asks_for_lists(b, then),
{
}

/// The browser begins with no lists, items or results, nothing chosen, typed, asked, edited or said,
/// the focus on the sidebar, and the channel of the live connection open.
pub proof fn law_beginning(address: Seq<char>, words: Seq<char>, wide: bool)
    ensures
        ({
            let b = Browser::initial(address, words, wide);
            &&& b.base_url == address && b.lists_filter == words
            &&& b.lists.len() == 0 && b.items.len() == 0
            &&& b.search_results.len() == 0 && b.aql_results.len() == 0
            &&& b.list_index == 0
            &&& b.table_state.selected is None
            &&& b.search_table_state.selected is None
            &&& b.aql_table_state.selected is None
            &&& b.view == Panel::Lists && b.focus == Focus::Sidebar
            &&& b.input_mode == InputMode::Normal
            &&& b.search_query.len() == 0 && b.add_item_text.len() == 0
            &&& b.aql_query.len() == 0 && b.list_filter.len() == 0
            &&& b.aql_columns is None && b.sort_column is None
            &&& b.sort_direction == SortDirection::Desc
            &&& b.detail_item is None && b.detail_scroll == 0
            &&& b.column_positions.len() == 0
            &&& b.sidebar_area == (Area { x: 0, y: 0, width: 0, height: 0 })
            &&& b.table_area == (Area { x: 0, y: 0, width: 0, height: 0 })
            &&& b.ws_open && !b.ws_connected
            &&& b.delete_confirm is None && !b.dialog_state.open
            &&& b.edit_item is None && b.edit_form is None
            &&& b.edit_notes.area == AreaModel::fresh(Seq::empty()) && b.edit_notes.wide == wide
            &&& b.edit_focus == EditFocus::Form
            &&& b.status_message is None && b.error_message is None
        }),
{
}

} // verus!
