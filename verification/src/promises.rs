//! What each key and each click comes to, said of the fields of the browser and of the requests
//! that go out.
use vstd::prelude::*;
use vstd::string::*;
use crate::action::{ActionModel, AfterListsModel, PendingModel};
use crate::api::RequestModel;
use crate::clipboard::{base64_text, copyable};
use crate::dialog::DialogState;
use crate::edit::ValueModel;
use crate::editor::{area_with, printable, FormModel};
use crate::input::{Input, Key, KeyInput, MouseInput, MouseKind};
use crate::items::{ItemModel, ListModel};
use crate::json::{json_text, JsonModel};
use crate::load::kept_lists;
use crate::query::show_clause;
use crate::state::{passing, Browser, DoomedModel, EditFocus, Focus, InputMode, Panel, TableState};
use crate::text::{bytes, first_chars, joined, lowercase, occurs_in};

verus! {

// ---------------------------------------------------------------------------
// What is shown and chosen
// ---------------------------------------------------------------------------
/// The list that is chosen in the sidebar: the one in the chosen row of those that pass the filter.
pub open spec fn chosen_list(b: Browser) -> Option<ListModel> {
    let shown = passing(b.lists, b.list_filter);
    if b.list_index < shown.len() {
        Some(shown[b.list_index as int])
    } else {
        None
    }
}

/// The items in the panel.
pub open spec fn rows(b: Browser) -> Seq<ItemModel> {
    if b.view == Panel::Items {
        b.items
    } else if b.view == Panel::Search {
        b.search_results
    } else if b.view == Panel::AqlQuery {
        b.aql_results
    } else {
        Seq::empty()
    }
}

/// The chosen row of the panel.
pub open spec fn chosen_row(b: Browser) -> Option<usize> {
    if b.view == Panel::Search {
        b.search_table_state.selected
    } else if b.view == Panel::AqlQuery {
        b.aql_table_state.selected
    } else {
        b.table_state.selected
    }
}

/// The state with another row chosen in the panel, and nothing else changed.
pub open spec fn with_row(b: Browser, row: Option<usize>) -> Browser {
    let state = TableState { selected: row };
    Browser {
        search_table_state: if b.view == Panel::Search {
            state
        } else {
            b.search_table_state
        },
        aql_table_state: if b.view == Panel::AqlQuery {
            state
        } else {
            b.aql_table_state
        },
        table_state: if b.view != Panel::Search && b.view != Panel::AqlQuery {
            state
        } else {
            b.table_state
        },
        ..b
    }
}

/// The item in the chosen row.
pub open spec fn chosen_item(b: Browser) -> Option<ItemModel> {
    match chosen_row(b) {
        Some(i) => if i < rows(b).len() {
            Some(rows(b)[i as int])
        } else {
            None
        },
        None => None,
    }
}

/// The item that is looked at: the one shown in full, else the one in the chosen row.
pub open spec fn item_looked_at(b: Browser) -> Option<ItemModel> {
    if b.view == Panel::Detail {
        b.detail_item
    } else {
        chosen_item(b)
    }
}

/// Whether the panel is a table of items.
pub open spec fn in_table(b: Browser) -> bool {
    b.view == Panel::Items || b.view == Panel::Search || b.view == Panel::AqlQuery
}

/// A request of the lists server.
pub open spec fn post(
    base_url: Seq<char>,
    endpoint: Seq<char>,
    fields: Map<Seq<char>, JsonModel>,
) -> RequestModel {
    RequestModel {
        url: base_url + "/api/plugins/lists/operations/"@ + endpoint,
        body: json_text(fields),
    }
}

/// The request for the items of a list.
pub open spec fn asks_for_items(b: Browser, id: Seq<char>, note: Option<Seq<char>>) -> ActionModel {
    ActionModel::Call {
        request: post(
            b.base_url,
            "items-list"@,
            Map::empty().insert("listId"@, JsonModel::Text(id)).insert(
                "limit"@,
                JsonModel::Number(100),
            ),
        ),
        then: PendingModel::Items(note),
    }
}

/// The request for all lists.
pub open spec fn asks_for_lists(b: Browser, then: AfterListsModel) -> ActionModel {
    ActionModel::Call {
        request: RequestModel {
            url: b.base_url + "/api/plugins/lists/operations/"@ + "list"@,
            body: "{}"@,
        },
        then: PendingModel::Lists(then),
    }
}

/// The items of the chosen list are asked for, where one is chosen.
pub open spec fn opens_list(b: Browser) -> ActionModel {
    match chosen_list(b) {
        Some(list) => asks_for_items(b, list.id, None),
        None => ActionModel::Idle,
    }
}

/// The fields that say which item of which list is meant.
pub open spec fn which_item(list: ListModel, item: ItemModel) -> Map<Seq<char>, JsonModel> {
    Map::empty().insert("listId"@, JsonModel::Text(list.id)).insert("id"@, JsonModel::Text(item.id))
}

/// Whether keys are commands: no dialog is open, no item is edited, and no text is typed.
pub open spec fn commanded(b: Browser) -> bool {
    &&& !(b.delete_confirm is Some && b.dialog_state.open)
    &&& b.view != Panel::Edit
    &&& b.input_mode == InputMode::Normal
}

/// Whether a key is this one, and not Ctrl+C.
pub open spec fn hits(key: KeyInput, code: Key) -> bool {
    key.code == code && !(code == Key::Char('c') && key.ctrl)
}

/// The list in the chosen row, the rows of a table, and the item in a row of it.
pub proof fn lemma_chosen(b: Browser)
    ensures
        b.selected_list() == chosen_list(b),
        b.current_items() == rows(b),
        b.current_table_state().selected == chosen_row(b),
        b.selected_item() == chosen_item(b),
        b.item_in_view() == item_looked_at(b),
        b.shows_table() == in_table(b),
        forall|row: Option<usize>| #[trigger] b.with_selection(row) == with_row(b, row),
{
    assert forall|row: Option<usize>| #[trigger] b.with_selection(row) == with_row(b, row) by {
        let state = TableState { selected: row };
        assert(b.with_selection(row) == with_row(b, row));
    }
}

/// The sidebar shows the lists in their order, and of these, where something is typed, the ones
/// whose names hold it in any case of letters.
pub proof fn law_filter_goes_by_name(lists: Seq<ListModel>, l: ListModel, filter: Seq<char>)
    ensures
        passing(Seq::empty(), filter).len() == 0,
        passing(lists.push(l), filter) == (if filter.len() == 0 || occurs_in(
            lowercase(l.name),
            lowercase(filter),
        ) {
            passing(lists, filter).push(l)
        } else {
            passing(lists, filter)
        }),
{
    reveal(Seq::filter);
    assert(lists.push(l).drop_last() =~= lists);
}

/// Of the lists that come from the server those are kept, in their order, whose names hold one of
/// the configured words, or all where none is configured.
pub proof fn law_kept_lists_go_by_name(lists: Seq<ListModel>, l: ListModel, terms: Seq<Seq<char>>)
    ensures
        kept_lists(Seq::empty(), terms).len() == 0,
        kept_lists(lists.push(l), terms) == (if terms.len() == 0 || exists|i: int|
            0 <= i < terms.len() && occurs_in(lowercase(l.name), #[trigger] terms[i]) {
            kept_lists(lists, terms).push(l)
        } else {
            kept_lists(lists, terms)
        }),
{
    reveal(Seq::filter);
    assert(lists.push(l).drop_last() =~= lists);
}

// ---------------------------------------------------------------------------
// Keys for moving about
// ---------------------------------------------------------------------------
/// One step up: in the sidebar, in an item shown in full, or in a table.
pub open spec fn one_up(b: Browser) -> Browser {
    if b.focus == Focus::Sidebar {
        Browser {
            list_index: if b.list_index > 0 {
                (b.list_index - 1) as usize
            } else {
                0
            },
            ..b
        }
    } else if b.view == Panel::Detail {
        Browser {
            detail_scroll: if b.detail_scroll > 0 {
                (b.detail_scroll - 1) as usize
            } else {
                0
            },
            ..b
        }
    } else if chosen_row(b) matches Some(i) && i > 0 {
        with_row(b, Some((chosen_row(b)->0 - 1) as usize))
    } else {
        b
    }
}

/// One step down: in the sidebar, in an item shown in full, or in a table, as far as there is
/// anything.
pub open spec fn one_down(b: Browser) -> Browser {
    if b.focus == Focus::Sidebar {
        if b.list_index + 1 < passing(b.lists, b.list_filter).len() {
            Browser { list_index: (b.list_index + 1) as usize, ..b }
        } else {
            b
        }
    } else if b.view == Panel::Detail {
        Browser { detail_scroll: (b.detail_scroll + 1) as usize, ..b }
    } else if chosen_row(b) matches Some(i) && i + 1 < rows(b).len() {
        with_row(b, Some((chosen_row(b)->0 + 1) as usize))
    } else {
        b
    }
}

/// Up and `k`, Down and `j`, and the wheel go one step in the part that has the focus, and change
/// nothing else. The wheel does so while a text is typed too.
pub proof fn law_steps(b: Browser, key: KeyInput, x: u16, y: u16)
    ensures
        commanded(b) && (hits(key, Key::Up) || hits(key, Key::Char('k'))) ==> b.update(
            Input::Key(key),
        ) == (one_up(b), ActionModel::Idle),
        commanded(b) && (hits(key, Key::Down) || hits(key, Key::Char('j'))) ==> b.update(
            Input::Key(key),
        ) == (one_down(b), ActionModel::Idle),
        !(b.delete_confirm is Some && b.dialog_state.open) && b.view != Panel::Edit ==> {
            &&& b.update(Input::Mouse(MouseInput { kind: MouseKind::ScrollUp, x, y })) == (
                one_up(b),
                ActionModel::Idle,
            )
            &&& b.update(Input::Mouse(MouseInput { kind: MouseKind::ScrollDown, x, y })) == (
                one_down(b),
                ActionModel::Idle,
            )
            &&& b.update(Input::Mouse(MouseInput { kind: MouseKind::Other, x, y })) == (
                b,
                ActionModel::Idle,
            )
            &&& b.update(Input::Other) == (b, ActionModel::Idle)
        },
{
    lemma_chosen(b);
    assert(b.go_up() == one_up(b));
    assert(b.go_down() == one_down(b));
}

/// Enter in the sidebar opens the chosen list; in a table it shows the item in the chosen row in
/// full, from its top; elsewhere it does nothing.
pub proof fn law_enter(b: Browser, key: KeyInput)
    requires
        commanded(b),
        hits(key, Key::Enter),
    ensures
        b.focus == Focus::Sidebar ==> b.update(Input::Key(key)) == (b, opens_list(b)),
        b.focus == Focus::Table && in_table(b) && chosen_item(b) is Some ==> b.update(
            Input::Key(key),
        ) == (
            Browser {
                detail_item: chosen_item(b),
                detail_scroll: 0,
                view: Panel::Detail,
                ..b
            },
            ActionModel::Idle,
        ),
        b.focus == Focus::Table && (!in_table(b) || chosen_item(b) is None) ==> b.update(
            Input::Key(key),
        ) == (b, ActionModel::Idle),
{
    lemma_chosen(b);
}

/// Tab moves the focus to the other side; `q` and Ctrl+C end the program; neither changes anything
/// else.
pub proof fn law_tab_and_quit(b: Browser, key: KeyInput)
    requires
        commanded(b),
    ensures
        key.code == Key::Tab ==> b.update(Input::Key(key)).1 == ActionModel::Idle && b.update(
            Input::Key(key),
        ).0 == (Browser { focus: b.update(Input::Key(key)).0.focus, ..b }) && b.update(
            Input::Key(key),
        ).0.focus != b.focus,
        key.code == Key::Char('q') || key.code == Key::Char('c') && key.ctrl ==> b.update(
            Input::Key(key),
        ) == (b, ActionModel::Quit),
{
}

/// Escape and Backspace go back by one: the sidebar gives up its filter; an item shown in full is
/// closed, to the results of the search or query behind it or to the list; a table gives up its
/// chosen row, and without one it gives way to the lists. Elsewhere they do nothing.
pub proof fn law_back(b: Browser, key: KeyInput)
    requires
        commanded(b),
        key.code == Key::Escape || key.code == Key::Backspace,
    ensures
        ({
            let after = b.update(Input::Key(key));
            let filtering = b.focus == Focus::Sidebar && b.list_filter.len() > 0;
            &&& after.1 == ActionModel::Idle
            &&& filtering ==> after.0 == (Browser {
                list_filter: Seq::empty(),
                list_index: 0,
                ..b
            })
            &&& !filtering && b.view == Panel::Detail ==> after.0 == (Browser {
                view: if b.search_results.len() > 0 && b.search_query.len() > 0 {
                    Panel::Search
                } else if b.aql_results.len() > 0 && b.aql_query.len() > 0 {
                    Panel::AqlQuery
                } else {
                    Panel::Items
                },
                detail_item: None,
                ..b
            })
            &&& b.focus == Focus::Table && in_table(b) && chosen_row(b) is Some ==> after.0
                == with_row(b, None)
            &&& b.focus == Focus::Table && in_table(b) && chosen_row(b) is None ==> after.0 == (
            Browser { view: Panel::Lists, focus: Focus::Sidebar, ..b })
            &&& b.focus == Focus::Sidebar && b.list_filter.len() == 0 && b.view != Panel::Detail
                ==> after.0 == b
            &&& b.focus == Focus::Table && b.view == Panel::Lists ==> after.0 == b
        }),
{
    lemma_chosen(b);
}

// ---------------------------------------------------------------------------
// Keys that begin something
// ---------------------------------------------------------------------------
/// `/` begins the filter of the sidebar, which keeps what was typed, or a new search; `:` goes on
/// with the query; `n` begins a new item in a list. Nothing else changes.
pub proof fn law_typing_begins(b: Browser, key: KeyInput)
    requires
        commanded(b),
    ensures
        hits(key, Key::Char('/')) && b.focus == Focus::Sidebar ==> b.update(Input::Key(key)) == (
            Browser { input_mode: InputMode::ListFilter, ..b },
            ActionModel::Idle,
        ),
        hits(key, Key::Char('/')) && b.focus == Focus::Table ==> b.update(Input::Key(key)) == (
            Browser { input_mode: InputMode::Search, search_query: Seq::empty(), ..b },
            ActionModel::Idle,
        ),
        hits(key, Key::Char(':')) ==> b.update(Input::Key(key)) == (
            Browser { input_mode: InputMode::AqlQuery, ..b },
            ActionModel::Idle,
        ),
        hits(key, Key::Char('n')) && b.view == Panel::Items ==> b.update(Input::Key(key)) == (
            Browser { input_mode: InputMode::AddItem, add_item_text: Seq::empty(), ..b },
            ActionModel::Idle,
        ),
        hits(key, Key::Char('n')) && b.view != Panel::Items ==> b.update(Input::Key(key)) == (
            b,
            ActionModel::Idle,
        ),
{
}

/// `o` opens the address of the item that is looked at, and `y` copies it, or the title of an item
/// without address, as a control sequence with its bytes in Base64. Nothing changes.
pub proof fn law_open_and_copy(b: Browser, key: KeyInput)
    requires
        commanded(b),
    ensures
        hits(key, Key::Char('o')) ==> b.update(Input::Key(key)) == (
            b,
            match item_looked_at(b) {
                Some(item) => match item.url {
                    Some(url) => ActionModel::OpenUrl(url),
                    None => ActionModel::Idle,
                },
                None => ActionModel::Idle,
            },
        ),
        hits(key, Key::Char('y')) && item_looked_at(b) is None ==> b.update(Input::Key(key)) == (
            b,
            ActionModel::Idle,
        ),
        hits(key, Key::Char('y')) && item_looked_at(b) is Some ==> ({
            let item = item_looked_at(b)->0;
            let text = if item.url is Some {
                item.url->0
            } else {
                item.title
            };
            b.update(Input::Key(key)) == (
                b,
                ActionModel::Copy {
                    sequence: "\x1b]52;c;"@ + base64_text(bytes(text)) + "\x07"@,
                    text,
                },
            )
        }),
{
    lemma_chosen(b);
}

/// After copying the message shows the first forty characters of the text, or says that copying
/// failed. Nothing else changes.
pub proof fn law_copied(b: Browser, text: Seq<char>)
    ensures
        b.copied(text, true) == (Browser {
            status_message: Some("Copied: "@ + first_chars(text, 40)),
            error_message: None,
            ..b
        }),
        b.copied(text, false) == (Browser {
            error_message: Some("Copy failed: write error"@),
            ..b
        }),
{
}

/// The form for an item: its title, its address, its tags with commas between, and whether it is
/// completed.
pub open spec fn form_of(item: ItemModel) -> FormModel {
    FormModel {
        values: seq![
            ("Title"@, ValueModel::Text(item.title)),
            (
                "URL"@,
                ValueModel::Text(
                    if item.url is Some {
                        item.url->0
                    } else {
                        Seq::empty()
                    },
                ),
            ),
            ("Tags"@, ValueModel::Text(joined(item.tags, ", "@))),
            ("Completed"@, ValueModel::Bool(item.completed == Some(true))),
        ],
        place: (0usize, 0usize, false, false),
    }
}

/// `e` opens the item that is looked at for editing, in any table and where it is shown in full:
/// the form holds its fields and has the focus, and the notes hold those of the item. Without an
/// item nothing happens.
pub proof fn law_edit_begins(b: Browser, key: KeyInput)
    requires
        commanded(b),
        hits(key, Key::Char('e')),
    ensures
        ({
            let after = b.update(Input::Key(key));
            &&& after.1 == ActionModel::Idle
            &&& item_looked_at(b) is None || !(in_table(b) || b.view == Panel::Detail) ==> after.0
                == b
            &&& item_looked_at(b) is Some && (in_table(b) || b.view == Panel::Detail) ==> {
                let item = item_looked_at(b)->0;
                let notes = if item.notes is Some {
                    item.notes->0
                } else {
                    Seq::empty()
                };
                &&& after.0 == (Browser {
                    edit_item: Some(item),
                    edit_form: Some(form_of(item)),
                    edit_notes: after.0.edit_notes,
                    edit_focus: EditFocus::Form,
                    view: Panel::Edit,
                    ..b
                })
                &&& after.0.edit_notes.wide == b.edit_notes.wide
                &&& after.0.edit_notes.area.text == printable(notes)
                &&& after.0.edit_notes.area.cursor == area_with(notes).cursor
                &&& after.0.edit_notes.area.undo == area_with(notes).undo
                &&& after.0.edit_notes.area.selection is None
                &&& after.0.edit_notes.area.redo.len() == 0
            }
        }),
{
    lemma_chosen(b);
}

/// Notes keep their characters in their order, but for control characters other than line feeds and
/// tabs.
pub proof fn law_printable(s: Seq<char>, c: char)
    ensures
        printable(Seq::empty()).len() == 0,
        printable(s.push(c)) == (if (c <= '\u{1f}' || '\u{7f}' <= c <= '\u{9f}') && c != '\n' && c
            != '\t' {
            printable(s)
        } else {
            printable(s).push(c)
        }),
{
    reveal(Seq::filter);
    assert(s.push(c).drop_last() =~= s);
}

/// `d` asks about the item in the chosen row of any table, where a list is chosen: the dialog opens
/// and remembers both. Nothing is asked of the server.
pub proof fn law_delete_asks(b: Browser, key: KeyInput)
    requires
        commanded(b),
        hits(key, Key::Char('d')),
    ensures
        chosen_item(b) is Some && chosen_list(b) is Some ==> b.update(Input::Key(key)) == (
            Browser {
                delete_confirm: Some(
                    DoomedModel {
                        list_id: chosen_list(b)->0.id,
                        item_id: chosen_item(b)->0.id,
                        title: chosen_item(b)->0.title,
                    },
                ),
                dialog_state: DialogState { focused_button: None, open: true },
                ..b
            },
            ActionModel::Idle,
        ),
        chosen_item(b) is None || chosen_list(b) is None ==> b.update(Input::Key(key)) == (
            b,
            ActionModel::Idle,
        ),
{
    lemma_chosen(b);
}

/// Space asks the server to complete the item in the chosen row of any table, or to open a completed
/// one again.
pub proof fn law_toggle_asks(b: Browser, key: KeyInput)
    requires
        commanded(b),
        hits(key, Key::Char(' ')),
    ensures
        b.update(Input::Key(key)).0 == b,
        chosen_item(b) is Some && chosen_list(b) is Some ==> ({
            let item = chosen_item(b)->0;
            let done = item.completed != Some(true);
            b.update(Input::Key(key)).1 == (ActionModel::Call {
                request: post(
                    b.base_url,
                    "item-update"@,
                    which_item(chosen_list(b)->0, item).insert("completed"@, JsonModel::Bool(done)),
                ),
                then: PendingModel::Toggle { row: chosen_row(b)->0, completed: done },
            })
        }),
        chosen_item(b) is None || chosen_list(b) is None ==> b.update(Input::Key(key)).1
            == ActionModel::Idle,
{
    lemma_chosen(b);
}

/// The request that the item in the chosen row be put at a position of its list.
pub open spec fn asks_to_move(b: Browser, position: nat, to_top: bool) -> ActionModel {
    ActionModel::Call {
        request: post(
            b.base_url,
            "item-update"@,
            which_item(chosen_list(b)->0, chosen_item(b)->0).insert(
                "position"@,
                JsonModel::Number(position),
            ),
        ),
        then: PendingModel::Move { to_top },
    }
}

/// `t` asks the server to put the item in the chosen row of a list before all others, and `b` to put
/// it in the place of the last one, whichever row it is in. Results of searches and queries are not
/// moved.
pub proof fn law_move_asks(b: Browser, key: KeyInput)
    requires
        commanded(b),
        hits(key, Key::Char('t')) || hits(key, Key::Char('b')),
    ensures
        ({
            let after = b.update(Input::Key(key));
            let to_top = key.code == Key::Char('t');
            &&& b.view != Panel::Items ==> after == (
                Browser { status_message: Some("Move only works in list view"@), ..b },
                ActionModel::Idle,
            )
            &&& b.view == Panel::Items ==> after.0 == b
            &&& b.view == Panel::Items && (chosen_item(b) is None || chosen_list(b) is None)
                ==> after.1 == ActionModel::Idle
            &&& b.view == Panel::Items && chosen_item(b) is Some && chosen_list(b) is Some ==> {
                &&& to_top ==> after.1 == asks_to_move(b, 0, true)
                &&& forall|position: nat|
                    !to_top && position + 1 == b.items.len() ==> after.1 == #[trigger] asks_to_move(
                        b,
                        position,
                        false,
                    )
            }
        }),
{
    lemma_chosen(b);
}

/// `r` asks for the lists again, and for the items that are shown after them. Nothing changes yet.
pub proof fn law_refresh_asks(b: Browser, key: KeyInput)
    requires
        commanded(b),
        hits(key, Key::Char('r')),
    ensures
        b.update(Input::Key(key)) == (b, asks_for_lists(b, AfterListsModel::Reload)),
{
}

/// Keys that are no commands do nothing.
pub proof fn law_other_keys(b: Browser, key: KeyInput)
    requires
        commanded(b),
        match key.code {
            Key::Char(c) => !(c == 'c' && key.ctrl) && c != 'q' && c != '/' && c != ':' && c != 'k'
                && c != 'j' && c != 'o' && c != 'e' && c != 'y' && c != 'n' && c != 'd' && c != ' '
                && c != 't' && c != 'b' && c != 'r',
            Key::Delete
            | Key::BackTab
            | Key::Home
            | Key::End
            | Key::PageUp
            | Key::PageDown
            | Key::Left
            | Key::Right
            | Key::Other => true,
            _ => false,
        },
    ensures
        b.update(Input::Key(key)) == (b, ActionModel::Idle),
{
}

/// Every event can be handled, but for two limits of the machine: an item scrolled as far as numbers
/// go is not scrolled on, and a text is not copied whose Base64 form does not fit in memory.
pub proof fn law_events_are_accepted(b: Browser, input: Input)
    requires
        b.view == Panel::Detail ==> b.detail_scroll < usize::MAX,
        item_looked_at(b) matches Some(item) ==> copyable(
            if item.url is Some {
                item.url->0
            } else {
                item.title
            },
        ),
    ensures
        b.accepts(input),
{
    lemma_chosen(b);
}

// ---------------------------------------------------------------------------
// Typing
// ---------------------------------------------------------------------------
/// Whether a text is typed in this mode: no dialog is open and no item is edited.
pub open spec fn typing(b: Browser, mode: InputMode) -> bool {
    &&& !(b.delete_confirm is Some && b.dialog_state.open)
    &&& b.view != Panel::Edit
    &&& b.input_mode == mode
}

/// The request for a search, in the chosen list or in all; for no text there is none.
pub open spec fn asks_for_search(b: Browser, query: Seq<char>) -> ActionModel {
    let everywhere = Map::empty().insert("query"@, JsonModel::Text(query)).insert(
        "limit"@,
        JsonModel::Number(50),
    );
    if query.len() == 0 {
        ActionModel::Idle
    } else {
        ActionModel::Call {
            request: post(
                b.base_url,
                "items-search"@,
                match chosen_list(b) {
                    Some(list) => everywhere.insert("listId"@, JsonModel::Text(list.id)),
                    None => everywhere,
                },
            ),
            then: PendingModel::Search { scoped: chosen_list(b) is Some },
        }
    }
}

/// The request for a query on a list.
pub open spec fn asks_for_query(b: Browser, list: ListModel, query: Seq<char>) -> ActionModel {
    ActionModel::Call {
        request: post(
            b.base_url,
            "items-aql"@,
            Map::empty().insert("listId"@, JsonModel::Text(list.id)).insert(
                "query"@,
                JsonModel::Text(query),
            ).insert("limit"@, JsonModel::Number(100)),
        ),
        then: PendingModel::Aql,
    }
}

/// What running a query does: the chosen list is asked, and the columns are those of its `show`
/// clause. Without a chosen list there is an error, and without a query nothing happens.
pub open spec fn runs_query(b: Browser, after: (Browser, ActionModel)) -> bool {
    &&& b.aql_query.len() == 0 ==> after == (b, ActionModel::Idle)
    &&& b.aql_query.len() > 0 && chosen_list(b) is None ==> after == (
        Browser { error_message: Some("Select a list first"@), ..b },
        ActionModel::Idle,
    )
    &&& b.aql_query.len() > 0 && chosen_list(b) is Some ==> after == (
        Browser { aql_columns: show_clause(b.aql_query), ..b },
        asks_for_query(b, chosen_list(b)->0, b.aql_query),
    )
}

/// A character goes to the end of the text that is typed, and nothing else changes; a search is run
/// at once.
pub proof fn law_characters_go_to_the_end(b: Browser, key: KeyInput, c: char)
    requires
        key.code == Key::Char(c),
        !key.ctrl,
    ensures
        typing(b, InputMode::Search) ==> b.update(Input::Key(key)) == (
            Browser { search_query: b.search_query.push(c), ..b },
            asks_for_search(b, b.search_query.push(c)),
        ),
        typing(b, InputMode::AddItem) ==> b.update(Input::Key(key)) == (
            Browser { add_item_text: b.add_item_text.push(c), ..b },
            ActionModel::Idle,
        ),
        typing(b, InputMode::AqlQuery) ==> b.update(Input::Key(key)) == (
            Browser { aql_query: b.aql_query.push(c), ..b },
            ActionModel::Idle,
        ),
        typing(b, InputMode::ListFilter) ==> b.update(Input::Key(key)) == (
            Browser { list_filter: b.list_filter.push(c), ..b },
            ActionModel::Idle,
        ),
{
    lemma_chosen(b);
    lemma_chosen(Browser { search_query: b.search_query.push(c), ..b });
}

/// The keys while a search is typed: Escape ends it and drops the text; Ctrl+C drops the text and
/// the results, or ends it where there is no text; Backspace takes a character off and searches for
/// what is left, or drops the results where nothing is; Enter ends it and keeps all. Other keys do
/// nothing.
pub proof fn law_search_keys(b: Browser, key: KeyInput)
    requires
        typing(b, InputMode::Search),
        !(key.code is Char && !key.ctrl),
    ensures
        ({
            let after = b.update(Input::Key(key));
            let interrupt = key.code == Key::Char('c') && key.ctrl;
            let cleared = Browser { search_query: Seq::empty(), search_results: Seq::empty(), ..b };
            let ended = Browser { input_mode: InputMode::Normal, ..b };
            let shorter = b.search_query.take(b.search_query.len() - 1);
            &&& key.code == Key::Escape ==> after == (
                Browser { search_query: Seq::empty(), ..ended },
                ActionModel::Idle,
            )
            &&& interrupt && b.search_query.len() > 0 ==> after == (cleared, ActionModel::Idle)
            &&& interrupt && b.search_query.len() == 0 ==> after == (ended, ActionModel::Idle)
            &&& key.code == Key::Backspace && b.search_query.len() <= 1 ==> after == (
                cleared,
                ActionModel::Idle,
            )
            &&& key.code == Key::Backspace && b.search_query.len() > 1 ==> after == (
                Browser { search_query: shorter, ..b },
                asks_for_search(b, shorter),
            )
            &&& key.code == Key::Enter ==> after == (ended, ActionModel::Idle)
            &&& key.code != Key::Escape && !interrupt && key.code != Key::Backspace && key.code
                != Key::Enter ==> after == (b, ActionModel::Idle)
        }),
{
    let shorter = b.search_query.take(b.search_query.len() - 1);
    if b.search_query.len() > 0 {
        assert(b.search_query.drop_last() =~= shorter);
    }
    lemma_chosen(b);
    lemma_chosen(Browser { search_query: shorter, ..b });
}

/// The keys while a new item is typed: Escape ends it and drops the text; Ctrl+C drops the text, or
/// ends it where there is none; Backspace takes a character off; Enter ends it and asks the server
/// for an item of that title in the chosen list, which uses the text up. Other keys do nothing.
pub proof fn law_add_keys(b: Browser, key: KeyInput)
    requires
        typing(b, InputMode::AddItem),
        !(key.code is Char && !key.ctrl),
    ensures
        ({
            let after = b.update(Input::Key(key));
            let interrupt = key.code == Key::Char('c') && key.ctrl;
            let ended = Browser { input_mode: InputMode::Normal, ..b };
            let n = b.add_item_text.len();
            &&& key.code == Key::Escape ==> after == (
                Browser { add_item_text: Seq::empty(), ..ended },
                ActionModel::Idle,
            )
            &&& interrupt && n > 0 ==> after == (
                Browser { add_item_text: Seq::empty(), ..b },
                ActionModel::Idle,
            )
            &&& interrupt && n == 0 ==> after == (ended, ActionModel::Idle)
            &&& key.code == Key::Backspace && n > 0 ==> after == (
                Browser { add_item_text: b.add_item_text.take(n - 1), ..b },
                ActionModel::Idle,
            )
            &&& key.code == Key::Backspace && n == 0 ==> after == (b, ActionModel::Idle)
            &&& key.code == Key::Enter && n == 0 ==> after == (ended, ActionModel::Idle)
            &&& key.code == Key::Enter && n > 0 ==> after == (
                Browser { add_item_text: Seq::empty(), ..ended },
                match chosen_list(b) {
                    Some(list) => ActionModel::Call {
                        request: post(
                            b.base_url,
                            "item-add"@,
                            Map::empty().insert("listId"@, JsonModel::Text(list.id)).insert(
                                "title"@,
                                JsonModel::Text(b.add_item_text),
                            ),
                        ),
                        then: PendingModel::Add,
                    },
                    None => ActionModel::Idle,
                },
            )
            &&& key.code != Key::Escape && !interrupt && key.code != Key::Backspace && key.code
                != Key::Enter ==> after == (b, ActionModel::Idle)
        }),
{
    let n = b.add_item_text.len();
    if n > 0 {
        assert(b.add_item_text.drop_last() =~= b.add_item_text.take(n - 1));
    }
    lemma_chosen(b);
    lemma_chosen(Browser { input_mode: InputMode::Normal, ..b });
}

/// The keys while a query is typed: Escape ends it and drops the text; Ctrl+C drops the text, or
/// ends it where there is none; Backspace takes a character off; Enter ends it and runs the query.
/// Other keys do nothing.
pub proof fn law_query_keys(b: Browser, key: KeyInput)
    requires
        typing(b, InputMode::AqlQuery),
        !(key.code is Char && !key.ctrl),
    ensures
        ({
            let after = b.update(Input::Key(key));
            let interrupt = key.code == Key::Char('c') && key.ctrl;
            let ended = Browser { input_mode: InputMode::Normal, ..b };
            let n = b.aql_query.len();
            &&& key.code == Key::Escape ==> after == (
                Browser { aql_query: Seq::empty(), ..ended },
                ActionModel::Idle,
            )
            &&& interrupt && n > 0 ==> after == (
                Browser { aql_query: Seq::empty(), ..b },
                ActionModel::Idle,
            )
            &&& interrupt && n == 0 ==> after == (ended, ActionModel::Idle)
            &&& key.code == Key::Backspace && n > 0 ==> after == (
                Browser { aql_query: b.aql_query.take(n - 1), ..b },
                ActionModel::Idle,
            )
            &&& key.code == Key::Backspace && n == 0 ==> after == (b, ActionModel::Idle)
            &&& key.code == Key::Enter ==> runs_query(ended, after)
            &&& key.code != Key::Escape && !interrupt && key.code != Key::Backspace && key.code
                != Key::Enter ==> after == (b, ActionModel::Idle)
        }),
{
    let n = b.aql_query.len();
    if n > 0 {
        assert(b.aql_query.drop_last() =~= b.aql_query.take(n - 1));
    }
    lemma_chosen(Browser { input_mode: InputMode::Normal, ..b });
}

/// The keys while the filter of the sidebar is typed: Escape ends it and drops the filter; Ctrl+C
/// drops the filter, or ends it where there is none; Backspace takes a character off; all three
/// choose the first list again where they change the filter. Enter ends it, keeps the filter and
/// opens the chosen list, where any passes. The arrows go through the lists that pass. Other keys
/// do nothing.
pub proof fn law_filter_keys(b: Browser, key: KeyInput)
    requires
        typing(b, InputMode::ListFilter),
        !(key.code is Char && !key.ctrl),
    ensures
        ({
            let after = b.update(Input::Key(key));
            let interrupt = key.code == Key::Char('c') && key.ctrl;
            let ended = Browser { input_mode: InputMode::Normal, ..b };
            let n = b.list_filter.len();
            let shown = passing(b.lists, b.list_filter).len();
            &&& key.code == Key::Escape ==> after == (
                Browser { list_filter: Seq::empty(), list_index: 0, ..ended },
                ActionModel::Idle,
            )
            &&& interrupt && n > 0 ==> after == (
                Browser { list_filter: Seq::empty(), list_index: 0, ..b },
                ActionModel::Idle,
            )
            &&& interrupt && n == 0 ==> after == (ended, ActionModel::Idle)
            &&& key.code == Key::Backspace && n > 0 ==> after == (
                Browser { list_filter: b.list_filter.take(n - 1), list_index: 0, ..b },
                ActionModel::Idle,
            )
            &&& key.code == Key::Backspace && n == 0 ==> after == (
                Browser { list_index: 0, ..b },
                ActionModel::Idle,
            )
            &&& key.code == Key::Enter ==> after == (ended, opens_list(b))
            &&& key.code == Key::Up ==> after == (
                Browser {
                    list_index: if b.list_index > 0 {
                        (b.list_index - 1) as usize
                    } else {
                        0
                    },
                    ..b
                },
                ActionModel::Idle,
            )
            &&& key.code == Key::Down ==> after == (
                Browser {
                    list_index: if b.list_index + 1 < shown {
                        (b.list_index + 1) as usize
                    } else {
                        b.list_index
                    },
                    ..b
                },
                ActionModel::Idle,
            )
            &&& key.code != Key::Escape && !interrupt && key.code != Key::Backspace && key.code
                != Key::Enter && key.code != Key::Up && key.code != Key::Down ==> after == (
                b,
                ActionModel::Idle,
            )
        }),
{
    let n = b.list_filter.len();
    if n > 0 {
        assert(b.list_filter.drop_last() =~= b.list_filter.take(n - 1));
    }
    lemma_chosen(b);
    lemma_chosen(Browser { input_mode: InputMode::Normal, ..b });
}

} // verus!
