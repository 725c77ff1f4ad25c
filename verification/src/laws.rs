//! What holds of the browser as a whole.
use vstd::prelude::*;
use vstd::string::*;
use crate::action::{answers, ActionModel, AfterListsModel, PendingModel, ReplyModel};
use crate::api::{item_fields, operation, search_body, update_fields};
use crate::cells::law_column_at_position;
use crate::change::{marked, row_of, without};
use crate::edit::{law_item_form_is_complete, law_untouched_form, or_empty, plain_tag, tags_in};
use crate::editor::printable;
use crate::input::{Input, Key, KeyInput, MouseInput, MouseKind};
use crate::items::{is_done, law_sort_puts_completed_last, sorted_items, ItemModel, ListModel};
use crate::json::json_text;
use crate::live::{law_events_change_only_the_connection, with_closing};
use crate::load::{kept_lists, wanted};
use crate::socket::WsEventModel;
use crate::state::{passes, passing, Browser, Focus, InputMode, Panel};
use crate::text::{lowercase, occurs_in};

verus! {

// ---------------------------------------------------------------------------
// Deleting
// ---------------------------------------------------------------------------
/// Whether the outside is to ask the server for a deletion.
pub open spec fn asks_to_delete(action: ActionModel) -> bool {
    action matches ActionModel::Call { then: PendingModel::Delete { .. }, .. }
}

/// Nothing is deleted without confirmation: of all events only Enter on the OK button of the open
/// dialog asks for a deletion, and then for that of the item that the dialog was opened for.
pub proof fn law_delete_needs_confirmation(b: Browser, input: Input)
    ensures
        asks_to_delete(b.update(input).1) ==> {
            &&& b.confirming()
            &&& input matches Input::Key(key) && key.press && key.code == Key::Enter
            &&& b.dialog_state.current() == 0
            &&& b.update(input).1 == (ActionModel::Call {
                request: operation(
                    b.base_url,
                    "item-remove"@,
                    json_text(
                        item_fields(b.delete_confirm->0.list_id, b.delete_confirm->0.item_id),
                    ),
                ),
                then: PendingModel::Delete { item_id: b.delete_confirm->0.item_id },
            })
        },
{
    if !b.confirming() && b.view != Panel::Edit {
        match input {
            Input::Mouse(mouse) => {
                assert(!asks_to_delete(b.handle_mouse(mouse).1));
            },
            Input::Key(key) => {
                if b.typed(key) is None {
                    lemma_keys_do_not_delete(b, key);
                }
            },
            Input::Other => {},
        }
    }
}

/// No key outside the dialog asks for a deletion.
proof fn lemma_keys_do_not_delete(b: Browser, key: KeyInput)
    ensures
        !asks_to_delete(b.handle_key(key).1),
{
    match b.input_mode {
        InputMode::Search => {
            assert(!asks_to_delete(b.search_key(key).1));
        },
        InputMode::AddItem => {
            assert(!asks_to_delete(b.add_key(key).1));
        },
        InputMode::AqlQuery => {
            assert(!asks_to_delete(b.aql_key(key).1));
        },
        InputMode::ListFilter => {
            assert(!asks_to_delete(b.filter_key(key).1));
        },
        InputMode::Normal => {
            if let Key::Char(c) = key.code {
                assert(!asks_to_delete(b.command(c).1));
            }
        },
    }
}

/// Neither a reply nor a report of the server asks for a deletion.
pub proof fn law_only_events_delete(
    b: Browser,
    then: PendingModel,
    reply: ReplyModel,
    events: Seq<WsEventModel>,
    closed: bool,
)
    ensures
        !asks_to_delete(b.resume(then, reply).1),
        !asks_to_delete(b.poll_ws_events(events, closed).1),
{
}

/// The key for deletion opens the dialog for the selected item; Escape closes it again and leaves
/// everything else as it was.
pub proof fn law_delete_can_be_given_up(b: Browser, escape: KeyInput)
    requires
        b.selected_item() is Some,
        b.selected_list() is Some,
        escape.press,
        escape.code == Key::Escape,
    ensures
        ({
            let asked = b.command('d').0;
            let after = asked.update(Input::Key(escape));
            &&& asked.confirming()
            &&& asked.delete_confirm->0.item_id == b.selected_item()->0.id
            &&& after.1 == ActionModel::Idle
            &&& after.0 == (Browser {
                delete_confirm: None,
                dialog_state: after.0.dialog_state,
                ..b
            })
            &&& !after.0.confirming()
        }),
{
}

/// Once deleted, an item is gone from the table, where no other item has its identifier; the other
/// items keep their order.
pub proof fn law_deleted_item_is_gone(items: Seq<ItemModel>, id: Seq<char>, i: int)
    requires
        0 <= i < items.len(),
        items[i].id == id,
        forall|j: int| 0 <= j < items.len() && j != i ==> (#[trigger] items[j]).id != id,
    ensures
        without(items, id) == items.take(i) + items.skip(i + 1),
        row_of(without(items, id), id) is None,
{
    lemma_row_is(items, id, i);
    assert(without(items, id) =~= items.take(i) + items.skip(i + 1));
    let rest = without(items, id);
    assert forall|j: int| 0 <= j < rest.len() implies (#[trigger] rest[j]).id != id by {
        if j < i {
            assert(rest[j] == items[j]);
        } else {
            assert(rest[j] == items[j + 1]);
        }
    }
    lemma_no_row(rest, id);
}

/// The row of an identifier that occurs once.
pub proof fn lemma_row_is(items: Seq<ItemModel>, id: Seq<char>, i: int)
    requires
        0 <= i < items.len(),
        items[i].id == id,
        forall|j: int| 0 <= j < i ==> (#[trigger] items[j]).id != id,
    ensures
        row_of(items, id) == Some(i),
    decreases i,
{
    if i > 0 {
        assert(items[0].id != id);
        let rest = items.drop_first();
        assert forall|j: int| 0 <= j < i - 1 implies (#[trigger] rest[j]).id != id by {
            assert(rest[j] == items[j + 1]);
        }
        lemma_row_is(rest, id, i - 1);
    }
}

/// An identifier that does not occur has no row.
pub proof fn lemma_no_row(items: Seq<ItemModel>, id: Seq<char>)
    requires
        forall|j: int| 0 <= j < items.len() ==> (#[trigger] items[j]).id != id,
    ensures
        row_of(items, id) is None,
    decreases items.len(),
{
    if items.len() > 0 {
        assert(items[0].id != id);
        let rest = items.drop_first();
        assert forall|j: int| 0 <= j < rest.len() implies (#[trigger] rest[j]).id != id by {
            assert(rest[j] == items[j + 1]);
        }
        lemma_no_row(rest, id);
    }
}

// ---------------------------------------------------------------------------
// Failures
// ---------------------------------------------------------------------------
/// Whether a reply says that the request failed.
pub open spec fn failed(reply: ReplyModel) -> bool {
    match reply {
        ReplyModel::Lists(r) => r is Err,
        ReplyModel::Items(r) => r is Err,
        ReplyModel::Item(r) => r is Err,
        ReplyModel::Done(r) => r is Err,
    }
}

/// Whether two states differ in their messages at most.
pub open spec fn differs_in_messages(before: Browser, after: Browser) -> bool {
    after == (Browser {
        error_message: after.error_message,
        status_message: after.status_message,
        ..before
    })
}

/// Lists that could not be loaded change nothing but the messages.
proof fn lemma_lists_failure(b: Browser, e: Seq<char>, then: AfterListsModel)
    ensures
        differs_in_messages(b, b.lists_loaded(Err(e)).after_lists(then).0),
{
    let loaded = b.lists_loaded(Err(e));
    assert(loaded == b.with_error("Failed to load lists: "@ + e));
    assert(differs_in_messages(b, loaded));
    assert(differs_in_messages(loaded, loaded.after_lists(then).0));
}

/// Items that could not be loaded, found or selected change nothing but the messages.
proof fn lemma_load_failures(b: Browser, e: Seq<char>, note: Option<Seq<char>>, scoped: bool)
    ensures
        differs_in_messages(b, b.items_loaded(Err(e), note)),
        differs_in_messages(b, b.search_done(Err(e), scoped)),
        differs_in_messages(b, b.aql_done(Err(e))),
{
}

/// Changes that could not be made change nothing but the messages.
proof fn lemma_change_failures(
    b: Browser,
    e: Seq<char>,
    id: Seq<char>,
    row: usize,
    completed: bool,
    to_top: bool,
)
    ensures
        differs_in_messages(b, b.add_done(Err(e))),
        differs_in_messages(b, b.delete_done(Err(e), id)),
        differs_in_messages(b, b.toggle_done(Err(e), row, completed)),
        differs_in_messages(b, b.move_done(Err(e), to_top).0),
        differs_in_messages(b.edit_closed(), b.save_done(Err(e)).0),
{
}

/// A failed request changes nothing but the messages, except that a form that could not be saved
/// is closed.
pub proof fn law_failure_changes_no_data(b: Browser, then: PendingModel, reply: ReplyModel)
    requires
        failed(reply),
    ensures
        differs_in_messages(
            if then is Save && reply is Item {
                b.edit_closed()
            } else {
                b
            },
            b.resume(then, reply).0,
        ),
{
    match reply {
        ReplyModel::Lists(r) => {
            if let PendingModel::Lists(next) = then {
                lemma_lists_failure(b, r->Err_0, next);
            }
        },
        ReplyModel::Items(r) => match then {
            PendingModel::Items(note) => lemma_load_failures(b, r->Err_0, note, true),
            PendingModel::Search { scoped } => lemma_load_failures(b, r->Err_0, None, scoped),
            PendingModel::Aql => lemma_load_failures(b, r->Err_0, None, true),
            _ => {},
        },
        ReplyModel::Item(r) => match then {
            PendingModel::Toggle { row, completed } => lemma_change_failures(
                b,
                r->Err_0,
                Seq::empty(),
                row,
                completed,
                true,
            ),
            PendingModel::Move { to_top } => lemma_change_failures(
                b,
                r->Err_0,
                Seq::empty(),
                0,
                true,
                to_top,
            ),
            _ => lemma_change_failures(b, r->Err_0, Seq::empty(), 0, true, true),
        },
        ReplyModel::Done(r) => {
            if let PendingModel::Delete { item_id } = then {
                lemma_change_failures(b, r->Err_0, item_id, 0, true, true);
            }
        },
    }
}

/// A failed request that was answered as it asks is reported.
pub proof fn law_failure_is_reported(b: Browser, then: PendingModel, reply: ReplyModel)
    requires
        failed(reply),
        answers(then, reply),
    ensures
        b.resume(then, reply).0.error_message is Some,
{
}

// ---------------------------------------------------------------------------
// Typing
// ---------------------------------------------------------------------------
impl Browser {
    /// The text that is typed.
    pub open spec fn typed_text(self) -> Seq<char> {
        match self.input_mode {
            InputMode::Search => self.search_query,
            InputMode::AddItem => self.add_item_text,
            InputMode::AqlQuery => self.aql_query,
            InputMode::ListFilter => self.list_filter,
            InputMode::Normal => Seq::empty(),
        }
    }

    /// Whether events go to the lists and tables: no dialog is open and no item is edited.
    pub open spec fn browsing(self) -> bool {
        !self.confirming() && self.view != Panel::Edit
    }
}

/// While a text is typed, a character goes to its end, whatever command it stands for otherwise.
pub proof fn law_characters_are_typed(b: Browser, key: KeyInput, c: char)
    requires
        b.browsing(),
        b.input_mode != InputMode::Normal,
        key.code == Key::Char(c),
        !key.ctrl,
    ensures
        b.update(Input::Key(key)).0.typed_text() == b.typed_text().push(c),
        b.update(Input::Key(key)).0.input_mode == b.input_mode,
        b.update(Input::Key(key)).1 != ActionModel::Quit,
{
}

/// A search runs with every character that is typed: in the selected list, else in all.
pub proof fn law_search_runs_while_typed(b: Browser, key: KeyInput, c: char)
    requires
        b.browsing(),
        b.input_mode == InputMode::Search,
        key.code == Key::Char(c),
        !key.ctrl,
    ensures
        b.update(Input::Key(key)).1 == (ActionModel::Call {
            request: operation(
                b.base_url,
                "items-search"@,
                search_body(
                    b.search_query.push(c),
                    match b.selected_list() {
                        Some(list) => Some(list.id),
                        None => None,
                    },
                    50,
                ),
            ),
            then: PendingModel::Search { scoped: b.selected_list() is Some },
        }),
{
    let longer = Browser { search_query: b.search_query.push(c), ..b };
    assert(longer.selected_list() == b.selected_list());
}

/// Backspace takes a typed character off again.
pub proof fn law_backspace_undoes_typing(b: Browser, key: KeyInput, c: char, backspace: KeyInput)
    requires
        b.browsing(),
        b.input_mode != InputMode::Normal,
        key.code == Key::Char(c),
        !key.ctrl,
        backspace.code == Key::Backspace,
    ensures
        b.update(Input::Key(key)).0.update(Input::Key(backspace)).0.typed_text()
            == b.typed_text(),
{
    let longer = b.update(Input::Key(key)).0;
    assert(longer.typed_text().drop_last() =~= b.typed_text());
    if b.typed_text().len() == 0 {
        assert(b.typed_text() =~= Seq::<char>::empty());
    }
}

/// Escape ends typing and drops the text.
pub proof fn law_escape_ends_typing(b: Browser, escape: KeyInput)
    requires
        b.browsing(),
        b.input_mode != InputMode::Normal,
        escape.code == Key::Escape,
    ensures
        ({
            let after = b.update(Input::Key(escape));
            &&& after.0.input_mode == InputMode::Normal
            &&& Browser { input_mode: b.input_mode, ..after.0 }.typed_text().len() == 0
            &&& after.1 == ActionModel::Idle
        }),
{
}

/// Ctrl+C drops what is typed, and ends typing where nothing is; while a text is typed it never
/// ends the program.
pub proof fn law_interrupt_clears_first(b: Browser, interrupt: KeyInput)
    requires
        b.browsing(),
        b.input_mode != InputMode::Normal,
        interrupt.is_interrupt(),
    ensures
        ({
            let after = b.update(Input::Key(interrupt));
            &&& after.1 == ActionModel::Idle
            &&& b.typed_text().len() > 0 ==> after.0.input_mode == b.input_mode
                && after.0.typed_text().len() == 0
            &&& b.typed_text().len() == 0 ==> after.0.input_mode == InputMode::Normal
        }),
{
}

/// The program ends only on `q` or Ctrl+C, and only where nothing is typed, asked or edited.
pub proof fn law_quit_only_when_browsing(b: Browser, input: Input)
    ensures
        (b.update(input).1 == ActionModel::Quit) <==> {
            &&& b.browsing()
            &&& b.input_mode == InputMode::Normal
            &&& input matches Input::Key(key) && (key.code == Key::Char('q') || key.is_interrupt())
        },
{
    if b.browsing() {
        match input {
            Input::Mouse(mouse) => {
                assert(b.handle_mouse(mouse).1 != ActionModel::Quit);
            },
            Input::Key(key) => {
                match b.input_mode {
                    InputMode::Search => {
                        assert(b.search_key(key).1 != ActionModel::Quit);
                    },
                    InputMode::AddItem => {
                        assert(b.add_key(key).1 != ActionModel::Quit);
                    },
                    InputMode::AqlQuery => {
                        assert(b.aql_key(key).1 != ActionModel::Quit);
                    },
                    InputMode::ListFilter => {
                        assert(b.filter_key(key).1 != ActionModel::Quit);
                    },
                    InputMode::Normal => {
                        if let Key::Char(c) = key.code {
                            assert(b.command(c).1 == ActionModel::Quit <==> c == 'q');
                        }
                    },
                }
            },
            Input::Other => {},
        }
    }
}

// ---------------------------------------------------------------------------
// Moving about
// ---------------------------------------------------------------------------
/// While nothing is typed, `j` and `k` do what the arrow keys down and up do.
pub proof fn law_letters_move_like_arrows(b: Browser, letter: KeyInput, arrow: KeyInput)
    requires
        b.browsing(),
        b.input_mode == InputMode::Normal,
        letter.code == Key::Char('j') && arrow.code == Key::Down || letter.code == Key::Char('k')
            && arrow.code == Key::Up,
    ensures
        b.update(Input::Key(letter)) == b.update(Input::Key(arrow)),
{
}

/// Going up undoes going down, where down went anywhere.
pub proof fn law_up_undoes_down(b: Browser)
    requires
        b.can_move_down(),
        b.filtered_lists().len() <= usize::MAX,
        b.current_items().len() <= usize::MAX,
        b.go_down() != b,
    ensures
        b.go_down().go_up() == b,
{
}

/// In every table Enter shows the selected item in full, from its top.
pub proof fn law_enter_opens_detail(b: Browser, enter: KeyInput)
    requires
        b.browsing(),
        b.input_mode == InputMode::Normal,
        b.focus == Focus::Table,
        b.shows_table(),
        b.selected_item() is Some,
        enter.code == Key::Enter,
    ensures
        b.update(Input::Key(enter)) == (
            Browser {
                detail_item: b.selected_item(),
                detail_scroll: 0,
                view: Panel::Detail,
                ..b
            },
            ActionModel::Idle,
        ),
{
}

/// Closing an item that was opened from a table returns to that table and its selection: to
/// search results while the search text stands, to query results while that of the query does and
/// no search is left, and to a list where neither is left.
pub proof fn law_detail_returns(b: Browser)
    requires
        b.selected_item() is Some,
        b.shows_table(),
        b.view == Panel::Search ==> b.search_query.len() > 0,
        b.view == Panel::AqlQuery ==> b.aql_query.len() > 0,
        b.view != Panel::Search ==> b.search_results.len() == 0 || b.search_query.len() == 0,
        b.view == Panel::Items ==> b.aql_results.len() == 0 || b.aql_query.len() == 0,
    ensures
        b.show_detail().close_detail() == (Browser { detail_item: None, detail_scroll: 0, ..b }),
{
}

/// From a table, going back twice always leads to the lists.
pub proof fn law_back_twice_leads_to_lists(b: Browser)
    requires
        b.focus == Focus::Table,
        b.shows_table(),
    ensures
        b.current_table_state().selected is None ==> b.go_back().view == Panel::Lists,
        b.current_table_state().selected is Some ==> b.go_back().view == b.view
            && b.go_back().go_back().view == Panel::Lists,
{
}

/// Without a filter the sidebar shows all lists; with one, exactly those whose names hold it.
pub proof fn law_filter_shows_passing_lists(lists: Seq<ListModel>, filter: Seq<char>, l: ListModel)
    ensures
        filter.len() == 0 ==> passing(lists, filter) == lists,
        filter.len() > 0 ==> (passing(lists, filter).contains(l) <==> lists.contains(l) && passes(
            l,
            filter,
        )),
{
    let keep = |x: ListModel| passes(x, filter);
    let kept = lists.filter(keep);
    if filter.len() > 0 {
        if kept.contains(l) {
            let i = choose|i: int| 0 <= i < kept.len() && kept[i] == l;
            lists.lemma_filter_contains_rev(keep, l);
            lists.lemma_filter_pred(keep, i);
        }
        if lists.contains(l) && passes(l, filter) {
            let i = choose|i: int| 0 <= i < lists.len() && lists[i] == l;
            lists.lemma_filter_contains(keep, i);
        }
    }
}

/// Without configured words all lists are kept; with some, exactly those whose names hold one.
pub proof fn law_words_keep_named_lists(lists: Seq<ListModel>, terms: Seq<Seq<char>>, l: ListModel)
    ensures
        terms.len() == 0 ==> kept_lists(lists, terms) == lists,
        terms.len() > 0 ==> (kept_lists(lists, terms).contains(l) <==> lists.contains(l) && exists|
            i: int,
        |
            0 <= i < terms.len() && occurs_in(lowercase(l.name), #[trigger] terms[i])),
{
    let keep = |x: ListModel| wanted(x, terms);
    let kept = lists.filter(keep);
    if terms.len() > 0 {
        if kept.contains(l) {
            let i = choose|i: int| 0 <= i < kept.len() && kept[i] == l;
            lists.lemma_filter_contains_rev(keep, l);
            lists.lemma_filter_pred(keep, i);
        }
        if lists.contains(l) && wanted(l, terms) {
            let i = choose|i: int| 0 <= i < lists.len() && lists[i] == l;
            lists.lemma_filter_contains(keep, i);
        }
    }
}

// ---------------------------------------------------------------------------
// Order of items
// ---------------------------------------------------------------------------
/// Whether no completed item stands above an open one.
pub open spec fn completed_last(items: Seq<ItemModel>) -> bool {
    forall|i: int, j: int|
        0 <= i < j < items.len() && is_done(#[trigger] items[i]) ==> is_done(#[trigger] items[j])
}

/// Sorted items have the completed ones last.
proof fn lemma_sorted_completed_last(items: Seq<ItemModel>)
    ensures
        completed_last(sorted_items(items)),
{
    assert forall|i: int, j: int|
        0 <= i < j < sorted_items(items).len() && is_done(
            #[trigger] sorted_items(items)[i],
        ) implies is_done(#[trigger] sorted_items(items)[j]) by {
        law_sort_puts_completed_last(items, i, j);
    }
}

/// Items that were just loaded, found or selected by a query have the completed ones last, and so
/// does a table in which one was just marked.
pub proof fn law_completed_items_last(
    b: Browser,
    items: Seq<ItemModel>,
    note: Option<Seq<char>>,
    scoped: bool,
    item: ItemModel,
    row: usize,
    completed: bool,
)
    requires
        b.shows_table(),
    ensures
        completed_last(b.items_loaded(Ok(items), note).items),
        completed_last(b.search_done(Ok(items), scoped).search_results),
        completed_last(b.aql_done(Ok(items)).aql_results),
        completed_last(b.toggle_done(Ok(item), row, completed).current_items()),
{
    lemma_sorted_completed_last(items);
    let current = b.current_items();
    let changed = if row < current.len() {
        current.update(row as int, ItemModel { completed: item.completed, ..current[row as int] })
    } else {
        current
    };
    lemma_sorted_completed_last(changed);
    assert(b.toggle_done(Ok(item), row, completed).current_items() == marked(
        current,
        row,
        item.completed,
    ));
}

// ---------------------------------------------------------------------------
// Editing
// ---------------------------------------------------------------------------
/// An item that is opened for editing and saved untouched is saved with what it holds, where its
/// tags survive being written as text. An item without address is saved with an empty text for it,
/// which clears the address; notes are saved without control characters, and left out where nothing
/// else is in them.
pub proof fn law_untouched_item_is_saved(b: Browser, item: ItemModel, list: ListModel)
    requires
        b.item_in_view() == Some(item),
        b.selected_list() == Some(list),
        forall|i: int| 0 <= i < item.tags.len() ==> plain_tag(#[trigger] item.tags[i]),
    ensures
        ({
            b.start_edit().save_edit() == (ActionModel::Call {
                request: operation(
                    b.base_url,
                    "item-update"@,
                    json_text(
                        update_fields(
                            list.id,
                            item.id,
                            Some(item.title),
                            Some(or_empty(item.url)),
                            Some(item.tags),
                            if printable(or_empty(item.notes)).len() == 0 {
                                None
                            } else {
                                Some(printable(or_empty(item.notes)))
                            },
                            Some(is_done(item)),
                        ),
                    ),
                ),
                then: PendingModel::Save,
            })
        }),
{
    law_untouched_form(item);
    let editing = b.start_edit();
    assert(editing.selected_list() == b.selected_list());
}

/// Whatever was typed into the form, saving sends a title, an address, tags and a flag.
pub proof fn law_save_is_complete(b: Browser)
    requires
        b.wf(),
        b.edit_item is Some,
        b.selected_list() is Some,
    ensures
        ({
            let values = b.edit_form->0.values;
            b.save_edit() == (ActionModel::Call {
                request: operation(
                    b.base_url,
                    "item-update"@,
                    json_text(
                        update_fields(
                            b.selected_list()->0.id,
                            b.edit_item->0.id,
                            Some(values[0].1->Text_0),
                            Some(values[1].1->Text_0),
                            Some(tags_in(values[2].1->Text_0)),
                            if b.edit_notes.area.text.len() == 0 {
                                None
                            } else {
                                Some(b.edit_notes.area.text)
                            },
                            Some(values[3].1->Bool_0),
                        ),
                    ),
                ),
                then: PendingModel::Save,
            })
        }),
{
    law_item_form_is_complete(b.edit_form->0.values);
}

/// An item that is opened for editing and given up leaves the data as they were.
pub proof fn law_cancel_edit_changes_no_data(b: Browser)
    requires
        b.item_in_view() is Some,
    ensures
        ({
            let after = b.start_edit().cancel_edit();
            after == (Browser {
                view: Panel::Items,
                edit_item: None,
                edit_form: None,
                edit_notes: after.edit_notes,
                edit_focus: after.edit_focus,
                ..b
            })
        }),
{
}

// ---------------------------------------------------------------------------
// Drawing and clicking
// ---------------------------------------------------------------------------
/// A click on a row of the sidebar, as it was last drawn, opens the list of that row.
pub proof fn law_click_opens_drawn_list(b: Browser, width: u16, height: u16, i: int, x: u16, y: u16)
    requires
        b.browsing(),
        0 <= i < b.screen(width, height).rows.len(),
        b.screen(width, height).rows[i].area.has_cell(x, y),
    ensures
        b.viewed(width, height).update(
            Input::Mouse(MouseInput { kind: MouseKind::LeftDown, x, y }),
        ) == (Browser {
            list_index: i as usize,
            focus: Focus::Sidebar,
            ..b.viewed(width, height)
        }).load_items(None),
{
    let drawn = b.viewed(width, height);
    let inner = drawn.sidebar_area;
    let row = b.screen(width, height).rows[i];
    assert(inner == b.screen(width, height).sidebar.inner);
    assert(row == b.sidebar_row(inner, i));
    assert(inner.y == 1 && i < inner.height <= u16::MAX - 4);
    assert(y == inner.y + i);
    assert(drawn.filtered_lists() == b.filtered_lists());
    assert(inner.has_cell(x, y));
}

/// A second click on a row of the table shows its item in full.
pub proof fn law_second_click_opens_item(b: Browser, row: int)
    requires
        b.shows_table(),
        0 <= row < b.current_items().len() <= usize::MAX,
    ensures
        b.click_row(row).click_row(row).view == Panel::Detail,
        b.click_row(row).click_row(row).detail_item == Some(b.current_items()[row]),
{
    let once = b.click_row(row);
    if b.current_table_state().selected != Some(row as usize) {
        assert(once.current_items() == b.current_items());
        assert(once.current_table_state().selected == Some(row as usize));
    }
}

/// A click on a heading of the table, as it was last drawn, sorts by the column of that heading.
pub proof fn law_click_sorts_by_drawn_column(
    b: Browser,
    width: u16,
    height: u16,
    i: int,
    x: u16,
    y: u16,
)
    requires
        b.browsing(),
        b.drawable(width, height),
        b.view == Panel::Items || b.view == Panel::AqlQuery,
        b.current_items().len() > 0,
        0 <= i < b.shown_columns().len(),
        ({
            let drawn = b.viewed(width, height);
            &&& !drawn.sidebar_area.has_cell(x, y)
            &&& drawn.table_area.has_cell(x, y)
            &&& y == drawn.table_area.y
            &&& drawn.column_positions[i].1 <= x < drawn.column_positions[i].2
        }),
    ensures
        b.viewed(width, height).update(
            Input::Mouse(MouseInput { kind: MouseKind::LeftDown, x, y }),
        ) == (Browser { focus: Focus::Table, ..b.viewed(width, height) }).sort_by_column(
            b.shown_columns()[i],
        ),
{
    let drawn = b.viewed(width, height);
    law_column_at_position(
        b.shown_columns(),
        drawn.table_area.x,
        drawn.table_area.width,
        x,
        i,
    );
}

// ---------------------------------------------------------------------------
// Live updates
// ---------------------------------------------------------------------------
/// A reported change of the list that is shown has its items loaded again, after the lists where
/// those have changed too. Where no list is shown there is no such change.
pub proof fn law_reported_change_reloads(b: Browser, events: Seq<WsEventModel>)
    requires
        b.ws_open,
        b.selected_list() is Some,
    ensures
        b.last_news(events) is Some ==> b.poll_ws_events(events, false).1 matches ActionModel::Call {
            then: PendingModel::Items(Some(_)),
            ..
        } || b.poll_ws_events(events, false).1 matches ActionModel::Call {
            then: PendingModel::Lists(AfterListsModel::Announce(_)),
            ..
        },
        b.view != Panel::Items ==> b.last_news(events) is None,
{
    law_events_change_only_the_connection(b, with_closing(events, false));
    assert(b.live_events(events).selected_list() == b.selected_list());
    if b.view != Panel::Items {
        lemma_no_news(b, events);
    }
}

/// Where no list is shown there is no news of it.
proof fn lemma_no_news(b: Browser, events: Seq<WsEventModel>)
    requires
        b.view != Panel::Items,
    ensures
        b.last_news(events) is None,
    decreases events.len(),
{
    if events.len() > 0 {
        lemma_no_news(b, events.drop_last());
    }
}

} // verus!
