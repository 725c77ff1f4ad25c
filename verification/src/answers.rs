//! What each reply and each report of the server comes to.
use vstd::prelude::*;
use vstd::string::*;
use crate::action::{ActionModel, AfterListsModel, PendingModel, ReplyModel};
use crate::change::without;
use crate::items::{done_items, is_done, law_sort_keeps_items, open_items, sorted_items, ItemModel, ListModel};
use crate::laws::{lemma_no_row, lemma_row_is};
use crate::live::{changes_lists, law_events_change_only_the_connection, with_closing};
use crate::load::{kept_lists, terms_in};
use crate::promises::{asks_for_items, asks_for_lists, chosen_list, chosen_row, in_table, lemma_chosen, opens_list, rows};
use crate::socket::WsEventModel;
use crate::state::{Browser, Focus, Panel, TableState};
use crate::text::decimal;

verus! {

// ---------------------------------------------------------------------------
// The order of items
// ---------------------------------------------------------------------------
/// Whether an item is completed.
pub open spec fn completed(item: ItemModel) -> bool {
    item.completed == Some(true)
}

/// One more item at the end of a table comes behind all others where it is completed, and else right
/// behind the last one that is not; the others keep their order.
pub proof fn law_sorted_grows(s: Seq<ItemModel>, x: ItemModel, n: int)
    requires
        0 <= n <= sorted_items(s).len(),
        forall|i: int| 0 <= i < n ==> !completed(#[trigger] sorted_items(s)[i]),
        forall|i: int| n <= i < sorted_items(s).len() ==> completed(#[trigger] sorted_items(s)[i]),
    ensures
        sorted_items(Seq::empty()).len() == 0,
        completed(x) ==> sorted_items(s.push(x)) == sorted_items(s).push(x),
        !completed(x) ==> sorted_items(s.push(x)) == sorted_items(s).insert(n, x),
{
    reveal(Seq::filter);
    assert(s.push(x).drop_last() =~= s);
    let a = open_items(s);
    let d = done_items(s);
    if completed(x) {
        assert(sorted_items(s.push(x)) =~= sorted_items(s).push(x));
    } else {
        assert forall|i: int| 0 <= i < a.len() implies !is_done(#[trigger] a[i]) by {
            s.lemma_filter_pred(|y: ItemModel| !is_done(y), i);
        }
        assert forall|i: int| 0 <= i < d.len() implies is_done(#[trigger] d[i]) by {
            s.lemma_filter_pred(|y: ItemModel| is_done(y), i);
        }
        if n < a.len() {
            assert(sorted_items(s)[n] == a[n]);
        }
        if n > a.len() {
            assert(sorted_items(s)[a.len() as int] == d[0]);
        }
        assert(n == a.len());
        assert(sorted_items(s.push(x)) =~= sorted_items(s).insert(n, x));
    }
}

// ---------------------------------------------------------------------------
// Lists and items that were loaded
// ---------------------------------------------------------------------------
/// The state with a message of success in place of any other.
pub open spec fn saying(b: Browser, text: Seq<char>) -> Browser {
    Browser { status_message: Some(text), error_message: None, ..b }
}

/// The first row of so many.
pub open spec fn top_row(len: nat) -> TableState {
    TableState {
        selected: if len > 0 {
            Some(0usize)
        } else {
            None
        },
    }
}

/// Lists that have come are kept as far as they are configured, and counted; what they were asked
/// for follows: nothing, the items of the chosen list where a list is shown, or those items in any
/// case, with a message.
pub proof fn law_lists_come(b: Browser, lists: Seq<ListModel>, then: AfterListsModel)
    ensures
        ({
            let kept = kept_lists(lists, terms_in(b.lists_filter));
            let loaded = saying(
                Browser { lists: kept, ..b },
                "Loaded "@ + decimal(kept.len()) + " lists"@,
            );
            let after = b.resume(PendingModel::Lists(then), ReplyModel::Lists(Ok(lists)));
            match then {
                AfterListsModel::Stop => after == (loaded, ActionModel::Idle),
                AfterListsModel::Reload => after == (
                    loaded,
                    if b.view == Panel::Items {
                        opens_list(loaded)
                    } else {
                        ActionModel::Idle
                    },
                ),
                AfterListsModel::Announce(text) => after == (match chosen_list(loaded) {
                    Some(list) => (loaded, asks_for_items(loaded, list.id, Some(text))),
                    None => (
                        Browser { status_message: Some(text), ..loaded },
                        ActionModel::Idle,
                    ),
                }),
            }
        }),
{
    let kept = kept_lists(lists, terms_in(b.lists_filter));
    let loaded = saying(Browser { lists: kept, ..b }, "Loaded "@ + decimal(kept.len()) + " lists"@);
    assert(b.lists_loaded(Ok(lists)) == loaded);
    lemma_chosen(loaded);
}

/// Items that have come, of a list, a search or a query, are all shown, in their order, with the
/// first row chosen and the focus on them; they are counted in the message. The other tables stay as
/// they were.
pub proof fn law_items_come(
    b: Browser,
    items: Seq<ItemModel>,
    note: Option<Seq<char>>,
    scoped: bool,
)
    ensures
        ({
            let sorted = sorted_items(items);
            let n = decimal(items.len());
            let shown = saying(
                Browser {
                    items: sorted,
                    table_state: top_row(items.len()),
                    view: Panel::Items,
                    focus: Focus::Table,
                    ..b
                },
                "Loaded "@ + n + " items"@,
            );
            let found = saying(
                Browser {
                    search_results: sorted,
                    search_table_state: top_row(items.len()),
                    view: Panel::Search,
                    focus: Focus::Table,
                    ..b
                },
                "Found "@ + n + " results ("@ + (if scoped {
                    "in list"@
                } else {
                    "all lists"@
                }) + ")"@,
            );
            let answered = saying(
                Browser {
                    aql_results: sorted,
                    aql_table_state: top_row(items.len()),
                    view: Panel::AqlQuery,
                    focus: Focus::Table,
                    ..b
                },
                "AQL: "@ + n + " results"@,
            );
            &&& b.resume(PendingModel::Items(note), ReplyModel::Items(Ok(items))) == (
                match note {
                    Some(text) => Browser { status_message: Some(text), ..shown },
                    None => shown,
                },
                ActionModel::Idle,
            )
            &&& b.resume(PendingModel::Search { scoped }, ReplyModel::Items(Ok(items))) == (
                found,
                ActionModel::Idle,
            )
            &&& b.resume(PendingModel::Aql, ReplyModel::Items(Ok(items))) == (
                answered,
                ActionModel::Idle,
            )
        }),
{
    law_sort_keeps_items(items);
}

// ---------------------------------------------------------------------------
// Items that were changed
// ---------------------------------------------------------------------------
/// An item that was added stands before the others in the list, and is chosen.
pub proof fn law_added_item_comes_first(b: Browser, item: ItemModel)
    ensures
        b.resume(PendingModel::Add, ReplyModel::Item(Ok(item))) == (
            saying(
                Browser {
                    items: seq![item] + b.items,
                    table_state: TableState { selected: Some(0usize) },
                    ..b
                },
                "Item added"@,
            ),
            ActionModel::Idle,
        ),
{
    assert(b.items.insert(0, item) =~= seq![item] + b.items);
}

/// The state with other rows in the panel and another one chosen.
pub open spec fn with_rows(b: Browser, items: Seq<ItemModel>, row: Option<usize>) -> Browser {
    let state = TableState { selected: row };
    if b.view == Panel::Items {
        Browser { items, table_state: state, ..b }
    } else if b.view == Panel::Search {
        Browser { search_results: items, search_table_state: state, ..b }
    } else {
        Browser { aql_results: items, aql_table_state: state, ..b }
    }
}

/// The row that is chosen once rows are gone: the same one, the last where it is gone, or none where
/// all are.
pub open spec fn row_left(row: Option<usize>, len: nat) -> Option<usize> {
    match row {
        Some(i) => if len == 0 {
            None
        } else if i < len {
            Some(i)
        } else {
            Some((len - 1) as usize)
        },
        None => None,
    }
}

/// Once the server has deleted an item, the table that is shown, whichever of the three it is, has
/// its rows without that of the item, in their order; the other tables stay as they were.
pub proof fn law_deleted_item_leaves_table(b: Browser, id: Seq<char>, i: int)
    requires
        in_table(b),
        0 <= i < rows(b).len(),
        rows(b)[i].id == id,
        forall|j: int| 0 <= j < i ==> (#[trigger] rows(b)[j]).id != id,
    ensures
        b.resume(PendingModel::Delete { item_id: id }, ReplyModel::Done(Ok(()))) == (
            saying(
                with_rows(
                    b,
                    rows(b).take(i) + rows(b).skip(i + 1),
                    row_left(chosen_row(b), (rows(b).len() - 1) as nat),
                ),
                "Item deleted"@,
            ),
            ActionModel::Idle,
        ),
{
    let all = rows(b);
    lemma_row_is(all, id, i);
    assert(without(all, id) =~= all.take(i) + all.skip(i + 1));
    assert(without(all, id).len() == all.len() - 1);
    lemma_chosen(b);
    let after = b.item_removed(id);
    assert(after == with_rows(
        b,
        all.take(i) + all.skip(i + 1),
        row_left(chosen_row(b), (all.len() - 1) as nat),
    ));
}

/// Once a deletion is confirmed, no row of the shown table has the identifier, where identifiers are
/// distinct, and every other item is still there.
pub proof fn law_deleted_item_is_not_shown(b: Browser, id: Seq<char>, item: ItemModel)
    requires
        in_table(b),
        forall|j: int, k: int|
            0 <= j < k < rows(b).len() ==> (#[trigger] rows(b)[j]).id != (#[trigger] rows(b)[k]).id,
    ensures
        ({
            let after = b.resume(
                PendingModel::Delete { item_id: id },
                ReplyModel::Done(Ok(())),
            ).0;
            rows(after).contains(item) <==> rows(b).contains(item) && item.id != id
        }),
{
    let all = rows(b);
    let after = b.resume(PendingModel::Delete { item_id: id }, ReplyModel::Done(Ok(()))).0;
    if exists|i: int| 0 <= i < all.len() && (#[trigger] all[i]).id == id {
        let i = choose|i: int| 0 <= i < all.len() && (#[trigger] all[i]).id == id;
        law_deleted_item_leaves_table(b, id, i);
        let left = all.take(i) + all.skip(i + 1);
        assert(rows(after) == left);
        if left.contains(item) {
            let k = choose|k: int| 0 <= k < left.len() && left[k] == item;
            let j = if k < i {
                k
            } else {
                k + 1
            };
            assert(all[j] == item);
        }
        if all.contains(item) && item.id != id {
            let j = choose|j: int| 0 <= j < all.len() && all[j] == item;
            let k = if j < i {
                j
            } else {
                j - 1
            };
            assert(left[k] == item);
        }
    } else {
        lemma_no_row(all, id);
        lemma_chosen(b);
        assert(rows(after) == all);
        if all.contains(item) {
            let j = choose|j: int| 0 <= j < all.len() && all[j] == item;
            assert(all[j].id != id);
        }
    }
}

/// A deletion of an item that the shown table does not have is only reported, and where no table is
/// shown nothing happens.
pub proof fn law_deleted_elsewhere(b: Browser, id: Seq<char>)
    requires
        forall|j: int| 0 <= j < rows(b).len() ==> (#[trigger] rows(b)[j]).id != id,
    ensures
        b.resume(PendingModel::Delete { item_id: id }, ReplyModel::Done(Ok(()))) == (
            if in_table(b) {
                saying(b, "Item deleted"@)
            } else {
                b
            },
            ActionModel::Idle,
        ),
{
    lemma_no_row(rows(b), id);
    lemma_chosen(b);
}

/// Once the server has marked an item, its row in the table that is shown, whichever of the three it
/// is, is marked as the server has it; the rows are put in their order again. The other tables and
/// the chosen row stay.
pub proof fn law_marked_item_is_shown(
    b: Browser,
    item: ItemModel,
    row: usize,
    done: bool,
)
    ensures
        ({
            let after = b.resume(
                PendingModel::Toggle { row, completed: done },
                ReplyModel::Item(Ok(item)),
            );
            let text = if done {
                "✓ Completed"@
            } else {
                "○ Uncompleted"@
            };
            let changed = if row < rows(b).len() {
                rows(b).update(
                    row as int,
                    ItemModel { completed: item.completed, ..rows(b)[row as int] },
                )
            } else {
                rows(b)
            };
            after == (
                saying(
                    if in_table(b) {
                        with_rows(b, sorted_items(changed), chosen_row(b))
                    } else {
                        b
                    },
                    text,
                ),
                ActionModel::Idle,
            )
        }),
{
    lemma_chosen(b);
}

/// Once an item is moved or saved, that is said, and the items of the chosen list are asked for
/// again; a saved item is left, and the list is shown.
pub proof fn law_moved_or_saved(b: Browser, item: ItemModel, to_top: bool)
    ensures
        ({
            let moved = saying(
                b,
                if to_top {
                    "↑ Moved to top"@
                } else {
                    "↓ Moved to bottom"@
                },
            );
            let saved = saying(
                Browser { view: Panel::Items, edit_item: None, edit_form: None, ..b },
                "Item saved"@,
            );
            &&& b.resume(PendingModel::Move { to_top }, ReplyModel::Item(Ok(item))) == (
                moved,
                opens_list(b),
            )
            &&& b.resume(PendingModel::Save, ReplyModel::Item(Ok(item))) == (saved, opens_list(b))
        }),
{
    lemma_chosen(b);
    lemma_chosen(
        saying(
            b,
            if to_top {
                "↑ Moved to top"@
            } else {
                "↓ Moved to bottom"@
            },
        ),
    );
    lemma_chosen(
        saying(
            Browser { view: Panel::Items, edit_item: None, edit_form: None, ..b },
            "Item saved"@,
        ),
    );
}

/// A failure is shown with what failed and why, and changes nothing else; a form that could not be
/// saved is closed. Where items were asked for because of a report, the report is shown too, and
/// after lists that did not come the items are still asked for.
pub proof fn law_failures_are_told(
    b: Browser,
    e: Seq<char>,
    then: PendingModel,
    note: Option<Seq<char>>,
)
    ensures
        ({
            let told = |text: Seq<char>| Browser { error_message: Some(text + e), ..b };
            let lists = told("Failed to load lists: "@);
            let items = told("Failed to load items: "@);
            &&& b.resume(PendingModel::Lists(AfterListsModel::Stop), ReplyModel::Lists(Err(e))) == (
                lists,
                ActionModel::Idle,
            )
            &&& b.resume(PendingModel::Lists(AfterListsModel::Reload), ReplyModel::Lists(Err(e)))
                == (
                lists,
                if b.view == Panel::Items {
                    opens_list(b)
                } else {
                    ActionModel::Idle
                },
            )
            &&& note matches Some(text) ==> b.resume(
                PendingModel::Lists(AfterListsModel::Announce(text)),
                ReplyModel::Lists(Err(e)),
            ) == (match chosen_list(b) {
                Some(list) => (lists, asks_for_items(b, list.id, Some(text))),
                None => (Browser { status_message: Some(text), ..lists }, ActionModel::Idle),
            })
            &&& b.resume(PendingModel::Items(note), ReplyModel::Items(Err(e))) == (
                match note {
                    Some(text) => Browser { status_message: Some(text), ..items },
                    None => items,
                },
                ActionModel::Idle,
            )
            &&& then is Search ==> b.resume(then, ReplyModel::Items(Err(e))) == (
                told("Search failed: "@),
                ActionModel::Idle,
            )
            &&& then is Aql ==> b.resume(then, ReplyModel::Items(Err(e))) == (
                told("AQL error: "@),
                ActionModel::Idle,
            )
            &&& then is Add ==> b.resume(then, ReplyModel::Item(Err(e))) == (
                told("Failed to add item: "@),
                ActionModel::Idle,
            )
            &&& then is Delete ==> b.resume(then, ReplyModel::Done(Err(e))) == (
                told("Failed to delete: "@),
                ActionModel::Idle,
            )
            &&& then is Toggle ==> b.resume(then, ReplyModel::Item(Err(e))) == (
                told("Failed to update: "@),
                ActionModel::Idle,
            )
            &&& then is Move ==> b.resume(then, ReplyModel::Item(Err(e))) == (
                told("Failed to move: "@),
                ActionModel::Idle,
            )
            &&& then is Save ==> b.resume(then, ReplyModel::Item(Err(e))) == (
                Browser { edit_item: None, edit_form: None, ..told("Failed to save: "@) },
                ActionModel::Idle,
            )
        }),
{
    lemma_chosen(b);
    lemma_chosen(Browser { error_message: Some("Failed to load lists: "@ + e), ..b });
}

/// A reply of another kind than was asked for does nothing.
pub proof fn law_strange_replies(b: Browser, then: PendingModel, reply: ReplyModel)
    requires
        match then {
            PendingModel::Lists(_) => !(reply is Lists),
            PendingModel::Items(_) | PendingModel::Search { .. } | PendingModel::Aql => !(
            reply is Items),
            PendingModel::Delete { .. } => !(reply is Done),
            _ => !(reply is Item),
        },
    ensures
        b.resume(then, reply) == (b, ActionModel::Idle),
{
}

// ---------------------------------------------------------------------------
// Live reports
// ---------------------------------------------------------------------------
/// Whether an event reports a change of the list that is shown.
pub open spec fn concerns(b: Browser, event: WsEventModel) -> bool {
    &&& b.view == Panel::Items
    &&& chosen_list(b) matches Some(list) && event matches WsEventModel::ListUpdate {
        list_id,
        ..
    } && list.id == list_id
}

/// Whether an event reports a change of the lists themselves.
pub open spec fn concerns_lists(event: WsEventModel) -> bool {
    event matches WsEventModel::ListUpdate { action, .. } && action.len() >= 5 && action.take(5)
        == "list-"@
}

/// Whether an event is about the connection.
pub open spec fn concerns_connection(event: WsEventModel) -> bool {
    !(event is ListUpdate)
}

/// The last change of the list that is shown is the news.
proof fn lemma_last_news(b: Browser, events: Seq<WsEventModel>, k: int)
    requires
        0 <= k < events.len(),
        concerns(b, events[k]),
        forall|j: int| k < j < events.len() ==> !concerns(b, #[trigger] events[j]),
    ensures
        b.last_news(events) == Some(events[k]->action),
    decreases events.len(),
{
    lemma_chosen(b);
    if k < events.len() - 1 {
        assert(!concerns(b, events[events.len() - 1]));
        let front = events.drop_last();
        assert forall|j: int| k < j < front.len() implies !concerns(b, #[trigger] front[j]) by {
            assert(front[j] == events[j]);
        }
        lemma_last_news(b, front, k);
    }
}

/// Without a change of the list that is shown there is no news.
proof fn lemma_no_last_news(b: Browser, events: Seq<WsEventModel>)
    requires
        forall|j: int| 0 <= j < events.len() ==> !concerns(b, #[trigger] events[j]),
    ensures
        b.last_news(events) is None,
    decreases events.len(),
{
    lemma_chosen(b);
    if events.len() > 0 {
        assert(!concerns(b, events[events.len() - 1]));
        let front = events.drop_last();
        assert forall|j: int| 0 <= j < front.len() implies !concerns(b, #[trigger] front[j]) by {
            assert(front[j] == events[j]);
        }
        lemma_no_last_news(b, front);
    }
}

/// What it means that an event changes the lists.
proof fn lemma_concerns_lists(event: WsEventModel)
    ensures
        changes_lists(event) == concerns_lists(event),
{
    reveal_strlit("list-");
    if let WsEventModel::ListUpdate { action, .. } = event {
        if action.len() >= 5 {
            assert(action.subrange(0, 5) =~= action.take(5));
        }
    }
}

/// What the events leave to be asked for goes by the lists, the chosen one and the view, which they
/// do not change.
proof fn lemma_poll_asks(b: Browser, events: Seq<WsEventModel>, closed: bool)
    requires
        b.ws_open,
    ensures
        ({
            let all = with_closing(events, closed);
            let after = b.live_events(all);
            let lists = exists|i: int| 0 <= i < events.len() && concerns_lists(#[trigger] events[i]);
            &&& chosen_list(after) == chosen_list(b)
            &&& after.base_url == b.base_url
            &&& after.selected_list() == chosen_list(b)
            &&& lists == exists|i: int| 0 <= i < all.len() && changes_lists(#[trigger] all[i])
        }),
{
    let all = with_closing(events, closed);
    let after = b.live_events(all);
    law_events_change_only_the_connection(b, all);
    lemma_chosen(after);
    if exists|i: int| 0 <= i < events.len() && concerns_lists(#[trigger] events[i]) {
        let i = choose|i: int| 0 <= i < events.len() && concerns_lists(#[trigger] events[i]);
        lemma_concerns_lists(events[i]);
        assert(all[i] == events[i]);
    }
    if exists|i: int| 0 <= i < all.len() && changes_lists(#[trigger] all[i]) {
        let i = choose|i: int| 0 <= i < all.len() && changes_lists(#[trigger] all[i]);
        lemma_concerns_lists(all[i]);
        assert(i < events.len());
        assert(all[i] == events[i]);
    }
}

/// Whatever else the state holds, a reported change of the list that is shown has its items asked
/// for again, with the last such change in the message: after the lists, where the lists have
/// changed too, else at once.
pub proof fn law_report_reloads_items(
    b: Browser,
    events: Seq<WsEventModel>,
    closed: bool,
    k: int,
)
    requires
        b.ws_open,
        0 <= k < events.len(),
        concerns(b, events[k]),
        forall|j: int| k < j < events.len() ==> !concerns(b, #[trigger] events[j]),
    ensures
        ({
            let note = "↻ "@ + events[k]->action;
            let lists = exists|i: int| 0 <= i < events.len() && concerns_lists(#[trigger] events[i]);
            b.poll_ws_events(events, closed).1 == (if lists {
                asks_for_lists(b, AfterListsModel::Announce(note))
            } else {
                asks_for_items(b, chosen_list(b)->0.id, Some(note))
            })
        }),
{
    let all = with_closing(events, closed);
    assert(all[k] == events[k]);
    assert forall|j: int| k < j < all.len() implies !concerns(b, #[trigger] all[j]) by {
        if j < events.len() {
            assert(all[j] == events[j]);
        }
    }
    lemma_last_news(b, all, k);
    lemma_poll_asks(b, events, closed);
}

/// Without a change of the list that is shown nothing is asked for, but for the lists where those
/// have changed.
pub proof fn law_report_of_others(b: Browser, events: Seq<WsEventModel>, closed: bool)
    requires
        b.ws_open,
        forall|j: int| 0 <= j < events.len() ==> !concerns(b, #[trigger] events[j]),
    ensures
        ({
            let lists = exists|i: int| 0 <= i < events.len() && concerns_lists(#[trigger] events[i]);
            b.poll_ws_events(events, closed).1 == (if lists {
                asks_for_lists(b, AfterListsModel::Stop)
            } else {
                ActionModel::Idle
            })
        }),
{
    let all = with_closing(events, closed);
    assert forall|j: int| 0 <= j < all.len() implies !concerns(b, #[trigger] all[j]) by {
        if j < events.len() {
            assert(all[j] == events[j]);
        }
    }
    lemma_no_last_news(b, all);
    lemma_poll_asks(b, events, closed);
}

/// The last event about the connection says whether it stands and what the message is; the channel
/// stays open until it is closed. Nothing else changes.
proof fn lemma_connection(b: Browser, events: Seq<WsEventModel>, k: int)
    requires
        -1 <= k < events.len(),
        k >= 0 ==> concerns_connection(events[k]),
        forall|j: int| k < j < events.len() ==> !concerns_connection(#[trigger] events[j]),
    ensures
        ({
            let after = b.live_events(events);
            &&& after.ws_connected == (if k < 0 {
                b.ws_connected
            } else {
                events[k] is Connected
            })
            &&& after.status_message == (if k < 0 {
                b.status_message
            } else {
                Some(
                    match events[k] {
                        WsEventModel::Disconnected(reason) => "⚠ "@ + reason,
                        _ => "🔗 Connected"@,
                    },
                )
            })
        }),
    decreases events.len(),
{
    if events.len() > 0 && k < events.len() - 1 {
        assert(!concerns_connection(events[events.len() - 1]));
        let front = events.drop_last();
        assert forall|j: int| k < j < front.len() implies !concerns_connection(
            #[trigger] front[j],
        ) by {
            assert(front[j] == events[j]);
        }
        lemma_connection(b, front, k);
    }
}

/// The channel stays open while no event says that it has closed.
proof fn lemma_channel_open(b: Browser, events: Seq<WsEventModel>)
    ensures
        b.live_events(events).ws_open == (b.ws_open && forall|i: int|
            0 <= i < events.len() ==> #[trigger] events[i] != WsEventModel::Disconnected(
                "Channel closed"@,
            )),
    decreases events.len(),
{
    if events.len() > 0 {
        let front = events.drop_last();
        lemma_channel_open(b, front);
        let last = events[events.len() - 1];
        if b.live_events(events).ws_open {
            assert forall|i: int| 0 <= i < events.len() implies #[trigger] events[i]
                != WsEventModel::Disconnected("Channel closed"@) by {
                if i < front.len() {
                    assert(front[i] == events[i]);
                }
            }
        } else if b.live_events(front).ws_open {
            assert(last == WsEventModel::Disconnected("Channel closed"@));
        } else if b.ws_open {
            let i = choose|i: int|
                0 <= i < front.len() && #[trigger] front[i] == WsEventModel::Disconnected(
                    "Channel closed"@,
                );
            assert(events[i] == front[i]);
        }
    }
}

/// Events change the connection and the message only. The last event about the connection says
/// whether it stands; once the channel has closed it does not, and nothing is read any more.
pub proof fn law_connection_is_shown(b: Browser, events: Seq<WsEventModel>, k: int)
    requires
        b.ws_open,
        -1 <= k < events.len(),
        k >= 0 ==> concerns_connection(events[k]),
        forall|j: int| k < j < events.len() ==> !concerns_connection(#[trigger] events[j]),
    ensures
        b.poll_ws_events(events, false).0 == (Browser {
            ws_connected: if k < 0 {
                b.ws_connected
            } else {
                events[k] is Connected
            },
            status_message: if k < 0 {
                b.status_message
            } else {
                Some(
                    match events[k] {
                        WsEventModel::Disconnected(reason) => "⚠ "@ + reason,
                        _ => "🔗 Connected"@,
                    },
                )
            },
            ws_open: forall|i: int|
                0 <= i < events.len() ==> #[trigger] events[i] != WsEventModel::Disconnected(
                    "Channel closed"@,
                ),
            ..b
        }),
        b.poll_ws_events(events, true).0 == (Browser {
            ws_connected: false,
            status_message: Some("⚠ "@ + "Channel closed"@),
            ws_open: false,
            ..b
        }),
{
    law_events_change_only_the_connection(b, events);
    lemma_connection(b, events, k);
    lemma_channel_open(b, events);
    lemma_poll_asks(b, events, false);
    let all = with_closing(events, true);
    law_events_change_only_the_connection(b, all);
    assert(all[all.len() - 1] == WsEventModel::Disconnected("Channel closed"@));
    lemma_connection(b, all, events.len() as int);
    lemma_channel_open(b, all);
    lemma_poll_asks(b, events, true);
    if chosen_list(b) is None {
        lemma_no_last_news(b, events);
        lemma_no_last_news(b, all);
    }
}

/// A channel that has closed is not read.
pub proof fn law_closed_channel_is_silent(b: Browser, events: Seq<WsEventModel>, closed: bool)
    requires
        !b.ws_open,
    ensures
        b.poll_ws_events(events, closed) == (b, ActionModel::Idle),
{
}

} // verus!
