//! The browser stays valid, whatever happens.
use vstd::prelude::*;
use crate::action::{PendingModel, ReplyModel};
use crate::change::lemma_row_of;
use crate::column::Column;
use crate::edit::item_shape;
use crate::input::{Input, Key, KeyInput, MouseInput, MouseKind};
use crate::items::{law_sort_keeps_items, ItemModel};
use crate::live::{law_events_change_only_the_connection, with_closing};
use crate::socket::WsEventModel;
use crate::state::{Browser, Focus, Panel};

verus! {

/// Moving about leaves the browser valid.
proof fn lemma_moves_keep_wf(b: Browser)
    requires
        b.wf(),
    ensures
        b.go_up().wf(),
        b.go_down().wf(),
        b.go_back().wf(),
        b.show_detail().wf(),
{
}

/// Sorting leaves the browser valid.
proof fn lemma_sort_keeps_wf(b: Browser, column: Column)
    requires
        b.wf(),
    ensures
        b.sort_by_column(column).0.wf(),
{
}

/// What the mouse does leaves the browser valid.
proof fn lemma_mouse_keeps_wf(b: Browser, mouse: MouseInput)
    requires
        b.wf(),
    ensures
        b.handle_mouse(mouse).0.wf(),
{
    lemma_moves_keep_wf(b);
    if mouse.kind == MouseKind::LeftDown {
        let focused = Browser { focus: Focus::Table, ..b };
        assert(focused.wf());
        match focused.heading_at(mouse.x) {
            Some(column) => lemma_sort_keeps_wf(focused, column),
            None => {},
        }
        lemma_moves_keep_wf(focused);
        if b.table_area.has_cell(mouse.x, mouse.y) && mouse.y != b.table_area.y {
            assert(focused.click_row(mouse.y - b.table_area.y - 1).wf());
        }
    }
}

/// Typing leaves the browser valid.
proof fn lemma_typing_keeps_wf(b: Browser, key: KeyInput)
    requires
        b.wf(),
    ensures
        b.search_key(key).0.wf(),
        b.add_key(key).0.wf(),
        b.aql_key(key).0.wf(),
        b.filter_key(key).0.wf(),
{
}

/// Commands leave the browser valid.
proof fn lemma_commands_keep_wf(b: Browser, c: char)
    requires
        b.wf(),
    ensures
        b.command(c).0.wf(),
{
    lemma_moves_keep_wf(b);
}

/// Every event leaves the browser valid, given that the form, where it takes a key, keeps the
/// labels and kinds of its fields.
pub proof fn law_update_keeps_wf(b: Browser, input: Input)
    requires
        b.wf(),
        !b.confirming() && b.view == Panel::Edit ==> (b.update(input).0.edit_form matches Some(form)
            ==> item_shape(form.values)),
    ensures
        b.update(input).0.wf(),
{
    if b.confirming() {
        assert(b.confirm_input(input).0.wf());
    } else if b.view == Panel::Edit {
        assert(b.edit_input(input).0.wf());
    } else {
        match input {
            Input::Mouse(mouse) => lemma_mouse_keeps_wf(b, mouse),
            Input::Key(key) => match b.typed(key) {
                Some(c) => {
                    assert(b.type_char(c).0.wf());
                },
                None => {
                    lemma_typing_keeps_wf(b, key);
                    lemma_moves_keep_wf(b);
                    if let Key::Char(c) = key.code {
                        lemma_commands_keep_wf(b, c);
                    }
                },
            },
            Input::Other => {},
        }
    }
}

/// Loading leaves the browser valid.
proof fn lemma_loads_keep_wf(
    b: Browser,
    reply: Result<Seq<ItemModel>, Seq<char>>,
    note: Option<Seq<char>>,
    scoped: bool,
)
    requires
        b.wf(),
    ensures
        b.load_items(note).0.wf(),
        b.items_loaded(reply, note).wf(),
        b.search_done(reply, scoped).wf(),
        b.aql_done(reply).wf(),
{
}

/// A changed completion leaves the browser valid.
proof fn lemma_toggle_keeps_wf(
    b: Browser,
    reply: Result<ItemModel, Seq<char>>,
    row: usize,
    completed: bool,
)
    requires
        b.wf(),
    ensures
        b.toggle_done(reply, row, completed).wf(),
{
    if let Ok(item) = reply {
        let current = b.current_items();
        let changed = if row < current.len() {
            current.update(
                row as int,
                ItemModel { completed: item.completed, ..current[row as int] },
            )
        } else {
            current
        };
        law_sort_keeps_items(changed);
        assert(b.item_marked(row, item.completed).wf());
    }
}

/// A deletion leaves the browser valid.
proof fn lemma_delete_keeps_wf(b: Browser, reply: Result<(), Seq<char>>, id: Seq<char>)
    requires
        b.wf(),
    ensures
        b.delete_done(reply, id).wf(),
{
    lemma_row_of(b.items, id);
    lemma_row_of(b.search_results, id);
    lemma_row_of(b.aql_results, id);
    assert(b.item_removed(id).wf());
}

/// Every reply leaves the browser valid.
pub proof fn law_resume_keeps_wf(b: Browser, then: PendingModel, reply: ReplyModel)
    requires
        b.wf(),
    ensures
        b.resume(then, reply).0.wf(),
{
    match (then, reply) {
        (PendingModel::Lists(next), ReplyModel::Lists(r)) => {
            let loaded = b.lists_loaded(r);
            assert(loaded.wf());
            assert(loaded.after_lists(next).0.wf());
        },
        (PendingModel::Items(note), ReplyModel::Items(r)) => lemma_loads_keep_wf(b, r, note, true),
        (PendingModel::Search { scoped }, ReplyModel::Items(r)) => lemma_loads_keep_wf(
            b,
            r,
            None,
            scoped,
        ),
        (PendingModel::Aql, ReplyModel::Items(r)) => lemma_loads_keep_wf(b, r, None, true),
        (PendingModel::Add, ReplyModel::Item(r)) => {
            assert(b.add_done(r).wf());
        },
        (PendingModel::Delete { item_id }, ReplyModel::Done(r)) => lemma_delete_keeps_wf(
            b,
            r,
            item_id,
        ),
        (PendingModel::Toggle { row, completed }, ReplyModel::Item(r)) => lemma_toggle_keeps_wf(
            b,
            r,
            row,
            completed,
        ),
        (PendingModel::Move { to_top }, ReplyModel::Item(r)) => {
            assert(b.move_done(r, to_top).0.wf());
        },
        (PendingModel::Save, ReplyModel::Item(r)) => {
            assert(b.save_done(r).0.wf());
        },
        _ => {},
    }
}

/// What the server reports leaves the browser valid.
pub proof fn law_poll_keeps_wf(b: Browser, events: Seq<WsEventModel>, closed: bool)
    requires
        b.wf(),
    ensures
        b.poll_ws_events(events, closed).0.wf(),
{
    law_events_change_only_the_connection(b, with_closing(events, closed));
}

/// Drawing leaves the browser valid.
pub proof fn law_render_keeps_wf(b: Browser, width: u16, height: u16)
    requires
        b.wf(),
    ensures
        b.viewed(width, height).wf(),
{
}

} // verus!
