//! What clicks, sorting, the dialog and the edit view come to.
use vstd::prelude::*;
use vstd::string::*;
use crate::action::{ActionModel, PendingModel};
use crate::column::{Column, SortDirection};
use crate::edit::tags_in;
use crate::editor::{area_after, form_after, FormModel, NotesModel};
use crate::input::{Input, Key, MouseInput, MouseKind};
use crate::json::JsonModel;
use crate::mouse::column_at;
use crate::promises::{asks_for_query, chosen_list, chosen_row, lemma_chosen, opens_list, post, rows, runs_query, with_row};
use crate::query::{law_sort_keeps_columns, show_clause, with_order};
use crate::reading::{begins_with, has_keyword, law_order_clauses, law_order_is_set};
use crate::state::{passing, Browser, ColumnSpan, EditFocus, Focus, Panel};
use crate::text::{ascii_lowercase, occurs_at};

verus! {

// ---------------------------------------------------------------------------
// Sorting
// ---------------------------------------------------------------------------
/// The clause that sorting by a column sets.
pub open spec fn sort_clause(column: Column, direction: SortDirection) -> Seq<char> {
    "order by "@ + (match column {
        Column::Status => "completed"@,
        Column::Title => "title"@,
        Column::Tags => "tags"@,
        Column::Url => "url"@,
        Column::Notes => "notes"@,
    }) + (if direction == SortDirection::Asc {
        " asc"@
    } else {
        " desc"@
    })
}

/// The direction of a sort: the other one for the column that is sorted by already, else downwards.
pub open spec fn sort_direction(b: Browser, column: Column) -> SortDirection {
    if b.sort_column == Some(column) && b.sort_direction == SortDirection::Desc {
        SortDirection::Asc
    } else {
        SortDirection::Desc
    }
}

/// In every view, whatever else the state holds, sorting by a column sets the column, the direction
/// and the order clause of the query, and runs the query. Nothing else changes.
pub proof fn law_sort_runs_query(b: Browser, column: Column)
    ensures
        runs_query(
            Browser {
                sort_column: Some(column),
                sort_direction: sort_direction(b, column),
                aql_query: with_order(
                    b.aql_query,
                    sort_clause(column, sort_direction(b, column)),
                ),
                ..b
            },
            b.sort_by_column(column),
        ),
{
    law_order_clauses(column);
    let sorted = Browser {
        sort_column: Some(column),
        sort_direction: sort_direction(b, column),
        aql_query: with_order(b.aql_query, sort_clause(column, sort_direction(b, column))),
        ..b
    };
    lemma_chosen(sorted);
    assert(b.sorted_by(column) == sorted);
}

/// Sorting a query that is not sorted yet keeps the query, whatever its conditions, with the clause
/// behind it: that is what is asked of the chosen list.
pub proof fn law_sort_keeps_query(b: Browser, column: Column)
    requires
        b.aql_query.len() > 0,
        !has_keyword(b.aql_query, " order by "@),
        !begins_with(b.aql_query, "order by "@),
        chosen_list(b) is Some,
    ensures
        ({
            let query = b.aql_query + " "@ + sort_clause(column, sort_direction(b, column));
            &&& b.sort_by_column(column).0.aql_query == query
            &&& b.sort_by_column(column).1 == asks_for_query(b, chosen_list(b)->0, query)
        }),
{
    law_sort_runs_query(b, column);
    law_order_is_set(b.aql_query, Seq::empty(), sort_clause(column, sort_direction(b, column)));
}

/// Sorting a query without order clause leaves the columns that it lists.
pub proof fn law_sort_keeps_listed_columns(b: Browser, column: Column)
    requires
        chosen_list(b) is Some,
        forall|j: int| !occurs_at(ascii_lowercase(b.aql_query), " order "@, j),
        !occurs_at(ascii_lowercase(b.aql_query), " order"@, b.aql_query.len() - 6),
        !occurs_at(ascii_lowercase(b.aql_query), "order by "@, 0),
    ensures
        b.sort_by_column(column).0.aql_columns == show_clause(b.aql_query),
{
    reveal_strlit("order by ");
    law_sort_runs_query(b, column);
    law_order_clauses(column);
    law_sort_keeps_columns(b.aql_query, column, sort_direction(b, column));
    let clause = sort_clause(column, sort_direction(b, column));
    assert(clause.len() > 0);
    assert(with_order(b.aql_query, clause).len() > 0);
}

/// A position belongs to the first column whose span holds it.
pub proof fn law_column_at(spans: Seq<ColumnSpan>, x: u16, i: int)
    requires
        0 <= i < spans.len(),
        spans[i].1 <= x < spans[i].2,
        forall|j: int| 0 <= j < i ==> !((#[trigger] spans[j]).1 <= x < spans[j].2),
    ensures
        column_at(spans, x) == Some(spans[i].0),
    decreases i,
{
    if i > 0 {
        assert(!(spans[0].1 <= x < spans[0].2));
        let rest = spans.drop_first();
        assert forall|j: int| 0 <= j < i - 1 implies !((#[trigger] rest[j]).1 <= x < rest[j].2) by {
            assert(rest[j] == spans[j + 1]);
        }
        law_column_at(rest, x, i - 1);
    }
}

/// A position that no span holds belongs to no column.
pub proof fn law_no_column_at(spans: Seq<ColumnSpan>, x: u16)
    requires
        forall|j: int| 0 <= j < spans.len() ==> !((#[trigger] spans[j]).1 <= x < spans[j].2),
    ensures
        column_at(spans, x) is None,
    decreases spans.len(),
{
    if spans.len() > 0 {
        let rest = spans.drop_first();
        assert forall|j: int| 0 <= j < rest.len() implies !((#[trigger] rest[j]).1 <= x
            < rest[j].2) by {
            assert(rest[j] == spans[j + 1]);
        }
        law_no_column_at(rest, x);
    }
}

// ---------------------------------------------------------------------------
// Clicks
// ---------------------------------------------------------------------------
/// A click.
pub open spec fn click_at(x: u16, y: u16) -> Input {
    Input::Mouse(MouseInput { kind: MouseKind::LeftDown, x, y })
}

/// Whether clicks are heeded: no dialog is open and no item is edited.
pub open spec fn heeds_clicks(b: Browser) -> bool {
    !(b.delete_confirm is Some && b.dialog_state.open) && b.view != Panel::Edit
}

/// A click on a row of the sidebar moves the focus there, chooses the list of that row and opens
/// it; below the last list it only moves the focus.
pub proof fn law_click_in_sidebar(b: Browser, x: u16, y: u16)
    requires
        heeds_clicks(b),
        b.sidebar_area.has_cell(x, y),
    ensures
        ({
            let row = y - b.sidebar_area.y;
            let shown = passing(b.lists, b.list_filter);
            let focused = Browser { focus: Focus::Sidebar, ..b };
            let opened = Browser { list_index: row as usize, ..focused };
            &&& row < shown.len() ==> b.update(click_at(x, y)) == (opened, opens_list(opened))
            &&& row >= shown.len() ==> b.update(click_at(x, y)) == (focused, ActionModel::Idle)
        }),
{
    let row = y - b.sidebar_area.y;
    lemma_chosen(Browser { list_index: row as usize, focus: Focus::Sidebar, ..b });
}

/// A click on a row of a table moves the focus there and chooses the row; on the chosen row it shows
/// its item in full, from the top. Below the last row it only moves the focus.
pub proof fn law_click_on_row(b: Browser, x: u16, y: u16)
    requires
        heeds_clicks(b),
        !b.sidebar_area.has_cell(x, y),
        b.table_area.has_cell(x, y),
        y > b.table_area.y,
    ensures
        ({
            let row = y - b.table_area.y - 1;
            let focused = Browser { focus: Focus::Table, ..b };
            let after = b.update(click_at(x, y));
            &&& after.1 == ActionModel::Idle
            &&& row >= rows(b).len() ==> after.0 == focused
            &&& row < rows(b).len() && chosen_row(b) != Some(row as usize) ==> after.0 == with_row(
                focused,
                Some(row as usize),
            )
            &&& row < rows(b).len() && chosen_row(b) == Some(row as usize) ==> after.0 == (Browser {
                detail_item: Some(rows(b)[row]),
                detail_scroll: 0,
                view: Panel::Detail,
                ..focused
            })
        }),
{
    let focused = Browser { focus: Focus::Table, ..b };
    lemma_chosen(focused);
    assert(rows(focused) == rows(b));
    assert(chosen_row(focused) == chosen_row(b));
}

/// A click on a heading moves the focus to the table, and in a list or the results of a query sorts
/// by its column; a click elsewhere hits nothing.
pub proof fn law_click_on_heading(b: Browser, x: u16, y: u16)
    requires
        heeds_clicks(b),
        !b.sidebar_area.has_cell(x, y),
    ensures
        ({
            let focused = Browser { focus: Focus::Table, ..b };
            let after = b.update(click_at(x, y));
            let sortable = b.view == Panel::Items || b.view == Panel::AqlQuery;
            &&& !b.table_area.has_cell(x, y) ==> after == (b, ActionModel::Idle)
            &&& b.table_area.has_cell(x, y) && y == b.table_area.y ==> {
                &&& !sortable || column_at(b.column_positions, x) is None ==> after == (
                    focused,
                    ActionModel::Idle,
                )
                &&& sortable && column_at(b.column_positions, x) is Some ==> after
                    == focused.sort_by_column(column_at(b.column_positions, x)->0)
            }
        }),
{
}

// ---------------------------------------------------------------------------
// The dialog
// ---------------------------------------------------------------------------
/// While the dialog is open only it listens, and only to presses. Enter on its first button asks the
/// server to delete the item it was opened for; Enter on the second and Escape give that up; Tab and
/// the arrows to the sides go to the other button. All but the last close it. Nothing else changes.
pub proof fn law_dialog(b: Browser, input: Input)
    requires
        b.delete_confirm is Some,
        b.dialog_state.open,
        b.dialog_state.wf(),
    ensures
        ({
            let after = b.update(input);
            let doomed = b.delete_confirm->0;
            let on_second = b.dialog_state.focused_button == Some(1usize);
            let closed = Browser {
                delete_confirm: None,
                dialog_state: crate::dialog::DialogState { open: false, ..b.dialog_state },
                ..b
            };
            match input {
                Input::Key(key) => if key.press && key.code == Key::Enter && !on_second {
                    after == (
                        closed,
                        ActionModel::Call {
                            request: post(
                                b.base_url,
                                "item-remove"@,
                                Map::empty().insert("listId"@, JsonModel::Text(doomed.list_id)).insert(
                                    "id"@,
                                    JsonModel::Text(doomed.item_id),
                                ),
                            ),
                            then: PendingModel::Delete { item_id: doomed.item_id },
                        },
                    )
                } else if key.press && (key.code == Key::Enter || key.code == Key::Escape) {
                    after == (closed, ActionModel::Idle)
                } else if key.press && (key.code == Key::Tab || key.code == Key::Left || key.code
                    == Key::Right) {
                    after == (
                        Browser {
                            dialog_state: crate::dialog::DialogState {
                                focused_button: Some(
                                    if on_second {
                                        0usize
                                    } else {
                                        1usize
                                    },
                                ),
                                ..b.dialog_state
                            },
                            ..b
                        },
                        ActionModel::Idle,
                    )
                } else {
                    after == (b, ActionModel::Idle)
                },
                _ => after == (b, ActionModel::Idle),
            }
        }),
{
}

// ---------------------------------------------------------------------------
// The edit view
// ---------------------------------------------------------------------------
/// Whether an item is edited and no dialog is open.
pub open spec fn editing(b: Browser) -> bool {
    !(b.delete_confirm is Some && b.dialog_state.open) && b.view == Panel::Edit
}

/// In the edit view Escape gives the edit up and shows the list; Tab goes from the form to the notes
/// to the buttons and round again, and with Shift the other way; keys go to the form or the notes,
/// whichever has the focus; Enter on the buttons saves. Only presses count, and the mouse does not.
pub proof fn law_edit_keys(b: Browser, input: Input)
    requires
        editing(b),
    ensures
        ({
            let after = b.update(input);
            match input {
                Input::Key(key) => if !key.press {
                    after == (b, ActionModel::Idle)
                } else if key.code == Key::Escape {
                    after == (
                        Browser { view: Panel::Items, edit_item: None, edit_form: None, ..b },
                        ActionModel::Idle,
                    )
                } else if key.code == Key::Tab {
                    let forth = b.edit_focus == EditFocus::Form && after.0.edit_focus
                        == EditFocus::Notes || b.edit_focus == EditFocus::Notes
                        && after.0.edit_focus == EditFocus::Buttons || b.edit_focus
                        == EditFocus::Buttons && after.0.edit_focus == EditFocus::Form;
                    &&& after == (
                        Browser { edit_focus: after.0.edit_focus, ..b },
                        ActionModel::Idle,
                    )
                    &&& after.0.edit_focus != b.edit_focus
                    &&& forth == !key.shift
                } else if b.edit_focus == EditFocus::Form {
                    &&& after.1 == ActionModel::Idle
                    &&& b.edit_form is None ==> after.0 == b
                    &&& b.edit_form matches Some(form) ==> ({
                        let bits: int = (if key.shift {
                            1int
                        } else {
                            0
                        }) + (if key.ctrl {
                            4int
                        } else {
                            0
                        });
                        let pressed = form_after(form.values, form.place, key.code, bits as u8);
                        after.0 == (Browser {
                            edit_form: Some(FormModel { values: pressed.0, place: pressed.1 }),
                            ..b
                        })
                    })
                } else if b.edit_focus == EditFocus::Notes {
                    after == (
                        Browser {
                            edit_notes: NotesModel {
                                area: area_after(
                                    b.edit_notes.area,
                                    key.code,
                                    key.shift,
                                    key.ctrl,
                                    b.edit_notes.wide,
                                ),
                                ..b.edit_notes
                            },
                            ..b
                        },
                        ActionModel::Idle,
                    )
                } else {
                    after == (
                        b,
                        if key.code == Key::Enter {
                            b.save_edit()
                        } else {
                            ActionModel::Idle
                        },
                    )
                },
                _ => after == (b, ActionModel::Idle),
            }
        }),
{
}

/// The fields that saving an item sends: the title, the address or that there is none, the tags, the
/// notes where there are any, and whether the item is completed.
pub open spec fn saved_fields(
    list_id: Seq<char>,
    item_id: Seq<char>,
    title: Seq<char>,
    url: Seq<char>,
    tags: Seq<char>,
    notes: Seq<char>,
    completed: bool,
) -> Map<Seq<char>, JsonModel> {
    let fields = Map::empty().insert("listId"@, JsonModel::Text(list_id)).insert(
        "id"@,
        JsonModel::Text(item_id),
    ).insert("title"@, JsonModel::Text(title)).insert(
        "url"@,
        if url.len() == 0 {
            JsonModel::Null
        } else {
            JsonModel::Text(url)
        },
    ).insert("tags"@, JsonModel::Texts(tags_in(tags)));
    (if notes.len() > 0 {
        fields.insert("notes"@, JsonModel::Text(notes))
    } else {
        fields
    }).insert("completed"@, JsonModel::Bool(completed))
}

/// Saving asks the server to give the edited item of the chosen list what the form and the notes
/// hold. Without an edited item, a form or a chosen list nothing is asked.
pub proof fn law_save_asks(b: Browser)
    requires
        b.wf(),
    ensures
        b.edit_item is None || chosen_list(b) is None ==> b.save_edit() == ActionModel::Idle,
        b.edit_item is Some && chosen_list(b) is Some ==> ({
            let values = b.edit_form->0.values;
            b.save_edit() == (ActionModel::Call {
                request: post(
                    b.base_url,
                    "item-update"@,
                    saved_fields(
                        chosen_list(b)->0.id,
                        b.edit_item->0.id,
                        values[0].1->Text_0,
                        values[1].1->Text_0,
                        values[2].1->Text_0,
                        b.edit_notes.area.text,
                        values[3].1->Bool_0,
                    ),
                ),
                then: PendingModel::Save,
            })
        }),
{
    lemma_chosen(b);
    if b.edit_item is Some && chosen_list(b) is Some {
        crate::laws::law_save_is_complete(b);
    }
}

} // verus!
