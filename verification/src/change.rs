//! Changing items: adding, deleting, completing, moving, editing.
use vstd::prelude::*;
use vstd::string::*;
use crate::action::{done_result, item_result, Action, ActionModel, Pending, PendingModel};
use crate::api::{add_body, add_item, delete_item, item_fields, operation, update_fields, update_item_completed, update_item_fields, update_item_position};
use crate::dialog::DialogState;
use crate::editor::{EditForm, FormModel};
use crate::input::KeyInput;
use crate::edit::{flag_value, form_for, make_form, or_empty, parse_tags, tags_in, text_or_empty, text_value, DataModel, FormData};
use crate::items::{is_done, item_models, sort_items, sorted_items, ItemModel, ListItem};
use crate::json::{json_text, JsonModel};
use crate::state::{Browser, Doomed, DoomedModel, EditFocus, ListsTableBrowser, Panel, TableState};
use crate::text::same_text;

verus! {

// ---------------------------------------------------------------------------
// Tables
// ---------------------------------------------------------------------------
/// The first row with an item of this identifier.
pub open spec fn row_of(items: Seq<ItemModel>, id: Seq<char>) -> Option<int>
    decreases items.len(),
{
    if items.len() == 0 {
        None
    } else if items[0].id == id {
        Some(0int)
    } else {
        match row_of(items.drop_first(), id) {
            Some(i) => Some(i + 1),
            None => None,
        }
    }
}

/// The items without the first one of this identifier.
pub open spec fn without(items: Seq<ItemModel>, id: Seq<char>) -> Seq<ItemModel> {
    match row_of(items, id) {
        Some(i) => items.remove(i),
        None => items,
    }
}

/// The selection after an item was removed and so many are left: on the last row where the
/// selected row is gone, and on none where all rows are gone.
pub open spec fn reselected(state: TableState, len: nat) -> TableState {
    match state.selected {
        Some(i) => if len == 0 {
            TableState { selected: None }
        } else if i >= len {
            TableState { selected: Some((len - 1) as usize) }
        } else {
            state
        },
        None => state,
    }
}

/// The selection after the removal of an item, which may not have been there.
pub open spec fn selection_without(
    items: Seq<ItemModel>,
    id: Seq<char>,
    state: TableState,
) -> TableState {
    if row_of(items, id) is Some {
        reselected(state, without(items, id).len())
    } else {
        state
    }
}

/// The row that `row_of` gives exists and holds the identifier.
pub proof fn lemma_row_of(items: Seq<ItemModel>, id: Seq<char>)
    ensures
        row_of(items, id) matches Some(i) ==> 0 <= i < items.len() && items[i].id == id,
    decreases items.len(),
{
    if items.len() > 0 {
        lemma_row_of(items.drop_first(), id);
    }
}

/// Removes the first item of an identifier and mends the selection.
pub fn remove_item(items: &mut Vec<ListItem>, state: &mut TableState, id: &str)
    ensures
        item_models(final(items)@) == without(item_models(old(items)@), id@),
        *final(state) == selection_without(item_models(old(items)@), id@, *old(state)),
{
    let ghost all = item_models(items@);
    let mut i: usize = 0;
    proof {
        assert(all.skip(0) =~= all);
        lemma_row_of(all, id@);
    }
    while i < items.len()
        invariant
            i <= items@.len(),
            all == item_models(items@),
            items@ == old(items)@,
            *state == *old(state),
            match row_of(all.skip(i as int), id@) {
                Some(k) => row_of(all, id@) == Some(k + i),
                None => row_of(all, id@) is None,
            },
        decreases items@.len() - i,
    {
        proof {
            assert(all.skip(i as int).drop_first() =~= all.skip(i + 1));
            assert(all.skip(i as int)[0] == items@[i as int]@);
        }
        if same_text(items[i].id.as_str(), id) {
            items.remove(i);
            proof {
                assert(item_models(items@) =~= all.remove(i as int));
            }
            if let Some(selected) = state.selected {
                if selected >= items.len() && !items.is_empty() {
                    state.select(Some(items.len() - 1));
                } else if items.is_empty() {
                    state.select(None);
                }
            }
            return;
        }
        i += 1;
    }
}

/// The items with one of them marked as the server has it, in their order.
pub open spec fn marked(items: Seq<ItemModel>, row: usize, completed: Option<bool>) -> Seq<
    ItemModel,
> {
    sorted_items(
        if row < items.len() {
            items.update(row as int, ItemModel { completed, ..items[row as int] })
        } else {
            items
        },
    )
}

/// Marks an item as the server has it and sorts the items again.
pub fn mark_item(items: &mut Vec<ListItem>, row: usize, completed: Option<bool>)
    ensures
        item_models(final(items)@) == marked(item_models(old(items)@), row, completed),
{
    let ghost all = item_models(items@);
    if row < items.len() {
        items[row].completed = completed;
        proof {
            assert(item_models(items@) =~= all.update(
                row as int,
                ItemModel { completed, ..all[row as int] },
            ));
        }
    }
    sort_items(items);
}

// ---------------------------------------------------------------------------
// The transitions
// ---------------------------------------------------------------------------
impl Browser {
    /// Asks for a new item with the typed text, which is then used up. Without text nothing
    /// happens.
    pub open spec fn do_add_item(self) -> (Browser, ActionModel) {
        if self.add_item_text.len() == 0 {
            (self, ActionModel::Idle)
        } else {
            (
                Browser { add_item_text: Seq::empty(), ..self },
                match self.selected_list() {
                    Some(list) => ActionModel::Call {
                        request: operation(
                            self.base_url,
                            "item-add"@,
                            add_body(list.id, self.add_item_text),
                        ),
                        then: PendingModel::Add,
                    },
                    None => ActionModel::Idle,
                },
            )
        }
    }

    /// The state once the new item exists, or does not.
    pub open spec fn add_done(self, reply: Result<ItemModel, Seq<char>>) -> Browser {
        match reply {
            Ok(item) => Browser {
                items: self.items.insert(0, item),
                table_state: TableState { selected: Some(0usize) },
                ..self
            }.with_success("Item added"@),
            Err(e) => self.with_error("Failed to add item: "@ + e),
        }
    }

    /// Opens the dialog that asks whether the selected item is to be deleted.
    pub open spec fn delete_selected_item(self) -> Browser {
        match (self.selected_item(), self.selected_list()) {
            (Some(item), Some(list)) => Browser {
                delete_confirm: Some(
                    DoomedModel { list_id: list.id, item_id: item.id, title: item.title },
                ),
                dialog_state: DialogState { focused_button: None, open: true },
                ..self
            },
            _ => self,
        }
    }

    /// Asks for the item to be deleted, now that it was confirmed.
    pub open spec fn do_delete_confirmed(self) -> (Browser, ActionModel) {
        match self.delete_confirm {
            Some(doomed) => (
                Browser { delete_confirm: None, ..self },
                ActionModel::Call {
                    request: operation(
                        self.base_url,
                        "item-remove"@,
                        json_text(item_fields(doomed.list_id, doomed.item_id)),
                    ),
                    then: PendingModel::Delete { item_id: doomed.item_id },
                },
            ),
            None => (self, ActionModel::Idle),
        }
    }

    /// The state without an item in the table that is shown.
    pub open spec fn item_removed(self, id: Seq<char>) -> Browser {
        match self.view {
            Panel::Items => Browser {
                items: without(self.items, id),
                table_state: selection_without(self.items, id, self.table_state),
                ..self
            },
            Panel::Search => Browser {
                search_results: without(self.search_results, id),
                search_table_state: selection_without(
                    self.search_results,
                    id,
                    self.search_table_state,
                ),
                ..self
            },
            Panel::AqlQuery => Browser {
                aql_results: without(self.aql_results, id),
                aql_table_state: selection_without(self.aql_results, id, self.aql_table_state),
                ..self
            },
            _ => self,
        }
    }

    /// The state once the item is deleted, or could not be.
    pub open spec fn delete_done(self, reply: Result<(), Seq<char>>, id: Seq<char>) -> Browser {
        match reply {
            Ok(_) => if self.shows_table() {
                self.item_removed(id).with_success("Item deleted"@)
            } else {
                self
            },
            Err(e) => self.with_error("Failed to delete: "@ + e),
        }
    }

    /// Asks for the selected item to be completed, or opened again.
    pub open spec fn toggle_completed(self) -> ActionModel {
        match (self.selected_list(), self.selected_item(), self.current_table_state().selected) {
            (Some(list), Some(item), Some(row)) => ActionModel::Call {
                request: operation(
                    self.base_url,
                    "item-update"@,
                    json_text(
                        item_fields(list.id, item.id).insert(
                            "completed"@,
                            JsonModel::Bool(!is_done(item)),
                        ),
                    ),
                ),
                then: PendingModel::Toggle { row, completed: !is_done(item) },
            },
            _ => ActionModel::Idle,
        }
    }

    /// The state with an item marked in the table that is shown.
    pub open spec fn item_marked(self, row: usize, completed: Option<bool>) -> Browser {
        match self.view {
            Panel::Items => Browser { items: marked(self.items, row, completed), ..self },
            Panel::Search => Browser {
                search_results: marked(self.search_results, row, completed),
                ..self
            },
            Panel::AqlQuery => Browser {
                aql_results: marked(self.aql_results, row, completed),
                ..self
            },
            _ => self,
        }
    }

    /// The state once the item is marked, or could not be.
    pub open spec fn toggle_done(
        self,
        reply: Result<ItemModel, Seq<char>>,
        row: usize,
        completed: bool,
    ) -> Browser {
        match reply {
            Ok(item) => self.item_marked(row, item.completed).with_success(
                if completed {
                    "✓ Completed"@
                } else {
                    "○ Uncompleted"@
                },
            ),
            Err(e) => self.with_error("Failed to update: "@ + e),
        }
    }

    /// Asks for the selected item to be moved to the top or to the bottom of its list. Results of
    /// searches and queries have no place to be moved to.
    pub open spec fn move_item(self, to_top: bool) -> (Browser, ActionModel) {
        if self.view != Panel::Items {
            (self.with_status("Move only works in list view"@), ActionModel::Idle)
        } else {
            match (self.selected_item(), self.selected_list()) {
                (Some(item), Some(list)) => (
                    self,
                    ActionModel::Call {
                        request: operation(
                            self.base_url,
                            "item-update"@,
                            json_text(
                                item_fields(list.id, item.id).insert(
                                    "position"@,
                                    JsonModel::Number(
                                        if to_top {
                                            0
                                        } else {
                                            (self.items.len() - 1) as nat
                                        },
                                    ),
                                ),
                            ),
                        ),
                        then: PendingModel::Move { to_top },
                    },
                ),
                _ => (self, ActionModel::Idle),
            }
        }
    }

    /// The state once the item is moved, or could not be: a moved item is seen by loading the list
    /// again.
    pub open spec fn move_done(self, reply: Result<ItemModel, Seq<char>>, to_top: bool) -> (
        Browser,
        ActionModel,
    ) {
        match reply {
            Ok(_) => self.with_success(
                if to_top {
                    "↑ Moved to top"@
                } else {
                    "↓ Moved to bottom"@
                },
            ).load_items(None),
            Err(e) => (self.with_error("Failed to move: "@ + e), ActionModel::Idle),
        }
    }

    /// Opens the form for the item in view.
    pub open spec fn start_edit(self) -> Browser {
        match self.item_in_view() {
            Some(item) => Browser {
                edit_item: Some(item),
                edit_form: Some(FormModel::fresh(form_for(item))),
                edit_notes: self.edit_notes.refilled(or_empty(item.notes)),
                edit_focus: EditFocus::Form,
                view: Panel::Edit,
                ..self
            },
            None => self,
        }
    }

    /// The state with the form closed.
    pub open spec fn edit_closed(self) -> Browser {
        Browser { edit_item: None, edit_form: None, ..self }
    }

    /// Asks for the given values and notes to be saved. Empty notes are left as they were.
    pub open spec fn save_values(self, data: DataModel, notes: Seq<char>) -> ActionModel {
        match (self.edit_item, self.selected_list()) {
            (Some(item), Some(list)) => ActionModel::Call {
                request: operation(
                    self.base_url,
                    "item-update"@,
                    json_text(
                        update_fields(
                            list.id,
                            item.id,
                            text_value(data, "Title"@),
                            text_value(data, "URL"@),
                            match text_value(data, "Tags"@) {
                                Some(text) => Some(tags_in(text)),
                                None => None,
                            },
                            if notes.len() == 0 {
                                None
                            } else {
                                Some(notes)
                            },
                            flag_value(data, "Completed"@),
                        ),
                    ),
                ),
                then: PendingModel::Save,
            },
            _ => ActionModel::Idle,
        }
    }

    /// The state after a key for the notes.
    pub open spec fn notes_pressed(self, key: KeyInput) -> Browser {
        Browser {
            edit_notes: self.edit_notes.after_key(key.code, key.shift, key.ctrl),
            ..self
        }
    }

    /// Asks for what the form and the notes hold to be saved.
    pub open spec fn save_edit(self) -> ActionModel {
        match self.edit_form {
            Some(form) => self.save_values(form.values, self.edit_notes.area.text),
            None => ActionModel::Idle,
        }
    }

    /// The state once the item is saved, or could not be: either way the form is closed, and a
    /// saved item is seen by loading the list again.
    pub open spec fn save_done(self, reply: Result<ItemModel, Seq<char>>) -> (
        Browser,
        ActionModel,
    ) {
        match reply {
            Ok(_) => Browser { view: Panel::Items, ..self }.edit_closed().with_success(
                "Item saved"@,
            ).load_items(None),
            Err(e) => (self.edit_closed().with_error("Failed to save: "@ + e), ActionModel::Idle),
        }
    }

    /// The state with the form given up.
    pub open spec fn cancel_edit(self) -> Browser {
        Browser { view: Panel::Items, ..self.edit_closed() }
    }
}

impl ListsTableBrowser {
    /// Asks for a new item with the typed text.
    pub fn do_add_item(&mut self) -> (r: Action)
        ensures
            (final(self)@, r@) == old(self)@.do_add_item(),
    {
        if self.add_item_text.as_str().is_empty() {
            return Action::Idle;
        }
        let action = match self.selected_list_id() {
            Some(id) => Action::Call {
                request: add_item(
                    self.base_url.as_str(),
                    id.as_str(),
                    self.add_item_text.as_str(),
                ),
                then: Pending::Add,
            },
            None => Action::Idle,
        };
        self.add_item_text.clear();
        action
    }

    /// Takes the new item, or the reason why there is none.
    pub fn add_done(&mut self, reply: Result<ListItem, String>)
        ensures
            final(self)@ == old(self)@.add_done(item_result(reply)),
    {
        match reply {
            Ok(item) => {
                let ghost before = self.items@;
                let ghost model = item@;
                self.items.insert(0, item);
                proof {
                    assert(item_models(self.items@) =~= item_models(before).insert(0, model));
                }
                self.table_state.select(Some(0));
                self.succeed("Item added".to_owned());
            },
            Err(e) => self.fail("Failed to add item: ", e.as_str()),
        }
    }

    /// Opens the dialog that asks whether the selected item is to be deleted.
    pub fn delete_selected_item(&mut self)
        ensures
            final(self)@ == old(self)@.delete_selected_item(),
    {
        let doomed = match (self.selected_item(), self.selected_list_id()) {
            (Some(item), Some(list_id)) => Some(
                Doomed { list_id, item_id: item.id.clone(), title: item.title.clone() },
            ),
            _ => None,
        };
        if doomed.is_some() {
            self.delete_confirm = doomed;
            self.dialog_state = DialogState::new();
        }
    }

    /// Asks for the item to be deleted, now that it was confirmed.
    pub fn do_delete_confirmed(&mut self) -> (r: Action)
        ensures
            (final(self)@, r@) == old(self)@.do_delete_confirmed(),
    {
        match self.delete_confirm.take() {
            Some(doomed) => Action::Call {
                request: delete_item(
                    self.base_url.as_str(),
                    doomed.list_id.as_str(),
                    doomed.item_id.as_str(),
                ),
                then: Pending::Delete { item_id: doomed.item_id },
            },
            None => Action::Idle,
        }
    }

    /// Takes the news that the item is deleted, or the reason why it is not.
    pub fn delete_done(&mut self, reply: Result<(), String>, id: &str)
        ensures
            final(self)@ == old(self)@.delete_done(done_result(reply), id@),
    {
        match reply {
            Ok(_) => {
                match self.view {
                    Panel::Items => remove_item(&mut self.items, &mut self.table_state, id),
                    Panel::Search => remove_item(
                        &mut self.search_results,
                        &mut self.search_table_state,
                        id,
                    ),
                    Panel::AqlQuery => remove_item(
                        &mut self.aql_results,
                        &mut self.aql_table_state,
                        id,
                    ),
                    _ => {
                        return;
                    },
                }
                self.succeed("Item deleted".to_owned());
            },
            Err(e) => self.fail("Failed to delete: ", e.as_str()),
        }
    }

    /// Asks for the selected item to be completed, or opened again.
    pub fn toggle_completed(&self) -> (r: Action)
        ensures
            r@ == self@.toggle_completed(),
    {
        match (self.selected_list(), self.selected_item(), self.current_table_state().selected) {
            (Some(list), Some(item), Some(row)) => {
                let completed = !item.done();
                Action::Call {
                    request: update_item_completed(
                        self.base_url.as_str(),
                        list.id.as_str(),
                        item.id.as_str(),
                        completed,
                    ),
                    then: Pending::Toggle { row, completed },
                }
            },
            _ => Action::Idle,
        }
    }

    /// Takes the item as the server has it now, or the reason why it is as it was.
    pub fn toggle_done(&mut self, reply: Result<ListItem, String>, row: usize, completed: bool)
        ensures
            final(self)@ == old(self)@.toggle_done(item_result(reply), row, completed),
    {
        match reply {
            Ok(item) => {
                match self.view {
                    Panel::Items => mark_item(&mut self.items, row, item.completed),
                    Panel::Search => mark_item(&mut self.search_results, row, item.completed),
                    Panel::AqlQuery => mark_item(&mut self.aql_results, row, item.completed),
                    _ => {},
                }
                let text = if completed {
                    "✓ Completed".to_owned()
                } else {
                    "○ Uncompleted".to_owned()
                };
                self.succeed(text);
            },
            Err(e) => self.fail("Failed to update: ", e.as_str()),
        }
    }

    /// Asks for the selected item to be moved to the top or to the bottom of its list.
    fn move_item(&mut self, to_top: bool) -> (r: Action)
        ensures
            (final(self)@, r@) == old(self)@.move_item(to_top),
    {
        if self.view != Panel::Items {
            self.status_message = Some("Move only works in list view".to_owned());
            return Action::Idle;
        }
        match (self.selected_item(), self.selected_list()) {
            (Some(item), Some(list)) => {
                let position: usize = if to_top {
                    0
                } else {
                    self.items.len() - 1
                };
                Action::Call {
                    request: update_item_position(
                        self.base_url.as_str(),
                        list.id.as_str(),
                        item.id.as_str(),
                        position,
                    ),
                    then: Pending::Move { to_top },
                }
            },
            _ => Action::Idle,
        }
    }

    /// Asks for the selected item to be moved to the top of its list.
    pub fn move_to_top(&mut self) -> (r: Action)
        ensures
            (final(self)@, r@) == old(self)@.move_item(true),
    {
        self.move_item(true)
    }

    /// Asks for the selected item to be moved to the bottom of its list.
    pub fn move_to_bottom(&mut self) -> (r: Action)
        ensures
            (final(self)@, r@) == old(self)@.move_item(false),
    {
        self.move_item(false)
    }

    /// Takes the news that the item is moved, or the reason why it is not.
    pub fn move_done(&mut self, reply: Result<ListItem, String>, to_top: bool) -> (r: Action)
        ensures
            (final(self)@, r@) == old(self)@.move_done(item_result(reply), to_top),
    {
        match reply {
            Ok(_) => {
                let text = if to_top {
                    "↑ Moved to top".to_owned()
                } else {
                    "↓ Moved to bottom".to_owned()
                };
                self.succeed(text);
                self.load_items(None)
            },
            Err(e) => {
                self.fail("Failed to move: ", e.as_str());
                Action::Idle
            },
        }
    }

    /// Opens the form for the item in view.
    pub fn start_edit(&mut self)
        ensures
            final(self)@ == old(self)@.start_edit(),
    {
        let item = match self.item_in_view() {
            Some(item) => item.clone(),
            None => {
                return;
            },
        };
        let notes = text_or_empty(&item.notes);
        self.edit_form = Some(EditForm::new(make_form(&item)));
        self.edit_notes.refill(notes.as_str());
        self.edit_item = Some(item);
        self.edit_focus = EditFocus::Form;
        self.view = Panel::Edit;
    }

    /// Asks for the given values and notes to be saved.
    pub fn save_values(&self, data: &FormData, notes: &str) -> (r: Action)
        ensures
            r@ == self@.save_values(data@, notes@),
    {
        match (&self.edit_item, self.selected_list()) {
            (Some(item), Some(list)) => {
                let tags = match data.text("Tags") {
                    Some(text) => Some(parse_tags(text)),
                    None => None,
                };
                let kept_notes = if notes.is_empty() {
                    None
                } else {
                    Some(notes)
                };
                Action::Call {
                    request: update_item_fields(
                        self.base_url.as_str(),
                        list.id.as_str(),
                        item.id.as_str(),
                        data.text("Title"),
                        data.text("URL"),
                        tags,
                        kept_notes,
                        data.flag("Completed"),
                    ),
                    then: Pending::Save,
                }
            },
            _ => Action::Idle,
        }
    }

    /// Asks for what the form and the notes hold to be saved.
    pub fn save_edit(&self) -> (r: Action)
        ensures
            r@ == self@.save_edit(),
    {
        match &self.edit_form {
            Some(form) => {
                let data = form.data();
                let notes = self.edit_notes.text();
                self.save_values(&data, notes.as_str())
            },
            None => Action::Idle,
        }
    }

    /// Hands the press of a key to the notes of the edit view, which type it, delete, or leave the
    /// text as it is. Nothing else changes.
    pub fn edit_notes_event(&mut self, key: KeyInput)
        ensures
            final(self)@ == old(self)@.notes_pressed(key),
            old(self)@.edit_notes.area.took(
                key.code,
                key.shift,
                key.ctrl,
                final(self)@.edit_notes.area,
            ),
            old(self)@.wf() ==> final(self)@.wf(),
    {
        self.edit_notes.press(key.code, key.shift, key.ctrl);
    }

    /// Takes the news that the item is saved, or the reason why it is not.
    pub fn save_done(&mut self, reply: Result<ListItem, String>) -> (r: Action)
        ensures
            (final(self)@, r@) == old(self)@.save_done(item_result(reply)),
    {
        self.edit_item = None;
        self.edit_form = None;
        match reply {
            Ok(_) => {
                self.view = Panel::Items;
                self.succeed("Item saved".to_owned());
                self.load_items(None)
            },
            Err(e) => {
                self.fail("Failed to save: ", e.as_str());
                Action::Idle
            },
        }
    }

    /// Gives the form up.
    pub fn cancel_edit(&mut self)
        ensures
            final(self)@ == old(self)@.cancel_edit(),
    {
        self.edit_item = None;
        self.edit_form = None;
        self.view = Panel::Items;
    }
}

} // verus!
