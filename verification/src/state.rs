//! The state of the browser: what it holds, what is selected, and what is valid.
use vstd::prelude::*;
use vstd::string::*;
use crate::column::{Column, SortDirection};
use crate::dialog::DialogState;
use crate::edit::item_shape;
use crate::editor::{EditForm, FormModel, NotesArea, NotesModel};
use crate::items::{item_models, list_models, opt_item, opt_text, ItemModel, ListInfo, ListItem, ListModel};
use crate::layout::Area;
use crate::query::opt_columns;
use crate::text::{contains, lowercase, occurs_in, to_lowercase};

verus! {

/// What the main panel shows.
#[derive(Debug, Clone, Copy, PartialEq, Eq, Structural)]
pub enum Panel {
    Lists,
    Items,
    Search,
    AqlQuery,
    Detail,
    Edit,
}

/// Which side the keys act on.
#[derive(Debug, Clone, Copy, PartialEq, Eq, Structural)]
pub enum Focus {
    Sidebar,
    Table,
}

/// What typed characters go to.
#[derive(Debug, Clone, Copy, PartialEq, Eq, Structural)]
pub enum InputMode {
    Normal,
    Search,
    AddItem,
    AqlQuery,
    ListFilter,
}

/// Which part of the edit view the keys act on.
#[derive(Debug, Clone, Copy, PartialEq, Eq, Structural)]
pub enum EditFocus {
    Form,
    Notes,
    Buttons,
}

impl EditFocus {
    /// The part after this one; the first follows the last.
    pub open spec fn following(self) -> EditFocus {
        match self {
            EditFocus::Form => EditFocus::Notes,
            EditFocus::Notes => EditFocus::Buttons,
            EditFocus::Buttons => EditFocus::Form,
        }
    }

    /// The part before this one; the last precedes the first.
    pub open spec fn preceding(self) -> EditFocus {
        match self {
            EditFocus::Form => EditFocus::Buttons,
            EditFocus::Notes => EditFocus::Form,
            EditFocus::Buttons => EditFocus::Notes,
        }
    }

    /// The part after this one; the first follows the last.
    pub fn next(self) -> (r: EditFocus)
        ensures
            r == self.following(),
    {
        match self {
            EditFocus::Form => EditFocus::Notes,
            EditFocus::Notes => EditFocus::Buttons,
            EditFocus::Buttons => EditFocus::Form,
        }
    }

    /// The part before this one; the last precedes the first.
    pub fn prev(self) -> (r: EditFocus)
        ensures
            r == self.preceding(),
    {
        match self {
            EditFocus::Form => EditFocus::Buttons,
            EditFocus::Notes => EditFocus::Form,
            EditFocus::Buttons => EditFocus::Notes,
        }
    }
}

/// Going forth and back, in either order, ends where it began; three steps go round.
pub proof fn law_edit_focus_cycles(f: EditFocus)
    ensures
        f.following().preceding() == f,
        f.preceding().following() == f,
        f.following().following().following() == f,
        f.following() != f,
{
}

/// The selection in a table.
#[derive(Debug, Clone, Copy, PartialEq, Eq)]
pub struct TableState {
    pub selected: Option<usize>,
}

impl TableState {
    /// Selects a row, or none.
    pub fn select(&mut self, row: Option<usize>)
        ensures
            *final(self) == (TableState { selected: row }),
    {
        self.selected = row;
    }

    /// The selection in a table that was just filled: the first row, where there is one.
    pub open spec fn first_of(len: nat) -> TableState {
        TableState {
            selected: if len == 0 {
                None
            } else {
                Some(0usize)
            },
        }
    }

    /// Selects the first row, where there is one.
    pub fn select_first(&mut self, len: usize)
        ensures
            *final(self) == TableState::first_of(len as nat),
    {
        self.selected = if len == 0 {
            None
        } else {
            Some(0)
        };
    }

    /// The selected row is one of so many rows.
    pub open spec fn within(self, len: nat) -> bool {
        self.selected matches Some(i) ==> i < len
    }
}

/// A column and the cells it takes: from the first position up to the second.
pub type ColumnSpan = (Column, u16, u16);

/// An item that is to be deleted once that is confirmed.
#[derive(Debug)]
pub struct Doomed {
    pub list_id: String,
    pub item_id: String,
    pub title: String,
}

/// What a `Doomed` holds.
pub struct DoomedModel {
    pub list_id: Seq<char>,
    pub item_id: Seq<char>,
    pub title: Seq<char>,
}

/// The browser.
pub struct ListsTableBrowser {
    pub base_url: String,
    /// The names of the lists to keep, as the environment gives them.
    pub lists_filter: String,
    // Data
    pub lists: Vec<ListInfo>,
    pub items: Vec<ListItem>,
    pub search_results: Vec<ListItem>,
    pub aql_results: Vec<ListItem>,
    // Selection
    pub list_index: usize,
    pub table_state: TableState,
    pub search_table_state: TableState,
    pub aql_table_state: TableState,
    // What is shown, and what is typed
    pub view: Panel,
    pub focus: Focus,
    pub input_mode: InputMode,
    pub search_query: String,
    pub add_item_text: String,
    pub aql_query: String,
    pub list_filter: String,
    pub aql_columns: Option<Vec<Column>>,
    pub sort_column: Option<Column>,
    pub sort_direction: SortDirection,
    // Detail view
    pub detail_item: Option<ListItem>,
    pub detail_scroll: usize,
    // Places that the mouse can hit
    pub sidebar_area: Area,
    pub table_area: Area,
    pub column_positions: Vec<ColumnSpan>,
    // Live connection
    pub ws_open: bool,
    pub ws_connected: bool,
    // Deletion
    pub delete_confirm: Option<Doomed>,
    pub dialog_state: DialogState,
    // Edit view
    pub edit_item: Option<ListItem>,
    pub edit_form: Option<EditForm>,
    pub edit_notes: NotesArea,
    pub edit_focus: EditFocus,
    // Messages
    pub status_message: Option<String>,
    pub error_message: Option<String>,
}

/// What the browser holds.
pub struct Browser {
    pub base_url: Seq<char>,
    pub lists_filter: Seq<char>,
    pub lists: Seq<ListModel>,
    pub items: Seq<ItemModel>,
    pub search_results: Seq<ItemModel>,
    pub aql_results: Seq<ItemModel>,
    pub list_index: usize,
    pub table_state: TableState,
    pub search_table_state: TableState,
    pub aql_table_state: TableState,
    pub view: Panel,
    pub focus: Focus,
    pub input_mode: InputMode,
    pub search_query: Seq<char>,
    pub add_item_text: Seq<char>,
    pub aql_query: Seq<char>,
    pub list_filter: Seq<char>,
    pub aql_columns: Option<Seq<Column>>,
    pub sort_column: Option<Column>,
    pub sort_direction: SortDirection,
    pub detail_item: Option<ItemModel>,
    pub detail_scroll: usize,
    pub sidebar_area: Area,
    pub table_area: Area,
    pub column_positions: Seq<ColumnSpan>,
    pub ws_open: bool,
    pub ws_connected: bool,
    pub delete_confirm: Option<DoomedModel>,
    pub dialog_state: DialogState,
    pub edit_item: Option<ItemModel>,
    pub edit_form: Option<FormModel>,
    pub edit_notes: NotesModel,
    pub edit_focus: EditFocus,
    pub status_message: Option<Seq<char>>,
    pub error_message: Option<Seq<char>>,
}

/// What an optional deletion holds.
pub open spec fn opt_doomed(d: Option<Doomed>) -> Option<DoomedModel> {
    match d {
        Some(x) => Some(
            DoomedModel { list_id: x.list_id@, item_id: x.item_id@, title: x.title@ },
        ),
        None => None,
    }
}

/// What an optional form holds.
pub open spec fn opt_form(f: Option<EditForm>) -> Option<FormModel> {
    match f {
        Some(form) => Some(form@),
        None => None,
    }
}

impl View for ListsTableBrowser {
    type V = Browser;

    open spec fn view(&self) -> Browser {
        Browser {
            base_url: self.base_url@,
            lists_filter: self.lists_filter@,
            lists: list_models(self.lists@),
            items: item_models(self.items@),
            search_results: item_models(self.search_results@),
            aql_results: item_models(self.aql_results@),
            list_index: self.list_index,
            table_state: self.table_state,
            search_table_state: self.search_table_state,
            aql_table_state: self.aql_table_state,
            view: self.view,
            focus: self.focus,
            input_mode: self.input_mode,
            search_query: self.search_query@,
            add_item_text: self.add_item_text@,
            aql_query: self.aql_query@,
            list_filter: self.list_filter@,
            aql_columns: opt_columns(self.aql_columns),
            sort_column: self.sort_column,
            sort_direction: self.sort_direction,
            detail_item: opt_item(self.detail_item),
            detail_scroll: self.detail_scroll,
            sidebar_area: self.sidebar_area,
            table_area: self.table_area,
            column_positions: self.column_positions@,
            ws_open: self.ws_open,
            ws_connected: self.ws_connected,
            delete_confirm: opt_doomed(self.delete_confirm),
            dialog_state: self.dialog_state,
            edit_item: opt_item(self.edit_item),
            edit_form: opt_form(self.edit_form),
            edit_notes: self.edit_notes@,
            edit_focus: self.edit_focus,
            status_message: opt_text(self.status_message),
            error_message: opt_text(self.error_message),
        }
    }
}

/// The item in a selected row, where the row exists.
pub open spec fn item_at(items: Seq<ItemModel>, state: TableState) -> Option<ItemModel> {
    match state.selected {
        Some(i) => if i < items.len() {
            Some(items[i as int])
        } else {
            None
        },
        None => None,
    }
}

/// Whether the name of a list holds the text of a filter, in any case of letters.
pub open spec fn passes(list: ListModel, filter: Seq<char>) -> bool {
    occurs_in(lowercase(list.name), lowercase(filter))
}

/// The lists that pass a filter; all of them, where nothing is typed.
pub open spec fn passing(lists: Seq<ListModel>, filter: Seq<char>) -> Seq<ListModel> {
    if filter.len() == 0 {
        lists
    } else {
        lists.filter(|l: ListModel| passes(l, filter))
    }
}

impl Browser {
    /// What every operation keeps: a selected row exists, except that the search table may keep
    /// its selection when its results are cleared; the dialog focuses one of its buttons; and the
    /// form, which is open while an item is edited, has the fields of an item.
    pub open spec fn wf(self) -> bool {
        &&& self.table_state.within(self.items.len())
        &&& self.aql_table_state.within(self.aql_results.len())
        &&& self.search_results.len() > 0 ==> self.search_table_state.within(
            self.search_results.len(),
        )
        &&& self.dialog_state.wf()
        &&& self.edit_item is Some == self.edit_form is Some
        &&& self.edit_form matches Some(form) ==> item_shape(form.values)
    }

    /// The lists that the sidebar shows: all, or those that pass the filter that is typed.
    pub open spec fn filtered_lists(self) -> Seq<ListModel> {
        passing(self.lists, self.list_filter)
    }

    /// The list that is selected in the sidebar.
    pub open spec fn selected_list(self) -> Option<ListModel> {
        if self.list_index < self.filtered_lists().len() {
            Some(self.filtered_lists()[self.list_index as int])
        } else {
            None
        }
    }

    /// The items that the panel shows.
    pub open spec fn current_items(self) -> Seq<ItemModel> {
        match self.view {
            Panel::Items => self.items,
            Panel::Search => self.search_results,
            Panel::AqlQuery => self.aql_results,
            _ => Seq::empty(),
        }
    }

    /// The selection of the panel.
    pub open spec fn current_table_state(self) -> TableState {
        match self.view {
            Panel::Search => self.search_table_state,
            Panel::AqlQuery => self.aql_table_state,
            _ => self.table_state,
        }
    }

    /// The state with another selection in the panel.
    pub open spec fn with_selection(self, row: Option<usize>) -> Browser {
        let state = TableState { selected: row };
        match self.view {
            Panel::Search => Browser { search_table_state: state, ..self },
            Panel::AqlQuery => Browser { aql_table_state: state, ..self },
            _ => Browser { table_state: state, ..self },
        }
    }

    /// The item that is selected in the panel; none where the panel shows no table.
    pub open spec fn selected_item(self) -> Option<ItemModel> {
        item_at(self.current_items(), self.current_table_state())
    }

    /// The item that a key acts on: the one shown in full, else the selected one.
    pub open spec fn item_in_view(self) -> Option<ItemModel> {
        if self.view == Panel::Detail {
            self.detail_item
        } else {
            self.selected_item()
        }
    }

    /// Whether the panel shows a table of items.
    pub open spec fn shows_table(self) -> bool {
        self.view == Panel::Items || self.view == Panel::Search || self.view == Panel::AqlQuery
    }

    /// The state with an error message.
    pub open spec fn with_error(self, text: Seq<char>) -> Browser {
        Browser { error_message: Some(text), ..self }
    }

    /// The state with a status message.
    pub open spec fn with_status(self, text: Seq<char>) -> Browser {
        Browser { status_message: Some(text), ..self }
    }

    /// The state with a status message and no error message.
    pub open spec fn with_success(self, text: Seq<char>) -> Browser {
        Browser { status_message: Some(text), error_message: None, ..self }
    }
}

/// What the lists behind references hold.
pub open spec fn list_refs(v: Seq<&ListInfo>) -> Seq<ListModel> {
    Seq::new(v.len(), |i: int| v[i]@)
}

impl ListsTableBrowser {
    /// The lists that the sidebar shows.
    pub fn filtered_lists(&self) -> (r: Vec<&ListInfo>)
        ensures
            list_refs(r@) == self@.filtered_lists(),
    {
        let mut out: Vec<&ListInfo> = Vec::new();
        let all = self.list_filter.as_str().is_empty();
        let filter_lower = to_lowercase(self.list_filter.as_str());
        let ghost filter = self@.list_filter;
        let ghost keep = |l: ListModel| passes(l, filter);
        let ghost lists = list_models(self.lists@);
        let mut i: usize = 0;
        proof {
            reveal(Seq::filter);
            assert(list_refs(out@) =~= lists.take(0).filter(keep));
        }
        while i < self.lists.len()
            invariant
                i <= self.lists@.len(),
                all == (filter.len() == 0),
                filter_lower@ == lowercase(filter),
                keep == (|l: ListModel| passes(l, filter)),
                lists == list_models(self.lists@),
                all ==> list_refs(out@) == lists.take(i as int),
                !all ==> list_refs(out@) == lists.take(i as int).filter(keep),
            decreases self.lists@.len() - i,
        {
            let list = &self.lists[i];
            let ghost before = out@;
            proof {
                reveal(Seq::filter);
                assert(lists.take(i + 1).drop_last() =~= lists.take(i as int));
                assert(lists.take(i + 1) =~= lists.take(i as int).push(list@));
            }
            let kept = all || {
                let name_lower = to_lowercase(list.name.as_str());
                contains(name_lower.as_str(), filter_lower.as_str())
            };
            if kept {
                out.push(list);
                proof {
                    assert(list_refs(out@) =~= list_refs(before).push(list@));
                }
            }
            i += 1;
        }
        proof {
            assert(lists.take(lists.len() as int) =~= lists);
        }
        out
    }

    /// The list that is selected in the sidebar.
    pub fn selected_list(&self) -> (r: Option<&ListInfo>)
        ensures
            match r {
                Some(list) => self@.selected_list() == Some(list@),
                None => self@.selected_list() is None,
            },
    {
        let lists = self.filtered_lists();
        if self.list_index < lists.len() {
            let list = lists[self.list_index];
            proof {
                assert(list_refs(lists@)[self.list_index as int] == list@);
            }
            Some(list)
        } else {
            None
        }
    }

    /// The identifier of the list that is selected in the sidebar.
    pub fn selected_list_id(&self) -> (r: Option<String>)
        ensures
            match r {
                Some(id) => self@.selected_list() matches Some(list) && list.id == id@,
                None => self@.selected_list() is None,
            },
    {
        match self.selected_list() {
            Some(list) => Some(list.id.clone()),
            None => None,
        }
    }

    /// The items that the panel shows.
    pub fn current_items(&self) -> (r: &[ListItem])
        ensures
            item_models(r@) == self@.current_items(),
    {
        match self.view {
            Panel::Items => self.items.as_slice(),
            Panel::Search => self.search_results.as_slice(),
            Panel::AqlQuery => self.aql_results.as_slice(),
            _ => {
                let none: &[ListItem] = &[];
                proof {
                    assert(item_models(none@) =~= Seq::<ItemModel>::empty());
                }
                none
            },
        }
    }

    /// The selection of the panel.
    pub fn current_table_state(&self) -> (r: TableState)
        ensures
            r == self@.current_table_state(),
    {
        match self.view {
            Panel::Search => self.search_table_state,
            Panel::AqlQuery => self.aql_table_state,
            _ => self.table_state,
        }
    }

    /// Sets the selection of the panel.
    pub fn select_row(&mut self, row: Option<usize>)
        ensures
            final(self)@ == old(self)@.with_selection(row),
    {
        match self.view {
            Panel::Search => self.search_table_state.select(row),
            Panel::AqlQuery => self.aql_table_state.select(row),
            _ => self.table_state.select(row),
        }
    }

    /// The item that is selected in the panel.
    pub fn selected_item(&self) -> (r: Option<&ListItem>)
        ensures
            match r {
                Some(item) => self@.selected_item() == Some(item@),
                None => self@.selected_item() is None,
            },
    {
        let items = self.current_items();
        match self.current_table_state().selected {
            Some(i) => {
                if i < items.len() {
                    proof {
                        assert(item_models(items@)[i as int] == items@[i as int]@);
                    }
                    Some(&items[i])
                } else {
                    None
                }
            },
            None => None,
        }
    }

    /// The item that a key acts on: the one shown in full, else the selected one.
    pub fn item_in_view(&self) -> (r: Option<&ListItem>)
        ensures
            match r {
                Some(item) => self@.item_in_view() == Some(item@),
                None => self@.item_in_view() is None,
            },
    {
        if self.view == Panel::Detail {
            self.detail_item.as_ref()
        } else {
            self.selected_item()
        }
    }
}

} // verus!
