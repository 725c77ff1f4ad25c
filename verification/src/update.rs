//! The browser as a whole: how it begins, and what each event and each reply does to it.
use vstd::prelude::*;
use vstd::string::*;
use crate::action::{Action, ActionModel, AfterLists, AfterListsModel, Pending, PendingModel, Reply, ReplyModel};
use crate::clipboard;
use crate::column::SortDirection;
use crate::dialog::{DialogResult, DialogState};
use crate::edit::same_shape;
use crate::editor::{AreaModel, NotesArea, NotesModel};
use crate::input::{Input, Key, KeyInput};
use crate::items::{item_models, list_models, opt_text, ItemModel, ListModel};
use crate::layout::{nowhere, Area};
use crate::state::{Browser, EditFocus, Focus, InputMode, ListsTableBrowser, Panel, TableState};
use crate::valid::{law_resume_keeps_wf, law_update_keeps_wf};

verus! {

/// The address of the server: the one that is configured, else one on this machine.
pub open spec fn base_url(configured: Option<Seq<char>>) -> Seq<char> {
    match configured {
        Some(url) => url,
        None => "http://localhost:3000"@,
    }
}

/// The address of the server: the one that is configured, else one on this machine.
pub fn base_url_or_default(configured: Option<String>) -> (r: String)
    ensures
        r@ == base_url(opt_text(configured)),
{
    match configured {
        Some(url) => url,
        None => "http://localhost:3000".to_owned(),
    }
}

impl Browser {
    /// The browser before anything has happened, where letters of ambiguous width are wide or not.
    pub open spec fn initial(base_url: Seq<char>, lists_filter: Seq<char>, wide: bool) -> Browser {
        Browser {
            base_url,
            lists_filter,
            lists: Seq::empty(),
            items: Seq::empty(),
            search_results: Seq::empty(),
            aql_results: Seq::empty(),
            list_index: 0,
            table_state: TableState { selected: None },
            search_table_state: TableState { selected: None },
            aql_table_state: TableState { selected: None },
            view: Panel::Lists,
            focus: Focus::Sidebar,
            input_mode: InputMode::Normal,
            search_query: Seq::empty(),
            add_item_text: Seq::empty(),
            aql_query: Seq::empty(),
            list_filter: Seq::empty(),
            aql_columns: None,
            sort_column: None,
            sort_direction: SortDirection::Desc,
            detail_item: None,
            detail_scroll: 0,
            sidebar_area: nowhere(),
            table_area: nowhere(),
            column_positions: Seq::empty(),
            ws_open: true,
            ws_connected: false,
            delete_confirm: None,
            dialog_state: DialogState { focused_button: None, open: false },
            edit_item: None,
            edit_form: None,
            edit_notes: NotesModel { area: AreaModel::fresh(Seq::empty()), wide },
            edit_focus: EditFocus::Form,
            status_message: None,
            error_message: None,
        }
    }

    /// Whether the browser asks for confirmation of a deletion.
    pub open spec fn confirming(self) -> bool {
        self.delete_confirm is Some && self.dialog_state.open
    }

    /// An event while the browser asks for confirmation: only the dialog listens. Its OK button
    /// deletes; Cancel and Escape give the deletion up.
    pub open spec fn confirm_input(self, input: Input) -> (Browser, ActionModel) {
        match input {
            Input::Key(key) => match key.for_dialog() {
                Some(k) => {
                    let after = Browser { dialog_state: self.dialog_state.after_key(k), ..self };
                    match self.dialog_state.answer(k) {
                        Some(DialogResult::Confirmed) => after.do_delete_confirmed(),
                        Some(DialogResult::Cancelled) | Some(DialogResult::Dismissed) => (
                            Browser { delete_confirm: None, ..after },
                            ActionModel::Idle,
                        ),
                        _ => (after, ActionModel::Idle),
                    }
                },
                None => (self, ActionModel::Idle),
            },
            _ => (self, ActionModel::Idle),
        }
    }

    /// The state after a key for the form.
    pub open spec fn form_pressed(self, key: KeyInput) -> Browser {
        match self.edit_form {
            Some(form) => Browser {
                edit_form: Some(form.after_key(key.code, key.bits())),
                ..self
            },
            None => self,
        }
    }

    /// The key that an event of the edit view brings to the notes, if it does.
    pub open spec fn key_for_notes(self, input: Input) -> Option<KeyInput> {
        match input {
            Input::Key(key) => if self.edit_focus == EditFocus::Notes && key.press && key.code
                != Key::Escape && key.code != Key::Tab {
                Some(key)
            } else {
                None
            },
            _ => None,
        }
    }

    /// The key that an event brings to the notes, if it does.
    pub open spec fn notes_key(self, input: Input) -> Option<KeyInput> {
        if self.confirming() || self.view != Panel::Edit {
            None
        } else {
            self.key_for_notes(input)
        }
    }

    /// An event in the edit view: Escape leaves it, Tab goes round its parts, and Enter on the
    /// buttons saves. Other keys go to the part that has the focus.
    pub open spec fn edit_input(self, input: Input) -> (Browser, ActionModel) {
        match input {
            Input::Key(key) => if !key.press {
                (self, ActionModel::Idle)
            } else if key.code == Key::Escape {
                (self.cancel_edit(), ActionModel::Idle)
            } else if key.code == Key::Tab {
                (
                    Browser {
                        edit_focus: if key.shift {
                            self.edit_focus.preceding()
                        } else {
                            self.edit_focus.following()
                        },
                        ..self
                    },
                    ActionModel::Idle,
                )
            } else {
                match self.edit_focus {
                    EditFocus::Form => (self.form_pressed(key), ActionModel::Idle),
                    EditFocus::Notes => (self.notes_pressed(key), ActionModel::Idle),
                    EditFocus::Buttons => (
                        self,
                        if key.code == Key::Enter {
                            self.save_edit()
                        } else {
                            ActionModel::Idle
                        },
                    ),
                }
            },
            _ => (self, ActionModel::Idle),
        }
    }

    /// The character that a key types into a text, if it does.
    pub open spec fn typed(self, key: KeyInput) -> Option<char> {
        match key.code {
            Key::Char(c) => if self.input_mode != InputMode::Normal && !key.ctrl {
                Some(c)
            } else {
                None
            },
            _ => None,
        }
    }

    /// The state with one more character typed; a search runs at once.
    pub open spec fn type_char(self, c: char) -> (Browser, ActionModel) {
        match self.input_mode {
            InputMode::Search => {
                let longer = Browser { search_query: self.search_query.push(c), ..self };
                (longer, longer.do_search())
            },
            InputMode::AddItem => (
                Browser { add_item_text: self.add_item_text.push(c), ..self },
                ActionModel::Idle,
            ),
            InputMode::AqlQuery => (
                Browser { aql_query: self.aql_query.push(c), ..self },
                ActionModel::Idle,
            ),
            InputMode::ListFilter => (
                Browser { list_filter: self.list_filter.push(c), ..self },
                ActionModel::Idle,
            ),
            InputMode::Normal => (self, ActionModel::Idle),
        }
    }

    /// What an event does.
    pub open spec fn update(self, input: Input) -> (Browser, ActionModel) {
        if self.confirming() {
            self.confirm_input(input)
        } else if self.view == Panel::Edit {
            self.edit_input(input)
        } else {
            match input {
                Input::Mouse(mouse) => self.handle_mouse(mouse),
                Input::Key(key) => match self.typed(key) {
                    Some(c) => self.type_char(c),
                    None => self.handle_key(key),
                },
                Input::Other => (self, ActionModel::Idle),
            }
        }
    }

    /// Whether an event can be handled.
    pub open spec fn accepts(self, input: Input) -> bool {
        if self.confirming() || self.view == Panel::Edit {
            true
        } else {
            match input {
                Input::Mouse(mouse) => self.mouse_ready(mouse),
                Input::Key(key) => self.typed(key) is Some || self.key_ready(key),
                Input::Other => true,
            }
        }
    }

    /// What follows once the lists have been loaded.
    pub open spec fn after_lists(self, then: AfterListsModel) -> (Browser, ActionModel) {
        match then {
            AfterListsModel::Stop => (self, ActionModel::Idle),
            AfterListsModel::Reload => if self.view == Panel::Items {
                self.load_items(None)
            } else {
                (self, ActionModel::Idle)
            },
            AfterListsModel::Announce(text) => self.load_items(Some(text)),
        }
    }

    /// What a reply does. A reply of another kind than the request asks for does nothing.
    pub open spec fn resume(self, then: PendingModel, reply: ReplyModel) -> (Browser, ActionModel) {
        match (then, reply) {
            (PendingModel::Lists(next), ReplyModel::Lists(r)) => self.lists_loaded(r).after_lists(
                next,
            ),
            (PendingModel::Items(note), ReplyModel::Items(r)) => (
                self.items_loaded(r, note),
                ActionModel::Idle,
            ),
            (PendingModel::Search { scoped }, ReplyModel::Items(r)) => (
                self.search_done(r, scoped),
                ActionModel::Idle,
            ),
            (PendingModel::Aql, ReplyModel::Items(r)) => (self.aql_done(r), ActionModel::Idle),
            (PendingModel::Add, ReplyModel::Item(r)) => (self.add_done(r), ActionModel::Idle),
            (PendingModel::Delete { item_id }, ReplyModel::Done(r)) => (
                self.delete_done(r, item_id),
                ActionModel::Idle,
            ),
            (PendingModel::Toggle { row, completed }, ReplyModel::Item(r)) => (
                self.toggle_done(r, row, completed),
                ActionModel::Idle,
            ),
            (PendingModel::Move { to_top }, ReplyModel::Item(r)) => self.move_done(r, to_top),
            (PendingModel::Save, ReplyModel::Item(r)) => self.save_done(r),
            _ => (self, ActionModel::Idle),
        }
    }
}

impl ListsTableBrowser {
    /// The browser before anything has happened, and the request for the lists to begin with.
    pub fn new(base_url: String, lists_filter: String) -> (r: (ListsTableBrowser, Action))
        ensures
            r.0@ == Browser::initial(base_url@, lists_filter@, r.0@.edit_notes.wide),
            r.1@ == r.0@.refresh_lists(AfterListsModel::Stop),
            r.0@.wf(),
    {
        let browser = ListsTableBrowser {
            base_url,
            lists_filter,
            lists: Vec::new(),
            items: Vec::new(),
            search_results: Vec::new(),
            aql_results: Vec::new(),
            list_index: 0,
            table_state: TableState { selected: None },
            search_table_state: TableState { selected: None },
            aql_table_state: TableState { selected: None },
            view: Panel::Lists,
            focus: Focus::Sidebar,
            input_mode: InputMode::Normal,
            search_query: String::new(),
            add_item_text: String::new(),
            aql_query: String::new(),
            list_filter: String::new(),
            aql_columns: None,
            sort_column: None,
            sort_direction: SortDirection::Desc,
            detail_item: None,
            detail_scroll: 0,
            sidebar_area: Area::new(0, 0, 0, 0),
            table_area: Area::new(0, 0, 0, 0),
            column_positions: Vec::new(),
            ws_open: true,
            ws_connected: false,
            delete_confirm: None,
            dialog_state: DialogState::closed(),
            edit_item: None,
            edit_form: None,
            edit_notes: NotesArea::new(),
            edit_focus: EditFocus::Form,
            status_message: None,
            error_message: None,
        };
        proof {
            assert(list_models(browser.lists@) =~= Seq::<ListModel>::empty());
            assert(item_models(browser.items@) =~= Seq::<ItemModel>::empty());
        }
        let action = browser.refresh_lists(AfterLists::Stop);
        (browser, action)
    }

    /// Whether the browser asks for confirmation of a deletion.
    pub fn confirming(&self) -> (r: bool)
        ensures
            r == self@.confirming(),
    {
        self.delete_confirm.is_some() && self.dialog_state.open
    }

    /// An event while the browser asks for confirmation.
    fn confirm_input(&mut self, input: Input) -> (r: Action)
        requires
            old(self)@.dialog_state.wf(),
        ensures
            (final(self)@, r@) == old(self)@.confirm_input(input),
    {
        let key = match input {
            Input::Key(key) => key,
            _ => {
                return Action::Idle;
            },
        };
        let pressed = match key.dialog_key() {
            Some(pressed) => pressed,
            None => {
                return Action::Idle;
            },
        };
        let answer = self.dialog_state.press(
            "Delete Item?",
            "Are you sure you want to delete this item?",
            pressed,
            key.modifier_bits(),
        );
        match answer {
            Some(DialogResult::Confirmed) => self.do_delete_confirmed(),
            Some(DialogResult::Cancelled) | Some(DialogResult::Dismissed) => {
                self.delete_confirm = None;
                Action::Idle
            },
            _ => Action::Idle,
        }
    }

    /// A key for the form.
    fn press_form(&mut self, key: KeyInput)
        requires
            key.code != Key::Tab,
            key.code != Key::Escape,
        ensures
            final(self)@ == old(self)@.form_pressed(key),
            final(self)@.edit_form matches Some(form) ==> same_shape(
                form.values,
                old(self)@.edit_form->0.values,
            ),
    {
        if let Some(mut form) = self.edit_form.take() {
            form.press(key.code, key.modifier_bits());
            self.edit_form = Some(form);
        }
    }

    /// An event in the edit view.
    fn edit_input(&mut self, input: Input) -> (r: Action)
        ensures
            (final(self)@, r@) == old(self)@.edit_input(input),
            old(self)@.key_for_notes(input) matches Some(key) ==> old(self)@.edit_notes.area.took(
                key.code,
                key.shift,
                key.ctrl,
                final(self)@.edit_notes.area,
            ),
            final(self)@.edit_form matches Some(form) ==> same_shape(
                form.values,
                old(self)@.edit_form->0.values,
            ),
    {
        let key = match input {
            Input::Key(key) => key,
            _ => {
                return Action::Idle;
            },
        };
        if !key.press {
            return Action::Idle;
        }
        match key.code {
            Key::Escape => {
                self.cancel_edit();
                return Action::Idle;
            },
            Key::Tab => {
                self.edit_focus = if key.shift {
                    self.edit_focus.prev()
                } else {
                    self.edit_focus.next()
                };
                return Action::Idle;
            },
            _ => {},
        }
        match self.edit_focus {
            EditFocus::Form => {
                self.press_form(key);
                Action::Idle
            },
            EditFocus::Notes => {
                self.edit_notes_event(key);
                Action::Idle
            },
            EditFocus::Buttons => {
                if key.code == Key::Enter {
                    self.save_edit()
                } else {
                    Action::Idle
                }
            },
        }
    }

    /// The character that a key types into a text, if it does.
    fn typed(&self, key: KeyInput) -> (r: Option<char>)
        ensures
            r == self@.typed(key),
    {
        match key.code {
            Key::Char(c) => {
                if self.input_mode != InputMode::Normal && !key.ctrl {
                    Some(c)
                } else {
                    None
                }
            },
            _ => None,
        }
    }

    /// Types one more character.
    fn type_char(&mut self, c: char) -> (r: Action)
        ensures
            (final(self)@, r@) == old(self)@.type_char(c),
    {
        match self.input_mode {
            InputMode::Search => {
                self.search_query.push(c);
                return self.do_search();
            },
            InputMode::AddItem => self.add_item_text.push(c),
            InputMode::AqlQuery => self.aql_query.push(c),
            InputMode::ListFilter => self.list_filter.push(c),
            InputMode::Normal => {},
        }
        Action::Idle
    }

    /// Handles an event, and says what the outside is to do.
    pub fn update(&mut self, input: Input) -> (r: Action)
        requires
            old(self)@.wf(),
            old(self)@.accepts(input),
        ensures
            (final(self)@, r@) == old(self)@.update(input),
            old(self)@.notes_key(input) matches Some(key) ==> old(self)@.edit_notes.area.took(
                key.code,
                key.shift,
                key.ctrl,
                final(self)@.edit_notes.area,
            ),
            final(self)@.wf(),
    {
        let action = if self.confirming() {
            self.confirm_input(input)
        } else if self.view == Panel::Edit {
            self.edit_input(input)
        } else {
            match input {
                Input::Mouse(mouse) => self.handle_mouse(mouse),
                Input::Key(key) => {
                    match self.typed(key) {
                        Some(c) => self.type_char(c),
                        None => self.handle_key(key),
                    }
                },
                Input::Other => Action::Idle,
            }
        };
        proof {
            law_update_keeps_wf(old(self)@, input);
        }
        action
    }

    /// Whether a key that is not typed into a text can be handled.
    pub fn accepts_key(&self, key: KeyInput) -> (r: bool)
        ensures
            r == self@.key_ready(key),
    {
        match self.input_mode {
            InputMode::Normal => {
                if key.code == Key::Down || key.code == Key::Char('j') {
                    self.can_go_down()
                } else if key.code == Key::Char('y') {
                    match self.item_in_view() {
                        Some(item) => match &item.url {
                            Some(url) => clipboard::can_copy(url.as_str()),
                            None => clipboard::can_copy(item.title.as_str()),
                        },
                        None => true,
                    }
                } else {
                    true
                }
            },
            _ => true,
        }
    }

    /// Whether an event can be handled.
    pub fn accepts(&self, input: Input) -> (r: bool)
        ensures
            r == self@.accepts(input),
    {
        if self.confirming() || self.view == Panel::Edit {
            return true;
        }
        match input {
            Input::Mouse(mouse) => self.accepts_mouse(mouse),
            Input::Key(key) => self.typed(key).is_some() || self.accepts_key(key),
            Input::Other => true,
        }
    }

    /// Handles an event where that can be done; where it cannot, nothing changes and there is no
    /// answer.
    pub fn try_update(&mut self, input: Input) -> (r: Option<Action>)
        requires
            old(self)@.wf(),
        ensures
            final(self)@.wf(),
            match r {
                Some(action) => {
                    &&& old(self)@.accepts(input)
                    &&& (final(self)@, action@) == old(self)@.update(input)
                    &&& old(self)@.notes_key(input) matches Some(key) ==> old(
                        self,
                    )@.edit_notes.area.took(
                        key.code,
                        key.shift,
                        key.ctrl,
                        final(self)@.edit_notes.area,
                    )
                },
                None => !old(self)@.accepts(input) && final(self)@ == old(self)@,
            },
    {
        if self.accepts(input) {
            Some(self.update(input))
        } else {
            None
        }
    }

    /// What follows once the lists have been loaded.
    fn after_lists(&mut self, then: AfterLists) -> (r: Action)
        ensures
            (final(self)@, r@) == old(self)@.after_lists(then@),
    {
        match then {
            AfterLists::Stop => Action::Idle,
            AfterLists::Reload => {
                if self.view == Panel::Items {
                    self.load_items(None)
                } else {
                    Action::Idle
                }
            },
            AfterLists::Announce(text) => self.load_items(Some(text)),
        }
    }

    /// Takes the reply to a request, and says what the outside is to do next.
    pub fn resume(&mut self, then: Pending, reply: Reply) -> (r: Action)
        ensures
            (final(self)@, r@) == old(self)@.resume(then@, reply@),
            old(self)@.wf() ==> final(self)@.wf(),
    {
        proof {
            if self@.wf() {
                law_resume_keeps_wf(self@, then@, reply@);
            }
        }
        match (then, reply) {
            (Pending::Lists(next), Reply::Lists(r)) => {
                self.lists_loaded(r);
                return self.after_lists(next);
            },
            (Pending::Items(note), Reply::Items(r)) => self.items_loaded(r, note),
            (Pending::Search { scoped }, Reply::Items(r)) => self.search_done(r, scoped),
            (Pending::Aql, Reply::Items(r)) => self.aql_done(r),
            (Pending::Add, Reply::Item(r)) => self.add_done(r),
            (Pending::Delete { item_id }, Reply::Done(r)) => self.delete_done(
                r,
                item_id.as_str(),
            ),
            (Pending::Toggle { row, completed }, Reply::Item(r)) => self.toggle_done(
                r,
                row,
                completed,
            ),
            (Pending::Move { to_top }, Reply::Item(r)) => {
                return self.move_done(r, to_top);
            },
            (Pending::Save, Reply::Item(r)) => {
                return self.save_done(r);
            },
            _ => {},
        }
        Action::Idle
    }
}

} // verus!
