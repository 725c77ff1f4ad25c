//! What the keys do.
use vstd::prelude::*;
use vstd::string::*;
use crate::action::{Action, ActionModel, AfterLists, AfterListsModel};
use crate::clipboard::{base64_text, copy_command, copy_sequence, copyable};
use crate::input::{Key, KeyInput};
use crate::items::{item_models, ItemModel};
use crate::state::{Browser, Focus, InputMode, ListsTableBrowser, Panel};
use crate::text::{bytes, concat2, first_chars, take_chars};

verus! {

/// The text that is copied of an item: its address, else its title.
pub open spec fn copy_text(item: ItemModel) -> Seq<char> {
    match item.url {
        Some(url) => url,
        None => item.title,
    }
}

impl Browser {
    // -----------------------------------------------------------------------
    // Moving about
    // -----------------------------------------------------------------------
    /// The selection in the sidebar goes up.
    pub open spec fn list_up(self) -> Browser {
        if self.list_index > 0 {
            Browser { list_index: (self.list_index - 1) as usize, ..self }
        } else {
            self
        }
    }

    /// The selection in the sidebar goes down, as far as there are lists.
    pub open spec fn list_down(self) -> Browser {
        if self.list_index + 1 < self.filtered_lists().len() {
            Browser { list_index: (self.list_index + 1) as usize, ..self }
        } else {
            self
        }
    }

    /// The selection in the panel goes up, or the item shown in full is scrolled back.
    pub open spec fn move_up(self) -> Browser {
        if self.view == Panel::Detail {
            if self.detail_scroll > 0 {
                Browser { detail_scroll: (self.detail_scroll - 1) as usize, ..self }
            } else {
                self
            }
        } else {
            match self.current_table_state().selected {
                Some(i) => if i > 0 {
                    self.with_selection(Some((i - 1) as usize))
                } else {
                    self
                },
                None => self,
            }
        }
    }

    /// The selection in the panel goes down, as far as there are items, or the item shown in full
    /// is scrolled on.
    pub open spec fn move_down(self) -> Browser {
        if self.view == Panel::Detail {
            Browser { detail_scroll: (self.detail_scroll + 1) as usize, ..self }
        } else {
            match self.current_table_state().selected {
                Some(i) => if i + 1 < self.current_items().len() {
                    self.with_selection(Some((i + 1) as usize))
                } else {
                    self
                },
                None => self,
            }
        }
    }

    /// Whether going down leaves the scroll position a number.
    pub open spec fn can_move_down(self) -> bool {
        self.view == Panel::Detail ==> self.detail_scroll < usize::MAX
    }

    /// The key for up.
    pub open spec fn go_up(self) -> Browser {
        if self.focus == Focus::Sidebar {
            self.list_up()
        } else {
            self.move_up()
        }
    }

    /// The key for down.
    pub open spec fn go_down(self) -> Browser {
        if self.focus == Focus::Sidebar {
            self.list_down()
        } else {
            self.move_down()
        }
    }

    /// The selected item is shown in full.
    pub open spec fn show_detail(self) -> Browser {
        match self.selected_item() {
            Some(item) => Browser {
                detail_item: Some(item),
                detail_scroll: 0,
                view: Panel::Detail,
                ..self
            },
            None => self,
        }
    }

    /// The panel that is shown once an item shown in full is closed: the search or the query, where
    /// there is one with results, else the list.
    pub open spec fn panel_behind_detail(self) -> Panel {
        if self.search_results.len() > 0 && self.search_query.len() > 0 {
            Panel::Search
        } else if self.aql_results.len() > 0 && self.aql_query.len() > 0 {
            Panel::AqlQuery
        } else {
            Panel::Items
        }
    }

    /// The item shown in full is closed.
    pub open spec fn close_detail(self) -> Browser {
        Browser { view: self.panel_behind_detail(), detail_item: None, ..self }
    }

    /// The key that goes back. In the sidebar it clears the filter; in a table it clears the
    /// selection first and then returns to the lists; an item shown in full it closes.
    pub open spec fn go_back(self) -> Browser {
        if self.focus == Focus::Sidebar && self.list_filter.len() > 0 {
            Browser { list_filter: Seq::empty(), list_index: 0, ..self }
        } else if self.view == Panel::Detail {
            self.close_detail()
        } else if self.focus == Focus::Table && self.shows_table() {
            if self.current_table_state().selected is Some {
                self.with_selection(None)
            } else {
                Browser { view: Panel::Lists, focus: Focus::Sidebar, ..self }
            }
        } else {
            self
        }
    }

    /// The address of the item in view is opened.
    pub open spec fn open_selected_url(self) -> ActionModel {
        match self.item_in_view() {
            Some(item) => match item.url {
                Some(url) => ActionModel::OpenUrl(url),
                None => ActionModel::Idle,
            },
            None => ActionModel::Idle,
        }
    }

    /// Whether the text of the item in view is short enough to be copied.
    pub open spec fn can_copy(self) -> bool {
        self.item_in_view() matches Some(item) ==> copyable(copy_text(item))
    }

    /// The address or title of the item in view is copied.
    pub open spec fn copy_selected(self) -> ActionModel {
        match self.item_in_view() {
            Some(item) => ActionModel::Copy {
                sequence: copy_command(base64_text(bytes(copy_text(item)))),
                text: copy_text(item),
            },
            None => ActionModel::Idle,
        }
    }

    /// The state once the text is copied, or could not be.
    pub open spec fn copied(self, text: Seq<char>, written: bool) -> Browser {
        if written {
            self.with_success("Copied: "@ + first_chars(text, 40))
        } else {
            self.with_error("Copy failed: write error"@)
        }
    }

    // -----------------------------------------------------------------------
    // Typing
    // -----------------------------------------------------------------------
    /// The keys while a search is typed. Every change of the text searches again; clearing the
    /// text, other than by Escape, clears the results.
    pub open spec fn search_key(self, key: KeyInput) -> (Browser, ActionModel) {
        if key.code == Key::Escape {
            (
                Browser { input_mode: InputMode::Normal, search_query: Seq::empty(), ..self },
                ActionModel::Idle,
            )
        } else if key.is_interrupt() {
            (
                if self.search_query.len() == 0 {
                    Browser { input_mode: InputMode::Normal, ..self }
                } else {
                    Browser { search_query: Seq::empty(), search_results: Seq::empty(), ..self }
                },
                ActionModel::Idle,
            )
        } else if key.code == Key::Backspace {
            if self.search_query.len() <= 1 {
                (
                    Browser { search_query: Seq::empty(), search_results: Seq::empty(), ..self },
                    ActionModel::Idle,
                )
            } else {
                let shorter = Browser { search_query: self.search_query.drop_last(), ..self };
                (shorter, shorter.do_search())
            }
        } else if key.code == Key::Enter {
            (Browser { input_mode: InputMode::Normal, ..self }, ActionModel::Idle)
        } else {
            (self, ActionModel::Idle)
        }
    }

    /// The keys while the title of a new item is typed.
    pub open spec fn add_key(self, key: KeyInput) -> (Browser, ActionModel) {
        if key.code == Key::Escape {
            (
                Browser { input_mode: InputMode::Normal, add_item_text: Seq::empty(), ..self },
                ActionModel::Idle,
            )
        } else if key.is_interrupt() {
            (
                if self.add_item_text.len() == 0 {
                    Browser { input_mode: InputMode::Normal, ..self }
                } else {
                    Browser { add_item_text: Seq::empty(), ..self }
                },
                ActionModel::Idle,
            )
        } else if key.code == Key::Backspace {
            (Browser { add_item_text: shortened(self.add_item_text), ..self }, ActionModel::Idle)
        } else if key.code == Key::Enter {
            Browser { input_mode: InputMode::Normal, ..self }.do_add_item()
        } else {
            (self, ActionModel::Idle)
        }
    }

    /// The keys while a query is typed.
    pub open spec fn aql_key(self, key: KeyInput) -> (Browser, ActionModel) {
        if key.code == Key::Escape {
            (
                Browser { input_mode: InputMode::Normal, aql_query: Seq::empty(), ..self },
                ActionModel::Idle,
            )
        } else if key.is_interrupt() {
            (
                if self.aql_query.len() == 0 {
                    Browser { input_mode: InputMode::Normal, ..self }
                } else {
                    Browser { aql_query: Seq::empty(), ..self }
                },
                ActionModel::Idle,
            )
        } else if key.code == Key::Backspace {
            (Browser { aql_query: shortened(self.aql_query), ..self }, ActionModel::Idle)
        } else if key.code == Key::Enter {
            Browser { input_mode: InputMode::Normal, ..self }.do_aql_query()
        } else {
            (self, ActionModel::Idle)
        }
    }

    /// The keys while the filter of the sidebar is typed. Taking characters off selects the first
    /// list again; typing them leaves the selection where it is.
    pub open spec fn filter_key(self, key: KeyInput) -> (Browser, ActionModel) {
        if key.code == Key::Escape {
            (
                Browser {
                    input_mode: InputMode::Normal,
                    list_filter: Seq::empty(),
                    list_index: 0,
                    ..self
                },
                ActionModel::Idle,
            )
        } else if key.is_interrupt() {
            (
                if self.list_filter.len() == 0 {
                    Browser { input_mode: InputMode::Normal, ..self }
                } else {
                    Browser { list_filter: Seq::empty(), list_index: 0, ..self }
                },
                ActionModel::Idle,
            )
        } else if key.code == Key::Backspace {
            (
                Browser { list_filter: shortened(self.list_filter), list_index: 0, ..self },
                ActionModel::Idle,
            )
        } else if key.code == Key::Enter {
            let left = Browser { input_mode: InputMode::Normal, ..self };
            if left.filtered_lists().len() > 0 {
                left.load_items(None)
            } else {
                (left, ActionModel::Idle)
            }
        } else if key.code == Key::Up {
            (self.list_up(), ActionModel::Idle)
        } else if key.code == Key::Down {
            (self.list_down(), ActionModel::Idle)
        } else {
            (self, ActionModel::Idle)
        }
    }

    // -----------------------------------------------------------------------
    // Commands
    // -----------------------------------------------------------------------
    /// The letters and signs that are commands while nothing is typed.
    pub open spec fn command(self, c: char) -> (Browser, ActionModel) {
        if c == 'q' {
            (self, ActionModel::Quit)
        } else if c == '/' {
            (
                if self.focus == Focus::Sidebar {
                    Browser { input_mode: InputMode::ListFilter, ..self }
                } else {
                    Browser { input_mode: InputMode::Search, search_query: Seq::empty(), ..self }
                },
                ActionModel::Idle,
            )
        } else if c == ':' {
            (Browser { input_mode: InputMode::AqlQuery, ..self }, ActionModel::Idle)
        } else if c == 'k' {
            (self.go_up(), ActionModel::Idle)
        } else if c == 'j' {
            (self.go_down(), ActionModel::Idle)
        } else if c == 'o' {
            (self, self.open_selected_url())
        } else if c == 'e' {
            (
                if self.shows_table() || self.view == Panel::Detail {
                    self.start_edit()
                } else {
                    self
                },
                ActionModel::Idle,
            )
        } else if c == 'y' {
            (self, self.copy_selected())
        } else if c == 'n' {
            (
                if self.view == Panel::Items {
                    Browser { input_mode: InputMode::AddItem, add_item_text: Seq::empty(), ..self }
                } else {
                    self
                },
                ActionModel::Idle,
            )
        } else if c == 'd' {
            (self.delete_selected_item(), ActionModel::Idle)
        } else if c == ' ' {
            (self, self.toggle_completed())
        } else if c == 't' {
            self.move_item(true)
        } else if c == 'b' {
            self.move_item(false)
        } else if c == 'r' {
            (self, self.refresh_lists(AfterListsModel::Reload))
        } else {
            (self, ActionModel::Idle)
        }
    }

    /// The keys while nothing is typed.
    pub open spec fn normal_key(self, key: KeyInput) -> (Browser, ActionModel) {
        if key.is_interrupt() {
            (self, ActionModel::Quit)
        } else {
            match key.code {
                Key::Char(c) => self.command(c),
                Key::Tab => (
                    Browser {
                        focus: match self.focus {
                            Focus::Sidebar => Focus::Table,
                            Focus::Table => Focus::Sidebar,
                        },
                        ..self
                    },
                    ActionModel::Idle,
                ),
                Key::Escape | Key::Backspace => (self.go_back(), ActionModel::Idle),
                Key::Up => (self.go_up(), ActionModel::Idle),
                Key::Down => (self.go_down(), ActionModel::Idle),
                Key::Enter => if self.focus == Focus::Sidebar {
                    self.load_items(None)
                } else if self.shows_table() {
                    (self.show_detail(), ActionModel::Idle)
                } else {
                    (self, ActionModel::Idle)
                },
                _ => (self, ActionModel::Idle),
            }
        }
    }

    /// The keys that are not typed into a text.
    pub open spec fn handle_key(self, key: KeyInput) -> (Browser, ActionModel) {
        match self.input_mode {
            InputMode::Search => self.search_key(key),
            InputMode::AddItem => self.add_key(key),
            InputMode::AqlQuery => self.aql_key(key),
            InputMode::ListFilter => self.filter_key(key),
            InputMode::Normal => self.normal_key(key),
        }
    }

    /// Whether a key that is not typed into a text can be handled: a scroll position stays a
    /// number, and a text that is copied fits in memory.
    pub open spec fn key_ready(self, key: KeyInput) -> bool {
        match self.input_mode {
            InputMode::Normal => {
                &&& (key.code == Key::Down || key.code == Key::Char('j')) && self.focus
                    != Focus::Sidebar ==> self.can_move_down()
                &&& key.code == Key::Char('y') ==> self.can_copy()
            },
            _ => true,
        }
    }
}

/// A text without its last character, where it has one.
pub open spec fn shortened(s: Seq<char>) -> Seq<char> {
    if s.len() == 0 {
        s
    } else {
        s.drop_last()
    }
}

impl ListsTableBrowser {
    /// The selection in the sidebar goes up.
    fn list_up(&mut self)
        ensures
            final(self)@ == old(self)@.list_up(),
    {
        if self.list_index > 0 {
            self.list_index = self.list_index - 1;
        }
    }

    /// The selection in the sidebar goes down, as far as there are lists.
    fn list_down(&mut self)
        ensures
            final(self)@ == old(self)@.list_down(),
    {
        let count: usize = self.filtered_lists().len();
        proof {
            assert(count == self@.filtered_lists().len());
        }
        if count > 0 && self.list_index < count - 1 {
            self.list_index = self.list_index + 1;
        }
    }

    /// The selection in the panel goes up, or the item shown in full is scrolled back.
    pub fn move_up(&mut self)
        ensures
            final(self)@ == old(self)@.move_up(),
    {
        if self.view == Panel::Detail {
            if self.detail_scroll > 0 {
                self.detail_scroll = self.detail_scroll - 1;
            }
            return;
        }
        if let Some(selected) = self.current_table_state().selected {
            if selected > 0 {
                self.select_row(Some(selected - 1));
            }
        }
    }

    /// The selection in the panel goes down, as far as there are items, or the item shown in full
    /// is scrolled on.
    pub fn move_down(&mut self)
        requires
            old(self)@.can_move_down(),
        ensures
            final(self)@ == old(self)@.move_down(),
    {
        if self.view == Panel::Detail {
            self.detail_scroll = self.detail_scroll + 1;
            return;
        }
        let count: usize = self.current_items().len();
        proof {
            assert(count == self@.current_items().len());
        }
        if let Some(selected) = self.current_table_state().selected {
            if count > 0 && selected < count - 1 {
                self.select_row(Some(selected + 1));
            }
        }
    }

    /// The key for up.
    pub(crate) fn go_up(&mut self)
        ensures
            final(self)@ == old(self)@.go_up(),
    {
        if self.focus == Focus::Sidebar {
            self.list_up();
        } else {
            self.move_up();
        }
    }

    /// The key for down.
    pub(crate) fn go_down(&mut self)
        requires
            old(self)@.focus != Focus::Sidebar ==> old(self)@.can_move_down(),
        ensures
            final(self)@ == old(self)@.go_down(),
    {
        if self.focus == Focus::Sidebar {
            self.list_down();
        } else {
            self.move_down();
        }
    }

    /// Shows the selected item in full.
    pub fn show_detail(&mut self)
        ensures
            final(self)@ == old(self)@.show_detail(),
    {
        let item = match self.selected_item() {
            Some(item) => item.clone(),
            None => {
                return;
            },
        };
        self.detail_item = Some(item);
        self.detail_scroll = 0;
        self.view = Panel::Detail;
    }

    /// Closes the item that is shown in full.
    fn close_detail(&mut self)
        ensures
            final(self)@ == old(self)@.close_detail(),
    {
        self.view =
        if !self.search_results.is_empty() && !self.search_query.as_str().is_empty() {
            Panel::Search
        } else if !self.aql_results.is_empty() && !self.aql_query.as_str().is_empty() {
            Panel::AqlQuery
        } else {
            Panel::Items
        };
        self.detail_item = None;
    }

    /// Goes back.
    fn go_back(&mut self)
        ensures
            final(self)@ == old(self)@.go_back(),
    {
        if self.focus == Focus::Sidebar && !self.list_filter.as_str().is_empty() {
            self.list_filter.clear();
            self.list_index = 0;
        } else if self.view == Panel::Detail {
            self.close_detail();
        } else if self.focus == Focus::Table && (self.view == Panel::Items || self.view
            == Panel::Search || self.view == Panel::AqlQuery) {
            if self.current_table_state().selected.is_some() {
                self.select_row(None);
            } else {
                self.view = Panel::Lists;
                self.focus = Focus::Sidebar;
            }
        }
    }

    /// Opens the address of the item in view.
    pub fn open_selected_url(&self) -> (r: Action)
        ensures
            r@ == self@.open_selected_url(),
    {
        match self.item_in_view() {
            Some(item) => match &item.url {
                Some(url) => Action::OpenUrl(url.clone()),
                None => Action::Idle,
            },
            None => Action::Idle,
        }
    }

    /// Copies the address or title of the item in view.
    pub fn copy_selected(&self) -> (r: Action)
        requires
            self@.can_copy(),
        ensures
            r@ == self@.copy_selected(),
    {
        match self.item_in_view() {
            Some(item) => {
                let text = match &item.url {
                    Some(url) => url.clone(),
                    None => item.title.clone(),
                };
                Action::Copy { sequence: copy_sequence(text.as_str()), text }
            },
            None => Action::Idle,
        }
    }

    /// Takes the news whether the text could be written to the terminal.
    pub fn copied(&mut self, text: &str, written: bool)
        ensures
            final(self)@ == old(self)@.copied(text@, written),
    {
        if written {
            let shown = take_chars(text, 40);
            let message = concat2("Copied: ", shown.as_str());
            self.succeed(message);
        } else {
            self.error_message = Some("Copy failed: write error".to_owned());
        }
    }

    /// The keys while a search is typed.
    fn search_key(&mut self, key: KeyInput) -> (r: Action)
        ensures
            (final(self)@, r@) == old(self)@.search_key(key),
    {
        match key.code {
            Key::Escape => {
                self.input_mode = InputMode::Normal;
                self.search_query.clear();
            },
            Key::Char(_) => {
                if key.interrupts() {
                    if self.search_query.as_str().is_empty() {
                        self.input_mode = InputMode::Normal;
                    } else {
                        self.search_query.clear();
                        self.search_results.clear();
                        proof {
                            assert(item_models(self.search_results@) =~= Seq::<ItemModel>::empty());
                        }
                    }
                }
            },
            Key::Backspace => {
                self.search_query.pop();
                if self.search_query.as_str().is_empty() {
                    self.search_results.clear();
                    proof {
                        assert(item_models(self.search_results@) =~= Seq::<ItemModel>::empty());
                        assert(self.search_query@ =~= Seq::<char>::empty());
                    }
                } else {
                    return self.do_search();
                }
            },
            Key::Enter => {
                self.input_mode = InputMode::Normal;
            },
            _ => {},
        }
        Action::Idle
    }

    /// The keys while the title of a new item is typed.
    fn add_key(&mut self, key: KeyInput) -> (r: Action)
        ensures
            (final(self)@, r@) == old(self)@.add_key(key),
    {
        match key.code {
            Key::Escape => {
                self.input_mode = InputMode::Normal;
                self.add_item_text.clear();
            },
            Key::Char(_) => {
                if key.interrupts() {
                    if self.add_item_text.as_str().is_empty() {
                        self.input_mode = InputMode::Normal;
                    } else {
                        self.add_item_text.clear();
                    }
                }
            },
            Key::Backspace => {
                self.add_item_text.pop();
            },
            Key::Enter => {
                self.input_mode = InputMode::Normal;
                return self.do_add_item();
            },
            _ => {},
        }
        Action::Idle
    }

    /// The keys while a query is typed.
    fn aql_key(&mut self, key: KeyInput) -> (r: Action)
        ensures
            (final(self)@, r@) == old(self)@.aql_key(key),
    {
        match key.code {
            Key::Escape => {
                self.input_mode = InputMode::Normal;
                self.aql_query.clear();
            },
            Key::Char(_) => {
                if key.interrupts() {
                    if self.aql_query.as_str().is_empty() {
                        self.input_mode = InputMode::Normal;
                    } else {
                        self.aql_query.clear();
                    }
                }
            },
            Key::Backspace => {
                self.aql_query.pop();
            },
            Key::Enter => {
                self.input_mode = InputMode::Normal;
                return self.do_aql_query();
            },
            _ => {},
        }
        Action::Idle
    }

    /// The keys while the filter of the sidebar is typed.
    fn filter_key(&mut self, key: KeyInput) -> (r: Action)
        ensures
            (final(self)@, r@) == old(self)@.filter_key(key),
    {
        match key.code {
            Key::Escape => {
                self.input_mode = InputMode::Normal;
                self.list_filter.clear();
                self.list_index = 0;
            },
            Key::Char(_) => {
                if key.interrupts() {
                    if self.list_filter.as_str().is_empty() {
                        self.input_mode = InputMode::Normal;
                    } else {
                        self.list_filter.clear();
                        self.list_index = 0;
                    }
                }
            },
            Key::Backspace => {
                self.list_filter.pop();
                self.list_index = 0;
            },
            Key::Enter => {
                self.input_mode = InputMode::Normal;
                let count: usize = self.filtered_lists().len();
                proof {
                    assert(count == self@.filtered_lists().len());
                }
                if count > 0 {
                    return self.load_items(None);
                }
            },
            Key::Up => self.list_up(),
            Key::Down => self.list_down(),
            _ => {},
        }
        Action::Idle
    }

    /// The letters and signs that are commands while nothing is typed.
    fn command(&mut self, c: char) -> (r: Action)
        requires
            c == 'j' && old(self)@.focus != Focus::Sidebar ==> old(self)@.can_move_down(),
            c == 'y' ==> old(self)@.can_copy(),
        ensures
            (final(self)@, r@) == old(self)@.command(c),
    {
        if c == 'q' {
            return Action::Quit;
        } else if c == '/' {
            if self.focus == Focus::Sidebar {
                self.input_mode = InputMode::ListFilter;
            } else {
                self.input_mode = InputMode::Search;
                self.search_query.clear();
            }
        } else if c == ':' {
            self.input_mode = InputMode::AqlQuery;
        } else if c == 'k' {
            self.go_up();
        } else if c == 'j' {
            self.go_down();
        } else if c == 'o' {
            return self.open_selected_url();
        } else if c == 'e' {
            if self.view == Panel::Items || self.view == Panel::Search || self.view
                == Panel::AqlQuery || self.view == Panel::Detail {
                self.start_edit();
            }
        } else if c == 'y' {
            return self.copy_selected();
        } else if c == 'n' {
            if self.view == Panel::Items {
                self.input_mode = InputMode::AddItem;
                self.add_item_text.clear();
            }
        } else if c == 'd' {
            self.delete_selected_item();
        } else if c == ' ' {
            return self.toggle_completed();
        } else if c == 't' {
            return self.move_to_top();
        } else if c == 'b' {
            return self.move_to_bottom();
        } else if c == 'r' {
            return self.refresh_lists(AfterLists::Reload);
        }
        Action::Idle
    }

    /// The keys while nothing is typed.
    fn normal_key(&mut self, key: KeyInput) -> (r: Action)
        requires
            (key.code == Key::Down || key.code == Key::Char('j')) && old(self)@.focus
                != Focus::Sidebar ==> old(self)@.can_move_down(),
            key.code == Key::Char('y') ==> old(self)@.can_copy(),
        ensures
            (final(self)@, r@) == old(self)@.normal_key(key),
    {
        if key.interrupts() {
            return Action::Quit;
        }
        match key.code {
            Key::Char(c) => {
                return self.command(c);
            },
            Key::Tab => {
                self.focus =
                match self.focus {
                    Focus::Sidebar => Focus::Table,
                    Focus::Table => Focus::Sidebar,
                };
            },
            Key::Escape | Key::Backspace => self.go_back(),
            Key::Up => self.go_up(),
            Key::Down => self.go_down(),
            Key::Enter => {
                if self.focus == Focus::Sidebar {
                    return self.load_items(None);
                } else if self.view == Panel::Items || self.view == Panel::Search || self.view
                    == Panel::AqlQuery {
                    self.show_detail();
                }
            },
            _ => {},
        }
        Action::Idle
    }

    /// The keys that are not typed into a text.
    pub fn handle_key(&mut self, key: KeyInput) -> (r: Action)
        requires
            old(self)@.key_ready(key),
        ensures
            (final(self)@, r@) == old(self)@.handle_key(key),
    {
        match self.input_mode {
            InputMode::Search => self.search_key(key),
            InputMode::AddItem => self.add_key(key),
            InputMode::AqlQuery => self.aql_key(key),
            InputMode::ListFilter => self.filter_key(key),
            InputMode::Normal => self.normal_key(key),
        }
    }
}

} // verus!
