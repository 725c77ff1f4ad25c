//! What the mouse does, and sorting by a column.
use vstd::prelude::*;
use vstd::string::*;
use crate::action::{Action, ActionModel};
use crate::column::{Column, SortDirection};
use crate::input::{MouseInput, MouseKind};
use crate::query::{make_order_clause, order_clause, set_order, with_order};
use crate::state::{Browser, ColumnSpan, Focus, ListsTableBrowser, Panel};

verus! {

/// The column that takes a position: the first one whose span holds it.
pub open spec fn column_at(spans: Seq<ColumnSpan>, x: u16) -> Option<Column>
    decreases spans.len(),
{
    if spans.len() == 0 {
        None
    } else if spans[0].1 <= x < spans[0].2 {
        Some(spans[0].0)
    } else {
        column_at(spans.drop_first(), x)
    }
}

impl Browser {
    /// The state with the table sorted by a column. The same column again turns the direction
    /// round; another one begins downwards. The query is given the order clause.
    pub open spec fn sorted_by(self, column: Column) -> Browser {
        let direction = if self.sort_column == Some(column) {
            self.sort_direction.flipped()
        } else {
            SortDirection::Desc
        };
        Browser {
            sort_column: Some(column),
            sort_direction: direction,
            aql_query: with_order(self.aql_query, order_clause(column, direction)),
            ..self
        }
    }

    /// Sorts by a column: the query with its order clause is run.
    pub open spec fn sort_by_column(self, column: Column) -> (Browser, ActionModel) {
        self.sorted_by(column).do_aql_query()
    }

    /// The column whose heading is at a position, where headings are sorted by.
    pub open spec fn heading_at(self, x: u16) -> Option<Column> {
        if self.view == Panel::Items || self.view == Panel::AqlQuery {
            column_at(self.column_positions, x)
        } else {
            None
        }
    }

    /// A click in the sidebar opens the list in that row.
    pub open spec fn click_sidebar(self, y: u16) -> (Browser, ActionModel) {
        let focused = Browser { focus: Focus::Sidebar, ..self };
        let row = y - self.sidebar_area.y;
        if row < self.filtered_lists().len() {
            Browser { list_index: row as usize, ..focused }.load_items(None)
        } else {
            (focused, ActionModel::Idle)
        }
    }

    /// A click on a row of the table selects it; on the selected row it shows the item in full.
    pub open spec fn click_row(self, row: int) -> Browser {
        if row < self.current_items().len() {
            if self.current_table_state().selected == Some(row as usize) {
                self.show_detail()
            } else {
                self.with_selection(Some(row as usize))
            }
        } else {
            self
        }
    }

    /// A click in the table: the first row holds the headings.
    pub open spec fn click_table(self, x: u16, y: u16) -> (Browser, ActionModel) {
        let focused = Browser { focus: Focus::Table, ..self };
        if y == self.table_area.y {
            match focused.heading_at(x) {
                Some(column) => focused.sort_by_column(column),
                None => (focused, ActionModel::Idle),
            }
        } else {
            (focused.click_row(y - self.table_area.y - 1), ActionModel::Idle)
        }
    }

    /// A click.
    pub open spec fn click(self, x: u16, y: u16) -> (Browser, ActionModel) {
        if self.sidebar_area.has_cell(x, y) {
            self.click_sidebar(y)
        } else if self.table_area.has_cell(x, y) {
            self.click_table(x, y)
        } else {
            (self, ActionModel::Idle)
        }
    }

    /// What the mouse does. The wheel moves the selection of the side that has the focus.
    pub open spec fn handle_mouse(self, mouse: MouseInput) -> (Browser, ActionModel) {
        match mouse.kind {
            MouseKind::LeftDown => self.click(mouse.x, mouse.y),
            MouseKind::ScrollUp => (self.go_up(), ActionModel::Idle),
            MouseKind::ScrollDown => (self.go_down(), ActionModel::Idle),
            MouseKind::Other => (self, ActionModel::Idle),
        }
    }

    /// Whether the mouse can be handled: a scroll position stays a number.
    pub open spec fn mouse_ready(self, mouse: MouseInput) -> bool {
        mouse.kind == MouseKind::ScrollDown && self.focus != Focus::Sidebar ==> self.can_move_down()
    }
}

/// Sorting twice by the same column turns the direction round and back.
pub proof fn law_second_sort_turns_round(b: Browser, column: Column)
    ensures
        b.sorted_by(column).sorted_by(column).sort_direction
            == b.sorted_by(column).sort_direction.flipped(),
        b.sorted_by(column).sorted_by(column).sorted_by(column).sort_direction
            == b.sorted_by(column).sort_direction,
        b.sort_column != Some(column) ==> b.sorted_by(column).sort_direction
            == SortDirection::Desc,
{
}

impl ListsTableBrowser {
    /// The column that takes a position.
    pub fn get_column_at_x(&self, x: u16) -> (r: Option<Column>)
        ensures
            r == column_at(self@.column_positions, x),
    {
        let ghost spans = self.column_positions@;
        let mut i: usize = 0;
        proof {
            assert(spans.skip(0) =~= spans);
        }
        while i < self.column_positions.len()
            invariant
                i <= spans.len(),
                spans == self.column_positions@,
                column_at(spans, x) == column_at(spans.skip(i as int), x),
            decreases spans.len() - i,
        {
            proof {
                assert(spans.skip(i as int).drop_first() =~= spans.skip(i + 1));
            }
            let span = self.column_positions[i];
            if span.1 <= x && x < span.2 {
                return Some(span.0);
            }
            i += 1;
        }
        None
    }

    /// The direction that sorting by a column gives.
    fn next_direction(&self, column: Column) -> (r: SortDirection)
        ensures
            r == self@.sorted_by(column).sort_direction,
    {
        match self.sort_column {
            Some(current) => {
                if current == column {
                    self.sort_direction.toggle()
                } else {
                    SortDirection::Desc
                }
            },
            None => SortDirection::Desc,
        }
    }

    /// Sorts by a column.
    pub fn sort_by_column(&mut self, column: Column) -> (r: Action)
        ensures
            (final(self)@, r@) == old(self)@.sort_by_column(column),
    {
        let direction = self.next_direction(column);
        let clause = make_order_clause(column, direction);
        let query = set_order(self.aql_query.as_str(), clause.as_str());
        self.sort_column = Some(column);
        self.sort_direction = direction;
        self.aql_query = query;
        proof {
            assert(self@ == old(self)@.sorted_by(column));
        }
        self.do_aql_query()
    }

    /// The column whose heading is at a position, where headings are sorted by.
    fn heading_at(&self, x: u16) -> (r: Option<Column>)
        ensures
            r == self@.heading_at(x),
    {
        if self.view == Panel::Items || self.view == Panel::AqlQuery {
            self.get_column_at_x(x)
        } else {
            None
        }
    }

    /// A click in the sidebar.
    fn click_sidebar(&mut self, y: u16) -> (r: Action)
        requires
            old(self)@.sidebar_area.y <= y,
        ensures
            (final(self)@, r@) == old(self)@.click_sidebar(y),
    {
        self.focus = Focus::Sidebar;
        let row: usize = (y - self.sidebar_area.y) as usize;
        let count: usize = self.filtered_lists().len();
        proof {
            assert(count == self@.filtered_lists().len());
        }
        if row < count {
            self.list_index = row;
            self.load_items(None)
        } else {
            Action::Idle
        }
    }

    /// A click on a row of the table.
    fn click_row(&mut self, row: usize)
        ensures
            final(self)@ == old(self)@.click_row(row as int),
    {
        let count: usize = self.current_items().len();
        proof {
            assert(count == self@.current_items().len());
        }
        if row < count {
            let again = match self.current_table_state().selected {
                Some(selected) => selected == row,
                None => false,
            };
            if again {
                self.show_detail();
            } else {
                self.select_row(Some(row));
            }
        }
    }

    /// A click in the table.
    fn click_table(&mut self, x: u16, y: u16) -> (r: Action)
        requires
            old(self)@.table_area.y <= y,
        ensures
            (final(self)@, r@) == old(self)@.click_table(x, y),
    {
        self.focus = Focus::Table;
        if y == self.table_area.y {
            match self.heading_at(x) {
                Some(column) => self.sort_by_column(column),
                None => Action::Idle,
            }
        } else {
            let row: usize = (y - self.table_area.y - 1) as usize;
            self.click_row(row);
            Action::Idle
        }
    }

    /// What the mouse does.
    pub fn handle_mouse(&mut self, mouse: MouseInput) -> (r: Action)
        requires
            old(self)@.mouse_ready(mouse),
        ensures
            (final(self)@, r@) == old(self)@.handle_mouse(mouse),
    {
        match mouse.kind {
            MouseKind::LeftDown => {
                if self.sidebar_area.contains(mouse.x, mouse.y) {
                    return self.click_sidebar(mouse.y);
                } else if self.table_area.contains(mouse.x, mouse.y) {
                    return self.click_table(mouse.x, mouse.y);
                }
            },
            MouseKind::ScrollUp => self.go_up(),
            MouseKind::ScrollDown => self.go_down(),
            MouseKind::Other => {},
        }
        Action::Idle
    }

    /// Whether going down leaves the scroll position a number.
    pub fn can_go_down(&self) -> (r: bool)
        ensures
            r == (self@.focus != Focus::Sidebar ==> self@.can_move_down()),
    {
        self.focus == Focus::Sidebar || self.view != Panel::Detail || self.detail_scroll
            < usize::MAX
    }

    /// Whether the mouse can be handled.
    pub fn accepts_mouse(&self, mouse: MouseInput) -> (r: bool)
        ensures
            r == self@.mouse_ready(mouse),
    {
        mouse.kind != MouseKind::ScrollDown || self.can_go_down()
    }
}

} // verus!
