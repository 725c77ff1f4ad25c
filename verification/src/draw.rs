//! Making what the screen shows.
use vstd::prelude::*;
use vstd::string::*;
use crate::cells::{can_make_cell, cell_fits, cells, column_spans, default_columns, make_cell, place_columns};
use crate::column::{Column, SortDirection};
use crate::items::{item_models, ListInfo, ListItem};
use crate::layout::{border_inner, floored, inside_border, split_row, split_stack, Area};
use crate::load::counted;
use crate::screen::{block, bottom_row, detail, detail_fits, detail_lines, edit_places, headings, line_models, longest_name, placed_lines, placed_models, row_models, rows_fit, sidebar_models, sidebar_width, table_rows, Body, Detail, EditPlaces, Line, Pane, PlacedLine, Screen, SidebarRow, Table, TableRow, Tone};
use crate::state::{list_refs, ColumnSpan, EditFocus, Focus, InputMode, ListsTableBrowser, Panel};
use crate::text::{chars_of, concat2, concat3, join, take_chars, texts};

verus! {

/// Rows of the screen counted from the bottom.
fn make_bottom_row(width: u16, height: u16, from_bottom: u16) -> (r: Area)
    ensures
        r == bottom_row(width, height, from_bottom as int),
{
    let y: u16 = if height > from_bottom {
        height - from_bottom
    } else {
        0
    };
    Area::new(0, y, width, 1)
}

/// The width of the sidebar.
pub fn measure_sidebar(lists: &Vec<&ListInfo>) -> (r: u16)
    ensures
        r == sidebar_width(list_refs(lists@)),
{
    if lists.is_empty() {
        return 16;
    }
    let ghost models = list_refs(lists@);
    let mut longest: usize = 0;
    let mut i: usize = 0;
    while i < lists.len()
        invariant
            i <= lists@.len(),
            models == list_refs(lists@),
            longest == longest_name(models.take(i as int)),
        decreases lists@.len() - i,
    {
        proof {
            assert(models.take(i + 1).drop_last() =~= models.take(i as int));
            assert(models.take(i + 1).last() == lists@[i as int]@);
        }
        let len: usize = chars_of(lists[i].name.as_str()).len();
        if len > longest {
            longest = len;
        }
        i += 1;
    }
    proof {
        assert(models.take(i as int) =~= models);
    }
    if longest > 34 {
        40
    } else if longest < 9 {
        15
    } else {
        (longest + 6) as u16
    }
}

/// Columns copied.
fn copy_columns(columns: &Vec<Column>) -> (r: Vec<Column>)
    ensures
        r@ == columns@,
{
    let mut out: Vec<Column> = Vec::new();
    let mut i: usize = 0;
    while i < columns.len()
        invariant
            i <= columns@.len(),
            out@ == columns@.take(i as int),
        decreases columns@.len() - i,
    {
        out.push(columns[i]);
        i += 1;
        proof {
            assert(columns@.take(i as int) =~= columns@.take(i - 1).push(columns@[i - 1]));
        }
    }
    proof {
        assert(columns@.take(i as int) =~= columns@);
    }
    out
}

/// The headings of columns.
fn make_headings(
    columns: &Vec<Column>,
    sort_column: Option<Column>,
    direction: SortDirection,
) -> (r: Vec<String>)
    ensures
        texts(r@) == headings(columns@, sort_column, direction),
{
    let mut out: Vec<String> = Vec::new();
    let mut i: usize = 0;
    while i < columns.len()
        invariant
            i <= columns@.len(),
            out@.len() == i,
            forall|k: int|
                0 <= k < i ==> #[trigger] out@[k]@ == columns@[k].marked_heading(
                    sort_column,
                    direction,
                ),
        decreases columns@.len() - i,
    {
        out.push(columns[i].make_heading(sort_column, direction));
        i += 1;
    }
    proof {
        assert(texts(out@) =~= headings(columns@, sort_column, direction));
    }
    out
}

/// The cells of an item.
fn make_cells(item: &ListItem, columns: &Vec<Column>) -> (r: Vec<String>)
    requires
        forall|j: int| 0 <= j < columns@.len() ==> cell_fits(item@, #[trigger] columns@[j]),
    ensures
        texts(r@) == cells(item@, columns@),
{
    let mut out: Vec<String> = Vec::new();
    let mut i: usize = 0;
    while i < columns.len()
        invariant
            i <= columns@.len(),
            forall|j: int| 0 <= j < columns@.len() ==> cell_fits(item@, #[trigger] columns@[j]),
            out@.len() == i,
            forall|k: int| 0 <= k < i ==> #[trigger] out@[k]@ == cells(item@, columns@)[k],
        decreases columns@.len() - i,
    {
        out.push(make_cell(item, columns[i]));
        i += 1;
    }
    proof {
        assert(texts(out@) =~= cells(item@, columns@));
    }
    out
}

/// The rows for items.
fn make_rows(items: &[ListItem], columns: &Vec<Column>) -> (r: Vec<TableRow>)
    requires
        forall|i: int, j: int|
            0 <= i < items@.len() && 0 <= j < columns@.len() ==> cell_fits(
                #[trigger] item_models(items@)[i],
                #[trigger] columns@[j],
            ),
    ensures
        row_models(r@) == table_rows(item_models(items@), columns@),
{
    let mut out: Vec<TableRow> = Vec::new();
    let ghost models = item_models(items@);
    let ghost all = table_rows(models, columns@);
    let mut i: usize = 0;
    while i < items.len()
        invariant
            i <= items@.len(),
            models == item_models(items@),
            all == table_rows(models, columns@),
            forall|i: int, j: int|
                0 <= i < items@.len() && 0 <= j < columns@.len() ==> cell_fits(
                    #[trigger] models[i],
                    #[trigger] columns@[j],
                ),
            row_models(out@) =~= all.take(i as int),
        decreases items@.len() - i,
    {
        let item = &items[i];
        proof {
            assert(models[i as int] == item@);
        }
        let ghost before = out@;
        out.push(TableRow { cells: make_cells(item, columns), done: item.done() });
        proof {
            assert(row_models(out@).last() == all[i as int]);
            assert(row_models(out@) =~= row_models(before).push(all[i as int]));
        }
        i += 1;
    }
    proof {
        assert(all.take(i as int) =~= all);
    }
    out
}

/// Adds a heading, an indented text, and an empty line.
fn push_block(lines: &mut Vec<Line>, heading: &str, text: &str, tone: Tone)
    ensures
        line_models(final(lines)@) == line_models(old(lines)@) + block(heading@, text@, tone),
{
    lines.push(Line { text: heading.to_owned(), tone: Tone::Accent });
    lines.push(Line { text: concat2("  ", text), tone });
    lines.push(Line { text: String::new(), tone: Tone::Plain });
    proof {
        assert(line_models(lines@) =~= line_models(old(lines)@) + block(heading@, text@, tone));
    }
}

/// The lines of an item that is shown in full.
pub fn make_detail_lines(item: &ListItem) -> (r: Vec<Line>)
    ensures
        line_models(r@) == detail_lines(item@),
{
    let mut lines: Vec<Line> = Vec::new();
    push_block(&mut lines, "Title", item.title.as_str(), Tone::Primary);
    if let Some(completed) = item.completed {
        let status = if completed {
            "✓ Completed"
        } else {
            "◯ Not completed"
        };
        push_block(&mut lines, "Status", status, Tone::Completed);
    }
    if let Some(url) = &item.url {
        push_block(&mut lines, "URL", url.as_str(), Tone::Link);
    }
    if item.tags.len() > 0 {
        let tags = join(&item.tags, item.tags.len(), ", ");
        proof {
            assert(texts(item.tags@).take(item.tags@.len() as int) =~= item@.tags);
        }
        push_block(&mut lines, "Tags", tags.as_str(), Tone::Tag);
    }
    let ghost before = lines@;
    if item.notes.is_some() {
        lines.push(Line { text: "Notes".to_owned(), tone: Tone::Accent });
    }
    proof {
        assert(line_models(lines@) =~= detail_lines(item@));
    }
    lines
}

/// Lines from a scroll position on, below each other, as far as there is room.
fn place_lines(lines: &Vec<Line>, scroll: usize, area: Area) -> (r: Vec<PlacedLine>)
    requires
        rows_fit(lines@.len() as int, scroll as int, area),
    ensures
        placed_models(r@) == placed_lines(line_models(lines@), scroll as int, area),
{
    let mut out: Vec<PlacedLine> = Vec::new();
    let total: usize = lines.len();
    let left: usize = if total > scroll {
        total - scroll
    } else {
        0
    };
    let count: usize = if left < area.height as usize {
        left
    } else {
        area.height as usize
    };
    let ghost all = placed_lines(line_models(lines@), scroll as int, area);
    let mut i: usize = 0;
    while i < count
        invariant
            i <= count,
            count <= left,
            count <= area.height,
            total == lines@.len(),
            left == floored(total - scroll),
            rows_fit(total as int, scroll as int, area),
            all == placed_lines(line_models(lines@), scroll as int, area),
            all.len() == count,
            placed_models(out@) =~= all.take(i as int),
        decreases count - i,
    {
        let line = &lines[scroll + i];
        let ghost before = out@;
        out.push(
            PlacedLine {
                area: Area::new(area.x, area.y + i as u16, area.width, 1),
                line: Line {
                    text: take_chars(line.text.as_str(), area.width as usize),
                    tone: line.tone,
                },
            },
        );
        proof {
            assert(placed_models(out@).last() == all[i as int]);
            assert(placed_models(out@) =~= placed_models(before).push(all[i as int]));
        }
        i += 1;
    }
    proof {
        assert(all.take(i as int) =~= all);
    }
    out
}

/// An item shown in full, from a scroll position on.
pub fn render_detail(item: &ListItem, scroll: usize, area: Area) -> (r: Detail)
    requires
        detail_fits(item@, scroll as int, area),
    ensures
        r@ == detail(item@, scroll as int, area),
{
    let header = make_detail_lines(item);
    let lines = place_lines(&header, scroll, area);
    let above: usize = if header.len() > scroll {
        header.len() - scroll
    } else {
        0
    };
    let notes = match &item.notes {
        Some(notes) => {
            if above < area.height as usize {
                let width: u16 = if area.width > 2 {
                    area.width - 2
                } else {
                    0
                };
                let place = Area::new(
                    area.x + 2,
                    area.y + above as u16,
                    width,
                    area.height - above as u16,
                );
                Some((place, notes.clone()))
            } else {
                None
            }
        },
        None => None,
    };
    Detail { lines, notes }
}

/// The places of the edit view.
pub fn render_edit(area: Area, focus: EditFocus) -> (r: EditPlaces)
    ensures
        r == edit_places(area, focus),
{
    let parts = split_stack(area, 6, 1, 5, 1);
    proof {
        assert(parts@.len() == 4);
    }
    EditPlaces {
        form: parts[0],
        label: parts[1],
        notes: parts[2],
        notes_inner: border_inner(parts[2]),
        buttons: parts[3],
        focus,
    }
}

impl ListsTableBrowser {
    /// The sidebar and the main panel.
    fn split_panes(&self, width: u16, height: u16) -> (r: (Area, Area))
        ensures
            r.0 == self@.panes(width, height)[0],
            r.1 == self@.panes(width, height)[1],
            r.0.y == 0,
            r.1.y == 0,
            r.1.x <= 40,
            r.0.height <= u16::MAX - 2,
            r.1.height <= u16::MAX - 2,
    {
        let lists = self.filtered_lists();
        let wanted: u16 = measure_sidebar(&lists);
        let above: u16 = if height > 2 {
            height - 2
        } else {
            0
        };
        let parts = split_row(Area::new(0, 0, width, above), wanted, 40);
        proof {
            assert(parts@.len() == 2);
        }
        (parts[0], parts[1])
    }

    /// The title of the sidebar.
    fn make_sidebar_title(&self) -> (r: String)
        ensures
            r@ == self@.sidebar_title(),
    {
        let count: usize = self.filtered_lists().len();
        proof {
            assert(count == self@.filtered_lists().len());
        }
        if self.list_filter.as_str().is_empty() {
            counted(" Lists (", count, ") ")
        } else {
            let before = concat3(" /", self.list_filter.as_str(), " (");
            counted(before.as_str(), count, ") ")
        }
    }

    /// The rows of the sidebar.
    fn make_sidebar_rows(&self, inner: Area) -> (r: Vec<SidebarRow>)
        requires
            inner.y + inner.height <= u16::MAX,
        ensures
            sidebar_models(r@) == self@.sidebar_rows(inner),
    {
        let lists = self.filtered_lists();
        let count: usize = if lists.len() < inner.height as usize {
            lists.len()
        } else {
            inner.height as usize
        };
        let mut out: Vec<SidebarRow> = Vec::new();
        let ghost all = self@.sidebar_rows(inner);
        let mut i: usize = 0;
        while i < count
            invariant
                i <= count,
                count <= lists@.len(),
                count <= inner.height,
                inner.y + inner.height <= u16::MAX,
                list_refs(lists@) == self@.filtered_lists(),
                all == self@.sidebar_rows(inner),
                all.len() == count,
                sidebar_models(out@) =~= all.take(i as int),
            decreases count - i,
        {
            let list = lists[i];
            let selected = i == self.list_index;
            let prefix = if selected {
                "▶ "
            } else {
                "  "
            };
            let text = concat2(prefix, list.name.as_str());
            let ghost before = out@;
            out.push(
                SidebarRow {
                    area: Area::new(inner.x, inner.y + i as u16, inner.width, 1),
                    text: take_chars(text.as_str(), inner.width as usize),
                    selected,
                },
            );
            proof {
                assert(list_refs(lists@)[i as int] == list@);
                assert(sidebar_models(out@).last() == all[i as int]);
                assert(sidebar_models(out@) =~= sidebar_models(before).push(all[i as int]));
            }
            i += 1;
        }
        proof {
            assert(all.take(i as int) =~= all);
        }
        out
    }

    /// The title of the main panel.
    fn make_panel_title(&self) -> (r: String)
        ensures
            r@ == self@.panel_title(),
    {
        match self.view {
            Panel::Lists => " Select a list ".to_owned(),
            Panel::Items => {
                match self.selected_list() {
                    Some(list) => {
                        let before = concat3(" ", list.name.as_str(), " (");
                        counted(before.as_str(), self.items.len(), " items) ")
                    },
                    None => " Items ".to_owned(),
                }
            },
            Panel::Search => {
                let before = concat3(" Search: \"", self.search_query.as_str(), "\" (");
                counted(before.as_str(), self.search_results.len(), " results) ")
            },
            Panel::AqlQuery => {
                let place = match self.selected_list() {
                    Some(list) => concat3(" AQL [", list.name.as_str(), "]: "),
                    None => " AQL: ".to_owned(),
                };
                let before = concat3(place.as_str(), self.aql_query.as_str(), " (");
                counted(before.as_str(), self.aql_results.len(), " results) ")
            },
            Panel::Detail => {
                match &self.detail_item {
                    Some(item) => concat3(" ", item.title.as_str(), " "),
                    None => " Detail ".to_owned(),
                }
            },
            Panel::Edit => {
                match &self.edit_item {
                    Some(item) => concat3(" Edit: ", item.title.as_str(), " "),
                    None => " Edit ".to_owned(),
                }
            },
        }
    }

    /// The columns of the table.
    fn pick_columns(&self) -> (r: Vec<Column>)
        ensures
            r@ == self@.shown_columns(),
    {
        if self.view == Panel::AqlQuery {
            if let Some(columns) = &self.aql_columns {
                return copy_columns(columns);
            }
        }
        let mut out: Vec<Column> = Vec::new();
        out.push(Column::Title);
        out.push(Column::Tags);
        proof {
            assert(out@ =~= default_columns());
        }
        out
    }

    /// The table of items, with the cells that its columns take.
    fn render_items_table(&self, inner: Area) -> (r: (Table, Vec<ColumnSpan>))
        requires
            self@.current_items().len() > 0,
            self@.table_fits(inner),
        ensures
            r.0@ == self@.table(),
            r.1@ == column_spans(self@.shown_columns(), inner.x, inner.width),
    {
        let columns = self.pick_columns();
        let spans = match place_columns(&columns, inner.x, inner.width) {
            Some(spans) => spans,
            None => Vec::new(),
        };
        let header = make_headings(&columns, self.sort_column, self.sort_direction);
        let rows = make_rows(self.current_items(), &columns);
        (Table { columns, header, rows, selected: self.current_table_state().selected }, spans)
    }

    /// What the main panel shows, with the cells that the columns of a table take.
    fn make_body(&self, inner: Area) -> (r: (Body, Option<Vec<ColumnSpan>>))
        requires
            self@.table_fits(inner),
            inner.x + 2 <= u16::MAX,
            inner.y + inner.height <= u16::MAX,
        ensures
            r.0@ == self@.body(inner),
            match r.1 {
                Some(spans) => self@.shows_table() && self@.current_items().len() > 0 && spans@
                    == column_spans(self@.shown_columns(), inner.x, inner.width),
                None => !self@.shows_table() || self@.current_items().len() == 0,
            },
    {
        match self.view {
            Panel::Lists => (
                Body::Hint("Select a list from the sidebar and press Enter".to_owned()),
                None,
            ),
            Panel::Detail => {
                match &self.detail_item {
                    Some(item) => (
                        Body::Detail(render_detail(item, self.detail_scroll, inner)),
                        None,
                    ),
                    None => (Body::Nothing, None),
                }
            },
            Panel::Edit => {
                if self.edit_form.is_some() {
                    (Body::Edit(render_edit(inner, self.edit_focus)), None)
                } else {
                    (Body::Nothing, None)
                }
            },
            _ => {
                let count: usize = self.current_items().len();
                proof {
                    assert(count == self@.current_items().len());
                }
                if count == 0 {
                    (Body::Hint("No items".to_owned()), None)
                } else {
                    let (table, spans) = self.render_items_table(inner);
                    (Body::Table(table), Some(spans))
                }
            },
        }
    }

    /// The row above the last.
    fn make_input_line(&self) -> (r: Option<Line>)
        ensures
            match r {
                Some(line) => self@.input_line() == Some(line@),
                None => self@.input_line() is None,
            },
    {
        match self.input_mode {
            InputMode::Search => Some(
                Line {
                    text: concat3("Search: ", self.search_query.as_str(), "▌"),
                    tone: Tone::Accent,
                },
            ),
            InputMode::AddItem => Some(
                Line {
                    text: concat3("New item: ", self.add_item_text.as_str(), "▌"),
                    tone: Tone::Success,
                },
            ),
            InputMode::AqlQuery => Some(
                Line { text: concat3("AQL: ", self.aql_query.as_str(), "▌"), tone: Tone::Tag },
            ),
            InputMode::ListFilter => Some(
                Line {
                    text: concat3("Filter lists: ", self.list_filter.as_str(), "▌"),
                    tone: Tone::Accent,
                },
            ),
            InputMode::Normal => {
                if let Some(text) = &self.error_message {
                    Some(Line { text: text.clone(), tone: Tone::Failure })
                } else if let Some(text) = &self.status_message {
                    Some(Line { text: text.clone(), tone: Tone::Success })
                } else {
                    None
                }
            },
        }
    }

    /// The last row.
    fn make_status_line(&self) -> (r: String)
        ensures
            r@ == self@.status_line(),
    {
        let mark = if self.ws_connected {
            "🔗"
        } else {
            "⚡"
        };
        let help = match self.input_mode {
            InputMode::Search => " Enter:search  Esc:cancel ",
            InputMode::AddItem => " Enter:add  Esc:cancel ",
            InputMode::AqlQuery => " Enter:run-query  Esc:cancel ",
            InputMode::ListFilter => " Enter:select  Esc:clear-filter ",
            InputMode::Normal => match self.view {
                Panel::Detail => " Esc:back  e:edit  o:open-url  j/k:scroll  q:quit ",
                Panel::Edit => " Tab:focus  Enter:save  Esc:cancel ",
                _ => " q:quit  /:search  ::aql  n:new  e:edit  d:del  Space:✓  o:open  y:copy ",
            },
        };
        concat2(mark, help)
    }

    /// The question of the dialog, while it is open.
    fn make_question(&self) -> (r: Option<String>)
        ensures
            match r {
                Some(text) => self@.dialog_question() == Some(text@),
                None => self@.dialog_question() is None,
            },
    {
        match &self.delete_confirm {
            Some(doomed) => {
                if self.dialog_state.open {
                    Some(concat3("Delete \"", doomed.title.as_str(), "\"?"))
                } else {
                    None
                }
            },
            None => None,
        }
    }

    /// Makes what a screen of the given size shows, and remembers where things are drawn.
    pub fn render(&mut self, width: u16, height: u16) -> (r: Screen)
        requires
            old(self)@.drawable(width, height),
        ensures
            r@ == old(self)@.screen(width, height),
            final(self)@ == old(self)@.viewed(width, height),
            old(self)@.wf() ==> final(self)@.wf(),
    {
        let (left, right) = self.split_panes(width, height);
        let sidebar_inner = border_inner(left);
        let panel_inner = border_inner(right);
        let (body, spans) = self.make_body(panel_inner);
        let screen = Screen {
            sidebar: Pane {
                area: left,
                inner: sidebar_inner,
                title: self.make_sidebar_title(),
                focused: self.focus == Focus::Sidebar,
            },
            rows: self.make_sidebar_rows(sidebar_inner),
            panel: Pane {
                area: right,
                inner: panel_inner,
                title: self.make_panel_title(),
                focused: self.focus == Focus::Table,
            },
            body,
            input_area: make_bottom_row(width, height, 2),
            input: self.make_input_line(),
            status_area: make_bottom_row(width, height, 1),
            status: self.make_status_line(),
            dialog: self.make_question(),
        };
        self.sidebar_area = sidebar_inner;
        self.table_area = panel_inner;
        if let Some(spans) = spans {
            self.column_positions = spans;
        }
        screen
    }

    /// Whether the cells of an item can be made.
    fn can_make_cells(item: &ListItem, columns: &Vec<Column>) -> (r: bool)
        ensures
            r == forall|j: int|
                0 <= j < columns@.len() ==> cell_fits(item@, #[trigger] columns@[j]),
    {
        let mut i: usize = 0;
        while i < columns.len()
            invariant
                i <= columns@.len(),
                forall|j: int| 0 <= j < i ==> cell_fits(item@, #[trigger] columns@[j]),
            decreases columns@.len() - i,
        {
            if !can_make_cell(item, columns[i]) {
                return false;
            }
            i += 1;
        }
        true
    }

    /// Whether a screen of the given size can be drawn.
    pub fn can_render(&self, width: u16, height: u16) -> (r: bool)
        ensures
            r == self@.drawable(width, height),
    {
        let (_, right) = self.split_panes(width, height);
        let inner = border_inner(right);
        let columns = self.pick_columns();
        let items = self.current_items();
        if items.len() == 0 {
            proof {
                assert(item_models(items@).len() == 0);
            }
            return true;
        }
        if place_columns(&columns, inner.x, inner.width).is_none() {
            return false;
        }
        let ghost models = item_models(items@);
        let mut i: usize = 0;
        while i < items.len()
            invariant
                i <= items@.len(),
                models == item_models(items@),
                models == self@.current_items(),
                columns@ == self@.shown_columns(),
                inner == inside_border(self@.panes(width, height)[1]),
                items@.len() > 0,
                forall|k: int, j: int|
                    0 <= k < i && 0 <= j < columns@.len() ==> cell_fits(
                        #[trigger] models[k],
                        #[trigger] columns@[j],
                    ),
            decreases items@.len() - i,
        {
            proof {
                assert(models[i as int] == items@[i as int]@);
            }
            if !Self::can_make_cells(&items[i], &columns) {
                return false;
            }
            i += 1;
        }
        true
    }

    /// Makes what a screen of the given size shows, where it can be drawn; where it cannot,
    /// nothing changes.
    pub fn try_render(&mut self, width: u16, height: u16) -> (r: Option<Screen>)
        ensures
            match r {
                Some(screen) => old(self)@.drawable(width, height) && screen@ == old(self)@.screen(
                    width,
                    height,
                ) && final(self)@ == old(self)@.viewed(width, height),
                None => !old(self)@.drawable(width, height) && final(self)@ == old(self)@,
            },
    {
        if self.can_render(width, height) {
            Some(self.render(width, height))
        } else {
            None
        }
    }
}

} // verus!
