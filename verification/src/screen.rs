//! What the screen shows.
use vstd::prelude::*;
use vstd::string::*;
use crate::cells::{cell_fits, cells, column_spans, columns_fit, default_columns};
use crate::column::{Column, SortDirection};
use crate::items::{is_done, ItemModel, ListModel};
use crate::layout::{floored, inside_border, row_split, smaller, stack_split, Area};
use crate::state::{Browser, EditFocus, Focus, InputMode, Panel};
use crate::text::{decimal, first_chars, joined, texts};

verus! {

/// What a text is about, which its color tells.
#[derive(Debug, Clone, Copy, PartialEq, Eq, Structural)]
pub enum Tone {
    Plain,
    Primary,
    Accent,
    Completed,
    Link,
    Tag,
    Success,
    Failure,
}

/// A line of text.
#[derive(Debug)]
pub struct Line {
    pub text: String,
    pub tone: Tone,
}

/// What a line holds.
pub struct LineModel {
    pub text: Seq<char>,
    pub tone: Tone,
}

impl View for Line {
    type V = LineModel;

    open spec fn view(&self) -> LineModel {
        LineModel { text: self.text@, tone: self.tone }
    }
}

/// What lines hold.
pub open spec fn line_models(v: Seq<Line>) -> Seq<LineModel> {
    Seq::new(v.len(), |i: int| v[i]@)
}

/// A line of text at a place.
#[derive(Debug)]
pub struct PlacedLine {
    pub area: Area,
    pub line: Line,
}

/// What a placed line holds.
pub struct PlacedModel {
    pub area: Area,
    pub line: LineModel,
}

/// What placed lines hold.
pub open spec fn placed_models(v: Seq<PlacedLine>) -> Seq<PlacedModel> {
    Seq::new(v.len(), |i: int| PlacedModel { area: v[i].area, line: v[i].line@ })
}

/// A row of the sidebar.
#[derive(Debug)]
pub struct SidebarRow {
    pub area: Area,
    pub text: String,
    pub selected: bool,
}

/// What a row of the sidebar holds.
pub struct SidebarModel {
    pub area: Area,
    pub text: Seq<char>,
    pub selected: bool,
}

/// What the rows of the sidebar hold.
pub open spec fn sidebar_models(v: Seq<SidebarRow>) -> Seq<SidebarModel> {
    Seq::new(
        v.len(),
        |i: int| SidebarModel { area: v[i].area, text: v[i].text@, selected: v[i].selected },
    )
}

/// A frame with a title.
#[derive(Debug)]
pub struct Pane {
    pub area: Area,
    pub inner: Area,
    pub title: String,
    pub focused: bool,
}

/// What a frame holds.
pub struct PaneModel {
    pub area: Area,
    pub inner: Area,
    pub title: Seq<char>,
    pub focused: bool,
}

impl View for Pane {
    type V = PaneModel;

    open spec fn view(&self) -> PaneModel {
        PaneModel {
            area: self.area,
            inner: self.inner,
            title: self.title@,
            focused: self.focused,
        }
    }
}

/// A row of the table.
#[derive(Debug)]
pub struct TableRow {
    pub cells: Vec<String>,
    pub done: bool,
}

/// What a row of the table holds.
pub struct RowModel {
    pub cells: Seq<Seq<char>>,
    pub done: bool,
}

/// What the rows of the table hold.
pub open spec fn row_models(v: Seq<TableRow>) -> Seq<RowModel> {
    Seq::new(v.len(), |i: int| RowModel { cells: texts(v[i].cells@), done: v[i].done })
}

/// The table of items.
#[derive(Debug)]
pub struct Table {
    pub columns: Vec<Column>,
    pub header: Vec<String>,
    pub rows: Vec<TableRow>,
    pub selected: Option<usize>,
}

/// What the table holds.
pub struct TableModel {
    pub columns: Seq<Column>,
    pub header: Seq<Seq<char>>,
    pub rows: Seq<RowModel>,
    pub selected: Option<usize>,
}

impl View for Table {
    type V = TableModel;

    open spec fn view(&self) -> TableModel {
        TableModel {
            columns: self.columns@,
            header: texts(self.header@),
            rows: row_models(self.rows@),
            selected: self.selected,
        }
    }
}

/// An item shown in full: lines, and the notes below them.
#[derive(Debug)]
pub struct Detail {
    pub lines: Vec<PlacedLine>,
    pub notes: Option<(Area, String)>,
}

/// What an item shown in full holds.
pub struct DetailModel {
    pub lines: Seq<PlacedModel>,
    pub notes: Option<(Area, Seq<char>)>,
}

impl View for Detail {
    type V = DetailModel;

    open spec fn view(&self) -> DetailModel {
        DetailModel {
            lines: placed_models(self.lines@),
            notes: match self.notes {
                Some((area, text)) => Some((area, text@)),
                None => None,
            },
        }
    }
}

/// The places of the edit view.
#[derive(Debug, Clone, Copy, PartialEq, Eq, Structural)]
pub struct EditPlaces {
    pub form: Area,
    pub label: Area,
    pub notes: Area,
    pub notes_inner: Area,
    pub buttons: Area,
    pub focus: EditFocus,
}

/// What the main panel shows.
#[derive(Debug)]
pub enum Body {
    Nothing,
    Hint(String),
    Table(Table),
    Detail(Detail),
    Edit(EditPlaces),
}

/// What the main panel holds.
pub enum BodyModel {
    Nothing,
    Hint(Seq<char>),
    Table(TableModel),
    Detail(DetailModel),
    Edit(EditPlaces),
}

impl View for Body {
    type V = BodyModel;

    open spec fn view(&self) -> BodyModel {
        match self {
            Body::Nothing => BodyModel::Nothing,
            Body::Hint(text) => BodyModel::Hint(text@),
            Body::Table(table) => BodyModel::Table(table@),
            Body::Detail(detail) => BodyModel::Detail(detail@),
            Body::Edit(places) => BodyModel::Edit(*places),
        }
    }
}

/// The whole screen.
#[derive(Debug)]
pub struct Screen {
    pub sidebar: Pane,
    pub rows: Vec<SidebarRow>,
    pub panel: Pane,
    pub body: Body,
    pub input_area: Area,
    pub input: Option<Line>,
    pub status_area: Area,
    pub status: String,
    pub dialog: Option<String>,
}

/// What the whole screen holds.
pub struct ScreenModel {
    pub sidebar: PaneModel,
    pub rows: Seq<SidebarModel>,
    pub panel: PaneModel,
    pub body: BodyModel,
    pub input_area: Area,
    pub input: Option<LineModel>,
    pub status_area: Area,
    pub status: Seq<char>,
    pub dialog: Option<Seq<char>>,
}

impl View for Screen {
    type V = ScreenModel;

    open spec fn view(&self) -> ScreenModel {
        ScreenModel {
            sidebar: self.sidebar@,
            rows: sidebar_models(self.rows@),
            panel: self.panel@,
            body: self.body@,
            input_area: self.input_area,
            input: match self.input {
                Some(line) => Some(line@),
                None => None,
            },
            status_area: self.status_area,
            status: self.status@,
            dialog: match self.dialog {
                Some(text) => Some(text@),
                None => None,
            },
        }
    }
}

// ---------------------------------------------------------------------------
// The sidebar
// ---------------------------------------------------------------------------
/// The number of characters of the longest name.
pub open spec fn longest_name(lists: Seq<ListModel>) -> int
    decreases lists.len(),
{
    if lists.len() == 0 {
        0
    } else {
        let rest = longest_name(lists.drop_last());
        if lists.last().name.len() > rest {
            lists.last().name.len() as int
        } else {
            rest
        }
    }
}

/// The width of the sidebar: room for the longest name with its frame, within limits.
pub open spec fn sidebar_width(lists: Seq<ListModel>) -> int {
    let wanted = (if lists.len() == 0 {
        10
    } else {
        longest_name(lists)
    }) + 6;
    if wanted > 40 {
        40
    } else if wanted < 15 {
        15
    } else {
        wanted
    }
}

/// The place of a line below the top of an area.
pub open spec fn line_area(area: Area, i: int) -> Area {
    Area { y: (area.y + i) as u16, height: 1, ..area }
}

/// The last rows of the screen: so many from the bottom.
pub open spec fn bottom_row(width: u16, height: u16, from_bottom: int) -> Area {
    Area { x: 0, y: floored(height - from_bottom) as u16, width, height: 1 }
}

impl Browser {
    /// The sidebar and the main panel: the screen above its last two rows.
    pub open spec fn panes(self, width: u16, height: u16) -> Seq<Area> {
        row_split(
            Area { x: 0, y: 0, width, height: floored(height - 2) as u16 },
            sidebar_width(self.filtered_lists()) as u16,
        )
    }

    /// The title of the sidebar.
    pub open spec fn sidebar_title(self) -> Seq<char> {
        let count = decimal(self.filtered_lists().len());
        if self.list_filter.len() == 0 {
            " Lists ("@ + count + ") "@
        } else {
            " /"@ + self.list_filter + " ("@ + count + ") "@
        }
    }

    /// A row of the sidebar.
    pub open spec fn sidebar_row(self, inner: Area, i: int) -> SidebarModel {
        let selected = i == self.list_index;
        SidebarModel {
            area: line_area(inner, i),
            text: first_chars(
                (if selected {
                    "▶ "@
                } else {
                    "  "@
                }) + self.filtered_lists()[i].name,
                inner.width as int,
            ),
            selected,
        }
    }

    /// The rows of the sidebar, as far as there is room.
    pub open spec fn sidebar_rows(self, inner: Area) -> Seq<SidebarModel> {
        Seq::new(
            smaller(self.filtered_lists().len() as int, inner.height as int) as nat,
            |i: int| self.sidebar_row(inner, i),
        )
    }

    // -----------------------------------------------------------------------
    // The main panel
    // -----------------------------------------------------------------------
    /// The title of the main panel.
    pub open spec fn panel_title(self) -> Seq<char> {
        match self.view {
            Panel::Lists => " Select a list "@,
            Panel::Items => match self.selected_list() {
                Some(list) => " "@ + list.name + " ("@ + decimal(self.items.len()) + " items) "@,
                None => " Items "@,
            },
            Panel::Search => " Search: \""@ + self.search_query + "\" ("@ + decimal(
                self.search_results.len(),
            ) + " results) "@,
            Panel::AqlQuery => (match self.selected_list() {
                Some(list) => " AQL ["@ + list.name + "]: "@,
                None => " AQL: "@,
            }) + self.aql_query + " ("@ + decimal(self.aql_results.len()) + " results) "@,
            Panel::Detail => match self.detail_item {
                Some(item) => " "@ + item.title + " "@,
                None => " Detail "@,
            },
            Panel::Edit => match self.edit_item {
                Some(item) => " Edit: "@ + item.title + " "@,
                None => " Edit "@,
            },
        }
    }

    /// The columns of the table: those that a query lists, else title and tags.
    pub open spec fn shown_columns(self) -> Seq<Column> {
        if self.view == Panel::AqlQuery && self.aql_columns is Some {
            self.aql_columns->0
        } else {
            default_columns()
        }
    }

    /// The table of items.
    pub open spec fn table(self) -> TableModel {
        let columns = self.shown_columns();
        let items = self.current_items();
        TableModel {
            columns,
            header: headings(columns, self.sort_column, self.sort_direction),
            rows: table_rows(items, columns),
            selected: self.current_table_state().selected,
        }
    }

    /// What the main panel shows.
    pub open spec fn body(self, inner: Area) -> BodyModel {
        match self.view {
            Panel::Lists => BodyModel::Hint("Select a list from the sidebar and press Enter"@),
            Panel::Detail => match self.detail_item {
                Some(item) => BodyModel::Detail(detail(item, self.detail_scroll as int, inner)),
                None => BodyModel::Nothing,
            },
            Panel::Edit => if self.edit_form is Some {
                BodyModel::Edit(edit_places(inner, self.edit_focus))
            } else {
                BodyModel::Nothing
            },
            _ => if self.current_items().len() == 0 {
                BodyModel::Hint("No items"@)
            } else {
                BodyModel::Table(self.table())
            },
        }
    }

    // -----------------------------------------------------------------------
    // The last two rows, and the dialog
    // -----------------------------------------------------------------------
    /// The row above the last: what is typed, else the last message.
    pub open spec fn input_line(self) -> Option<LineModel> {
        match self.input_mode {
            InputMode::Search => Some(
                LineModel { text: "Search: "@ + self.search_query + "▌"@, tone: Tone::Accent },
            ),
            InputMode::AddItem => Some(
                LineModel { text: "New item: "@ + self.add_item_text + "▌"@, tone: Tone::Success },
            ),
            InputMode::AqlQuery => Some(
                LineModel { text: "AQL: "@ + self.aql_query + "▌"@, tone: Tone::Tag },
            ),
            InputMode::ListFilter => Some(
                LineModel { text: "Filter lists: "@ + self.list_filter + "▌"@, tone: Tone::Accent },
            ),
            InputMode::Normal => match (self.error_message, self.status_message) {
                (Some(text), _) => Some(LineModel { text, tone: Tone::Failure }),
                (None, Some(text)) => Some(LineModel { text, tone: Tone::Success }),
                (None, None) => None,
            },
        }
    }

    /// The keys that the last row names.
    pub open spec fn key_help(self) -> Seq<char> {
        match self.input_mode {
            InputMode::Search => " Enter:search  Esc:cancel "@,
            InputMode::AddItem => " Enter:add  Esc:cancel "@,
            InputMode::AqlQuery => " Enter:run-query  Esc:cancel "@,
            InputMode::ListFilter => " Enter:select  Esc:clear-filter "@,
            InputMode::Normal => match self.view {
                Panel::Detail => " Esc:back  e:edit  o:open-url  j/k:scroll  q:quit "@,
                Panel::Edit => " Tab:focus  Enter:save  Esc:cancel "@,
                _ => " q:quit  /:search  ::aql  n:new  e:edit  d:del  Space:✓  o:open  y:copy "@,
            },
        }
    }

    /// The last row: whether the connection stands, and the keys.
    pub open spec fn status_line(self) -> Seq<char> {
        (if self.ws_connected {
            "🔗"@
        } else {
            "⚡"@
        }) + self.key_help()
    }

    /// The question of the dialog, while it is open.
    pub open spec fn dialog_question(self) -> Option<Seq<char>> {
        match self.delete_confirm {
            Some(doomed) => if self.dialog_state.open {
                Some("Delete \""@ + doomed.title + "\"?"@)
            } else {
                None
            },
            None => None,
        }
    }

    // -----------------------------------------------------------------------
    // The whole screen
    // -----------------------------------------------------------------------
    /// What the screen shows.
    pub open spec fn screen(self, width: u16, height: u16) -> ScreenModel {
        let panes = self.panes(width, height);
        let sidebar_inner = inside_border(panes[0]);
        let panel_inner = inside_border(panes[1]);
        ScreenModel {
            sidebar: PaneModel {
                area: panes[0],
                inner: sidebar_inner,
                title: self.sidebar_title(),
                focused: self.focus == Focus::Sidebar,
            },
            rows: self.sidebar_rows(sidebar_inner),
            panel: PaneModel {
                area: panes[1],
                inner: panel_inner,
                title: self.panel_title(),
                focused: self.focus == Focus::Table,
            },
            body: self.body(panel_inner),
            input_area: bottom_row(width, height, 2),
            input: self.input_line(),
            status_area: bottom_row(width, height, 1),
            status: self.status_line(),
            dialog: self.dialog_question(),
        }
    }

    /// The state that remembers where things were drawn, for the mouse.
    pub open spec fn viewed(self, width: u16, height: u16) -> Browser {
        let panes = self.panes(width, height);
        let inner = inside_border(panes[1]);
        Browser {
            sidebar_area: inside_border(panes[0]),
            table_area: inner,
            column_positions: if self.shows_table() && self.current_items().len() > 0 {
                column_spans(self.shown_columns(), inner.x, inner.width)
            } else {
                self.column_positions
            },
            ..self
        }
    }

    /// Whether the table can be drawn: its columns end before the largest coordinate, and the
    /// notes that it shows can be cut.
    pub open spec fn table_fits(self, inner: Area) -> bool {
        let columns = self.shown_columns();
        let items = self.current_items();
        items.len() > 0 ==> {
            &&& columns_fit(columns, inner.x, inner.width)
            &&& forall|i: int, j: int|
                0 <= i < items.len() && 0 <= j < columns.len() ==> cell_fits(
                    #[trigger] items[i],
                    #[trigger] columns[j],
                )
        }
    }

    /// Whether the screen can be drawn.
    pub open spec fn drawable(self, width: u16, height: u16) -> bool {
        self.table_fits(inside_border(self.panes(width, height)[1]))
    }
}

/// The headings of columns.
pub open spec fn headings(
    columns: Seq<Column>,
    sort_column: Option<Column>,
    direction: SortDirection,
) -> Seq<Seq<char>> {
    Seq::new(columns.len(), |i: int| columns[i].marked_heading(sort_column, direction))
}

/// The rows for items.
pub open spec fn table_rows(items: Seq<ItemModel>, columns: Seq<Column>) -> Seq<RowModel> {
    Seq::new(
        items.len(),
        |i: int| RowModel { cells: cells(items[i], columns), done: is_done(items[i]) },
    )
}

/// A heading, an indented text, and an empty line.
pub open spec fn block(heading: Seq<char>, text: Seq<char>, tone: Tone) -> Seq<LineModel> {
    seq![
        LineModel { text: heading, tone: Tone::Accent },
        LineModel { text: "  "@ + text, tone },
        LineModel { text: Seq::empty(), tone: Tone::Plain },
    ]
}

/// The lines of an item that is shown in full.
pub open spec fn detail_lines(item: ItemModel) -> Seq<LineModel> {
    block("Title"@, item.title, Tone::Primary) + (match item.completed {
        Some(completed) => block(
            "Status"@,
            if completed {
                "✓ Completed"@
            } else {
                "◯ Not completed"@
            },
            Tone::Completed,
        ),
        None => Seq::empty(),
    }) + (match item.url {
        Some(url) => block("URL"@, url, Tone::Link),
        None => Seq::empty(),
    }) + (if item.tags.len() > 0 {
        block("Tags"@, joined(item.tags, ", "@), Tone::Tag)
    } else {
        Seq::empty()
    }) + (if item.notes is Some {
        seq![LineModel { text: "Notes"@, tone: Tone::Accent }]
    } else {
        Seq::empty()
    })
}

/// Lines from a scroll position on, below each other, as far as there is room.
pub open spec fn placed_lines(lines: Seq<LineModel>, scroll: int, area: Area) -> Seq<PlacedModel> {
    Seq::new(
        smaller(floored(lines.len() - scroll), area.height as int) as nat,
        |i: int|
            PlacedModel {
                area: line_area(area, i),
                line: LineModel {
                    text: first_chars(lines[scroll + i].text, area.width as int),
                    tone: lines[scroll + i].tone,
                },
            },
    )
}

/// Whether the rows of the lines that are drawn are numbers.
pub open spec fn rows_fit(lines: int, scroll: int, area: Area) -> bool {
    area.y + smaller(floored(lines - scroll), area.height as int) <= u16::MAX + 1
}

/// The place of the notes: indented, below the lines that are left of the others.
pub open spec fn notes_area(area: Area, above: int) -> Area {
    Area {
        x: (area.x + 2) as u16,
        y: (area.y + above) as u16,
        width: floored(area.width - 2) as u16,
        height: (area.height - above) as u16,
    }
}

/// An item shown in full, from a scroll position on.
pub open spec fn detail(item: ItemModel, scroll: int, area: Area) -> DetailModel {
    let lines = detail_lines(item);
    let above = floored(lines.len() - scroll);
    DetailModel {
        lines: placed_lines(lines, scroll, area),
        notes: match item.notes {
            Some(notes) => if above < area.height {
                Some((notes_area(area, above), notes))
            } else {
                None
            },
            None => None,
        },
    }
}

/// Whether the places of an item shown in full are numbers: the rows of the lines that are drawn,
/// and the corner of the notes where they are.
pub open spec fn detail_fits(item: ItemModel, scroll: int, area: Area) -> bool {
    let lines = detail_lines(item).len() as int;
    let above = floored(lines - scroll);
    &&& rows_fit(lines, scroll, area)
    &&& item.notes is Some && above < area.height ==> area.x + 2 <= u16::MAX && area.y + above
        <= u16::MAX
}

/// The places of the edit view: six rows of form, a label, the notes, and the buttons.
pub open spec fn edit_places(area: Area, focus: EditFocus) -> EditPlaces {
    let parts = stack_split(area, 6, 1, 5, 1);
    EditPlaces {
        form: parts[0],
        label: parts[1],
        notes: parts[2],
        notes_inner: inside_border(parts[2]),
        buttons: parts[3],
        focus,
    }
}

} // verus!
