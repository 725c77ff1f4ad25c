//! The table of items: which columns it has, what stands in them, and where they are.
use vstd::prelude::*;
use vstd::string::*;
use crate::column::{Column, SortDirection};
use crate::items::{is_done, ItemModel, ListItem};
use crate::layout::floored;
use crate::mouse::column_at;
use crate::state::ColumnSpan;
use crate::text::{before_byte, boundary, bytes, concat2, concat3, first_line, join, joined, split_at_byte, take_line, texts};

verus! {

// ---------------------------------------------------------------------------
// Cells
// ---------------------------------------------------------------------------
/// The tags that a cell has room for.
pub open spec fn first_tags(tags: Seq<Seq<char>>) -> Seq<Seq<char>> {
    if tags.len() < 3 {
        tags
    } else {
        tags.take(3)
    }
}

/// The cell for notes: their first line, cut where it takes more than forty bytes.
pub open spec fn notes_cell(notes: Seq<char>) -> Seq<char> {
    let line = first_line(notes);
    if bytes(line).len() > 40 {
        before_byte(line, 37) + "..."@
    } else {
        line
    }
}

/// Whether the first line of notes can be cut: the cut falls between two characters.
pub open spec fn notes_fit(notes: Seq<char>) -> bool {
    let line = first_line(notes);
    bytes(line).len() > 40 ==> boundary(line, 37)
}

/// The text of a cell.
pub open spec fn cell(item: ItemModel, column: Column) -> Seq<char> {
    match column {
        Column::Status => if is_done(item) {
            "✓"@
        } else {
            "○"@
        },
        Column::Title => if is_done(item) {
            "\u{336}"@ + item.title
        } else {
            item.title
        },
        Column::Tags => joined(first_tags(item.tags), ", "@),
        Column::Url => if item.url is Some {
            "🔗"@
        } else {
            "  "@
        },
        Column::Notes => match item.notes {
            Some(notes) => notes_cell(notes),
            None => Seq::empty(),
        },
    }
}

/// Whether the text of a cell can be made.
pub open spec fn cell_fits(item: ItemModel, column: Column) -> bool {
    column == Column::Notes ==> (item.notes matches Some(notes) ==> notes_fit(notes))
}

/// The cells of an item.
pub open spec fn cells(item: ItemModel, columns: Seq<Column>) -> Seq<Seq<char>> {
    Seq::new(columns.len(), |i: int| cell(item, columns[i]))
}

/// Whether the first line of notes can be cut.
pub fn can_cut_notes(notes: &str) -> (r: bool)
    ensures
        r == notes_fit(notes@),
{
    let line = take_line(notes);
    line.as_str().as_bytes().len() <= 40 || line.as_str().is_char_boundary(37)
}

/// The cell for notes.
pub fn cut_notes(notes: &str) -> (r: String)
    requires
        notes_fit(notes@),
    ensures
        r@ == notes_cell(notes@),
{
    let line = take_line(notes);
    if line.as_str().as_bytes().len() > 40 {
        concat2(split_at_byte(line.as_str(), 37).0, "...")
    } else {
        line
    }
}

/// Whether the text of a cell can be made.
pub fn can_make_cell(item: &ListItem, column: Column) -> (r: bool)
    ensures
        r == cell_fits(item@, column),
{
    match (column, &item.notes) {
        (Column::Notes, Some(notes)) => can_cut_notes(notes.as_str()),
        _ => true,
    }
}

/// The text of a cell.
pub fn make_cell(item: &ListItem, column: Column) -> (r: String)
    requires
        cell_fits(item@, column),
    ensures
        r@ == cell(item@, column),
{
    match column {
        Column::Status => {
            if item.done() {
                "✓".to_owned()
            } else {
                "○".to_owned()
            }
        },
        Column::Title => {
            if item.done() {
                concat2("\u{336}", item.title.as_str())
            } else {
                item.title.clone()
            }
        },
        Column::Tags => {
            let count: usize = if item.tags.len() < 3 {
                item.tags.len()
            } else {
                3
            };
            proof {
                assert(texts(item.tags@).take(count as int) =~= first_tags(item@.tags));
            }
            join(&item.tags, count, ", ")
        },
        Column::Url => {
            if item.url.is_some() {
                "🔗".to_owned()
            } else {
                "  ".to_owned()
            }
        },
        Column::Notes => {
            match &item.notes {
                Some(notes) => cut_notes(notes.as_str()),
                None => String::new(),
            }
        },
    }
}

// ---------------------------------------------------------------------------
// Columns
// ---------------------------------------------------------------------------
/// The columns of a table where none are asked for.
pub open spec fn default_columns() -> Seq<Column> {
    seq![Column::Title, Column::Tags]
}

/// How wide a column is.
#[derive(Debug, Clone, Copy, PartialEq, Eq, Structural)]
pub enum ColumnWidth {
    Fixed(u16),
    /// At least so wide; such columns share the room that is left.
    Min(u16),
}

impl Column {
    /// The width of the column where there is no room to spare.
    pub open spec fn least_width(self) -> int {
        match self {
            Column::Status => 2,
            Column::Title => 20,
            Column::Tags => 20,
            Column::Url => 3,
            Column::Notes => 30,
        }
    }

    /// Whether the column takes room that is left.
    pub open spec fn grows(self) -> bool {
        self == Column::Title || self == Column::Notes
    }

    /// How wide the column is.
    pub fn width(&self) -> (r: ColumnWidth)
        ensures
            r == (if self.grows() {
                ColumnWidth::Min(self.least_width() as u16)
            } else {
                ColumnWidth::Fixed(self.least_width() as u16)
            }),
    {
        match self {
            Column::Status => ColumnWidth::Fixed(2),
            Column::Title => ColumnWidth::Min(20),
            Column::Tags => ColumnWidth::Fixed(20),
            Column::Url => ColumnWidth::Fixed(3),
            Column::Notes => ColumnWidth::Min(30),
        }
    }

    /// The heading of the column, with a mark where the table is sorted by it.
    pub open spec fn marked_heading(
        self,
        sort_column: Option<Column>,
        direction: SortDirection,
    ) -> Seq<char> {
        if sort_column == Some(self) {
            self.heading() + " "@ + direction.mark()
        } else {
            self.heading()
        }
    }

    /// The heading of the column, with a mark where the table is sorted by it.
    pub fn make_heading(&self, sort_column: Option<Column>, direction: SortDirection) -> (r: String)
        ensures
            r@ == self.marked_heading(sort_column, direction),
    {
        match sort_column {
            Some(column) => {
                if column == *self {
                    concat3(self.header(), " ", direction.indicator())
                } else {
                    self.header().to_owned()
                }
            },
            None => self.header().to_owned(),
        }
    }
}

/// The widths of some columns together, without room to spare.
pub open spec fn least_total(columns: Seq<Column>) -> int
    decreases columns.len(),
{
    if columns.len() == 0 {
        0
    } else {
        least_total(columns.drop_last()) + columns.last().least_width()
    }
}

/// How many of some columns take room that is left.
pub open spec fn growing(columns: Seq<Column>) -> int
    decreases columns.len(),
{
    if columns.len() == 0 {
        0
    } else {
        growing(columns.drop_last()) + (if columns.last().grows() {
            1int
        } else {
            0
        })
    }
}

/// The room that each growing column gets beyond its least width. One cell between neighbours is
/// taken off first.
pub open spec fn extra_width(columns: Seq<Column>, width: int) -> int {
    if growing(columns) > 0 {
        floored(floored(width - floored(columns.len() - 1)) - least_total(columns)) / growing(
            columns,
        )
    } else {
        0
    }
}

/// The width of a column.
pub open spec fn column_width(column: Column, extra: int) -> int {
    column.least_width() + (if column.grows() {
        extra
    } else {
        0
    })
}

/// Where a column begins: behind those before it, each with one cell between.
pub open spec fn column_start(columns: Seq<Column>, x: int, extra: int, i: int) -> int
    decreases i,
{
    if i <= 0 {
        x
    } else {
        column_start(columns, x, extra, i - 1) + column_width(columns[i - 1], extra) + 1
    }
}

/// Whether the columns end before the largest coordinate.
pub open spec fn columns_fit(columns: Seq<Column>, x: u16, width: u16) -> bool {
    column_start(
        columns,
        x as int,
        extra_width(columns, width as int),
        columns.len() as int,
    ) <= u16::MAX
}

/// The cells that a column takes.
pub open spec fn column_span(columns: Seq<Column>, x: u16, width: u16, i: int) -> ColumnSpan {
    let extra = extra_width(columns, width as int);
    let start = column_start(columns, x as int, extra, i);
    (columns[i], start as u16, (start + column_width(columns[i], extra)) as u16)
}

/// The columns with the cells that they take.
pub open spec fn column_spans(columns: Seq<Column>, x: u16, width: u16) -> Seq<ColumnSpan> {
    Seq::new(columns.len(), |i: int| column_span(columns, x, width, i))
}

/// Columns begin one behind the other, and no less than their least widths apart.
pub proof fn lemma_column_start(columns: Seq<Column>, x: int, extra: int, i: int, j: int)
    requires
        0 <= i <= j <= columns.len(),
        0 <= extra,
    ensures
        column_start(columns, x, extra, j) >= column_start(columns, x, extra, i) + 3 * (j - i),
        column_start(columns, x, extra, i) >= x + least_total(columns.take(i)) + i,
        i < j ==> column_start(columns, x, extra, j) >= column_start(columns, x, extra, i)
            + column_width(columns[i], extra) + 1,
    decreases j,
{
    if i < j {
        lemma_column_start(columns, x, extra, i, j - 1);
        assert(columns[j - 1].least_width() >= 2);
    } else if i > 0 {
        lemma_column_start(columns, x, extra, i - 1, j - 1);
        assert(columns.take(i).drop_last() =~= columns.take(i - 1));
    }
    if i == 0 {
        assert(columns.take(0) =~= Seq::<Column>::empty());
    }
}

/// The room to spare is not negative and no more than the width.
pub proof fn lemma_extra_width(columns: Seq<Column>, width: int)
    requires
        0 <= width,
    ensures
        0 <= extra_width(columns, width) <= width,
        0 <= growing(columns) <= columns.len(),
        0 <= least_total(columns),
    decreases columns.len(),
{
    if columns.len() > 0 {
        lemma_extra_width(columns.drop_last(), width);
    }
    if growing(columns) > 0 {
        let room = floored(floored(width - floored(columns.len() - 1)) - least_total(columns));
        let n = growing(columns);
        assert(0 <= room / n <= room) by (nonlinear_arith)
            requires
                0 <= room,
                0 < n,
        ;
    }
}

/// Columns stand side by side in their order: each ends before the next one begins.
pub proof fn law_columns_in_order(columns: Seq<Column>, x: u16, width: u16, i: int, j: int)
    requires
        columns_fit(columns, x, width),
        0 <= i < j < columns.len(),
    ensures
        x <= column_spans(columns, x, width)[i].1,
        column_spans(columns, x, width)[i].1 < column_spans(columns, x, width)[i].2,
        column_spans(columns, x, width)[i].2 < column_spans(columns, x, width)[j].1,
{
    let extra = extra_width(columns, width as int);
    lemma_extra_width(columns, width as int);
    lemma_column_start(columns, x as int, extra, 0, i);
    lemma_column_start(columns, x as int, extra, i, j);
    lemma_column_start(columns, x as int, extra, j, columns.len() as int);
}

/// The first span that holds a position says which column takes it.
proof fn lemma_column_at(spans: Seq<ColumnSpan>, x: u16, i: int)
    requires
        0 <= i < spans.len(),
        spans[i].1 <= x < spans[i].2,
        forall|j: int| 0 <= j < i ==> !((#[trigger] spans[j]).1 <= x < spans[j].2),
    ensures
        column_at(spans, x) == Some(spans[i].0),
    decreases i,
{
    if i > 0 {
        assert(!(spans[0].1 <= x < spans[0].2));
        let rest = spans.drop_first();
        assert(rest[i - 1] == spans[i]);
        assert forall|j: int| 0 <= j < i - 1 implies !((#[trigger] rest[j]).1 <= x < rest[j].2) by {
            assert(rest[j] == spans[j + 1]);
        }
        lemma_column_at(rest, x, i - 1);
    }
}

/// A position in a placed column is that column's; a position between columns is nobody's.
pub proof fn law_column_at_position(columns: Seq<Column>, x: u16, width: u16, at: u16, i: int)
    requires
        columns_fit(columns, x, width),
        0 <= i < columns.len(),
    ensures
        ({
            let spans = column_spans(columns, x, width);
            &&& spans[i].1 <= at < spans[i].2 ==> column_at(spans, at) == Some(columns[i])
            &&& at == spans[i].2 ==> column_at(spans, at) is None
        }),
{
    let spans = column_spans(columns, x, width);
    assert forall|j: int| 0 <= j < spans.len() && j != i implies !((#[trigger] spans[j]).1 <= at
        < spans[j].2) || at < spans[i].1 || at > spans[i].2 by {
        if j < i {
            law_columns_in_order(columns, x, width, j, i);
        } else {
            law_columns_in_order(columns, x, width, i, j);
        }
    }
    if spans[i].1 <= at < spans[i].2 {
        lemma_column_at(spans, at, i);
    } else if at == spans[i].2 {
        let extra = extra_width(columns, width as int);
        lemma_extra_width(columns, width as int);
        lemma_column_start(columns, x as int, extra, 0, i);
        lemma_column_start(columns, x as int, extra, i, columns.len() as int);
        assert(spans[i].1 <= at);
        lemma_no_column_at(spans, at);
    }
}

/// A position in no span is in no column.
proof fn lemma_no_column_at(spans: Seq<ColumnSpan>, x: u16)
    requires
        forall|j: int| 0 <= j < spans.len() ==> !((#[trigger] spans[j]).1 <= x < spans[j].2),
    ensures
        column_at(spans, x) is None,
    decreases spans.len(),
{
    if spans.len() > 0 {
        assert(!(spans[0].1 <= x < spans[0].2));
        let rest = spans.drop_first();
        assert forall|j: int| 0 <= j < rest.len() implies !((#[trigger] rest[j]).1 <= x
            < rest[j].2) by {
            assert(rest[j] == spans[j + 1]);
        }
        lemma_no_column_at(rest, x);
    }
}

/// The widths of columns together, and how many of them grow; none where the widths with the cells
/// between are more than the largest coordinate.
fn total_width(columns: &Vec<Column>) -> (r: Option<(u16, u16)>)
    ensures
        match r {
            Some((total, count)) => total == least_total(columns@) && count == growing(columns@)
                && total + columns@.len() <= u16::MAX,
            None => least_total(columns@) + columns@.len() > u16::MAX,
        },
{
    let mut total: u32 = 0;
    let mut count: u32 = 0;
    let mut i: usize = 0;
    proof {
        assert(columns@.take(0) =~= Seq::<Column>::empty());
    }
    while i < columns.len()
        invariant
            i <= columns@.len(),
            total == least_total(columns@.take(i as int)),
            count == growing(columns@.take(i as int)),
            count <= i,
            total + i <= u16::MAX,
        decreases columns@.len() - i,
    {
        proof {
            assert(columns@.take(i + 1).drop_last() =~= columns@.take(i as int));
        }
        match columns[i].width() {
            ColumnWidth::Fixed(w) => {
                total += w as u32;
            },
            ColumnWidth::Min(w) => {
                total += w as u32;
                count += 1;
            },
        }
        i += 1;
        if total + i as u32 > 65535 {
            proof {
                lemma_least_total(columns@, i as int);
            }
            return None;
        }
    }
    proof {
        assert(columns@.take(i as int) =~= columns@);
    }
    Some((total as u16, count as u16))
}

/// More columns are wider together.
proof fn lemma_least_total(columns: Seq<Column>, i: int)
    requires
        0 <= i <= columns.len(),
    ensures
        least_total(columns.take(i)) <= least_total(columns),
    decreases columns.len(),
{
    if i < columns.len() {
        lemma_least_total(columns.drop_last(), i);
        assert(columns.drop_last().take(i) =~= columns.take(i));
    } else {
        assert(columns.take(i) =~= columns);
    }
}

/// The room that each growing column gets beyond its least width.
fn room_to_spare(columns: usize, total: u16, count: u16, width: u16) -> (r: u16)
    requires
        columns <= u16::MAX,
    ensures
        count > 0 ==> r == floored(floored(width - floored(columns - 1)) - total) / (count as int),
        count == 0 ==> r == 0,
{
    if count == 0 {
        return 0;
    }
    let between: u16 = if columns > 0 {
        (columns - 1) as u16
    } else {
        0
    };
    let available: u16 = if width > between {
        width - between
    } else {
        0
    };
    let room: u16 = if available > total {
        available - total
    } else {
        0
    };
    room / count
}

/// Places columns side by side; none where they do not end before the largest coordinate.
pub fn place_columns(columns: &Vec<Column>, x: u16, width: u16) -> (r: Option<Vec<ColumnSpan>>)
    ensures
        match r {
            Some(spans) => columns_fit(columns@, x, width) && spans@ == column_spans(
                columns@,
                x,
                width,
            ),
            None => !columns_fit(columns@, x, width),
        },
{
    let ghost gap = extra_width(columns@, width as int);
    let ghost n = columns@.len() as int;
    proof {
        lemma_extra_width(columns@, width as int);
        lemma_column_start(columns@, x as int, gap, n, n);
        assert(columns@.take(n) =~= columns@);
    }
    let (total, count) = match total_width(columns) {
        Some(sums) => sums,
        None => {
            return None;
        },
    };
    let extra: u16 = room_to_spare(columns.len(), total, count, width);
    let mut spans: Vec<ColumnSpan> = Vec::new();
    let mut at: u32 = x as u32;
    let mut i: usize = 0;
    while i < columns.len()
        invariant
            i <= n,
            n == columns@.len(),
            extra == gap,
            0 <= gap <= u16::MAX,
            gap == extra_width(columns@, width as int),
            at == column_start(columns@, x as int, gap, i as int),
            at <= u16::MAX,
            spans@ == column_spans(columns@, x, width).take(i as int),
        decreases n - i,
    {
        let column = columns[i];
        let w: u32 = match column.width() {
            ColumnWidth::Fixed(w) => w as u32,
            ColumnWidth::Min(w) => w as u32 + extra as u32,
        };
        proof {
            assert(w == column_width(column, gap));
            lemma_column_start(columns@, x as int, gap, i + 1, n);
        }
        if at + w + 1 > 65535 {
            return None;
        }
        spans.push((column, at as u16, (at + w) as u16));
        at = at + w + 1;
        i += 1;
        proof {
            assert(column_spans(columns@, x, width).take(i as int) =~= column_spans(
                columns@,
                x,
                width,
            ).take(i - 1).push(column_span(columns@, x, width, i - 1)));
        }
    }
    proof {
        assert(column_spans(columns@, x, width).take(n) =~= column_spans(columns@, x, width));
    }
    Some(spans)
}

} // verus!
