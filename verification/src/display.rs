//! What is seen: what the cells, rows, lines and frames of the screen hold.
use vstd::prelude::*;
use vstd::string::*;
use crate::cells::{cell, cells, column_spans, column_start, columns_fit, extra_width, growing, least_total};
use crate::column::{Column, SortDirection};
use crate::items::{ItemModel, ListModel};
use crate::layout::{inside_border, Area};
use crate::promises::{chosen_list, chosen_row, in_table, lemma_chosen, rows};
use crate::screen::{detail, detail_lines, edit_places, longest_name, sidebar_width, BodyModel, LineModel, Tone};
use crate::state::{passing, Browser, EditFocus, Focus, InputMode, Panel};
use crate::text::{before_byte, boundary, bytes, decimal, first_chars, first_line, joined};

verus! {

// ---------------------------------------------------------------------------
// Tables
// ---------------------------------------------------------------------------
/// What the cells of an item show: a tick or a ring; the title, struck through where the item is
/// completed; up to three tags; whether there is an address; and the first line of the notes, cut
/// where it is long.
pub proof fn law_cells(item: ItemModel)
    ensures
        item.completed == Some(true) ==> cell(item, Column::Status) == "✓"@ && cell(
            item,
            Column::Title,
        ) == "\u{336}"@ + item.title,
        item.completed != Some(true) ==> cell(item, Column::Status) == "○"@ && cell(
            item,
            Column::Title,
        ) == item.title,
        item.tags.len() <= 3 ==> cell(item, Column::Tags) == joined(item.tags, ", "@),
        item.tags.len() > 3 ==> cell(item, Column::Tags) == joined(item.tags.take(3), ", "@),
        cell(item, Column::Url) == (if item.url is Some {
            "🔗"@
        } else {
            "  "@
        }),
        item.notes is None ==> cell(item, Column::Notes).len() == 0,
        item.notes matches Some(notes) ==> cell(item, Column::Notes) == (if bytes(
            first_line(notes),
        ).len() <= 40 {
            first_line(notes)
        } else {
            before_byte(first_line(notes), 37) + "..."@
        }),
{
    if item.tags.len() == 3 {
        assert(item.tags.take(3) =~= item.tags);
    }
}

/// A table has one row for each item, in their order, with one cell for each column and a mark for
/// completed items; the headings are those of the columns, with the direction at the one that is
/// sorted by; the chosen row is marked. A query shows the columns that it lists, all else the title
/// and the tags.
pub proof fn law_table(b: Browser, i: int, j: int)
    requires
        in_table(b),
        rows(b).len() > 0,
    ensures
        ({
            let t = b.table();
            let columns = if b.view == Panel::AqlQuery && b.aql_columns is Some {
                b.aql_columns->0
            } else {
                seq![Column::Title, Column::Tags]
            };
            &&& t.columns == columns
            &&& t.rows.len() == rows(b).len()
            &&& t.header.len() == columns.len()
            &&& t.selected == chosen_row(b)
            &&& 0 <= i < rows(b).len() ==> t.rows[i].done == (rows(b)[i].completed == Some(true))
                && t.rows[i].cells.len() == columns.len()
            &&& 0 <= i < rows(b).len() && 0 <= j < columns.len() ==> t.rows[i].cells[j] == cell(
                rows(b)[i],
                columns[j],
            )
            &&& 0 <= j < columns.len() ==> t.header[j] == heading_of(columns[j]) + (if b.sort_column
                == Some(columns[j]) {
                if b.sort_direction == SortDirection::Asc {
                    " ▲"@
                } else {
                    " ▼"@
                }
            } else {
                Seq::empty()
            })
        }),
{
    lemma_chosen(b);
    reveal_strlit(" ");
    reveal_strlit("▲");
    reveal_strlit("▼");
    reveal_strlit(" ▲");
    reveal_strlit(" ▼");
    let t = b.table();
    assert(" "@ + "▲"@ =~= " ▲"@);
    assert(" "@ + "▼"@ =~= " ▼"@);
    if 0 <= j < t.columns.len() {
        let h = heading_of(t.columns[j]);
        assert(h + " "@ + "▲"@ =~= h + (" "@ + "▲"@));
        assert(h + " "@ + "▼"@ =~= h + (" "@ + "▼"@));
        assert(h + Seq::<char>::empty() =~= h);
    }
}

/// The heading of a column.
pub open spec fn heading_of(column: Column) -> Seq<char> {
    match column {
        Column::Status => ""@,
        Column::Title => "Title"@,
        Column::Tags => "Tags"@,
        Column::Url => "URL"@,
        Column::Notes => "📝"@,
    }
}

/// The width that a column has at least.
pub open spec fn least(column: Column) -> int {
    match column {
        Column::Status => 2,
        Column::Title => 20,
        Column::Tags => 20,
        Column::Url => 3,
        Column::Notes => 30,
    }
}

/// How many columns there are that take more width where there is any.
pub open spec fn stretching(columns: Seq<Column>) -> int {
    columns.filter(|c: Column| c == Column::Title || c == Column::Notes).len() as int
}

/// The width that columns need at least, with a blank between any two.
pub open spec fn needed(columns: Seq<Column>) -> int {
    columns.fold_left(0, |n: int, c: Column| n + least(c)) + columns.len() - 1
}

/// Columns begin where the table does, stand side by side with a blank between, and have the width
/// that they need; titles and notes share what is left, each taking the same.
pub proof fn law_columns_share_width(columns: Seq<Column>, x: u16, width: u16, i: int, j: int)
    requires
        columns_fit(columns, x, width),
        0 <= i < columns.len(),
        0 <= j < columns.len(),
    ensures
        ({
            let spans = column_spans(columns, x, width);
            let wide = |k: int| spans[k].2 - spans[k].1 - least(columns[k]);
            let takes = |k: int| columns[k] == Column::Title || columns[k] == Column::Notes;
            &&& spans.len() == columns.len()
            &&& spans[i].0 == columns[i]
            &&& spans[0].1 == x
            &&& i + 1 < columns.len() ==> spans[i + 1].1 == spans[i].2 + 1
            &&& !takes(i) ==> wide(i) == 0
            &&& takes(i) ==> wide(i) >= 0
            &&& takes(i) && takes(j) ==> wide(i) == wide(j)
            &&& takes(i) && needed(columns) <= width ==> needed(columns) + stretching(columns)
                * wide(i) <= width < needed(columns) + stretching(columns) * (wide(i) + 1)
            &&& takes(i) && needed(columns) > width ==> wide(i) == 0
        }),
{
    let extra = extra_width(columns, width as int);
    let n = columns.len() as int;
    crate::cells::lemma_extra_width(columns, width as int);
    crate::cells::lemma_column_start(columns, x as int, extra, 0, i);
    crate::cells::lemma_column_start(columns, x as int, extra, i, n);
    crate::cells::lemma_column_start(columns, x as int, extra, 0, j);
    crate::cells::lemma_column_start(columns, x as int, extra, j, n);
    crate::cells::lemma_column_start(columns, x as int, extra, 0, n);
    if i + 1 < n {
        crate::cells::lemma_column_start(columns, x as int, extra, i + 1, n);
    }
    lemma_needed(columns);
    let g = growing(columns);
    let takes_i = columns[i] == Column::Title || columns[i] == Column::Notes;
    if takes_i {
        lemma_some_stretch(columns, i);
        let room = width - needed(columns);
        if room >= 0 {
            assert(extra == room / g);
            assert(g * (room / g) <= room < g * (room / g + 1)) by (nonlinear_arith)
                requires
                    g > 0,
                    room >= 0,
            ;
        } else {
            assert(0int / g == 0) by (nonlinear_arith)
                requires
                    g > 0,
            ;
        }
    }
}

/// The sums over the columns are those of the plain widths.
proof fn lemma_needed(columns: Seq<Column>)
    ensures
        least_total(columns) == columns.fold_left(0, |n: int, c: Column| n + least(c)),
        growing(columns) == stretching(columns),
        least_total(columns) >= 0,
        growing(columns) >= 0,
    decreases columns.len(),
{
    reveal(Seq::filter);
    if columns.len() > 0 {
        lemma_needed(columns.drop_last());
        assert(columns.last().least_width() == least(columns.last()));
    }
}

/// Where a column stretches, some do.
proof fn lemma_some_stretch(columns: Seq<Column>, i: int)
    requires
        0 <= i < columns.len(),
        columns[i] == Column::Title || columns[i] == Column::Notes,
    ensures
        growing(columns) > 0,
    decreases columns.len(),
{
    lemma_needed(columns.drop_last());
    if i < columns.len() - 1 {
        lemma_some_stretch(columns.drop_last(), i);
    }
}

// ---------------------------------------------------------------------------
// Frames
// ---------------------------------------------------------------------------
/// The sidebar is as wide as the longest name of the lists that it shows needs, and six cells more,
/// but no narrower than fifteen and no wider than forty.
pub proof fn law_sidebar_width(lists: Seq<ListModel>, longest: int)
    requires
        lists.len() == 0 ==> longest == 10,
        forall|i: int| 0 <= i < lists.len() ==> (#[trigger] lists[i]).name.len() <= longest,
        lists.len() > 0 ==> exists|i: int|
            0 <= i < lists.len() && (#[trigger] lists[i]).name.len() == longest,
    ensures
        sidebar_width(lists) == (if longest + 6 < 15 {
            15
        } else if longest + 6 > 40 {
            40
        } else {
            longest + 6
        }),
{
    if lists.len() > 0 {
        lemma_longest_name(lists);
        let i = choose|i: int| 0 <= i < lists.len() && (#[trigger] lists[i]).name.len() == longest;
        let k = choose|k: int|
            0 <= k < lists.len() && (#[trigger] lists[k]).name.len() == longest_name(lists);
        assert(lists[i].name.len() <= longest_name(lists));
        assert(lists[k].name.len() <= longest);
    }
}

/// The longest name is one of the names, and none is longer.
proof fn lemma_longest_name(lists: Seq<ListModel>)
    requires
        lists.len() > 0,
    ensures
        forall|i: int|
            0 <= i < lists.len() ==> (#[trigger] lists[i]).name.len() <= longest_name(lists),
        exists|i: int|
            0 <= i < lists.len() && (#[trigger] lists[i]).name.len() == longest_name(lists),
    decreases lists.len(),
{
    reveal_with_fuel(longest_name, 2);
    let front = lists.drop_last();
    let last = lists[lists.len() - 1];
    if front.len() > 0 {
        lemma_longest_name(front);
        let k = choose|k: int|
            0 <= k < front.len() && (#[trigger] front[k]).name.len() == longest_name(front);
        assert(lists[k] == front[k]);
    }
    assert forall|i: int| 0 <= i < lists.len() implies (#[trigger] lists[i]).name.len()
        <= longest_name(lists) by {
        if i < front.len() {
            assert(lists[i] == front[i]);
        }
    }
    if last.name.len() > (if front.len() > 0 { longest_name(front) } else { 0 }) {
        assert(last.name.len() == longest_name(lists));
    } else if front.len() == 0 {
        assert(last.name.len() == longest_name(lists));
    }
}

/// The sidebar stands to the left and the panel to the right of it, both above the two lowest rows
/// of the screen, which are for input and for the status; the frames leave one cell on each side.
/// The frame that has the focus is marked.
pub proof fn law_frames(b: Browser, width: u16, height: u16)
    requires
        width > 0,
        height > 2,
    ensures
        ({
            let s = b.screen(width, height);
            let wanted = sidebar_width(passing(b.lists, b.list_filter));
            let w: int = if wanted < width {
                wanted
            } else {
                width as int
            };
            let tall = height - 2;
            let inside = |n: int| if n > 2 { n - 2 } else { 0 };
            &&& s.sidebar.area == (Area { x: 0, y: 0, width: w as u16, height: tall as u16 })
            &&& s.panel.area == (Area {
                x: w as u16,
                y: 0,
                width: (width - w) as u16,
                height: tall as u16,
            })
            &&& s.sidebar.inner == (Area {
                x: 1,
                y: 1,
                width: inside(w) as u16,
                height: inside(tall) as u16,
            })
            &&& s.panel.inner == (Area {
                x: (w + 1) as u16,
                y: 1,
                width: inside(width - w) as u16,
                height: inside(tall) as u16,
            })
            &&& s.input_area == (Area { x: 0, y: tall as u16, width, height: 1 })
            &&& s.status_area == (Area { x: 0, y: (height - 1) as u16, width, height: 1 })
            &&& s.sidebar.focused == (b.focus == Focus::Sidebar)
            &&& s.panel.focused == (b.focus == Focus::Table)
        }),
{
}

/// Drawing remembers where the sidebar and the table are, and where the columns of the table are
/// where there is one with rows. Nothing else changes.
pub proof fn law_drawing_remembers_places(b: Browser, width: u16, height: u16)
    ensures
        ({
            let s = b.screen(width, height);
            b.viewed(width, height) == (Browser {
                sidebar_area: s.sidebar.inner,
                table_area: s.panel.inner,
                column_positions: if in_table(b) && rows(b).len() > 0 {
                    column_spans(b.table().columns, s.panel.inner.x, s.panel.inner.width)
                } else {
                    b.column_positions
                },
                ..b
            })
        }),
{
    lemma_chosen(b);
}

/// The sidebar shows the lists that pass the filter, one in each row, as far as there are rows, with
/// a mark at the chosen one, and each as far as its row goes. Its title counts them and shows the
/// filter.
pub proof fn law_sidebar(b: Browser, width: u16, height: u16, i: int)
    ensures
        ({
            let s = b.screen(width, height);
            let inner = s.sidebar.inner;
            let shown = passing(b.lists, b.list_filter);
            &&& s.rows.len() == (if shown.len() < inner.height {
                shown.len() as int
            } else {
                inner.height as int
            })
            &&& 0 <= i < s.rows.len() ==> {
                &&& s.rows[i].selected == (i == b.list_index)
                &&& s.rows[i].text == first_chars(
                    (if i == b.list_index {
                        "▶ "@
                    } else {
                        "  "@
                    }) + shown[i].name,
                    inner.width as int,
                )
                &&& s.rows[i].area == (Area { y: (inner.y + i) as u16, height: 1, ..inner })
            }
            &&& s.sidebar.title == (if b.list_filter.len() == 0 {
                " Lists ("@ + decimal(shown.len()) + ") "@
            } else {
                " /"@ + b.list_filter + " ("@ + decimal(shown.len()) + ") "@
            })
        }),
{
}

/// The title of the panel names what is shown, and counts it.
pub proof fn law_panel_titles(b: Browser, width: u16, height: u16)
    ensures
        ({
            let title = b.screen(width, height).panel.title;
            &&& b.view == Panel::Lists ==> title == " Select a list "@
            &&& b.view == Panel::Items ==> title == (match chosen_list(b) {
                Some(list) => " "@ + list.name + " ("@ + decimal(b.items.len()) + " items) "@,
                None => " Items "@,
            })
            &&& b.view == Panel::Search ==> title == " Search: \""@ + b.search_query + "\" ("@
                + decimal(b.search_results.len()) + " results) "@
            &&& b.view == Panel::AqlQuery ==> title == (match chosen_list(b) {
                Some(list) => " AQL ["@ + list.name + "]: "@,
                None => " AQL: "@,
            }) + b.aql_query + " ("@ + decimal(b.aql_results.len()) + " results) "@
            &&& b.view == Panel::Detail ==> title == (match b.detail_item {
                Some(item) => " "@ + item.title + " "@,
                None => " Detail "@,
            })
            &&& b.view == Panel::Edit ==> title == (match b.edit_item {
                Some(item) => " Edit: "@ + item.title + " "@,
                None => " Edit "@,
            })
        }),
{
    lemma_chosen(b);
}

/// The panel shows a hint, a table where there are rows, an item in full, or the form.
pub proof fn law_panel_body(b: Browser, width: u16, height: u16)
    ensures
        ({
            let s = b.screen(width, height);
            &&& b.view == Panel::Lists ==> s.body == BodyModel::Hint(
                "Select a list from the sidebar and press Enter"@,
            )
            &&& in_table(b) && rows(b).len() == 0 ==> s.body == BodyModel::Hint("No items"@)
            &&& in_table(b) && rows(b).len() > 0 ==> s.body == BodyModel::Table(b.table())
            &&& b.view == Panel::Detail ==> s.body == (match b.detail_item {
                Some(item) => BodyModel::Detail(
                    detail(item, b.detail_scroll as int, s.panel.inner),
                ),
                None => BodyModel::Nothing,
            })
            &&& b.view == Panel::Edit ==> s.body == (if b.edit_form is Some {
                BodyModel::Edit(edit_places(s.panel.inner, b.edit_focus))
            } else {
                BodyModel::Nothing
            })
        }),
{
    lemma_chosen(b);
}

/// The lowest rows show what is typed, else an error, else the last message; and whether the
/// connection stands, with help for the keys. The dialog asks about the item that is to be deleted.
pub proof fn law_lowest_rows(b: Browser, width: u16, height: u16)
    ensures
        ({
            let s = b.screen(width, height);
            let shown = |text: Seq<char>, tone: Tone| Some(LineModel { text, tone });
            &&& b.input_mode == InputMode::Search ==> s.input == shown(
                "Search: "@ + b.search_query + "▌"@,
                Tone::Accent,
            )
            &&& b.input_mode == InputMode::AddItem ==> s.input == shown(
                "New item: "@ + b.add_item_text + "▌"@,
                Tone::Success,
            )
            &&& b.input_mode == InputMode::AqlQuery ==> s.input == shown(
                "AQL: "@ + b.aql_query + "▌"@,
                Tone::Tag,
            )
            &&& b.input_mode == InputMode::ListFilter ==> s.input == shown(
                "Filter lists: "@ + b.list_filter + "▌"@,
                Tone::Accent,
            )
            &&& b.input_mode == InputMode::Normal ==> s.input == (if b.error_message is Some {
                shown(b.error_message->0, Tone::Failure)
            } else if b.status_message is Some {
                shown(b.status_message->0, Tone::Success)
            } else {
                None
            })
            &&& s.status == (if b.ws_connected {
                "🔗"@
            } else {
                "⚡"@
            }) + help(b)
            &&& s.dialog == (if b.delete_confirm is Some && b.dialog_state.open {
                Some("Delete \""@ + b.delete_confirm->0.title + "\"?"@)
            } else {
                None
            })
        }),
{
}

/// The help for the keys.
pub open spec fn help(b: Browser) -> Seq<char> {
    if b.input_mode == InputMode::Search {
        " Enter:search  Esc:cancel "@
    } else if b.input_mode == InputMode::AddItem {
        " Enter:add  Esc:cancel "@
    } else if b.input_mode == InputMode::AqlQuery {
        " Enter:run-query  Esc:cancel "@
    } else if b.input_mode == InputMode::ListFilter {
        " Enter:select  Esc:clear-filter "@
    } else if b.view == Panel::Detail {
        " Esc:back  e:edit  o:open-url  j/k:scroll  q:quit "@
    } else if b.view == Panel::Edit {
        " Tab:focus  Enter:save  Esc:cancel "@
    } else {
        " q:quit  /:search  ::aql  n:new  e:edit  d:del  Space:✓  o:open  y:copy "@
    }
}

// ---------------------------------------------------------------------------
// An item in full
// ---------------------------------------------------------------------------
/// Whether three lines of an item shown in full, from a place on, are a label, a text below it, and
/// a blank line.
pub open spec fn labelled(
    lines: Seq<LineModel>,
    at: int,
    label: Seq<char>,
    text: Seq<char>,
    tone: Tone,
) -> bool {
    &&& 0 <= at && at + 3 <= lines.len()
    &&& lines[at] == (LineModel { text: label, tone: Tone::Accent })
    &&& lines[at + 1] == (LineModel { text: "  "@ + text, tone })
    &&& lines[at + 2] == (LineModel { text: Seq::empty(), tone: Tone::Plain })
}

/// An item shown in full has its title, whether it is completed where that is known, its address and
/// its tags where it has any, in this order, and a label for its notes where it has any; and no
/// other lines.
pub proof fn law_detail_lines(item: ItemModel)
    ensures
        ({
            let lines = detail_lines(item);
            let status: int = 3;
            let url: int = status + (if item.completed is Some {
                3int
            } else {
                0
            });
            let tags: int = url + (if item.url is Some {
                3int
            } else {
                0
            });
            let notes: int = tags + (if item.tags.len() > 0 {
                3int
            } else {
                0
            });
            &&& labelled(lines, 0, "Title"@, item.title, Tone::Primary)
            &&& item.completed matches Some(done) ==> labelled(
                lines,
                status,
                "Status"@,
                if done {
                    "✓ Completed"@
                } else {
                    "◯ Not completed"@
                },
                Tone::Completed,
            )
            &&& item.url matches Some(text) ==> labelled(lines, url, "URL"@, text, Tone::Link)
            &&& item.tags.len() > 0 ==> labelled(
                lines,
                tags,
                "Tags"@,
                joined(item.tags, ", "@),
                Tone::Tag,
            )
            &&& item.notes is Some ==> lines.len() == notes + 1 && lines[notes] == (LineModel {
                text: "Notes"@,
                tone: Tone::Accent,
            })
            &&& item.notes is None ==> lines.len() == notes
        }),
{
}

/// Of an item shown in full the lines from the scroll position on are seen, one below the other and
/// cut at the edge, as far as there is room; the notes follow below, indented, where there is room
/// left.
pub proof fn law_detail_is_scrolled(item: ItemModel, scroll: int, area: Area, i: int)
    requires
        scroll >= 0,
    ensures
        ({
            let d = detail(item, scroll, area);
            let lines = detail_lines(item);
            let left: int = if lines.len() > scroll {
                lines.len() - scroll
            } else {
                0
            };
            &&& d.lines.len() == (if left < area.height {
                left
            } else {
                area.height as int
            })
            &&& 0 <= i < d.lines.len() ==> {
                &&& d.lines[i].line.text == first_chars(
                    lines[scroll + i].text,
                    area.width as int,
                )
                &&& d.lines[i].line.tone == lines[scroll + i].tone
                &&& d.lines[i].area == (Area { y: (area.y + i) as u16, height: 1, ..area })
            }
            &&& d.notes is Some <==> item.notes is Some && left < area.height
            &&& d.notes matches Some((place, text)) ==> {
                &&& item.notes == Some(text)
                &&& area.x + 2 <= u16::MAX ==> place.x == area.x + 2
                &&& area.y + left <= u16::MAX ==> place.y == area.y + left
                &&& place.height == area.height - left
                &&& place.width == (if area.width > 2 {
                    area.width - 2
                } else {
                    0
                })
            }
        }),
{
}

/// The edit view has six rows for the form, one for the label of the notes, the notes in a frame,
/// and the buttons in the last row, from top to bottom and across its whole width.
pub proof fn law_edit_places(area: Area, focus: EditFocus)
    requires
        area.width > 0,
        area.height >= 13,
        area.y + area.height < u16::MAX,
        area.x < u16::MAX,
    ensures
        ({
            let p = edit_places(area, focus);
            &&& p.form == (Area { height: 6, ..area })
            &&& p.label == (Area { y: (area.y + 6) as u16, height: 1, ..area })
            &&& p.notes == (Area {
                y: (area.y + 7) as u16,
                height: (area.height - 8) as u16,
                ..area
            })
            &&& p.notes_inner == inside_border(p.notes)
            &&& p.buttons == (Area {
                y: (area.y + area.height - 1) as u16,
                height: 1,
                ..area
            })
            &&& p.focus == focus
        }),
{
}

/// Where a column begins: behind the widths of those before it and a blank for each.
proof fn lemma_start_is_sum(columns: Seq<Column>, x: int, extra: int, i: int)
    requires
        0 <= i <= columns.len(),
    ensures
        column_start(columns, x, extra, i) == x + least_total(columns.take(i)) + growing(
            columns.take(i),
        ) * extra + i,
    decreases i,
{
    if i > 0 {
        lemma_start_is_sum(columns, x, extra, i - 1);
        assert(columns.take(i).drop_last() =~= columns.take(i - 1));
        assert(columns.take(i).last() == columns[i - 1]);
        let g = growing(columns.take(i - 1));
        assert((g + 1) * extra == g * extra + extra) by (nonlinear_arith);
    } else {
        assert(columns.take(0) =~= Seq::<Column>::empty());
    }
}

/// Columns for which there is room on the screen can be placed.
proof fn lemma_columns_fit(columns: Seq<Column>, x: u16, width: u16)
    requires
        x + width < u16::MAX,
        x + needed(columns) < u16::MAX,
    ensures
        columns_fit(columns, x, width),
{
    let n = columns.len() as int;
    let extra = extra_width(columns, width as int);
    lemma_needed(columns);
    lemma_start_is_sum(columns, x as int, extra, n);
    assert(columns.take(n) =~= columns);
    let g = growing(columns);
    if g > 0 {
        let room = width - needed(columns);
        if room >= 0 {
            assert(g * (room / g) <= room) by (nonlinear_arith)
                requires
                    g > 0,
                    room >= 0,
            ;
        } else {
            assert(g * (0int / g) == 0) by (nonlinear_arith)
                requires
                    g > 0,
            ;
        }
    }
}

/// The screen can be drawn where its table is no wider than coordinates go, and the first line of
/// the notes of each item is short or can be cut behind its thirty-seventh byte.
pub proof fn law_screen_can_be_drawn(b: Browser, width: u16, height: u16)
    requires
        ({
            let inner = b.screen(width, height).panel.inner;
            &&& inner.x + inner.width < u16::MAX
            &&& in_table(b) ==> inner.x + needed(b.table().columns) < u16::MAX
        }),
        forall|i: int|
            0 <= i < rows(b).len() ==> ((#[trigger] rows(b)[i]).notes matches Some(notes) ==> bytes(
                first_line(notes),
            ).len() <= 40 || boundary(first_line(notes), 37)),
    ensures
        b.drawable(width, height),
{
    lemma_chosen(b);
    let inner = b.screen(width, height).panel.inner;
    if in_table(b) {
        lemma_columns_fit(b.table().columns, inner.x, inner.width);
    }
}

} // verus!
