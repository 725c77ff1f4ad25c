//! Places on the screen.
use ftui_core::geometry::Rect;
use ftui_layout::{Constraint, Flex};
use ftui_widgets::block::Block;
use ftui_widgets::borders::Borders;
use vstd::prelude::*;

verus! {

/// A rectangle of cells; rows count downwards.
#[derive(Debug, Clone, Copy, PartialEq, Eq, Structural)]
pub struct Area {
    pub x: u16,
    pub y: u16,
    pub width: u16,
    pub height: u16,
}

/// A sum that stops at the largest coordinate.
pub open spec fn capped(n: int) -> int {
    if n < u16::MAX {
        n
    } else {
        u16::MAX as int
    }
}

/// A difference that stops at zero.
pub open spec fn floored(n: int) -> int {
    if n > 0 {
        n
    } else {
        0
    }
}

/// The smaller of two numbers.
pub open spec fn smaller(a: int, b: int) -> int {
    if a < b {
        a
    } else {
        b
    }
}

impl Area {
    /// Whether a cell lies in the area.
    pub open spec fn has_cell(self, x: u16, y: u16) -> bool {
        &&& self.x <= x < capped(self.x + self.width)
        &&& self.y <= y < capped(self.y + self.height)
    }

    /// An area by its corner and size.
    pub fn new(x: u16, y: u16, width: u16, height: u16) -> (r: Area)
        ensures
            r == (Area { x, y, width, height }),
    {
        Area { x, y, width, height }
    }

    /// Calls `Rect::contains` of `ftui_core`: edges on the left and at the top belong to the
    /// rectangle, those on the right and at the bottom do not, and sums stop at the largest
    /// coordinate.
    #[verifier::external_body]
    pub(crate) fn contains(&self, x: u16, y: u16) -> (r: bool)
        ensures
            r == self.has_cell(x, y),
    {
        Rect::new(self.x, self.y, self.width, self.height).contains(x, y)
    }
}

/// What is left of an area inside a border of one cell.
pub open spec fn inside_border(a: Area) -> Area {
    Area {
        x: capped(a.x + 1) as u16,
        y: capped(a.y + 1) as u16,
        width: floored(a.width - 2) as u16,
        height: floored(a.height - 2) as u16,
    }
}

/// Calls `Block::inner` of `ftui_widgets` for a block with all borders: one cell less on each
/// side, where there is any.
#[verifier::external_body]
pub(crate) fn border_inner(area: Area) -> (r: Area)
    ensures
        r == inside_border(area),
{
    let outer = Rect::new(area.x, area.y, area.width, area.height);
    let inner = Block::default().borders(Borders::ALL).inner(outer);
    Area::new(inner.x, inner.y, inner.width, inner.height)
}

/// The empty area in the corner of the screen.
pub open spec fn nowhere() -> Area {
    Area { x: 0, y: 0, width: 0, height: 0 }
}

/// An area split from left to right into a part of a wanted width and the rest.
pub open spec fn row_split(area: Area, wanted: u16) -> Seq<Area> {
    if area.width == 0 || area.height == 0 {
        seq![nowhere(), nowhere()]
    } else {
        let first = smaller(wanted as int, area.width as int) as u16;
        seq![
            Area { width: first, ..area },
            Area { x: capped(area.x + first) as u16, width: (area.width - first) as u16, ..area },
        ]
    }
}

/// Calls `Flex::split` of `ftui_layout` on a row of a fixed part and a part that takes the rest:
/// the fixed part is served first, and an empty area has empty parts. How wide the second part is
/// to be at least makes no difference, as nothing follows it.
#[verifier::external_body]
pub(crate) fn split_row(area: Area, wanted: u16, least: u16) -> (r: Vec<Area>)
    ensures
        r@ == row_split(area, wanted),
{
    Flex::horizontal()
        .constraints([Constraint::Fixed(wanted), Constraint::Min(least)])
        .split(Rect::new(area.x, area.y, area.width, area.height))
        .iter()
        .map(|part| Area::new(part.x, part.y, part.width, part.height))
        .collect()
}

/// The heights of a stack of four parts: the first, second and last have a wanted height, the
/// third has at least `least` rows and takes what is left; earlier parts are served first.
pub open spec fn stack_heights(
    height: int,
    first: int,
    second: int,
    least: int,
    last: int,
) -> Seq<int> {
    let a = smaller(first, height);
    let b = smaller(second, height - a);
    let c = smaller(least, height - a - b);
    let d = smaller(last, height - a - b - c);
    seq![a, b, height - a - b - d, d]
}

/// A part of a stack: a strip of an area.
pub open spec fn strip(area: Area, offset: int, height: int) -> Area {
    Area { y: capped(area.y + offset) as u16, height: height as u16, ..area }
}

/// An area split from top to bottom into a stack of four parts.
pub open spec fn stack_split(area: Area, first: u16, second: u16, least: u16, last: u16) -> Seq<
    Area,
> {
    if area.width == 0 || area.height == 0 {
        seq![nowhere(), nowhere(), nowhere(), nowhere()]
    } else {
        let h = stack_heights(
            area.height as int,
            first as int,
            second as int,
            least as int,
            last as int,
        );
        seq![
            strip(area, 0, h[0]),
            strip(area, h[0], h[1]),
            strip(area, h[0] + h[1], h[2]),
            strip(area, h[0] + h[1] + h[2], h[3]),
        ]
    }
}

/// Calls `Flex::split` of `ftui_layout` on a column of four parts, the third of which takes the
/// rest: parts are served from the top down, and an empty area has empty parts.
#[verifier::external_body]
pub(crate) fn split_stack(area: Area, first: u16, second: u16, least: u16, last: u16) -> (r: Vec<
    Area,
>)
    ensures
        r@ == stack_split(area, first, second, least, last),
{
    Flex::vertical()
        .constraints([
            Constraint::Fixed(first),
            Constraint::Fixed(second),
            Constraint::Min(least),
            Constraint::Fixed(last),
        ])
        .split(Rect::new(area.x, area.y, area.width, area.height))
        .iter()
        .map(|part| Area::new(part.x, part.y, part.width, part.height))
        .collect()
}

} // verus!
