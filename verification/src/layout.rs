//! Layout: the division of the terminal into parts.
use ratatui::layout::{Layout, Rect};
use vstd::prelude::*;

use crate::paint::Area;

verus! {

/// The axis along which an area is divided.
#[derive(Debug, Clone, Copy, PartialEq, Eq, Structural)]
pub enum Direction {
    Horizontal,
    Vertical,
}

/// The size that a part of an area asks for.
#[derive(Debug, Clone, Copy, PartialEq, Eq, Structural)]
pub enum Constraint {
    /// This many cells.
    Length(u16),
    /// At least this many cells.
    Min(u16),
    /// This share of the area.
    Percentage(u16),
}

/// The end of a stretch of cells; coordinates go no further than sixteen
/// bits.
pub open spec fn end_of(start: u16, size: u16) -> int {
    if start + size > u16::MAX {
        u16::MAX as int
    } else {
        start + size
    }
}

/// A part spans the area across the axis, and lies within it along the axis.
pub open spec fn is_part(direction: Direction, area: Area, part: Area) -> bool {
    match direction {
        Direction::Horizontal => {
            &&& part.y == area.y
            &&& part.height == area.height
            &&& area.x <= part.x
            &&& part.x + part.width <= end_of(area.x, area.width)
        },
        Direction::Vertical => {
            &&& part.x == area.x
            &&& part.width == area.width
            &&& area.y <= part.y
            &&& part.y + part.height <= end_of(area.y, area.height)
        },
    }
}

/// The coordinate along the axis at which an area starts.
pub open spec fn start_along(direction: Direction, area: Area) -> int {
    match direction {
        Direction::Horizontal => area.x as int,
        Direction::Vertical => area.y as int,
    }
}

/// The number of cells along the axis that an area has to give away.
pub open spec fn room_along(direction: Direction, area: Area) -> int {
    match direction {
        Direction::Horizontal => end_of(area.x, area.width) - area.x,
        Direction::Vertical => end_of(area.y, area.height) - area.y,
    }
}

/// A part starts here along the axis, and takes this many cells.
pub open spec fn lies_at(direction: Direction, part: Area, start: int, size: int) -> bool {
    match direction {
        Direction::Horizontal => part.x == start && part.width == size,
        Direction::Vertical => part.y == start && part.height == size,
    }
}

/// A percentage of some cells, rounded to whole cells, a half upwards.
pub open spec fn share(percent: int, cells: int) -> int {
    (percent * cells + 50) / 100
}

/// The lesser of two numbers of cells.
pub open spec fn at_most(cells: int, room: int) -> int {
    if cells < room {
        cells
    } else {
        room
    }
}

/// Where the parts lie along the axis, as far as the constraints settle it:
/// - two lengths that fit, around a part that takes what they leave;
/// - two percentages that make up the whole;
/// - a length, as far as it fits, behind a part that takes what it leaves.
///
/// The parts follow one another without a gap and fill the area.
pub open spec fn is_settled(
    direction: Direction,
    constraints: Seq<Constraint>,
    area: Area,
    parts: Seq<Area>,
) -> bool {
    let s = start_along(direction, area);
    let n = room_along(direction, area);
    if constraints.len() == 3 {
        match (constraints[0], constraints[1], constraints[2]) {
            (Constraint::Length(a), Constraint::Min(least), Constraint::Length(b)) => {
                least == 0 && a + b <= n ==> {
                    &&& lies_at(direction, parts[0], s, a as int)
                    &&& lies_at(direction, parts[1], s + a, n - a - b)
                    &&& lies_at(direction, parts[2], s + n - b, b as int)
                }
            },
            _ => true,
        }
    } else if constraints.len() == 2 {
        match (constraints[0], constraints[1]) {
            (Constraint::Percentage(p), Constraint::Percentage(q)) => {
                p + q == 100 ==> {
                    &&& lies_at(direction, parts[0], s, share(p as int, n))
                    &&& lies_at(
                        direction,
                        parts[1],
                        s + share(p as int, n),
                        n - share(p as int, n),
                    )
                }
            },
            (Constraint::Min(least), Constraint::Length(b)) => {
                least == 0 ==> {
                    &&& lies_at(direction, parts[0], s, n - at_most(b as int, n))
                    &&& lies_at(
                        direction,
                        parts[1],
                        s + n - at_most(b as int, n),
                        at_most(b as int, n),
                    )
                }
            },
            _ => true,
        }
    } else {
        true
    }
}

/// What is known of the parts that an area is divided into: there is one for
/// every constraint, each is a part of the area, and where the constraints
/// settle it, each lies where they put it.
pub open spec fn is_split(
    direction: Direction,
    constraints: Seq<Constraint>,
    area: Area,
    parts: Seq<Area>,
) -> bool {
    &&& parts.len() == constraints.len()
    &&& forall|i: int| 0 <= i < parts.len() ==> is_part(direction, area, #[trigger] parts[i])
    &&& is_settled(direction, constraints, area, parts)
}

/// `ratatui::layout::Layout::split` divides an area along an axis, into one
/// part for every constraint. It keeps the area's extent across the axis, and
/// requires of its solver that the parts lie within the area along the axis.
/// The solver weighs the constraints: a length is set to its amount before
/// anything else grows, a percentage is taken of the whole area and rounded
/// to whole cells, and a minimum of nothing takes what the others leave.
/// Where lengths compete for too few cells, or percentages do not make up the
/// whole, more than one division can come out, and nothing is claimed of how
/// the cells are shared.
#[verifier::external_body]
pub(crate) fn split_area(direction: Direction, constraints: &[Constraint], area: Area) -> (r: Vec<
    Area,
>)
    ensures
        is_split(direction, constraints@, area, r@),
{
    let axis = match direction {
        Direction::Horizontal => ratatui::layout::Direction::Horizontal,
        Direction::Vertical => ratatui::layout::Direction::Vertical,
    };
    let sizes = constraints.iter().map(|c| match c {
        Constraint::Length(n) => ratatui::layout::Constraint::Length(*n),
        Constraint::Min(n) => ratatui::layout::Constraint::Min(*n),
        Constraint::Percentage(n) => ratatui::layout::Constraint::Percentage(*n),
    });
    let Area { x, y, width, height } = area;
    let whole = Rect { x, y, width, height };
    let parts = Layout::new(axis, sizes).split(whole);
    parts.iter().map(|p| Area { x: p.x, y: p.y, width: p.width, height: p.height }).collect()
}

} // verus!
