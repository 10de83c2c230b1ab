//! Rectangles on the terminal grid, and the split of the drawable area into
//! rows.

use vstd::prelude::*;
use tui::layout::{Constraint, Direction, Layout, Rect};

verus! {

/// A rectangle of terminal cells: the column and row of its top-left cell,
/// and its size.
#[derive(Clone, Copy, Debug, PartialEq, Eq, Structural)]
pub struct Region {
    pub x: u16,
    pub y: u16,
    pub width: u16,
    pub height: u16,
}

impl Region {
    /// Whether the rectangle lies within the grid that 16-bit coordinates
    /// can address.
    pub open spec fn in_bounds(self) -> bool {
        self.x + self.width <= u16::MAX && self.y + self.height <= u16::MAX
    }

    /// Decides `in_bounds`.
    pub fn fits(&self) -> (ok: bool)
        ensures
            ok == self.in_bounds(),
    {
        self.width <= u16::MAX - self.x && self.height <= u16::MAX - self.y
    }
}

/// What is asked of the height of one row.
#[derive(Clone, Copy, Debug, PartialEq, Eq, Structural)]
pub enum RowRule {
    /// The row is this many cells high.
    Length(u16),
    /// The row is at least this many cells high.
    Min(u16),
}

/// Calls `tui::layout::Layout::split`, with the vertical direction, the
/// given margin and one constraint for each rule, on `area`. The constraint
/// solver behind it decides where each row lies, and its answer to one
/// question need not be the same twice; all that is claimed here is that it
/// hands back as many rectangles as there are rules. The `requires` keeps
/// out the inputs on which the arithmetic on `Rect` overflows or the
/// solver's required constraints contradict each other, where the call
/// panics.
#[verifier::external_body]
pub(crate) fn split_rows(area: Region, margin: u16, rules: &Vec<RowRule>) -> (rows: Vec<Region>)
    requires
        area.in_bounds(),
        2 * margin <= u16::MAX,
    ensures
        rows@.len() == rules@.len(),
{
    let rect = Rect { x: area.x, y: area.y, width: area.width, height: area.height };
    let constraints: Vec<Constraint> = rules.iter().map(|rule| match *rule {
        RowRule::Length(n) => Constraint::Length(n),
        RowRule::Min(n) => Constraint::Min(n),
    }).collect();
    let chunks = Layout::default()
        .direction(Direction::Vertical)
        .margin(margin)
        .constraints(constraints)
        .split(rect);
    chunks.iter().map(|c| Region { x: c.x, y: c.y, width: c.width, height: c.height }).collect()
}

} // verus!
