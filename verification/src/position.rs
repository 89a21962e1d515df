//! Grid coordinates.

use vstd::prelude::*;

verus! {

/// A cell of the grid, as `(x, y)`. Coordinates are signed so that the cell
/// just beyond an edge of the board can be named before it is tested.
#[derive(PartialEq, Eq, Clone, Copy, Debug, Structural)]
pub struct Position(pub i16, pub i16);

impl Position {
    /// The cell reached from `self` by moving `dx` columns and `dy` rows, as
    /// unbounded integers.
    pub open spec fn shifted(self, dx: int, dy: int) -> (int, int) {
        (self.0 + dx, self.1 + dy)
    }

    /// Whether the cell lies on a board of `columns` by `rows` cells.
    pub open spec fn within(self, columns: int, rows: int) -> bool {
        0 <= self.0 < columns && 0 <= self.1 < rows
    }
}

impl From<(i16, i16)> for Position {
    fn from(pos: (i16, i16)) -> (r: Self) {
        Position(pos.0, pos.1)
    }
}

impl vstd::std_specs::convert::FromSpecImpl<(i16, i16)> for Position {
    open spec fn obeys_from_spec() -> bool {
        true
    }

    open spec fn from_spec(pos: (i16, i16)) -> Self {
        Position(pos.0, pos.1)
    }
}

} // verus!
