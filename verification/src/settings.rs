//! Board configuration.

use crate::position::Position;
use vstd::prelude::*;

verus! {

/// The size of the board and the pace of the game.
pub struct Settings {
    /// Number of columns; cells have `x` in `[0, columns)`.
    pub columns: u16,
    /// Number of rows; cells have `y` in `[0, rows)`.
    pub rows: u16,
    /// Time between two committed steps, in nanoseconds.
    pub speed: u64,
}

/// The standard board: 25 by 25 cells, one step every 150 ms.
pub open spec fn standard() -> Settings {
    Settings { columns: 25, rows: 25, speed: 150_000_000 }
}

impl Settings {
    /// A usable configuration: a board with at least one cell whose extents
    /// fit a signed coordinate and whose cell count fits the score counter,
    /// and a positive step interval.
    pub open spec fn wf(self) -> bool {
        &&& 0 < self.columns <= i16::MAX
        &&& 0 < self.rows <= i16::MAX
        &&& self.columns * self.rows <= u16::MAX
        &&& self.speed > 0
    }

    /// The number of cells on the board.
    pub open spec fn cells(self) -> int {
        self.columns * self.rows
    }

    /// Whether `(x, y)` names a cell of the board.
    pub open spec fn holds(self, x: int, y: int) -> bool {
        0 <= x < self.columns && 0 <= y < self.rows
    }

    /// Whether the layout a game starts with, the snake on `(2, 3)` and
    /// `(3, 3)` and the food on `(10, 10)`, lies on the board.
    pub open spec fn holds_start(self) -> bool {
        &&& Position(2, 3).within(self.columns as int, self.rows as int)
        &&& Position(3, 3).within(self.columns as int, self.rows as int)
        &&& Position(10, 10).within(self.columns as int, self.rows as int)
    }

    /// Tells whether the configuration is usable.
    pub fn is_valid(&self) -> (r: bool)
        ensures
            r == self.wf(),
    {
        if self.columns == 0 || self.columns > 0x7fff || self.rows == 0 || self.rows > 0x7fff {
            return false;
        }
        assert(self.columns * self.rows <= 0x7fff * 0x7fff) by (nonlinear_arith)
            requires
                0 < self.columns <= 0x7fff,
                0 < self.rows <= 0x7fff,
        ;
        self.columns as u32 * self.rows as u32 <= 0xffff && self.speed > 0
    }

    /// The standard board.
    pub fn init() -> (r: Self)
        ensures
            r == standard(),
            r.wf(),
            r.holds_start(),
    {
        Settings { columns: 25, rows: 25, speed: 150_000_000 }
    }
}

} // verus!
