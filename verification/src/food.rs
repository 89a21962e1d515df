//! The food and where it goes next.

use crate::position::Position;
use crate::settings::Settings;
use crate::snek::SnekManager;
use rand::rngs::ThreadRng;
use rand::Rng;
use vstd::prelude::*;

verus! {

/// `rand::rngs::ThreadRng`, the handle to the random number generator of a
/// thread. Nothing inside it is visible here.
#[verifier::external_type_specification]
#[verifier::external_body]
pub struct ExThreadRng(ThreadRng);

/// `rand::thread_rng` hands out a handle to the generator of the calling
/// thread. Nothing is claimed of the handle.
pub assume_specification[ rand::thread_rng ]() -> (rng: ThreadRng);

/// `rand::Rng::gen_range` on the half-open range `0..bound`. It yields a
/// value of the range, and which one is left open. On an empty range it
/// panics, which the demand on `bound` rules out.
#[verifier::external_body]
fn draw_below(rng: &mut ThreadRng, bound: i16) -> (r: i16)
    requires
        0 < bound,
    ensures
        0 <= r < bound,
{
    rng.gen_range(0..bound)
}

/// Whether `(x, y)` is a cell of the board that no segment of `body` sits on.
pub open spec fn vacant(body: Seq<Position>, cfg: Settings, x: int, y: int) -> bool {
    cfg.holds(x, y) && !body.contains(Position(x as i16, y as i16))
}

/// The `k`-th neighbour of `pos` in the order in which the search looks at
/// them: up, left, right, down.
pub open spec fn neighbour(pos: Position, k: int) -> (int, int) {
    if k == 0 {
        (pos.0 as int, pos.1 - 1)
    } else if k == 1 {
        (pos.0 - 1, pos.1 as int)
    } else if k == 2 {
        (pos.0 + 1, pos.1 as int)
    } else {
        (pos.0 as int, pos.1 + 1)
    }
}

/// `Some` of the cell `(x, y)` if it is vacant.
pub open spec fn vacant_at(body: Seq<Position>, cfg: Settings, x: int, y: int) -> Option<Position> {
    if vacant(body, cfg, x, y) {
        Some(Position(x as i16, y as i16))
    } else {
        None
    }
}

/// The first vacant neighbour of `pos` among its neighbours `k`, `k + 1`, ...
pub open spec fn vacant_beside_from(body: Seq<Position>, cfg: Settings, pos: Position, k: int)
    -> Option<Position>
    decreases 4 - k,
{
    if k < 0 || k >= 4 {
        None
    } else {
        let (x, y) = neighbour(pos, k);
        if vacant(body, cfg, x, y) {
            Some(Position(x as i16, y as i16))
        } else {
            vacant_beside_from(body, cfg, pos, k + 1)
        }
    }
}

/// The first vacant neighbour of `pos`, if it has one.
pub open spec fn vacant_beside(body: Seq<Position>, cfg: Settings, pos: Position) -> Option<
    Position,
> {
    vacant_beside_from(body, cfg, pos, 0)
}

/// The first vacant neighbour of the segments `body[i]`, `body[i + 1]`, ...,
/// taking the segments in order.
pub open spec fn first_vacant_from(body: Seq<Position>, cfg: Settings, i: int) -> Option<Position>
    decreases body.len() - i,
{
    if i < 0 || i >= body.len() {
        None
    } else {
        match vacant_beside(body, cfg, body[i]) {
            Some(p) => Some(p),
            None => first_vacant_from(body, cfg, i + 1),
        }
    }
}

/// The cell that the fallback search settles on: none when the body is at
/// least as long as the board has cells, else the first vacant neighbour of
/// a segment, segments taken tail first.
pub open spec fn unoccupied_cell(body: Seq<Position>, cfg: Settings) -> Option<Position> {
    if body.len() >= cfg.cells() {
        None
    } else {
        first_vacant_from(body, cfg, 0)
    }
}

/// Where the food goes when `drawn` was drawn: `drawn` itself if no segment
/// sits there, else the cell the fallback search finds, else `drawn` after
/// all.
pub open spec fn placed(drawn: Position, body: Seq<Position>, cfg: Settings) -> Position {
    if body.contains(drawn) {
        match unoccupied_cell(body, cfg) {
            Some(p) => p,
            None => drawn,
        }
    } else {
        drawn
    }
}

/// Whether `a` and `b` share an edge.
pub open spec fn adjacent(a: Position, b: Position) -> bool {
    ||| a.0 == b.0 && (a.1 - b.1 == 1 || b.1 - a.1 == 1)
    ||| a.1 == b.1 && (a.0 - b.0 == 1 || b.0 - a.0 == 1)
}

/// Whether `p` is a cell of the board that no segment of `body` sits on.
pub open spec fn free_cell(body: Seq<Position>, cfg: Settings, p: Position) -> bool {
    p.within(cfg.columns as int, cfg.rows as int) && !body.contains(p)
}

/// Whether `p` is a free cell next to the segment `body[j]`.
pub open spec fn free_beside(body: Seq<Position>, cfg: Settings, j: int, p: Position) -> bool {
    0 <= j < body.len() && adjacent(body[j], p) && free_cell(body, cfg, p)
}

/// Whether some segment of `body` has a free cell next to it.
pub open spec fn has_free_neighbour(body: Seq<Position>, cfg: Settings) -> bool {
    exists|j: int, p: Position| free_beside(body, cfg, j, p)
}

/// What the search beside one cell yields: a free cell next to `pos` if it
/// yields a cell, and no cell only if no neighbour from the `k`-th on is
/// vacant.
proof fn lemma_vacant_beside_from(body: Seq<Position>, cfg: Settings, pos: Position, k: int)
    requires
        cfg.wf(),
        0 <= k <= 4,
    ensures
        match vacant_beside_from(body, cfg, pos, k) {
            Some(p) => free_cell(body, cfg, p) && adjacent(pos, p),
            None => forall|m: int|
                k <= m < 4 ==> !vacant(
                    body,
                    cfg,
                    (#[trigger] neighbour(pos, m)).0,
                    neighbour(pos, m).1,
                ),
        },
    decreases 4 - k,
{
    if k < 4 {
        lemma_vacant_beside_from(body, cfg, pos, k + 1);
    }
}

/// A cell keeps no free cell next to it from the search beside it.
proof fn lemma_vacant_beside(body: Seq<Position>, cfg: Settings, pos: Position)
    requires
        cfg.wf(),
    ensures
        match vacant_beside(body, cfg, pos) {
            Some(p) => free_cell(body, cfg, p) && adjacent(pos, p),
            None => forall|p: Position| adjacent(pos, p) ==> !#[trigger] free_cell(body, cfg, p),
        },
{
    lemma_vacant_beside_from(body, cfg, pos, 0);
    if vacant_beside(body, cfg, pos).is_none() {
        assert forall|p: Position| adjacent(pos, p) implies !#[trigger] free_cell(
            body,
            cfg,
            p,
        ) by {
            let m: int = if p.1 == pos.1 - 1 {
                0
            } else if p.0 == pos.0 - 1 {
                1
            } else if p.0 == pos.0 + 1 {
                2
            } else {
                3
            };
            assert(neighbour(pos, m) == (p.0 as int, p.1 as int));
        }
    }
}

/// What the search along the body yields: a free cell next to a segment if
/// it yields a cell, and no cell only if no segment from `i` on has a free
/// cell next to it.
proof fn lemma_first_vacant_from(body: Seq<Position>, cfg: Settings, i: int)
    requires
        cfg.wf(),
        0 <= i <= body.len(),
    ensures
        match first_vacant_from(body, cfg, i) {
            Some(p) => exists|j: int| i <= j && free_beside(body, cfg, j, p),
            None => forall|j: int, p: Position| i <= j ==> !free_beside(body, cfg, j, p),
        },
    decreases body.len() - i,
{
    if i < body.len() {
        lemma_vacant_beside(body, cfg, body[i]);
        lemma_first_vacant_from(body, cfg, i + 1);
        match vacant_beside(body, cfg, body[i]) {
            Some(p) => {
                assert(free_beside(body, cfg, i, p));
            },
            None => {},
        }
    }
}

/// The fallback search yields only free cells next to the snake, and it
/// yields one exactly when the body is shorter than the board has cells and
/// some segment has a free cell next to it.
pub proof fn search_finds_free_neighbour(body: Seq<Position>, cfg: Settings)
    requires
        cfg.wf(),
    ensures
        unoccupied_cell(body, cfg).is_some() <==> body.len() < cfg.cells() && has_free_neighbour(
            body,
            cfg,
        ),
        unoccupied_cell(body, cfg) matches Some(p) ==> exists|j: int| free_beside(body, cfg, j, p),
{
    lemma_first_vacant_from(body, cfg, 0);
}

/// The food never leaves the board: whatever cell of the board is drawn, the
/// cell it is placed on is a cell of the board.
pub proof fn placed_within_board(drawn: Position, body: Seq<Position>, cfg: Settings)
    requires
        cfg.wf(),
        drawn.within(cfg.columns as int, cfg.rows as int),
    ensures
        placed(drawn, body, cfg).within(cfg.columns as int, cfg.rows as int),
{
    search_finds_free_neighbour(body, cfg);
}

/// The food avoids the snake wherever it can: the cell it is placed on is
/// free of the body exactly when the drawn cell is free, or the body is
/// shorter than the board has cells and some segment has a free cell next
/// to it.
pub proof fn placed_avoids_body(drawn: Position, body: Seq<Position>, cfg: Settings)
    requires
        cfg.wf(),
    ensures
        !body.contains(placed(drawn, body, cfg)) <==> !body.contains(drawn) || (body.len()
            < cfg.cells() && has_free_neighbour(body, cfg)),
{
    search_finds_free_neighbour(body, cfg);
}

/// The cell next to `a` on the way to `f`, going along the row first.
spec fn towards(a: Position, f: Position) -> Position {
    if a.0 < f.0 {
        Position((a.0 + 1) as i16, a.1)
    } else if a.0 > f.0 {
        Position((a.0 - 1) as i16, a.1)
    } else if a.1 < f.1 {
        Position(a.0, (a.1 + 1) as i16)
    } else {
        Position(a.0, (a.1 - 1) as i16)
    }
}

/// How many steps lie between `a` and `f`.
spec fn distance(a: Position, f: Position) -> int {
    (if a.0 < f.0 {
        f.0 - a.0
    } else {
        a.0 - f.0
    }) + (if a.1 < f.1 {
        f.1 - a.1
    } else {
        a.1 - f.1
    })
}

/// On the way from a segment to a free cell lies a segment with a free cell
/// next to it.
proof fn lemma_way_to_free_cell(body: Seq<Position>, cfg: Settings, j: int, f: Position)
    requires
        0 <= j < body.len(),
        body[j].within(cfg.columns as int, cfg.rows as int),
        free_cell(body, cfg, f),
    ensures
        has_free_neighbour(body, cfg),
    decreases distance(body[j], f),
{
    let next = towards(body[j], f);
    assert(adjacent(body[j], next));
    if body.contains(next) {
        let k = choose|k: int| 0 <= k < body.len() && body[k] == next;
        lemma_way_to_free_cell(body, cfg, k, f);
    } else {
        assert(free_beside(body, cfg, j, next));
    }
}

/// On a board with a free cell, a snake that lies on the board has a free
/// cell next to one of its segments.
pub proof fn open_board_has_free_neighbour(body: Seq<Position>, cfg: Settings, free: Position)
    requires
        exists|j: int|
            0 <= j < body.len() && (#[trigger] body[j]).within(
                cfg.columns as int,
                cfg.rows as int,
            ),
        free_cell(body, cfg, free),
    ensures
        has_free_neighbour(body, cfg),
{
    let j = choose|j: int|
        0 <= j < body.len() && (#[trigger] body[j]).within(cfg.columns as int, cfg.rows as int);
    lemma_way_to_free_cell(body, cfg, j, free);
}

/// While a cell of the board is free and the snake, with a segment on the
/// board, is shorter than the board has cells, the food is never placed on
/// the snake.
pub proof fn placed_avoids_body_on_open_board(
    drawn: Position,
    body: Seq<Position>,
    cfg: Settings,
    free: Position,
)
    requires
        cfg.wf(),
        exists|j: int|
            0 <= j < body.len() && (#[trigger] body[j]).within(
                cfg.columns as int,
                cfg.rows as int,
            ),
        body.len() < cfg.cells(),
        free_cell(body, cfg, free),
    ensures
        !body.contains(placed(drawn, body, cfg)),
{
    open_board_has_free_neighbour(body, cfg, free);
    placed_avoids_body(drawn, body, cfg);
}

/// The food: where it lies, and the generator that picks its next cell.
pub struct FoodFactory {
    /// The generator the next cell is drawn from.
    pub rng: ThreadRng,
    /// The cell the food lies on.
    pub position: Position,
}

impl FoodFactory {
    /// The food at the start of a game, at `(10, 10)`.
    pub fn init() -> (r: Self)
        ensures
            r.position == Position(10, 10),
    {
        FoodFactory { rng: rand::thread_rng(), position: Position(10, 10) }
    }

    /// `Some` of the cell `(x, y)` if it lies on the board and is free.
    fn probe(snek: &SnekManager, cfg: &Settings, x: i32, y: i32) -> (r: Option<Position>)
        requires
            cfg.wf(),
        ensures
            r == vacant_at(snek.body@, *cfg, x as int, y as int),
    {
        if 0 <= x && x < cfg.columns as i32 && 0 <= y && y < cfg.rows as i32 {
            let cell = Position(x as i16, y as i16);
            if snek.covers(0, &cell) {
                None
            } else {
                Some(cell)
            }
        } else {
            None
        }
    }

    /// The first free neighbour of `pos`, looking up, left, right, down.
    fn probe_beside(snek: &SnekManager, cfg: &Settings, pos: Position) -> (r: Option<Position>)
        requires
            cfg.wf(),
        ensures
            r == vacant_beside(snek.body@, *cfg, pos),
    {
        let x: i32 = pos.0 as i32;
        let y: i32 = pos.1 as i32;
        reveal_with_fuel(vacant_beside_from, 5);
        if let Some(p) = Self::probe(snek, cfg, x, y - 1) {
            return Some(p);
        }
        if let Some(p) = Self::probe(snek, cfg, x - 1, y) {
            return Some(p);
        }
        if let Some(p) = Self::probe(snek, cfg, x + 1, y) {
            return Some(p);
        }
        Self::probe(snek, cfg, x, y + 1)
    }

    /// Searches for a free cell next to the snake: the segments are taken
    /// tail first, and for each its neighbours up, left, right, down. Gives
    /// up at once when the body is at least as long as the board has cells.
    pub fn find_unoccupied_cell(snek: &SnekManager, cfg: &Settings) -> (r: Option<Position>)
        requires
            cfg.wf(),
        ensures
            r == unoccupied_cell(snek.body@, *cfg),
    {
        let n: usize = snek.body.len();
        let cells: u64 = cfg.columns as u64 * cfg.rows as u64;
        if n as u64 >= cells {
            return None;
        }
        let mut i: usize = 0;
        while i < n
            invariant
                cfg.wf(),
                n == snek.body@.len(),
                n < cfg.cells(),
                i <= n,
                first_vacant_from(snek.body@, *cfg, 0) == first_vacant_from(
                    snek.body@,
                    *cfg,
                    i as int,
                ),
            decreases n - i,
        {
            let found = Self::probe_beside(snek, cfg, snek.body[i]);
            assert(first_vacant_from(snek.body@, *cfg, i as int) == match found {
                Some(p) => Some(p),
                None => first_vacant_from(snek.body@, *cfg, i + 1),
            });
            if let Some(p) = found {
                return Some(p);
            }
            i += 1;
        }
        None
    }

    /// Where the food goes when the cell `drawn` was drawn.
    pub fn place(drawn: Position, snek: &SnekManager, cfg: &Settings) -> (r: Position)
        requires
            cfg.wf(),
        ensures
            r == placed(drawn, snek.body@, *cfg),
    {
        if snek.covers(0, &drawn) {
            match Self::find_unoccupied_cell(snek, cfg) {
                Some(p) => p,
                None => drawn,
            }
        } else {
            drawn
        }
    }

    /// Moves the food to a cell drawn at random from the board, or, where a
    /// segment sits on that cell, to the cell the fallback search finds.
    pub fn relocate(&mut self, snek: &SnekManager, cfg: &Settings)
        requires
            cfg.wf(),
        ensures
            exists|drawn: Position|
                drawn.within(cfg.columns as int, cfg.rows as int) && final(self).position
                    == #[trigger] placed(drawn, snek.body@, *cfg),
            final(self).position.within(cfg.columns as int, cfg.rows as int),
            snek.body@.len() < cfg.cells() && has_free_neighbour(snek.body@, *cfg)
                ==> !snek.body@.contains(final(self).position),
    {
        let x: i16 = draw_below(&mut self.rng, cfg.columns as i16);
        let y: i16 = draw_below(&mut self.rng, cfg.rows as i16);
        let drawn = Position(x, y);
        self.position = Self::place(drawn, snek, cfg);
        proof {
            placed_within_board(drawn, snek.body@, *cfg);
            placed_avoids_body(drawn, snek.body@, *cfg);
        }
    }
}

} // verus!
