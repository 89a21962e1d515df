//! The snake's body.

use crate::direction::Direction;
use crate::position::Position;
use std::collections::VecDeque;
use vstd::prelude::*;

verus! {

/// The body the snake starts with: two segments, head to the right.
pub open spec fn start_body() -> Seq<Position> {
    seq![Position(2, 3), Position(3, 3)]
}

/// The body after `pos` becomes the new head: the tail stays when the snake
/// is growing and leaves otherwise.
pub open spec fn stepped(body: Seq<Position>, is_growing: bool, pos: Position) -> Seq<Position> {
    if is_growing {
        body.push(pos)
    } else {
        body.push(pos).subrange(1, body.len() as int + 1)
    }
}

/// Whether `pos` is one of the segments of `body` at index `start` or later.
pub open spec fn covers_from(body: Seq<Position>, start: int, pos: Position) -> bool {
    exists|i: int| start <= i < body.len() && #[trigger] body[i] == pos
}

/// The direction that leads from the cell `a` to the cell `b`, going by the
/// columns first; `Idle` where the two are the same cell.
pub open spec fn heading_between(a: Position, b: Position) -> Direction {
    if a.0 < b.0 {
        Direction::Right
    } else if a.0 > b.0 {
        Direction::Left
    } else if a.1 < b.1 {
        Direction::Down
    } else if a.1 > b.1 {
        Direction::Up
    } else {
        Direction::Idle
    }
}

/// The direction in which the segment `body[i]` is on its way while the
/// snake moves in direction `current`: towards the segment entered after
/// it, and for the head `current` itself. While the snake is idle so are
/// all its segments.
pub open spec fn heading_at(body: Seq<Position>, current: Direction, i: int) -> Direction {
    if i + 1 >= body.len() || current == Direction::Idle {
        current
    } else {
        heading_between(body[i], body[i + 1])
    }
}

/// The snake: its segments in the order they were entered, so the tail is
/// first and the head is last.
pub struct SnekManager {
    /// The segments, tail first.
    pub body: VecDeque<Position>,
    /// Time elapsed in the current step when last sampled, in nanoseconds;
    /// divided by the step interval it is the fraction by which a drawing
    /// may shift the segments towards their next cell.
    pub offset: u64,
    /// Clock reading at the last committed step, in nanoseconds.
    pub last_update: u64,
}

impl SnekManager {
    /// The snake at the start of a game, stamped with the clock reading `now`.
    pub fn init(now: u64) -> (r: Self)
        ensures
            r.body@ == start_body(),
            r.offset == 0,
            r.last_update == now,
    {
        let mut body = VecDeque::new();
        body.push_back(Position(2, 3));
        body.push_back(Position(3, 3));
        assert(body@ =~= start_body());
        SnekManager { body, offset: 0, last_update: now }
    }

    /// Time elapsed since the last committed step.
    pub fn since_update(&self, now: u64) -> (r: u64)
        requires
            now >= self.last_update,
        ensures
            r == now - self.last_update,
    {
        now - self.last_update
    }

    /// The head: the segment entered last.
    pub fn get_head(&self) -> (r: &Position)
        requires
            self.body@.len() > 0,
        ensures
            *r == self.body@.last(),
    {
        &self.body[self.body.len() - 1]
    }

    /// Whether `pos` is one of the segments at index `start` or later.
    pub fn covers(&self, start: usize, pos: &Position) -> (r: bool)
        ensures
            r == covers_from(self.body@, start as int, *pos),
            start == 0 ==> r == self.body@.contains(*pos),
    {
        let n: usize = self.body.len();
        let mut i: usize = start;
        while i < n
            invariant
                n == self.body@.len(),
                start <= i,
                forall|j: int| start <= j < i && j < n ==> self.body@[j] != *pos,
            decreases n - i,
        {
            let here = self.body[i];
            if here.0 == pos.0 && here.1 == pos.1 {
                return true;
            }
            i += 1;
        }
        false
    }

    /// The direction in which each segment is on its way, tail first, while
    /// the snake moves in direction `current`. A drawing shifts each
    /// segment that way by the fraction of the step that has passed.
    pub fn headings(&self, current: Direction) -> (r: Vec<Direction>)
        ensures
            r@.len() == self.body@.len(),
            forall|i: int| 0 <= i < r@.len() ==> r@[i] == heading_at(self.body@, current, i),
    {
        let n: usize = self.body.len();
        let mut out: Vec<Direction> = Vec::new();
        let mut i: usize = 0;
        while i < n
            invariant
                n == self.body@.len(),
                i <= n,
                out@.len() == i,
                forall|j: int| 0 <= j < i ==> out@[j] == heading_at(self.body@, current, j),
            decreases n - i,
        {
            let idle = match current {
                Direction::Idle => true,
                _ => false,
            };
            let heading = if i + 1 >= n || idle {
                current
            } else {
                let here = self.body[i];
                let next = self.body[i + 1];
                if here.0 < next.0 {
                    Direction::Right
                } else if here.0 > next.0 {
                    Direction::Left
                } else if here.1 < next.1 {
                    Direction::Down
                } else if here.1 > next.1 {
                    Direction::Up
                } else {
                    Direction::Idle
                }
            };
            out.push(heading);
            i += 1;
        }
        out
    }

    /// Commits one step at clock reading `now`: `pos` becomes the head and,
    /// unless the snake is growing, the tail leaves.
    pub fn update(&mut self, is_growing: bool, pos: Position, now: u64)
        ensures
            final(self).body@ == stepped(old(self).body@, is_growing, pos),
            final(self).body@.len() == old(self).body@.len() + (if is_growing { 1int } else { 0int }),
            is_growing || old(self).body@.len() > 0 ==> final(self).body@.len() > 0
                && final(self).body@.last() == pos,
            final(self).offset == 0,
            final(self).last_update == now,
    {
        self.body.push_back(pos);
        self.offset = 0;
        self.last_update = now;
        if !is_growing {
            self.body.pop_front();
        }
    }
}

} // verus!
