//! Movement directions and the buffer that arbitrates between requests.

use std::collections::VecDeque;
use vstd::prelude::*;

verus! {

/// A direction of movement. `Idle` is the state before the first input and
/// stands for "no movement".
#[derive(PartialEq, Eq, Copy, Clone, Debug, Structural)]
pub enum Direction {
    Left,
    Right,
    Down,
    Up,
    Idle,
}

impl Direction {
    /// Whether `self` and `other` point opposite ways along one axis.
    pub open spec fn reverses(self, other: Direction) -> bool {
        match (self, other) {
            (Direction::Up, Direction::Down) => true,
            (Direction::Down, Direction::Up) => true,
            (Direction::Left, Direction::Right) => true,
            (Direction::Right, Direction::Left) => true,
            _ => false,
        }
    }

    /// The unit step of this direction as `(dx, dy)`; rows grow downwards.
    pub open spec fn delta(self) -> (int, int) {
        match self {
            Direction::Left => (-1, 0),
            Direction::Right => (1, 0),
            Direction::Down => (0, 1),
            Direction::Up => (0, -1),
            Direction::Idle => (0, 0),
        }
    }
}

/// The direction in force after `requested` is taken from the queue while
/// `current` applies: a direct reversal is dropped, anything else wins.
pub open spec fn resolve(current: Direction, requested: Direction) -> Direction {
    if requested.reverses(current) {
        current
    } else {
        requested
    }
}

/// The pending requests after `dir` arrives: the oldest one makes room when
/// two are already waiting.
pub open spec fn enqueue(pending: Seq<Direction>, dir: Direction) -> Seq<Direction> {
    if pending.len() >= 2 {
        pending.subrange(1, pending.len() as int).push(dir)
    } else {
        pending.push(dir)
    }
}

/// The direction in force after one committed step.
pub open spec fn advance_current(current: Direction, pending: Seq<Direction>) -> Direction {
    if pending.len() > 0 {
        resolve(current, pending[0])
    } else {
        current
    }
}

/// The pending requests after one committed step.
pub open spec fn advance_pending(pending: Seq<Direction>) -> Seq<Direction> {
    if pending.len() > 0 {
        pending.subrange(1, pending.len() as int)
    } else {
        pending
    }
}

/// Taking a request from the queue never turns the snake straight back.
pub proof fn resolve_never_reverses(current: Direction, requested: Direction)
    ensures
        !resolve(current, requested).reverses(current),
        resolve(current, requested) == requested || resolve(current, requested) == current,
{
}

/// A queue of at most two requests holds at most two after one more
/// arrives, the newest last.
pub proof fn enqueue_keeps_two(pending: Seq<Direction>, dir: Direction)
    requires
        pending.len() <= 2,
    ensures
        1 <= enqueue(pending, dir).len() <= 2,
        enqueue(pending, dir).last() == dir,
{
}

/// The active direction together with at most two requests that have not
/// been applied yet, oldest first.
pub struct DirectionManager {
    current: Direction,
    queue: VecDeque<Direction>,
}

impl DirectionManager {
    #[verifier::type_invariant]
    spec fn bounded(self) -> bool {
        self.queue@.len() <= 2
    }

    /// The direction being applied.
    pub closed spec fn active(self) -> Direction {
        self.current
    }

    /// The requests not applied yet, oldest first.
    pub closed spec fn pending(self) -> Seq<Direction> {
        self.queue@
    }

    /// Moves the queue out, leaving an empty one behind, so that it can be
    /// worked on as a local value.
    fn take_queue(&mut self) -> (queue: VecDeque<Direction>)
        ensures
            queue@ == old(self).queue@,
            final(self).queue@ == Seq::<Direction>::empty(),
            final(self).current == old(self).current,
    {
        let mut queue = VecDeque::new();
        std::mem::swap(&mut self.queue, &mut queue);
        queue
    }

    /// An idle manager with nothing pending.
    pub fn init() -> (r: Self)
        ensures
            r.active() == Direction::Idle,
            r.pending() == Seq::<Direction>::empty(),
    {
        DirectionManager { current: Direction::Idle, queue: VecDeque::new() }
    }

    /// The direction being applied.
    pub fn current(&self) -> (r: &Direction)
        ensures
            *r == self.active(),
    {
        &self.current
    }

    /// Records a requested direction, keeping only the two most recent
    /// requests that have not been applied.
    pub fn go(&mut self, dir: Direction)
        ensures
            final(self).active() == old(self).active(),
            final(self).pending() == enqueue(old(self).pending(), dir),
            final(self).pending().len() <= 2,
    {
        proof {
            use_type_invariant(&*self);
        }
        let mut queue = self.take_queue();
        if queue.len() == 2 {
            queue.pop_front();
        }
        queue.push_back(dir);
        self.queue = queue;
    }

    /// Applies the oldest pending request, unless it would turn the snake
    /// straight back on itself; runs once per committed step.
    pub fn update(&mut self)
        ensures
            final(self).active() == advance_current(old(self).active(), old(self).pending()),
            final(self).pending() == advance_pending(old(self).pending()),
            !final(self).active().reverses(old(self).active()),
    {
        proof {
            use_type_invariant(&*self);
        }
        let mut queue = self.take_queue();
        let oldest = queue.pop_front();
        self.queue = queue;
        match oldest {
            Some(requested) => {
                let turned_back = match (self.current, requested) {
                    (Direction::Up, Direction::Down) => true,
                    (Direction::Down, Direction::Up) => true,
                    (Direction::Right, Direction::Left) => true,
                    (Direction::Left, Direction::Right) => true,
                    _ => false,
                };
                if !turned_back {
                    self.current = requested;
                }
            },
            None => {},
        }
    }

    /// The requests not applied yet, oldest first.
    pub fn requests(&self) -> (r: Vec<Direction>)
        ensures
            r@ == self.pending(),
    {
        let n: usize = self.queue.len();
        let mut out: Vec<Direction> = Vec::new();
        let mut i: usize = 0;
        while i < n
            invariant
                n == self.queue@.len(),
                i <= n,
                out@ == self.queue@.take(i as int),
            decreases n - i,
        {
            out.push(self.queue[i]);
            assert(self.queue@.take(i + 1) =~= self.queue@.take(i as int).push(self.queue@[i as int]));
            i += 1;
        }
        assert(self.queue@.take(n as int) =~= self.queue@);
        out
    }

    /// How many requests are waiting.
    pub fn pending_len(&self) -> (r: usize)
        ensures
            r == self.pending().len(),
            r <= 2,
    {
        proof {
            use_type_invariant(self);
        }
        self.queue.len()
    }
}

} // verus!
