//! The game as a whole and the update that runs once per frame.

use crate::board::distinct_cells_fit_board;
use crate::command::{lemma_quit_index, lemma_quit_index_finds_first, quit_index, Command};
use crate::direction::{advance_current, advance_pending, enqueue, Direction, DirectionManager};
use crate::food::{placed, placed_avoids_body_on_open_board, placed_within_board, FoodFactory};
use crate::position::Position;
use crate::settings::{standard, Settings};
use crate::snek::{covers_from, start_body, stepped, SnekManager};
use vstd::prelude::*;

verus! {

/// The cell the food starts on.
pub open spec fn start_food() -> Position {
    Position(10, 10)
}

/// What one call of [`update`] did.
#[derive(PartialEq, Eq, Clone, Copy, Debug, Structural)]
pub enum TickOutcome {
    /// A `Quit` command was met; the caller is to end the program.
    Quit,
    /// The snake left the board or ran into itself, and the game started over.
    Restarted,
    /// A step was due, but the snake is not moving.
    Stayed,
    /// The snake moved by one cell.
    Moved,
    /// The snake moved onto the food and grew by one segment.
    Grew,
    /// No step was due; only the drawing offset changed.
    Waiting,
}

/// The state of a game as plain mathematical values.
pub struct GameView {
    pub body: Seq<Position>,
    pub offset: u64,
    pub last_update: u64,
    pub food: Position,
    pub current: Direction,
    pub pending: Seq<Direction>,
    pub cfg: Settings,
    pub is_growing: bool,
    pub score: u16,
}

/// The state a game starts in on the board `cfg` at clock reading `now`: the
/// starting snake and food, no direction, no score.
pub open spec fn fresh(cfg: Settings, now: u64) -> GameView {
    GameView {
        body: start_body(),
        offset: 0,
        last_update: now,
        food: start_food(),
        current: Direction::Idle,
        pending: Seq::empty(),
        cfg,
        is_growing: false,
        score: 0,
    }
}

/// The pending requests after `commands` were heard in order, starting from
/// `pending`. Commands that are no movement leave the queue as it is.
pub open spec fn queued(pending: Seq<Direction>, commands: Seq<Command>) -> Seq<Direction>
    decreases commands.len(),
{
    if commands.len() == 0 {
        pending
    } else {
        let before = queued(pending, commands.drop_last());
        match commands.last().heading() {
            Some(dir) => enqueue(before, dir),
            None => before,
        }
    }
}

impl GameView {
    /// The head of the snake.
    pub open spec fn head(self) -> Position {
        self.body.last()
    }

    /// The coordinates one step ahead of the head in the current direction.
    pub open spec fn ahead(self) -> (int, int) {
        self.head().shifted(self.current.delta().0, self.current.delta().1)
    }

    /// The state a game starts over with at clock reading `now`: everything
    /// but the board is as at the start.
    pub open spec fn restarted(self, now: u64) -> GameView {
        fresh(self.cfg, now)
    }

    /// The state after the commands before the first `Quit` were heard.
    pub open spec fn listened(self, commands: Seq<Command>) -> GameView {
        GameView {
            pending: queued(self.pending, commands.take(quit_index(commands))),
            ..self
        }
    }

    /// The state with the oldest pending direction applied.
    pub open spec fn turned(self) -> GameView {
        GameView {
            current: advance_current(self.current, self.pending),
            pending: advance_pending(self.pending),
            ..self
        }
    }

    /// One simulation step at clock reading `now`, where `drawn` is the cell
    /// drawn for the food in case the snake eats.
    pub open spec fn stepped(self, now: u64, drawn: Position) -> (GameView, TickOutcome) {
        let (x, y) = self.ahead();
        let target = Position(x as i16, y as i16);
        if !self.cfg.holds(x, y) {
            (self.restarted(now), TickOutcome::Restarted)
        } else if now - self.last_update >= self.cfg.speed {
            if target == self.head() {
                (self.turned(), TickOutcome::Stayed)
            } else if covers_from(self.body, 1, target) {
                (self.restarted(now), TickOutcome::Restarted)
            } else if target == self.food {
                (
                    GameView {
                        body: stepped(self.body, true, target),
                        offset: 0,
                        last_update: now,
                        food: placed(drawn, self.body, self.cfg),
                        is_growing: true,
                        score: (self.score + 1) as u16,
                        ..self.turned()
                    },
                    TickOutcome::Grew,
                )
            } else {
                (
                    GameView {
                        body: stepped(self.body, false, target),
                        offset: 0,
                        last_update: now,
                        is_growing: false,
                        ..self.turned()
                    },
                    TickOutcome::Moved,
                )
            }
        } else {
            (GameView { offset: (now - self.last_update) as u64, ..self }, TickOutcome::Waiting)
        }
    }

    /// One frame: the commands are heard, and unless one of them is `Quit`,
    /// one simulation step follows.
    pub open spec fn ticked(self, commands: Seq<Command>, now: u64, drawn: Position) -> (
        GameView,
        TickOutcome,
    ) {
        if quit_index(commands) < commands.len() {
            (self.listened(commands), TickOutcome::Quit)
        } else {
            self.listened(commands).stepped(now, drawn)
        }
    }

    /// The states a game can be in: a usable board that holds the starting
    /// layout, a snake of at least two segments that lies on the board and
    /// crosses itself at most at its tail, food on the board, a drawing
    /// offset short of a whole step, and a score that counts the segments
    /// gained.
    pub open spec fn wf(self) -> bool {
        &&& self.cfg.wf()
        &&& self.cfg.holds_start()
        &&& self.body.len() >= 2
        &&& forall|i: int|
            0 <= i < self.body.len() ==> (#[trigger] self.body[i]).within(
                self.cfg.columns as int,
                self.cfg.rows as int,
            )
        &&& forall|i: int, j: int|
            1 <= i < j < self.body.len() ==> self.body[i] != self.body[j]
        &&& self.food.within(self.cfg.columns as int, self.cfg.rows as int)
        &&& self.pending.len() <= 2
        &&& self.offset < self.cfg.speed
        &&& self.score + 2 == self.body.len()
    }
}

/// A new game on the standard board, stamped with the clock reading `now`.
pub fn init(now: u64) -> (r: Game)
    ensures
        r@ == fresh(standard(), now),
        r.wf(),
{
    Game::init(now)
}

/// The whole game: snake, food, direction buffer, board and score.
pub struct Game {
    pub snek: SnekManager,
    pub food: FoodFactory,
    pub dir_mgr: DirectionManager,
    pub cfg: Settings,
    /// Whether the last committed step made the snake grow.
    pub is_growing: bool,
    /// The number of times the snake has eaten.
    pub score: u16,
}

impl View for Game {
    type V = GameView;

    open spec fn view(&self) -> GameView {
        GameView {
            body: self.snek.body@,
            offset: self.snek.offset,
            last_update: self.snek.last_update,
            food: self.food.position,
            current: self.dir_mgr.active(),
            pending: self.dir_mgr.pending(),
            cfg: self.cfg,
            is_growing: self.is_growing,
            score: self.score,
        }
    }
}

impl Game {
    /// Whether the game is in one of the states it can be in.
    pub open spec fn wf(&self) -> bool {
        self@.wf()
    }

    /// Tells whether the game is in one of the states it can be in. A caller
    /// that has written to the fields can ask before it goes on.
    pub fn is_valid(&self) -> (r: bool)
        ensures
            r == self.wf(),
    {
        let cfg = &self.cfg;
        let n: usize = self.snek.body.len();
        if !cfg.is_valid() || cfg.columns <= 10 || cfg.rows <= 10 {
            return false;
        }
        if n < 2 || self.score as usize + 2 != n {
            return false;
        }
        if self.is_position_outside(&self.food.position) || self.snek.offset >= cfg.speed {
            return false;
        }
        if self.dir_mgr.pending_len() > 2 {
            return false;
        }
        let mut i: usize = 0;
        while i < n
            invariant
                n == self.snek.body@.len(),
                i <= n,
                forall|k: int|
                    0 <= k < i ==> (#[trigger] self.snek.body@[k]).within(
                        self.cfg.columns as int,
                        self.cfg.rows as int,
                    ),
                forall|k: int, j: int|
                    1 <= k < j < n && k < i ==> self.snek.body@[k] != self.snek.body@[j],
            decreases n - i,
        {
            let here = self.snek.body[i];
            if self.is_position_outside(&here) {
                return false;
            }
            if i >= 1 && self.snek.covers(i + 1, &here) {
                return false;
            }
            i += 1;
        }
        true
    }

    /// A new game on the standard board, stamped with the clock reading
    /// `now`.
    pub fn init(now: u64) -> (r: Self)
        ensures
            r@ == fresh(standard(), now),
            r.wf(),
    {
        Game {
            snek: SnekManager::init(now),
            food: FoodFactory::init(),
            dir_mgr: DirectionManager::init(),
            cfg: Settings::init(),
            is_growing: false,
            score: 0,
        }
    }

    /// Starts the game over at clock reading `now`, keeping the board.
    pub fn restart(&mut self, now: u64)
        ensures
            final(self)@ == old(self)@.restarted(now),
            old(self).cfg.wf() && old(self).cfg.holds_start() ==> final(self).wf(),
    {
        self.snek = SnekManager::init(now);
        self.food = FoodFactory::init();
        self.dir_mgr = DirectionManager::init();
        self.is_growing = false;
        self.score = 0;
    }

    /// The cell one step ahead of the head in the current direction; the
    /// head itself while idle.
    pub fn peek(&self) -> (r: Position)
        requires
            self@.body.len() > 0,
            i16::MIN <= self@.ahead().0 <= i16::MAX,
            i16::MIN <= self@.ahead().1 <= i16::MAX,
        ensures
            (r.0 as int, r.1 as int) == self@.ahead(),
    {
        let head = self.snek.get_head();
        match self.dir_mgr.current() {
            Direction::Left => Position(head.0 - 1, head.1),
            Direction::Right => Position(head.0 + 1, head.1),
            Direction::Down => Position(head.0, head.1 + 1),
            Direction::Up => Position(head.0, head.1 - 1),
            Direction::Idle => Position(head.0, head.1),
        }
    }

    /// Whether `pos` lies beyond the edges of the board.
    pub fn is_position_outside(&self, pos: &Position) -> (r: bool)
        ensures
            r == !pos.within(self.cfg.columns as int, self.cfg.rows as int),
    {
        pos.0 < 0 || pos.0 as i32 >= self.cfg.columns as i32 || pos.1 < 0 || pos.1 as i32
            >= self.cfg.rows as i32
    }

    /// Whether `pos` is a segment of the snake other than the tail, which
    /// gives way when the snake moves.
    pub fn is_position_onbody(&self, pos: &Position) -> (r: bool)
        ensures
            r == covers_from(self@.body, 1, *pos),
    {
        self.snek.covers(1, pos)
    }

    /// Whether the food lies on `pos`.
    pub fn is_position_onfood(&self, pos: &Position) -> (r: bool)
        ensures
            r == (self@.food == *pos),
    {
        self.food.position.0 == pos.0 && self.food.position.1 == pos.1
    }

    /// Whether a step is due at clock reading `now`.
    pub fn is_snek_updating(&self, now: u64) -> (r: bool)
        requires
            now >= self@.last_update,
        ensures
            r == (now - self@.last_update >= self.cfg.speed),
    {
        self.snek.since_update(now) >= self.cfg.speed
    }

    /// Samples the time elapsed in the current step for the drawing.
    pub fn update_offset(&mut self, now: u64)
        requires
            now >= old(self)@.last_update,
        ensures
            final(self)@ == (GameView {
                offset: (now - old(self)@.last_update) as u64,
                ..old(self)@
            }),
    {
        self.snek.offset = self.snek.since_update(now);
    }
}

/// Runs one frame at clock reading `now`: hears the commands gathered since
/// the last frame, then starts the game over if the snake is about to leave
/// the board, commits a step if one is due, and otherwise only samples the
/// drawing offset. The commands after a `Quit` are not heard and no step
/// follows one.
pub fn update(game: &mut Game, commands: Vec<Command>, now: u64) -> (outcome: TickOutcome)
    requires
        old(game).wf(),
        now >= old(game)@.last_update,
    ensures
        final(game).wf(),
        outcome == TickOutcome::Quit <==> commands@.contains(Command::Quit),
        exists|drawn: Position|
            drawn.within(old(game).cfg.columns as int, old(game).cfg.rows as int) && #[trigger] old(
                game,
            )@.ticked(commands@, now, drawn) == (final(game)@, outcome),
{
    let ghost start = game@;
    let ghost nowhere = Position(0, 0);
    proof {
        lemma_quit_index_finds_first(commands@);
    }
    let n: usize = commands.len();
    let mut i: usize = 0;
    while i < n
        invariant
            n == commands@.len(),
            i <= n,
            start == old(game)@,
            start.wf(),
            nowhere == Position(0, 0),
            forall|j: int| 0 <= j < i ==> commands@[j] != Command::Quit,
            game@ == (GameView { pending: queued(start.pending, commands@.take(i as int)), ..start }),
        decreases n - i,
    {
        let cmd = commands[i];
        proof {
            assert(commands@.take(i + 1).drop_last() =~= commands@.take(i as int));
            assert(commands@.take(i + 1).last() == cmd);
        }
        match cmd {
            Command::Quit => {
                proof {
                    lemma_quit_index(commands@, i as int);
                    lemma_queued_bounded(start.pending, commands@.take(i as int));
                    assert(start.ticked(commands@, now, nowhere) == (game@, TickOutcome::Quit));
                }
                return TickOutcome::Quit;
            },
            _ => {},
        }
        match cmd.direction() {
            Some(dir) => {
                game.dir_mgr.go(dir);
            },
            None => {},
        }
        i += 1;
    }
    proof {
        lemma_quit_index(commands@, n as int);
        assert(commands@.take(n as int) =~= commands@);
    }
    let ghost heard = game@;
    assert(heard == start.listened(commands@));
    assert(heard.wf()) by {
        lemma_queued_bounded(start.pending, commands@);
    }

    let target = game.peek();
    if game.is_position_outside(&target) {
        game.restart(now);
        proof {
            assert(start.ticked(commands@, now, nowhere) == (game@, TickOutcome::Restarted));
        }
        return TickOutcome::Restarted;
    }
    if game.is_snek_updating(now) {
        let head = *game.snek.get_head();
        game.dir_mgr.update();
        if head.0 == target.0 && head.1 == target.1 {
            proof {
                assert(start.ticked(commands@, now, nowhere) == (game@, TickOutcome::Stayed));
            }
            return TickOutcome::Stayed;
        }
        if game.is_position_onbody(&target) {
            game.restart(now);
            proof {
                assert(start.ticked(commands@, now, nowhere) == (game@, TickOutcome::Restarted));
            }
            return TickOutcome::Restarted;
        }
        game.is_growing = game.is_position_onfood(&target);
        if game.is_growing {
            proof {
                lemma_room_to_grow(heard, target);
            }
            game.score += 1;
            game.food.relocate(&game.snek, &game.cfg);
            game.snek.update(true, target, now);
            proof {
                let drawn = choose|drawn: Position|
                    drawn.within(heard.cfg.columns as int, heard.cfg.rows as int) && game@.food
                        == #[trigger] placed(drawn, heard.body, heard.cfg);
                assert(start.ticked(commands@, now, drawn) == (game@, TickOutcome::Grew));
                lemma_step_keeps_wf(heard, true, target, game@);
            }
            TickOutcome::Grew
        } else {
            game.snek.update(false, target, now);
            proof {
                assert(start.ticked(commands@, now, nowhere) == (game@, TickOutcome::Moved));
                lemma_step_keeps_wf(heard, false, target, game@);
            }
            TickOutcome::Moved
        }
    } else {
        game.update_offset(now);
        proof {
            assert(start.ticked(commands@, now, nowhere) == (game@, TickOutcome::Waiting));
        }
        TickOutcome::Waiting
    }
}

/// Hearing commands never leaves more than two requests pending.
pub proof fn lemma_queued_bounded(pending: Seq<Direction>, commands: Seq<Command>)
    requires
        pending.len() <= 2,
    ensures
        queued(pending, commands).len() <= 2,
    decreases commands.len(),
{
    if commands.len() > 0 {
        lemma_queued_bounded(pending, commands.drop_last());
    }
}

/// Every frame takes a game from one of the states it can be in to another:
/// the snake keeps at least two segments, it and the food stay on the
/// board, the drawing offset stays short of a whole step, and the score
/// keeps counting the segments gained.
pub proof fn tick_keeps_game_valid(
    s: GameView,
    commands: Seq<Command>,
    now: u64,
    drawn: Position,
)
    requires
        s.wf(),
        now >= s.last_update,
        drawn.within(s.cfg.columns as int, s.cfg.rows as int),
    ensures
        s.ticked(commands, now, drawn).0.wf(),
{
    lemma_quit_index_finds_first(commands);
    lemma_queued_bounded(s.pending, commands.take(quit_index(commands)));
    let heard = s.listened(commands);
    assert(heard.wf());
    if quit_index(commands) >= commands.len() {
        let (x, y) = heard.ahead();
        let target = Position(x as i16, y as i16);
        let (t, outcome) = heard.stepped(now, drawn);
        if outcome == TickOutcome::Grew {
            lemma_room_to_grow(heard, target);
            placed_within_board(drawn, heard.body, heard.cfg);
            lemma_step_keeps_wf(heard, true, target, t);
        } else if outcome == TickOutcome::Moved {
            lemma_step_keeps_wf(heard, false, target, t);
        }
    }
}

/// The snake's length and the score change together and only by eating:
/// a frame in which the snake grew adds one segment and one point, a
/// restart brings back the starting snake and a score of zero, and every
/// other frame leaves length and score as they were.
pub proof fn tick_grows_only_by_eating(
    s: GameView,
    commands: Seq<Command>,
    now: u64,
    drawn: Position,
)
    requires
        s.wf(),
        now >= s.last_update,
    ensures
        ({
            let (t, outcome) = s.ticked(commands, now, drawn);
            match outcome {
                TickOutcome::Grew => t.body.len() == s.body.len() + 1 && t.score == s.score + 1
                    && t.is_growing,
                TickOutcome::Moved => t.body.len() == s.body.len() && t.score == s.score
                    && !t.is_growing,
                TickOutcome::Restarted => t.body == start_body() && t.score == 0 && !t.is_growing,
                _ => t.body == s.body && t.score == s.score && t.is_growing == s.is_growing,
            }
        }),
{
    lemma_quit_index_finds_first(commands);
    lemma_queued_bounded(s.pending, commands.take(quit_index(commands)));
    let heard = s.listened(commands);
    if quit_index(commands) >= commands.len() {
        let (x, y) = heard.ahead();
        let target = Position(x as i16, y as i16);
        if heard.stepped(now, drawn).1 == TickOutcome::Grew {
            lemma_room_to_grow(heard, target);
        }
    }
}

/// No frame turns the snake straight back: the direction that applies after
/// a frame is never the reverse of the one that applied before it.
pub proof fn tick_never_reverses(s: GameView, commands: Seq<Command>, now: u64, drawn: Position)
    ensures
        !s.ticked(commands, now, drawn).0.current.reverses(s.current),
{
}

/// After a frame in which the snake moved or grew, its head is the cell
/// that lay one step ahead in the direction that applied before the frame.
pub proof fn tick_moves_head_ahead(
    s: GameView,
    commands: Seq<Command>,
    now: u64,
    drawn: Position,
)
    requires
        s.wf(),
        now >= s.last_update,
    ensures
        ({
            let (t, outcome) = s.ticked(commands, now, drawn);
            outcome == TickOutcome::Grew || outcome == TickOutcome::Moved ==> (
                t.head().0 as int,
                t.head().1 as int,
            ) == s.ahead() && t.head() != s.head()
        }),
{
}

/// When the snake eats food that lay off a body free of crossings, the food
/// moves to a cell off the snake as it lay before the step; the cell just
/// eaten from, where the head now is, is one of those. Without eating, the
/// food stays where it is unless the game starts over.
pub proof fn tick_moves_food_off_the_snake(
    s: GameView,
    commands: Seq<Command>,
    now: u64,
    drawn: Position,
)
    requires
        s.wf(),
        now >= s.last_update,
        drawn.within(s.cfg.columns as int, s.cfg.rows as int),
        s.body.no_duplicates(),
        !s.body.contains(s.food),
    ensures
        ({
            let (t, outcome) = s.ticked(commands, now, drawn);
            match outcome {
                TickOutcome::Grew => !s.body.contains(t.food),
                TickOutcome::Restarted => t.food == start_food(),
                _ => t.food == s.food,
            }
        }),
{
    let (t, outcome) = s.ticked(commands, now, drawn);
    if outcome == TickOutcome::Grew {
        let grown = s.body.push(s.food);
        assert forall|i: int| 0 <= i < grown.len() implies (#[trigger] grown[i]).within(
            s.cfg.columns as int,
            s.cfg.rows as int,
        ) by {
            if i < s.body.len() {
                assert(grown[i] == s.body[i]);
            }
        }
        assert(grown.no_duplicates()) by {
            assert forall|i: int, j: int|
                0 <= i < grown.len() && 0 <= j < grown.len() && i != j implies grown[i]
                != grown[j] by {
                if i < s.body.len() {
                    assert(grown[i] == s.body[i]);
                }
                if j < s.body.len() {
                    assert(grown[j] == s.body[j]);
                }
            }
        }
        distinct_cells_fit_board(grown, s.cfg);
        assert(s.body[0].within(s.cfg.columns as int, s.cfg.rows as int));
        placed_avoids_body_on_open_board(drawn, s.body, s.cfg, s.food);
    }
}

/// The body without its tail, and with `target` as its new head.
spec fn trunk_with(s: GameView, target: Position) -> Seq<Position> {
    s.body.subrange(1, s.body.len() as int).push(target)
}

/// A snake that can step onto a cell of the board is no longer than the
/// board has cells, so its score can go up by one.
proof fn lemma_room_to_grow(s: GameView, target: Position)
    requires
        s.wf(),
        target.within(s.cfg.columns as int, s.cfg.rows as int),
        !covers_from(s.body, 1, target),
    ensures
        s.body.len() <= s.cfg.cells(),
        s.score + 1 <= u16::MAX,
{
    let cells = trunk_with(s, target);
    assert forall|i: int, j: int|
        0 <= i < cells.len() && 0 <= j < cells.len() && i != j implies cells[i] != cells[j] by {
        if i < cells.len() - 1 {
            assert(cells[i] == s.body[i + 1]);
        }
        if j < cells.len() - 1 {
            assert(cells[j] == s.body[j + 1]);
        }
    }
    assert forall|i: int| 0 <= i < cells.len() implies cells[i].within(
        s.cfg.columns as int,
        s.cfg.rows as int,
    ) by {
        if i < cells.len() - 1 {
            assert(cells[i] == s.body[i + 1]);
        }
    }
    distinct_cells_fit_board(cells, s.cfg);
}

/// A committed step onto a cell of the board that the snake does not cover
/// leaves the game in one of the states it can be in.
proof fn lemma_step_keeps_wf(s: GameView, is_growing: bool, target: Position, t: GameView)
    requires
        s.wf(),
        target.within(s.cfg.columns as int, s.cfg.rows as int),
        !covers_from(s.body, 1, target),
        t.body == stepped(s.body, is_growing, target),
        t.cfg == s.cfg,
        t.food.within(s.cfg.columns as int, s.cfg.rows as int),
        t.pending.len() <= 2,
        t.offset < t.cfg.speed,
        t.score + 2 == t.body.len(),
    ensures
        t.wf(),
{
    assert forall|i: int| 0 <= i < t.body.len() implies (#[trigger] t.body[i]).within(
        t.cfg.columns as int,
        t.cfg.rows as int,
    ) by {
        if is_growing {
            if i < s.body.len() {
                assert(t.body[i] == s.body[i]);
            }
        } else {
            if i < s.body.len() - 1 {
                assert(t.body[i] == s.body[i + 1]);
            }
        }
    }
    assert forall|i: int, j: int| 1 <= i < j < t.body.len() implies t.body[i] != t.body[j] by {
        if is_growing {
            assert(t.body[i] == s.body[i]);
            if j < s.body.len() {
                assert(t.body[j] == s.body[j]);
            }
        } else {
            assert(t.body[i] == s.body[i + 1]);
            if j < s.body.len() - 1 {
                assert(t.body[j] == s.body[j + 1]);
            }
        }
    }
}

} // verus!
