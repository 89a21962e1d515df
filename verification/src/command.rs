//! What the player can ask for.

use crate::direction::Direction;
use vstd::prelude::*;

verus! {

/// A request gathered from the input devices during one frame.
#[derive(PartialEq, Eq, Clone, Copy, Debug, Structural)]
pub enum Command {
    Play,
    Quit,
    GoUp,
    GoLeft,
    GoRight,
    GoDown,
}

impl Command {
    /// The direction a movement command asks for; `None` for the others.
    pub open spec fn heading(self) -> Option<Direction> {
        match self {
            Command::GoUp => Some(Direction::Up),
            Command::GoLeft => Some(Direction::Left),
            Command::GoRight => Some(Direction::Right),
            Command::GoDown => Some(Direction::Down),
            Command::Play => None,
            Command::Quit => None,
        }
    }

    /// The direction a movement command asks for; `None` for the others.
    pub fn direction(&self) -> (r: Option<Direction>)
        ensures
            r == self.heading(),
    {
        match self {
            Command::GoUp => Some(Direction::Up),
            Command::GoLeft => Some(Direction::Left),
            Command::GoRight => Some(Direction::Right),
            Command::GoDown => Some(Direction::Down),
            Command::Play => None,
            Command::Quit => None,
        }
    }
}

/// How many commands come before the first `Quit`; the length of the
/// sequence if it holds none.
pub open spec fn quit_index(commands: Seq<Command>) -> int
    decreases commands.len(),
{
    if commands.len() == 0 || commands[0] == Command::Quit {
        0
    } else {
        1 + quit_index(commands.drop_first())
    }
}

/// `quit_index` is the one index with no `Quit` before it that is either the
/// end of the sequence or the place of a `Quit`.
pub proof fn lemma_quit_index(commands: Seq<Command>, i: int)
    requires
        0 <= i <= commands.len(),
        forall|j: int| 0 <= j < i ==> commands[j] != Command::Quit,
        i == commands.len() || commands[i] == Command::Quit,
    ensures
        quit_index(commands) == i,
    decreases i,
{
    if i > 0 {
        lemma_quit_index(commands.drop_first(), i - 1);
    }
}

/// A sequence of commands holds a `Quit` exactly when `quit_index` stops
/// short of its end, and then it stops at the first one.
pub proof fn lemma_quit_index_finds_first(commands: Seq<Command>)
    ensures
        0 <= quit_index(commands) <= commands.len(),
        quit_index(commands) < commands.len() <==> commands.contains(Command::Quit),
        quit_index(commands) < commands.len() ==> commands[quit_index(commands)] == Command::Quit,
        forall|j: int| 0 <= j < quit_index(commands) ==> commands[j] != Command::Quit,
    decreases commands.len(),
{
    if commands.len() > 0 && commands[0] != Command::Quit {
        let rest = commands.drop_first();
        lemma_quit_index_finds_first(rest);
        assert forall|j: int| 0 <= j < quit_index(commands) implies commands[j]
            != Command::Quit by {
            if j > 0 {
                assert(commands[j] == rest[j - 1]);
            }
        }
        if rest.contains(Command::Quit) {
            let k = choose|k: int| 0 <= k < rest.len() && rest[k] == Command::Quit;
            assert(commands[k + 1] == Command::Quit);
        }
        if commands.contains(Command::Quit) {
            let k = choose|k: int| 0 <= k < commands.len() && commands[k] == Command::Quit;
            assert(rest[k - 1] == Command::Quit);
        }
    }
}

} // verus!
