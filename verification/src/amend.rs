//! Applying the commands of one frame to the screen that is showing.

use crate::command::{lemma_quit_index, lemma_quit_index_finds_first, quit_index, Command};
use crate::menu::{Game, GameState};
use vstd::prelude::*;

verus! {

/// The screen after `commands` were all applied to `state` in order: `Play`
/// opens the game, every other command leaves the screen as it is.
pub open spec fn screen_after(state: GameState, commands: Seq<Command>) -> GameState {
    if commands.contains(Command::Play) {
        GameState::Playing
    } else {
        state
    }
}

/// Applies the commands of one frame in order and tells whether the program
/// is to end: a `Quit` ends it on the spot, so that the commands after it
/// are not applied.
pub fn update(game: &mut Game, commands: Vec<Command>) -> (quit: bool)
    ensures
        quit == commands@.contains(Command::Quit),
        final(game).state == screen_after(
            old(game).state,
            commands@.take(quit_index(commands@)),
        ),
{
    let n: usize = commands.len();
    let mut i: usize = 0;
    while i < n
        invariant
            n == commands@.len(),
            i <= n,
            forall|j: int| 0 <= j < i ==> commands@[j] != Command::Quit,
            game.state == screen_after(old(game).state, commands@.take(i as int)),
        decreases n - i,
    {
        let ghost before = commands@.take(i as int);
        let ghost after = commands@.take(i + 1);
        proof {
            assert(before =~= after.drop_last());
            assert(after.last() == commands@[i as int]);
            assert(after.contains(Command::Play) <==> before.contains(Command::Play)
                || commands@[i as int] == Command::Play) by {
                if before.contains(Command::Play) {
                    let k = choose|k: int| 0 <= k < before.len() && before[k] == Command::Play;
                    assert(after[k] == Command::Play);
                }
                if after.contains(Command::Play) {
                    let k = choose|k: int| 0 <= k < after.len() && after[k] == Command::Play;
                    if k < i {
                        assert(before[k] == Command::Play);
                    }
                }
                if commands@[i as int] == Command::Play {
                    assert(after[i as int] == Command::Play);
                }
            }
        }
        match commands[i] {
            Command::Quit => {
                proof {
                    lemma_quit_index(commands@, i as int);
                    lemma_quit_index_finds_first(commands@);
                }
                return true;
            },
            Command::Play => {
                game.state = GameState::Playing;
            },
            _ => {},
        }
        i += 1;
    }
    proof {
        lemma_quit_index(commands@, n as int);
        lemma_quit_index_finds_first(commands@);
        assert(commands@.take(n as int) =~= commands@);
    }
    false
}

} // verus!
