//! Turning input events into commands.

pub mod main_menu;
pub mod playing;

use crate::command::Command;
use crate::input::{Event, Keycode};
use crate::menu::{Game, GameState};
use vstd::prelude::*;

verus! {

/// `commands` with `heard` appended, if anything was heard.
pub open spec fn noted(commands: Seq<Command>, heard: Option<Command>) -> Seq<Command> {
    match heard {
        Some(command) => commands.push(command),
        None => commands,
    }
}

/// What an event means on the screen that is showing.
pub open spec fn event_command(state: GameState, event: Event) -> Option<Command> {
    match state {
        GameState::MainMenu(focused) => main_menu::event_command(event, focused),
        GameState::Playing => playing::event_command(event),
    }
}

/// Notes the command, if any, that `event` stands for on the screen that is
/// showing.
pub fn handle_event(game: &Game, commands: &mut Vec<Command>, event: Event)
    ensures
        final(commands)@ == noted(old(commands)@, event_command(game.state, event)),
{
    match &game.state {
        GameState::MainMenu(focused) => main_menu::handle_event(commands, event, focused),
        GameState::Playing => playing::handle_event(commands, event),
    }
}

/// What a released key means while the snake is steered: Escape quits, and
/// the arrow keys, `h j k l` and `w a s d` each give a direction.
pub open spec fn steering_command(keycode: Option<Keycode>) -> Option<Command> {
    match keycode {
        Some(Keycode::Escape) => Some(Command::Quit),
        Some(Keycode::Up) => Some(Command::GoUp),
        Some(Keycode::Down) => Some(Command::GoDown),
        Some(Keycode::Left) => Some(Command::GoLeft),
        Some(Keycode::Right) => Some(Command::GoRight),
        Some(Keycode::H) => Some(Command::GoLeft),
        Some(Keycode::J) => Some(Command::GoDown),
        Some(Keycode::K) => Some(Command::GoUp),
        Some(Keycode::L) => Some(Command::GoRight),
        Some(Keycode::A) => Some(Command::GoLeft),
        Some(Keycode::S) => Some(Command::GoDown),
        Some(Keycode::W) => Some(Command::GoUp),
        Some(Keycode::D) => Some(Command::GoRight),
        _ => None,
    }
}

/// What an event means while the snake is steered.
pub open spec fn steering_event_command(event: Event) -> Option<Command> {
    match event {
        Event::Quit => Some(Command::Quit),
        Event::KeyUp { keycode } => steering_command(keycode),
        Event::Other => None,
    }
}

/// Notes the command, if any, that `event` stands for while the snake is
/// steered.
pub fn listen(commands: &mut Vec<Command>, event: Event)
    ensures
        final(commands)@ == noted(old(commands)@, steering_event_command(event)),
{
    match event {
        Event::Quit => commands.push(Command::Quit),
        Event::KeyUp { keycode } => listen_on_keyrelease(commands, keycode),
        _ => (),
    }
}

/// Notes the command, if any, that a released key stands for while the
/// snake is steered.
pub fn listen_on_keyrelease(commands: &mut Vec<Command>, keycode: Option<Keycode>)
    ensures
        final(commands)@ == noted(old(commands)@, steering_command(keycode)),
{
    match keycode {
        Some(Keycode::Escape) => commands.push(Command::Quit),
        Some(Keycode::Up) => commands.push(Command::GoUp),
        Some(Keycode::Down) => commands.push(Command::GoDown),
        Some(Keycode::Left) => commands.push(Command::GoLeft),
        Some(Keycode::Right) => commands.push(Command::GoRight),
        Some(Keycode::H) => commands.push(Command::GoLeft),
        Some(Keycode::J) => commands.push(Command::GoDown),
        Some(Keycode::K) => commands.push(Command::GoUp),
        Some(Keycode::L) => commands.push(Command::GoRight),
        Some(Keycode::A) => commands.push(Command::GoLeft),
        Some(Keycode::S) => commands.push(Command::GoDown),
        Some(Keycode::W) => commands.push(Command::GoUp),
        Some(Keycode::D) => commands.push(Command::GoRight),
        _ => (),
    }
}

} // verus!
