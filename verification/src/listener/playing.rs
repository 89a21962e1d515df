//! Input while the game screen is showing.

use crate::command::Command;
use crate::input::{Event, Keycode};
use crate::listener::noted;
use vstd::prelude::*;

verus! {

/// What a released key means on the game screen: Escape quits.
pub open spec fn key_command(keycode: Option<Keycode>) -> Option<Command> {
    match keycode {
        Some(Keycode::Escape) => Some(Command::Quit),
        _ => None,
    }
}

/// What an event means on the game screen.
pub open spec fn event_command(event: Event) -> Option<Command> {
    match event {
        Event::Quit => Some(Command::Quit),
        Event::KeyUp { keycode } => key_command(keycode),
        Event::Other => None,
    }
}

/// Notes the command, if any, that `event` stands for on the game screen.
pub fn handle_event(commands: &mut Vec<Command>, event: Event)
    ensures
        final(commands)@ == noted(old(commands)@, event_command(event)),
{
    match event {
        Event::Quit => commands.push(Command::Quit),
        Event::KeyUp { keycode } => on_key_up(commands, keycode),
        _ => (),
    }
}

/// Notes the command, if any, that a released key stands for on the game
/// screen.
pub fn on_key_up(commands: &mut Vec<Command>, keycode: Option<Keycode>)
    ensures
        final(commands)@ == noted(old(commands)@, key_command(keycode)),
{
    match keycode {
        Some(Keycode::Escape) => commands.push(Command::Quit),
        Some(_) => (),
        None => (),
    }
}

} // verus!
