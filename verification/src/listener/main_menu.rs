//! Input while the main menu is showing.

use crate::command::Command;
use crate::input::{Event, Keycode};
use crate::listener::noted;
use crate::menu::MainMenuButton;
use vstd::prelude::*;

verus! {

/// What pressing the button in focus asks for.
pub open spec fn button_command(focused: MainMenuButton) -> Command {
    match focused {
        MainMenuButton::Play => Command::Play,
        MainMenuButton::Quit => Command::Quit,
    }
}

/// What a released key means on the menu: Escape quits and Return presses
/// the button in focus.
pub open spec fn key_command(keycode: Option<Keycode>, focused: MainMenuButton) -> Option<
    Command,
> {
    match keycode {
        Some(Keycode::Escape) => Some(Command::Quit),
        Some(Keycode::Return) => Some(button_command(focused)),
        _ => None,
    }
}

/// What an event means on the menu.
pub open spec fn event_command(event: Event, focused: MainMenuButton) -> Option<Command> {
    match event {
        Event::Quit => Some(Command::Quit),
        Event::KeyUp { keycode } => key_command(keycode, focused),
        Event::Other => None,
    }
}

/// Notes the command, if any, that `event` stands for on the menu.
pub fn handle_event(commands: &mut Vec<Command>, event: Event, focused: &MainMenuButton)
    ensures
        final(commands)@ == noted(old(commands)@, event_command(event, *focused)),
{
    match event {
        Event::Quit => commands.push(Command::Quit),
        Event::KeyUp { keycode } => on_key_up(commands, keycode, focused),
        _ => (),
    }
}

/// Notes the command, if any, that a released key stands for on the menu.
pub fn on_key_up(commands: &mut Vec<Command>, keycode: Option<Keycode>, focused: &MainMenuButton)
    ensures
        final(commands)@ == noted(old(commands)@, key_command(keycode, *focused)),
{
    match keycode {
        Some(Keycode::Escape) => commands.push(Command::Quit),
        Some(Keycode::Return) => on_enter(commands, focused),
        _ => (),
    }
}

/// Notes the command of the button in focus.
pub fn on_enter(commands: &mut Vec<Command>, focused: &MainMenuButton)
    ensures
        final(commands)@ == old(commands)@.push(button_command(*focused)),
{
    match focused {
        MainMenuButton::Play => commands.push(Command::Play),
        MainMenuButton::Quit => commands.push(Command::Quit),
    }
}

} // verus!
