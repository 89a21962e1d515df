//! The screens the program moves between.

use vstd::prelude::*;

verus! {

/// A button of the main menu.
#[derive(PartialEq, Eq, Clone, Copy, Debug, Structural)]
pub enum MainMenuButton {
    Play,
    Quit,
}

/// The screen that is showing: the main menu with one button in focus, or
/// the game itself.
#[derive(PartialEq, Eq, Clone, Copy, Debug, Structural)]
pub enum GameState {
    MainMenu(MainMenuButton),
    Playing,
}

impl Default for MainMenuButton {
    /// The button in focus when the menu opens.
    fn default() -> (r: Self)
        ensures
            r == MainMenuButton::Play,
    {
        MainMenuButton::Play
    }
}

impl Default for GameState {
    /// The screen the program opens with.
    fn default() -> (r: Self)
        ensures
            r == GameState::MainMenu(MainMenuButton::Play),
    {
        GameState::MainMenu(MainMenuButton::Play)
    }
}

/// The program as a whole: which screen is showing.
pub struct Game {
    pub state: GameState,
}

impl Default for Game {
    /// The program as it opens, on the main menu.
    fn default() -> (r: Self)
        ensures
            r.state == GameState::MainMenu(MainMenuButton::Play),
    {
        Game { state: GameState::MainMenu(MainMenuButton::Play) }
    }
}

impl Game {
    /// The program as it opens, on the main menu.
    pub fn init() -> (r: Self)
        ensures
            r.state == GameState::MainMenu(MainMenuButton::Play),
    {
        Game { state: GameState::MainMenu(MainMenuButton::Play) }
    }
}

} // verus!
