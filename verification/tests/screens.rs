use snek::amend;
use snek::command::Command;
use snek::input::{Event, Keycode};
use snek::listener;
use snek::listener::{main_menu, playing};
use snek::menu::{Game, GameState, MainMenuButton};

fn key(keycode: Keycode) -> Event {
    Event::KeyUp { keycode: Some(keycode) }
}

#[test]
fn program_opens_on_the_menu() {
    assert_eq!(MainMenuButton::default(), MainMenuButton::Play);
    assert_eq!(GameState::default(), GameState::MainMenu(MainMenuButton::Play));
    assert_eq!(Game::default().state, GameState::MainMenu(MainMenuButton::Play));
    assert_eq!(Game::init().state, GameState::MainMenu(MainMenuButton::Play));
}

#[test]
fn play_opens_the_game() {
    let mut game = Game::init();
    assert!(!amend::update(&mut game, vec![Command::Play]));
    assert_eq!(game.state, GameState::Playing);
}

#[test]
fn no_command_changes_nothing() {
    let mut game = Game { state: GameState::MainMenu(MainMenuButton::Quit) };
    assert!(!amend::update(&mut game, vec![]));
    assert_eq!(game.state, GameState::MainMenu(MainMenuButton::Quit));
    assert!(!amend::update(&mut game, vec![Command::GoUp, Command::GoLeft]));
    assert_eq!(game.state, GameState::MainMenu(MainMenuButton::Quit));
}

#[test]
fn quit_ends_the_frame_at_once() {
    let mut game = Game::init();
    assert!(amend::update(&mut game, vec![Command::Quit, Command::Play]));
    assert_eq!(game.state, GameState::MainMenu(MainMenuButton::Play));
    let mut game = Game::init();
    assert!(amend::update(&mut game, vec![Command::Play, Command::Quit]));
    assert_eq!(game.state, GameState::Playing);
}

#[test]
fn enter_presses_the_focused_button() {
    let mut commands = vec![Command::GoUp];
    main_menu::on_enter(&mut commands, &MainMenuButton::Play);
    main_menu::on_enter(&mut commands, &MainMenuButton::Quit);
    assert_eq!(commands, vec![Command::GoUp, Command::Play, Command::Quit]);
}

#[test]
fn menu_keys() {
    let mut commands = vec![];
    main_menu::on_key_up(&mut commands, Some(Keycode::Escape), &MainMenuButton::Play);
    main_menu::on_key_up(&mut commands, Some(Keycode::Return), &MainMenuButton::Play);
    main_menu::on_key_up(&mut commands, Some(Keycode::Return), &MainMenuButton::Quit);
    main_menu::on_key_up(&mut commands, Some(Keycode::Up), &MainMenuButton::Play);
    main_menu::on_key_up(&mut commands, Some(Keycode::Other), &MainMenuButton::Play);
    main_menu::on_key_up(&mut commands, None, &MainMenuButton::Play);
    assert_eq!(commands, vec![Command::Quit, Command::Play, Command::Quit]);
}

#[test]
fn menu_events() {
    let mut commands = vec![];
    main_menu::handle_event(&mut commands, Event::Other, &MainMenuButton::Play);
    main_menu::handle_event(&mut commands, Event::Quit, &MainMenuButton::Play);
    main_menu::handle_event(&mut commands, key(Keycode::Return), &MainMenuButton::Play);
    main_menu::handle_event(&mut commands, key(Keycode::W), &MainMenuButton::Play);
    assert_eq!(commands, vec![Command::Quit, Command::Play]);
}

#[test]
fn game_screen_keys_and_events() {
    let mut commands = vec![];
    playing::on_key_up(&mut commands, Some(Keycode::Return));
    playing::on_key_up(&mut commands, None);
    playing::on_key_up(&mut commands, Some(Keycode::Escape));
    playing::handle_event(&mut commands, Event::Other);
    playing::handle_event(&mut commands, key(Keycode::Up));
    playing::handle_event(&mut commands, key(Keycode::Escape));
    playing::handle_event(&mut commands, Event::Quit);
    assert_eq!(commands, vec![Command::Quit, Command::Quit, Command::Quit]);
}

#[test]
fn events_go_to_the_screen_that_is_showing() {
    let menu = Game::init();
    let playing = Game { state: GameState::Playing };
    let quit_focused = Game { state: GameState::MainMenu(MainMenuButton::Quit) };
    let mut commands = vec![];
    listener::handle_event(&menu, &mut commands, key(Keycode::Return));
    listener::handle_event(&playing, &mut commands, key(Keycode::Return));
    listener::handle_event(&quit_focused, &mut commands, key(Keycode::Return));
    listener::handle_event(&playing, &mut commands, Event::Quit);
    assert_eq!(commands, vec![Command::Play, Command::Quit, Command::Quit]);
}

#[test]
fn steering_keys() {
    let cases = [
        (Keycode::Escape, Some(Command::Quit)),
        (Keycode::Up, Some(Command::GoUp)),
        (Keycode::Down, Some(Command::GoDown)),
        (Keycode::Left, Some(Command::GoLeft)),
        (Keycode::Right, Some(Command::GoRight)),
        (Keycode::H, Some(Command::GoLeft)),
        (Keycode::J, Some(Command::GoDown)),
        (Keycode::K, Some(Command::GoUp)),
        (Keycode::L, Some(Command::GoRight)),
        (Keycode::A, Some(Command::GoLeft)),
        (Keycode::S, Some(Command::GoDown)),
        (Keycode::W, Some(Command::GoUp)),
        (Keycode::D, Some(Command::GoRight)),
        (Keycode::Return, None),
        (Keycode::Other, None),
    ];
    for (keycode, expected) in cases {
        let mut commands = vec![];
        listener::listen_on_keyrelease(&mut commands, Some(keycode));
        assert_eq!(commands, expected.into_iter().collect::<Vec<_>>());
        let mut commands = vec![Command::Play];
        listener::listen(&mut commands, key(keycode));
        assert_eq!(commands.len(), 1 + usize::from(expected.is_some()));
        assert_eq!(commands.last().copied(), expected.or(Some(Command::Play)));
    }
    let mut commands = vec![];
    listener::listen_on_keyrelease(&mut commands, None);
    listener::listen(&mut commands, Event::Other);
    assert!(commands.is_empty());
    listener::listen(&mut commands, Event::Quit);
    assert_eq!(commands, vec![Command::Quit]);
}
