use snek::direction::Direction;
use snek::position::Position;
use snek::snek::SnekManager;
use std::collections::VecDeque;

fn cells(snek: &SnekManager) -> Vec<(i16, i16)> {
    snek.body.iter().map(|p| (p.0, p.1)).collect()
}

#[test]
fn position_from_pair() {
    let p = Position::from((4, -7));
    assert_eq!(p, Position(4, -7));
    let q: Position = (0, 3).into();
    assert_eq!((q.0, q.1), (0, 3));
}

#[test]
fn starting_snake() {
    let snek = SnekManager::init(42);
    assert_eq!(cells(&snek), vec![(2, 3), (3, 3)]);
    assert_eq!(snek.offset, 0);
    assert_eq!(snek.last_update, 42);
    assert_eq!(*snek.get_head(), Position(3, 3));
}

#[test]
fn since_update_is_the_difference() {
    let snek = SnekManager::init(1_000);
    assert_eq!(snek.since_update(1_000), 0);
    assert_eq!(snek.since_update(151_000), 150_000);
}

#[test]
fn moving_keeps_the_length() {
    let mut snek = SnekManager::init(0);
    snek.offset = 77;
    snek.update(false, Position(4, 3), 9);
    assert_eq!(cells(&snek), vec![(3, 3), (4, 3)]);
    assert_eq!(*snek.get_head(), Position(4, 3));
    assert_eq!(snek.offset, 0);
    assert_eq!(snek.last_update, 9);
}

#[test]
fn growing_adds_one_segment() {
    let mut snek = SnekManager::init(0);
    snek.update(true, Position(4, 3), 5);
    assert_eq!(cells(&snek), vec![(2, 3), (3, 3), (4, 3)]);
    assert_eq!(*snek.get_head(), Position(4, 3));
    assert_eq!(snek.last_update, 5);
}

#[test]
fn length_changes_only_by_growth() {
    let mut snek = SnekManager::init(0);
    let mut expected = 2;
    for step in 0..10i16 {
        let growing = step % 3 == 0;
        let before = snek.body.len();
        snek.update(growing, Position(4 + step, 3), 0);
        if growing {
            expected += 1;
        }
        assert_eq!(snek.body.len(), before + usize::from(growing));
        assert_eq!(snek.body.len(), expected);
        assert_eq!(*snek.get_head(), Position(4 + step, 3));
    }
}

#[test]
fn covers_looks_from_the_given_index() {
    let mut snek = SnekManager::init(0);
    snek.body = VecDeque::from(vec![Position(0, 0), Position(1, 0), Position(1, 1)]);
    assert!(snek.covers(0, &Position(0, 0)));
    assert!(!snek.covers(1, &Position(0, 0)));
    assert!(snek.covers(1, &Position(1, 1)));
    assert!(snek.covers(2, &Position(1, 1)));
    assert!(!snek.covers(3, &Position(1, 1)));
    assert!(!snek.covers(0, &Position(2, 2)));
}

#[test]
fn headings_follow_the_body() {
    let mut snek = SnekManager::init(0);
    snek.body = VecDeque::from(vec![
        Position(1, 1),
        Position(2, 1),
        Position(2, 2),
        Position(1, 2),
        Position(1, 1),
        Position(1, 1),
    ]);
    assert_eq!(
        snek.headings(Direction::Up),
        vec![
            Direction::Right,
            Direction::Down,
            Direction::Left,
            Direction::Up,
            Direction::Idle,
            Direction::Up,
        ]
    );
}

#[test]
fn headings_of_an_idle_snake() {
    let snek = SnekManager::init(0);
    assert_eq!(snek.headings(Direction::Idle), vec![Direction::Idle, Direction::Idle]);
    assert_eq!(snek.headings(Direction::Down), vec![Direction::Right, Direction::Down]);
}

#[test]
fn headings_of_no_snake() {
    let mut snek = SnekManager::init(0);
    snek.body.clear();
    assert!(snek.headings(Direction::Left).is_empty());
}
