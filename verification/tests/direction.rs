use snek::direction::{Direction, DirectionManager};

const ALL: [Direction; 5] =
    [Direction::Left, Direction::Right, Direction::Down, Direction::Up, Direction::Idle];

fn is_reverse(a: Direction, b: Direction) -> bool {
    matches!(
        (a, b),
        (Direction::Up, Direction::Down)
            | (Direction::Down, Direction::Up)
            | (Direction::Left, Direction::Right)
            | (Direction::Right, Direction::Left)
    )
}

#[test]
fn starts_idle_with_nothing_pending() {
    let mgr = DirectionManager::init();
    assert_eq!(*mgr.current(), Direction::Idle);
    assert_eq!(mgr.pending_len(), 0);
}

#[test]
fn update_without_requests_keeps_current() {
    let mut mgr = DirectionManager::init();
    mgr.update();
    assert_eq!(*mgr.current(), Direction::Idle);
    mgr.go(Direction::Left);
    mgr.update();
    mgr.update();
    assert_eq!(*mgr.current(), Direction::Left);
}

#[test]
fn queued_up_then_down_from_idle() {
    let mut mgr = DirectionManager::init();
    mgr.go(Direction::Up);
    mgr.go(Direction::Down);
    assert_eq!(mgr.pending_len(), 2);
    mgr.update();
    assert_eq!(*mgr.current(), Direction::Up);
    assert_eq!(mgr.pending_len(), 1);
    mgr.update();
    assert_eq!(*mgr.current(), Direction::Up);
    assert_eq!(mgr.pending_len(), 0);
}

#[test]
fn down_is_accepted_against_idle() {
    let mut mgr = DirectionManager::init();
    mgr.go(Direction::Down);
    mgr.update();
    assert_eq!(*mgr.current(), Direction::Down);
}

#[test]
fn third_request_drops_the_oldest() {
    let mut mgr = DirectionManager::init();
    mgr.go(Direction::Up);
    mgr.go(Direction::Left);
    mgr.go(Direction::Down);
    assert_eq!(mgr.pending_len(), 2);
    mgr.update();
    assert_eq!(*mgr.current(), Direction::Left);
    mgr.update();
    assert_eq!(*mgr.current(), Direction::Down);
    assert_eq!(mgr.pending_len(), 0);
}

#[test]
fn queue_never_holds_more_than_two() {
    let mut mgr = DirectionManager::init();
    for round in 0..20 {
        mgr.go(ALL[round % 5]);
        assert!(mgr.pending_len() <= 2);
    }
    assert_eq!(mgr.pending_len(), 2);
}

#[test]
fn update_never_reverses_in_place() {
    for &first in ALL.iter() {
        for &second in ALL.iter() {
            let mut mgr = DirectionManager::init();
            mgr.go(first);
            mgr.update();
            let before = *mgr.current();
            mgr.go(second);
            mgr.update();
            let after = *mgr.current();
            assert!(!is_reverse(before, after));
            if is_reverse(first, second) {
                assert_eq!(after, first);
            } else {
                assert_eq!(after, second);
            }
        }
    }
}

#[test]
fn requests_are_kept_oldest_first() {
    let mut mgr = DirectionManager::init();
    assert_eq!(mgr.requests(), vec![]);
    mgr.go(Direction::Up);
    assert_eq!(mgr.requests(), vec![Direction::Up]);
    mgr.go(Direction::Left);
    assert_eq!(mgr.requests(), vec![Direction::Up, Direction::Left]);
    mgr.go(Direction::Right);
    assert_eq!(mgr.requests(), vec![Direction::Left, Direction::Right]);
    mgr.go(Direction::Right);
    assert_eq!(mgr.requests(), vec![Direction::Right, Direction::Right]);
    mgr.update();
    assert_eq!(mgr.requests(), vec![Direction::Right]);
    assert_eq!(*mgr.current(), Direction::Right);
    mgr.update();
    assert_eq!(mgr.requests(), vec![]);
}

#[test]
fn a_dropped_reversal_still_leaves_the_queue() {
    let mut mgr = DirectionManager::init();
    mgr.go(Direction::Left);
    mgr.update();
    mgr.go(Direction::Right);
    mgr.go(Direction::Up);
    mgr.update();
    assert_eq!(*mgr.current(), Direction::Left);
    assert_eq!(mgr.requests(), vec![Direction::Up]);
    mgr.update();
    assert_eq!(*mgr.current(), Direction::Up);
}
