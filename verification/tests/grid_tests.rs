use snake_core::direction::{Direction, Heading};
use snake_core::grid::{wrap, X_HALF, Y_HALF};
use snake_core::snake::{step, Position, Snake};

#[test]
fn wrap_is_idempotent() {
    for h in [1, 2, 15, 26, 100] {
        for c in [-200, -27, -26, -16, -1, 0, 1, 7, 15, 16, 26, 27, 200] {
            assert_eq!(wrap(wrap(c, h), h), wrap(c, h));
        }
    }
}

#[test]
fn wrap_past_an_edge_lands_on_the_opposite_edge() {
    for h in [1, 2, 15, 26, 100] {
        assert_eq!(wrap(h + 1, h), -h);
        assert_eq!(wrap(-h - 1, h), h);
    }
}

#[test]
fn wrap_leaves_interior_coordinates_alone() {
    assert_eq!(wrap(0, 15), 0);
    assert_eq!(wrap(15, 15), 15);
    assert_eq!(wrap(-15, 15), -15);
    assert_eq!(wrap(7, 26), 7);
}

#[test]
fn opposite_pairs() {
    assert_eq!(Direction::Up.opposite(), Direction::Down);
    assert_eq!(Direction::Down.opposite(), Direction::Up);
    assert_eq!(Direction::Left.opposite(), Direction::Right);
    assert_eq!(Direction::Right.opposite(), Direction::Left);
}

#[test]
fn reversal_request_is_ignored() {
    let mut h = Heading { current: Direction::Left, pending: Direction::Left };
    h.set_pending_direction(Direction::Right);
    assert_eq!(h.pending, Direction::Left);
    h.set_pending_direction(Direction::Up);
    assert_eq!(h.pending, Direction::Up);
    let mut h2 = Heading { current: Direction::Left, pending: Direction::Left };
    h2.set_pending_direction(Direction::Down);
    assert_eq!(h2.pending, Direction::Down);
}

#[test]
fn last_valid_request_wins() {
    let mut h = Heading { current: Direction::Up, pending: Direction::Up };
    h.set_pending_direction(Direction::Left);
    h.set_pending_direction(Direction::Right);
    assert_eq!(h.pending, Direction::Right);
    h.set_pending_direction(Direction::Down);
    assert_eq!(h.pending, Direction::Right);
}

#[test]
fn step_moves_one_cell() {
    assert_eq!(step(Position { x: 0, y: 0 }, Direction::Up), Position { x: 0, y: 1 });
    assert_eq!(step(Position { x: 0, y: 0 }, Direction::Down), Position { x: 0, y: -1 });
    assert_eq!(step(Position { x: 0, y: 0 }, Direction::Left), Position { x: -1, y: 0 });
    assert_eq!(step(Position { x: 0, y: 0 }, Direction::Right), Position { x: 1, y: 0 });
}

#[test]
fn step_wraps_at_the_field_edges() {
    assert_eq!(step(Position { x: 0, y: Y_HALF }, Direction::Up), Position { x: 0, y: -Y_HALF });
    assert_eq!(step(Position { x: 0, y: -Y_HALF }, Direction::Down), Position { x: 0, y: Y_HALF });
    assert_eq!(step(Position { x: -X_HALF, y: 0 }, Direction::Left), Position { x: X_HALF, y: 0 });
    assert_eq!(step(Position { x: X_HALF, y: 0 }, Direction::Right), Position {
        x: -X_HALF,
        y: 0
    });
}

#[test]
fn growth_lands_on_the_vacated_cell() {
    let mut s = Snake { segments: vec![Position { x: 0, y: 0 }, Position { x: 0, y: -1 }] };
    let vacated = s.advance(Direction::Up, true);
    assert_eq!(vacated, Position { x: 0, y: -1 });
    assert_eq!(s.segments, vec![
        Position { x: 0, y: 1 },
        Position { x: 0, y: 0 },
        Position { x: 0, y: -1 },
    ]);
}

#[test]
fn advance_shifts_the_chain_along_its_path() {
    let mut s = Snake {
        segments: vec![
            Position { x: 0, y: 0 },
            Position { x: 0, y: -1 },
            Position { x: 1, y: -1 },
        ],
    };
    let vacated = s.advance(Direction::Right, false);
    assert_eq!(vacated, Position { x: 1, y: -1 });
    assert_eq!(s.segments, vec![
        Position { x: 1, y: 0 },
        Position { x: 0, y: 0 },
        Position { x: 0, y: -1 },
    ]);
}

#[test]
fn advance_on_a_lone_head_keeps_length_one() {
    let mut s = Snake::new(Position { x: 3, y: 4 });
    let vacated = s.advance(Direction::Left, false);
    assert_eq!(vacated, Position { x: 3, y: 4 });
    assert_eq!(s.segments, vec![Position { x: 2, y: 4 }]);
}
