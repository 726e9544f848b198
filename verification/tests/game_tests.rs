use snake_core::direction::Direction;
use snake_core::game::{Game, Status};
use snake_core::snake::{Position, Snake};
use snake_core::state::{DEFAULT_STEP, MIN_STEP};

#[test]
fn fresh_session_state() {
    let g = Game::new();
    assert_eq!(g.snake.segments, vec![Position { x: 0, y: 0 }]);
    assert_eq!(g.heading.current, Direction::Up);
    assert_eq!(g.heading.pending, Direction::Up);
    assert_eq!(g.food, Some(Position { x: 1, y: 1 }));
    assert!(!g.state.just_ate);
    assert!(!g.state.must_grow);
    assert_eq!(g.state.elapsed, 0);
    assert_eq!(g.state.step, DEFAULT_STEP);
    assert_eq!(g.state.length, 1);
    assert_eq!(g.status, Status::Running);
}

#[test]
fn pacing_gate_holds_the_chain_below_the_interval() {
    let mut g = Game::new();
    let spawned = g.frame(40);
    assert_eq!(spawned, None);
    assert_eq!(g.snake.segments, vec![Position { x: 0, y: 0 }]);
    assert_eq!(g.state.elapsed, 40);
    // Exactly reaching the interval is still not enough: the threshold is
    // strict.
    let spawned = g.frame(40);
    assert_eq!(spawned, None);
    assert_eq!(g.snake.segments, vec![Position { x: 0, y: 0 }]);
    assert_eq!(g.state.elapsed, 80);
}

#[test]
fn pacing_gate_fires_exactly_once_and_resets_to_zero() {
    let mut g = Game::new();
    let spawned = g.frame(200);
    assert_eq!(spawned, None);
    // One advance, not two, and the accumulator is zero, not the leftover.
    assert_eq!(g.snake.segments, vec![Position { x: 0, y: 1 }]);
    assert_eq!(g.state.elapsed, 0);
}

#[test]
fn pending_direction_is_applied_at_the_advance() {
    let mut g = Game::new();
    g.set_pending_direction(Direction::Right);
    assert_eq!(g.heading.current, Direction::Up);
    g.frame(81);
    assert_eq!(g.heading.current, Direction::Right);
    assert_eq!(g.snake.segments, vec![Position { x: 1, y: 0 }]);
}

#[test]
fn eating_flags_growth_and_respawns_food_in_the_interior() {
    let mut g = Game::new();
    g.food = Some(Position { x: 0, y: 0 });
    let spawned = g.frame(0);
    assert_eq!(g.state.length, 2);
    assert!(g.state.must_grow);
    assert!(!g.state.just_ate);
    assert_eq!(g.state.step, DEFAULT_STEP - 2);
    let fp = spawned.expect("a consumption event must respawn the food");
    assert_eq!(g.food, Some(fp));
    assert!(-25 <= fp.x && fp.x <= 25);
    assert!(-14 <= fp.y && fp.y <= 14);
    // The chain itself grows one tick later, at the next advance.
    assert_eq!(g.snake.segments.len(), 1);
    g.food = None;
    g.frame(81);
    assert!(!g.state.must_grow);
    assert_eq!(g.snake.segments, vec![Position { x: 0, y: 1 }, Position { x: 0, y: 0 }]);
}

#[test]
fn length_counts_one_plus_consumption_events() {
    let mut g = Game::new();
    for n in 1..=5u32 {
        g.food = Some(g.snake.head());
        g.frame(81);
        assert_eq!(g.state.length, 1 + n);
    }
    assert_eq!(g.snake.segments.len(), 6);
}

#[test]
fn speed_ramp_matches_the_clamped_formula() {
    let mut g = Game::new();
    for k in 1..=30u128 {
        g.food = Some(g.snake.head());
        g.check_eat();
        let expected = if DEFAULT_STEP >= MIN_STEP + 2 * k { DEFAULT_STEP - 2 * k } else { MIN_STEP };
        assert_eq!(g.state.step, expected);
    }
    assert_eq!(g.state.step, MIN_STEP);
}

#[test]
fn self_collision_terminates_without_an_advance() {
    let mut g = Game::new();
    g.snake = Snake {
        segments: vec![
            Position { x: 0, y: 0 },
            Position { x: 1, y: 0 },
            Position { x: 1, y: 1 },
            Position { x: 0, y: 1 },
            Position { x: 0, y: 0 },
        ],
    };
    let before = g.snake.segments.clone();
    let spawned = g.frame(1000);
    assert_eq!(spawned, None);
    assert_eq!(g.status, Status::Terminated);
    assert_eq!(g.snake.segments, before);
}

#[test]
fn a_terminated_session_stays_terminated() {
    let mut g = Game::new();
    g.status = Status::Terminated;
    let before = g.snake.segments.clone();
    let spawned = g.frame(1000);
    assert_eq!(spawned, None);
    assert_eq!(g.status, Status::Terminated);
    assert_eq!(g.snake.segments, before);
    assert_eq!(g.state.elapsed, 0);
}

#[test]
fn quit_enters_the_terminal_state() {
    let mut g = Game::new();
    g.quit();
    assert_eq!(g.status, Status::Terminated);
    let before = g.snake.segments.clone();
    let spawned = g.frame(1000);
    assert_eq!(spawned, None);
    assert_eq!(g.snake.segments, before);
    assert_eq!(g.status, Status::Terminated);
}

#[test]
fn speed_decay_clamps_and_never_undershoots_the_floor() {
    // Even from an interval sitting just above the floor, one consumption
    // lands exactly on MIN_STEP, never below it.
    let mut g = Game::new();
    g.state.step = MIN_STEP + 1;
    g.food = Some(g.snake.head());
    g.check_eat();
    assert_eq!(g.state.step, MIN_STEP);
    g.food = Some(g.snake.head());
    g.check_eat();
    assert_eq!(g.state.step, MIN_STEP);
}

#[test]
fn touching_a_distinct_body_cell_is_only_fatal_when_shared() {
    let mut g = Game::new();
    g.snake = Snake { segments: vec![Position { x: 0, y: 0 }, Position { x: 0, y: -1 }] };
    g.frame(10);
    assert_eq!(g.status, Status::Running);
    assert!(!g.self_collides());
}

#[test]
fn eating_registers_against_pre_advance_positions() {
    // Food under the head is eaten even on a frame whose gate does not open.
    let mut g = Game::new();
    g.food = Some(Position { x: 0, y: 0 });
    g.frame(1);
    assert_eq!(g.state.length, 2);
    assert_eq!(g.snake.segments, vec![Position { x: 0, y: 0 }]);
}
