use vstd::prelude::*;
use crate::direction::{Direction, Heading};
use crate::grid::{X_HALF, Y_HALF};
use crate::rng::random_in_range;
use crate::snake::{advance_spec, in_bounds, Position, Snake};
use crate::state::{decay_spec, GameState, DEFAULT_STEP, MIN_STEP, STEP_DECREMENT};

verus! {

/// Whether the session is still being played. Terminated is terminal: a
/// session never leaves it.
#[derive(PartialEq, Eq, Structural, Clone, Copy, Debug)]
pub enum Status {
    Running,
    Terminated,
}

/// The whole session: the chain, the double-buffered heading, the at most one
/// food item, the pacing and growth bookkeeping, and the run status.
#[derive(Debug)]
pub struct Game {
    pub snake: Snake,
    pub heading: Heading,
    pub food: Option<Position>,
    pub state: GameState,
    pub status: Status,
}

/// The mathematical state of a session, with durations and counters as
/// unbounded integers.
#[verifier::ext_equal]
pub ghost struct GameView {
    pub snake: Seq<Position>,
    pub current: Direction,
    pub pending: Direction,
    pub food: Option<Position>,
    pub just_ate: bool,
    pub must_grow: bool,
    pub elapsed: int,
    pub step: int,
    pub length: int,
    pub status: Status,
}

impl View for Game {
    type V = GameView;

    open spec fn view(&self) -> GameView {
        GameView {
            snake: self.snake@,
            current: self.heading.current,
            pending: self.heading.pending,
            food: self.food,
            just_ate: self.state.just_ate,
            must_grow: self.state.must_grow,
            elapsed: self.state.elapsed as int,
            step: self.state.step as int,
            length: self.state.length as int,
            status: self.status,
        }
    }
}

/// A position strictly inside the playable interior, never on the wrap
/// boundary: where food may spawn.
pub open spec fn in_interior(p: Position) -> bool {
    &&& -(X_HALF - 1) <= p.x <= X_HALF - 1
    &&& -(Y_HALF - 1) <= p.y <= Y_HALF - 1
}

/// The head occupies the same cell as some body segment.
pub open spec fn self_collision(v: GameView) -> bool {
    exists|i: int| 1 <= i < v.snake.len() && #[trigger] v.snake[i] == v.snake[0]
}

/// The food item sits exactly under the head.
pub open spec fn eats(v: GameView) -> bool {
    v.food == Some(v.snake[0])
}

/// What the self-collision check does: flip the status to Terminated when the
/// head overlaps a body segment, and nothing else.
pub open spec fn check_death_spec(v: GameView) -> GameView {
    if self_collision(v) {
        GameView { status: Status::Terminated, ..v }
    } else {
        v
    }
}

/// What the consumption check does when the head overlaps the food: despawn
/// the food, raise the two single-tick flags, record the longer chain, and
/// shorten the step interval (clamped at MIN_STEP). Otherwise nothing.
pub open spec fn check_eat_spec(v: GameView) -> GameView {
    if eats(v) {
        GameView {
            food: None,
            just_ate: true,
            must_grow: true,
            length: v.length + 1,
            step: decay_spec(v.step),
            ..v
        }
    } else {
        v
    }
}

/// What the respawn step does when a consumption was flagged: place the food
/// at the freshly drawn interior cell `fp` and clear the flag. Otherwise
/// nothing, and `fp` is ignored.
pub open spec fn respawn_spec(v: GameView, fp: Position) -> GameView {
    if v.just_ate {
        GameView { food: Some(fp), just_ate: false, ..v }
    } else {
        v
    }
}

/// What the pacing-gated advance does: accumulate the frame delta; once the
/// accumulated time exceeds the step interval, reset the accumulator to zero,
/// apply the pending heading, and advance the chain (growing if a growth was
/// pending, which is then consumed).
pub open spec fn pacing_spec(v: GameView, delta: int) -> GameView {
    let e = v.elapsed + delta;
    if e > v.step {
        GameView {
            snake: advance_spec(v.snake, v.pending, v.must_grow),
            current: v.pending,
            must_grow: false,
            elapsed: 0,
            ..v
        }
    } else {
        GameView { elapsed: e, ..v }
    }
}

/// One whole frame: nothing on a terminated session; otherwise the
/// self-collision check (which, on a hit, terminates with no further work
/// this frame), then the consumption check, the food respawn, and the
/// pacing-gated advance, in that order, the checks running against the
/// pre-advance positions.
pub open spec fn frame_spec(v: GameView, delta: int, fp: Position) -> GameView {
    if v.status == Status::Terminated {
        v
    } else {
        let v1 = check_death_spec(v);
        if v1.status == Status::Terminated {
            v1
        } else {
            pacing_spec(respawn_spec(check_eat_spec(v1), fp), delta)
        }
    }
}

/// Whether a frame started from `v` respawns the food (and so draws a random
/// cell).
pub open spec fn frame_respawned(v: GameView) -> bool {
    &&& v.status == Status::Running
    &&& !self_collision(v)
    &&& (eats(v) || v.just_ate)
}

/// The spawned cell if there is one, else the origin (which respawn_spec then
/// ignores).
pub open spec fn witness_or_origin(o: Option<Position>) -> Position {
    match o {
        Some(p) => p,
        None => Position { x: 0, y: 0 },
    }
}

impl Game {
    /// The chain is a well-formed snake and any food lies on the field.
    pub open spec fn wf(self) -> bool {
        &&& self.snake.wf()
        &&& (self.food matches Some(p) ==> in_bounds(p))
    }

    /// A fresh session: a one-segment chain at the origin heading up, food at
    /// (1, 1), default pacing, recorded length 1, running.
    pub fn new() -> (g: Game)
        ensures
            g.wf(),
            g@ == initial_spec(),
    {
        let snake = Snake::new(Position { x: 0, y: 0 });
        Game {
            snake,
            heading: Heading { current: Direction::Up, pending: Direction::Up },
            food: Some(Position { x: 1, y: 1 }),
            state: GameState {
                just_ate: false,
                must_grow: false,
                elapsed: 0,
                step: DEFAULT_STEP,
                length: 1,
            },
            status: Status::Running,
        }
    }

    /// Record a requested turn for the next advance; a reversal of the
    /// currently applied heading is silently ignored.
    pub fn set_pending_direction(&mut self, requested: Direction)
        requires
            old(self).wf(),
        ensures
            final(self).wf(),
            final(self).heading == old(self).heading.set_pending_spec(requested),
            final(self).snake == old(self).snake,
            final(self).food == old(self).food,
            final(self).state == old(self).state,
            final(self).status == old(self).status,
    {
        self.heading.set_pending_direction(requested);
    }

    /// Whether the head currently overlaps some body segment.
    pub fn self_collides(&self) -> (r: bool)
        requires
            self.wf(),
        ensures
            r == self_collision(self@),
    {
        let head = self.snake.head();
        let mut i: usize = 1;
        while i < self.snake.len()
            invariant
                self.wf(),
                1 <= i <= self@.snake.len(),
                head == self@.snake[0],
                forall|j: int| 1 <= j < i ==> self@.snake[j] != head,
            decreases self@.snake.len() - i,
        {
            if self.snake.segment(i) == head {
                return true;
            }
            i = i + 1;
        }
        false
    }

    /// The self-collision check: a head overlapping any body segment ends the
    /// session at once (terminal state).
    pub fn check_death(&mut self)
        requires
            old(self).wf(),
        ensures
            final(self).wf(),
            final(self)@ == check_death_spec(old(self)@),
    {
        if self.self_collides() {
            self.status = Status::Terminated;
        }
    }

    /// An explicit quit signal from the input boundary: the session ends at
    /// once, entering the same terminal state as a self-collision. Terminal:
    /// every later frame leaves the session unchanged.
    pub fn quit(&mut self)
        requires
            old(self).wf(),
        ensures
            final(self).wf(),
            final(self)@ == (GameView { status: Status::Terminated, ..old(self)@ }),
    {
        self.status = Status::Terminated;
    }

    /// The consumption check: when the head overlaps the food, despawn it,
    /// flag the respawn and the growth, record the longer chain, and shorten
    /// the step interval by STEP_DECREMENT, clamped at MIN_STEP.
    pub fn check_eat(&mut self)
        requires
            old(self).wf(),
            old(self)@.length < u32::MAX,
        ensures
            final(self).wf(),
            final(self)@ == check_eat_spec(old(self)@),
    {
        let head = self.snake.head();
        let ate: bool = match self.food {
            Some(p) => p == head,
            None => false,
        };
        if ate {
            self.food = None;
            self.state.just_ate = true;
            self.state.must_grow = true;
            self.state.length = self.state.length + 1;
            if self.state.step >= MIN_STEP + STEP_DECREMENT {
                self.state.step = self.state.step - STEP_DECREMENT;
            } else {
                self.state.step = MIN_STEP;
            }
        }
    }

    /// The food respawn: when a consumption was flagged, draw a cell
    /// uniformly from the playable interior, place the food there, and clear
    /// the flag. Returns the drawn cell, if any.
    pub fn respawn_food(&mut self) -> (spawned: Option<Position>)
        requires
            old(self).wf(),
        ensures
            final(self).wf(),
            spawned is Some <==> old(self)@.just_ate,
            (spawned matches Some(fp) ==> in_interior(fp)),
            final(self)@ == respawn_spec(old(self)@, witness_or_origin(spawned)),
    {
        if self.state.just_ate {
            let x = random_in_range(-(X_HALF - 1), X_HALF - 1);
            let y = random_in_range(-(Y_HALF - 1), Y_HALF - 1);
            let fp = Position { x, y };
            self.food = Some(fp);
            self.state.just_ate = false;
            Some(fp)
        } else {
            None
        }
    }

    /// The pacing-gated advance: accumulate the frame delta, and once the
    /// accumulated time exceeds the step interval, reset the accumulator to
    /// zero, apply the pending heading, and advance the chain, growing it by
    /// one segment at the vacated tail cell if a growth was pending.
    pub fn move_snake(&mut self, delta: u128)
        requires
            old(self).wf(),
            old(self)@.elapsed + delta <= u128::MAX,
        ensures
            final(self).wf(),
            final(self)@ == pacing_spec(old(self)@, delta as int),
    {
        let e = self.state.elapsed + delta;
        if e > self.state.step {
            self.state.elapsed = 0;
            self.heading.current = self.heading.pending;
            let grow = self.state.must_grow;
            self.state.must_grow = false;
            let _vacated = self.snake.advance(self.heading.current, grow);
        } else {
            self.state.elapsed = e;
        }
    }

    /// One whole frame, in the fixed order: self-collision check (a hit
    /// terminates the session with no advance this frame), consumption check,
    /// food respawn, pacing-gated advance. The checks run against the
    /// pre-advance positions, so eating registers the instant the head
    /// overlaps food. Returns the freshly spawned food cell, if this frame
    /// drew one.
    pub fn frame(&mut self, delta: u128) -> (spawned: Option<Position>)
        requires
            old(self).wf(),
            old(self)@.elapsed + delta <= u128::MAX,
            old(self)@.length < u32::MAX,
        ensures
            final(self).wf(),
            spawned is Some <==> frame_respawned(old(self)@),
            (spawned matches Some(fp) ==> in_interior(fp)),
            final(self)@ == frame_spec(old(self)@, delta as int, witness_or_origin(spawned)),
    {
        if self.status == Status::Terminated {
            return None;
        }
        self.check_death();
        if self.status == Status::Terminated {
            return None;
        }
        self.check_eat();
        let spawned = self.respawn_food();
        self.move_snake(delta);
        spawned
    }
}

/// What one frame consumes, for reasoning about whole runs: its wall-clock
/// delta and the cell the spawner would draw if that frame respawns food.
pub ghost struct FrameInput {
    pub delta: int,
    pub food: Position,
}

/// The state a fresh session starts in.
pub open spec fn initial_spec() -> GameView {
    GameView {
        snake: seq![Position { x: 0, y: 0 }],
        current: Direction::Up,
        pending: Direction::Up,
        food: Some(Position { x: 1, y: 1 }),
        just_ate: false,
        must_grow: false,
        elapsed: 0,
        step: DEFAULT_STEP as int,
        length: 1,
        status: Status::Running,
    }
}

} // verus!
