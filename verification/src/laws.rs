use vstd::prelude::*;
use crate::game::{
    check_eat_spec, eats, frame_spec, initial_spec, self_collision, FrameInput, GameView,
    Status,
};
use crate::snake::{advance_spec, Position};
use crate::state::MIN_STEP;

verus! {

/// A frame started from `v` registers a consumption event.
pub open spec fn frame_eats(v: GameView) -> bool {
    &&& v.status == Status::Running
    &&& !self_collision(v)
    &&& eats(v)
}

/// The session after a whole run of frames, each with its delta and (where
/// one is drawn) its spawned food cell.
pub open spec fn run_spec(v: GameView, inputs: Seq<FrameInput>) -> GameView
    decreases inputs.len(),
{
    if inputs.len() == 0 {
        v
    } else {
        run_spec(frame_spec(v, inputs[0].delta, inputs[0].food), inputs.drop_first())
    }
}

/// How many frames of the run register a consumption event.
pub open spec fn eat_count(v: GameView, inputs: Seq<FrameInput>) -> nat
    decreases inputs.len(),
{
    if inputs.len() == 0 {
        0
    } else {
        (if frame_eats(v) {
            1nat
        } else {
            0nat
        }) + eat_count(frame_spec(v, inputs[0].delta, inputs[0].food), inputs.drop_first())
    }
}

/// 1 if a growth is pending (a consumption happened and the chain has not
/// advanced since), else 0.
pub open spec fn pending_growth(v: GameView) -> int {
    if v.must_grow {
        1
    } else {
        0
    }
}

/// No frame of the run registers a consumption while a growth from an
/// earlier consumption is still pending.
pub open spec fn no_eat_while_growth_pending(v: GameView, inputs: Seq<FrameInput>) -> bool
    decreases inputs.len(),
{
    if inputs.len() == 0 {
        true
    } else {
        &&& (frame_eats(v) ==> !v.must_grow)
        &&& no_eat_while_growth_pending(
            frame_spec(v, inputs[0].delta, inputs[0].food),
            inputs.drop_first(),
        )
    }
}

/// One frame raises the recorded length by exactly 1 when it registers a
/// consumption event, and leaves it alone otherwise.
pub proof fn lemma_frame_length(v: GameView, delta: int, fp: Position)
    ensures
        frame_spec(v, delta, fp).length == v.length + if frame_eats(v) {
            1int
        } else {
            0int
        },
{
}

/// Chain-length law, recorded form: over any run of frames the recorded
/// length grows by exactly the number of consumption events, so a run from a
/// fresh session ends with length 1 + N after N consumption events.
pub proof fn lemma_chain_length(v: GameView, inputs: Seq<FrameInput>)
    ensures
        run_spec(v, inputs).length == v.length + eat_count(v, inputs),
    decreases inputs.len(),
{
    if inputs.len() > 0 {
        lemma_frame_length(v, inputs[0].delta, inputs[0].food);
        lemma_chain_length(frame_spec(v, inputs[0].delta, inputs[0].food), inputs.drop_first());
    }
}

/// Chain-length law at the start state: after N consumption events the
/// recorded length is 1 + N.
pub proof fn lemma_chain_length_from_start(inputs: Seq<FrameInput>)
    ensures
        run_spec(initial_spec(), inputs).length == 1 + eat_count(initial_spec(), inputs),
{
    lemma_chain_length(initial_spec(), inputs);
}

/// One frame keeps the account "segments plus pending growth": it rises by
/// exactly 1 on a consumption event and is otherwise unchanged, provided the
/// frame does not register a consumption while a growth is already pending
/// (in that case the earlier growth would be lost).
pub proof fn lemma_frame_segments(v: GameView, delta: int, fp: Position)
    requires
        v.snake.len() >= 1,
        frame_eats(v) ==> !v.must_grow,
    ensures
        frame_spec(v, delta, fp).snake.len() >= 1,
        frame_spec(v, delta, fp).snake.len() + pending_growth(frame_spec(v, delta, fp))
            == v.snake.len() + pending_growth(v) + if frame_eats(v) {
            1int
        } else {
            0int
        },
{
    let v1 = check_eat_spec(v);
    assert(advance_spec(v1.snake, v1.pending, v1.must_grow).len() == v1.snake.len()
        + pending_growth(v1));
}

/// Chain-length law, physical form: over any run in which no consumption
/// happens while a growth is still pending, the number of chain segments
/// plus the pending growth grows by exactly the number of consumption
/// events.
pub proof fn lemma_chain_segments(v: GameView, inputs: Seq<FrameInput>)
    requires
        v.snake.len() >= 1,
        no_eat_while_growth_pending(v, inputs),
    ensures
        run_spec(v, inputs).snake.len() + pending_growth(run_spec(v, inputs)) == v.snake.len()
            + pending_growth(v) + eat_count(v, inputs),
    decreases inputs.len(),
{
    if inputs.len() > 0 {
        lemma_frame_segments(v, inputs[0].delta, inputs[0].food);
        lemma_chain_segments(frame_spec(v, inputs[0].delta, inputs[0].food), inputs.drop_first());
    }
}

/// Chain-length law at the start state, physical form: after N consumption
/// events, none of which lands while a growth is still pending, the chain
/// has 1 + N segments once the pending growth (if any) is counted.
pub proof fn lemma_chain_segments_from_start(inputs: Seq<FrameInput>)
    requires
        no_eat_while_growth_pending(initial_spec(), inputs),
    ensures
        run_spec(initial_spec(), inputs).snake.len() + pending_growth(
            run_spec(initial_spec(), inputs),
        ) == 1 + eat_count(initial_spec(), inputs),
{
    lemma_chain_segments(initial_spec(), inputs);
}

/// Step-interval invariant: a frame never lengthens the step interval, and
/// never takes it below MIN_STEP.
pub proof fn lemma_step_interval_invariant(v: GameView, delta: int, fp: Position)
    requires
        MIN_STEP <= v.step,
    ensures
        MIN_STEP <= frame_spec(v, delta, fp).step <= v.step,
{
}

/// Self-collision law: a frame whose head overlaps a body segment terminates
/// the session within that same frame, and no chain advance is performed.
pub proof fn lemma_self_collision_terminates(v: GameView, delta: int, fp: Position)
    requires
        v.status == Status::Running,
        self_collision(v),
    ensures
        frame_spec(v, delta, fp).status == Status::Terminated,
        frame_spec(v, delta, fp).snake == v.snake,
{
}

/// Pacing law: while the accumulated time stays at or below the step
/// interval, a frame leaves the chain in place and only accumulates the
/// delta; once it exceeds the interval, exactly one advance occurs and the
/// accumulator resets to zero, not to the leftover.
pub proof fn lemma_pacing_gate(v: GameView, delta: int, fp: Position)
    requires
        v.status == Status::Running,
        !self_collision(v),
        !eats(v),
        !v.just_ate,
    ensures
        v.elapsed + delta <= v.step ==> frame_spec(v, delta, fp).snake == v.snake && frame_spec(
            v,
            delta,
            fp,
        ).elapsed == v.elapsed + delta,
        v.elapsed + delta > v.step ==> frame_spec(v, delta, fp).snake == advance_spec(
            v.snake,
            v.pending,
            v.must_grow,
        ) && frame_spec(v, delta, fp).elapsed == 0,
{
}

} // verus!
