use vstd::prelude::*;

verus! {

/// Step interval a fresh session starts with, in milliseconds.
pub const DEFAULT_STEP: u128 = 80;

/// Smallest step interval the difficulty ramp can reach, in milliseconds.
pub const MIN_STEP: u128 = 32;

/// How much one food item shortens the step interval, in milliseconds.
pub const STEP_DECREMENT: u128 = 2;

/// Per-session bookkeeping: the single-tick flags set by a consumption event,
/// the pacing accumulator and step interval, and the recorded chain length.
#[derive(PartialEq, Eq, Structural, Clone, Copy, Debug)]
pub struct GameState {
    /// Set when the head ate this tick; consumed by the next food respawn.
    pub just_ate: bool,
    /// Set when the head ate; consumed by the next chain advance, which then
    /// appends one segment.
    pub must_grow: bool,
    /// Milliseconds accumulated since the last chain advance.
    pub elapsed: u128,
    /// Milliseconds that must elapse before the next chain advance.
    pub step: u128,
    /// 1 plus the number of consumption events so far.
    pub length: u32,
}

/// What one consumption event does to the step interval: shorten it by
/// STEP_DECREMENT, clamped below at MIN_STEP.
pub open spec fn decay_spec(s: int) -> int {
    if s - STEP_DECREMENT >= MIN_STEP {
        s - STEP_DECREMENT
    } else {
        MIN_STEP as int
    }
}

/// The step interval after `k` consumption events in a fresh session.
pub open spec fn speed_after(k: nat) -> int
    decreases k,
{
    if k == 0 {
        DEFAULT_STEP as int
    } else {
        decay_spec(speed_after((k - 1) as nat))
    }
}

/// Speed law: after `k` consumption events the step interval is
/// DEFAULT_STEP - STEP_DECREMENT * k, clamped below at MIN_STEP; in
/// particular it never rises and never passes below MIN_STEP.
pub proof fn lemma_speed_monotonic(k: nat)
    ensures
        speed_after(k) == if DEFAULT_STEP - STEP_DECREMENT * k >= MIN_STEP {
            DEFAULT_STEP - STEP_DECREMENT * k
        } else {
            MIN_STEP as int
        },
        MIN_STEP <= speed_after(k) <= DEFAULT_STEP,
        k >= 1 ==> speed_after(k) <= speed_after((k - 1) as nat),
    decreases k,
{
    if k >= 1 {
        lemma_speed_monotonic((k - 1) as nat);
    }
}

} // verus!
