use vstd::prelude::*;

verus! {

/// One of the four headings the snake can take.
#[derive(PartialEq, Eq, Structural, Clone, Copy, Debug)]
pub enum Direction {
    Up,
    Down,
    Left,
    Right,
}

impl Direction {
    /// The heading pointing the opposite way.
    pub open spec fn opposite_spec(self) -> Direction {
        match self {
            Direction::Up => Direction::Down,
            Direction::Down => Direction::Up,
            Direction::Left => Direction::Right,
            Direction::Right => Direction::Left,
        }
    }

    /// The heading pointing the opposite way.
    #[verifier::when_used_as_spec(opposite_spec)]
    pub fn opposite(self) -> (r: Direction)
        ensures
            r == self.opposite_spec(),
    {
        match self {
            Direction::Up => Direction::Down,
            Direction::Down => Direction::Up,
            Direction::Left => Direction::Right,
            Direction::Right => Direction::Left,
        }
    }
}

/// The double-buffered heading state: `current` was applied at the last chain
/// advance; `pending` is what input has requested and is applied atomically at
/// the start of the next advance.
#[derive(PartialEq, Eq, Structural, Clone, Copy, Debug)]
pub struct Heading {
    pub current: Direction,
    pub pending: Direction,
}

impl Heading {
    /// What recording a requested turn does: a request that would reverse the
    /// currently applied heading is ignored; any other request overwrites the
    /// pending heading (last valid request wins).
    pub open spec fn set_pending_spec(self, requested: Direction) -> Heading {
        if requested == self.current.opposite_spec() {
            self
        } else {
            Heading { current: self.current, pending: requested }
        }
    }

    /// Record a requested turn. A reversal into the segment directly behind
    /// the head is silently ignored; the last valid request stands.
    pub fn set_pending_direction(&mut self, requested: Direction)
        ensures
            *final(self) == old(self).set_pending_spec(requested),
    {
        if requested != self.current.opposite() {
            self.pending = requested;
        }
    }
}

/// No-reversal law: with the current heading Left, a Right request never
/// changes the pending heading, while an Up or Down request is taken.
pub proof fn lemma_no_reversal(h: Heading)
    requires
        h.current == Direction::Left,
    ensures
        h.set_pending_spec(Direction::Right) == h,
        h.set_pending_spec(Direction::Up).pending == Direction::Up,
        h.set_pending_spec(Direction::Down).pending == Direction::Down,
{
}

} // verus!
