use vstd::prelude::*;
use crate::direction::Direction;
use crate::grid::{wrap, wrap_spec, X_HALF, Y_HALF};

verus! {

/// A cell of the grid, in logical coordinates centered at the origin.
#[derive(PartialEq, Eq, Structural, Clone, Copy, Debug)]
pub struct Position {
    pub x: i32,
    pub y: i32,
}

/// A position lies on the playing field.
pub open spec fn in_bounds(p: Position) -> bool {
    &&& -X_HALF <= p.x <= X_HALF
    &&& -Y_HALF <= p.y <= Y_HALF
}

/// Where a position one cell along `d`, wrapped on the moved axis, lands.
pub open spec fn step_spec(p: Position, d: Direction) -> Position {
    match d {
        Direction::Up => Position { x: p.x, y: wrap_spec(p.y + 1, Y_HALF as int) as i32 },
        Direction::Down => Position { x: p.x, y: wrap_spec(p.y - 1, Y_HALF as int) as i32 },
        Direction::Left => Position { x: wrap_spec(p.x - 1, X_HALF as int) as i32, y: p.y },
        Direction::Right => Position { x: wrap_spec(p.x + 1, X_HALF as int) as i32, y: p.y },
    }
}

/// Move a position one cell along `d`, wrapping on the moved axis.
pub fn step(p: Position, d: Direction) -> (r: Position)
    requires
        in_bounds(p),
    ensures
        r == step_spec(p, d),
        in_bounds(r),
{
    match d {
        Direction::Up => Position { x: p.x, y: wrap(p.y + 1, Y_HALF) },
        Direction::Down => Position { x: p.x, y: wrap(p.y - 1, Y_HALF) },
        Direction::Left => Position { x: wrap(p.x - 1, X_HALF), y: p.y },
        Direction::Right => Position { x: wrap(p.x + 1, X_HALF), y: p.y },
    }
}

/// The chain after one advance along `d`: the head moves one cell (wrapped),
/// every body segment takes the previous position of the segment ahead of it,
/// and with `grow` set a new tail appears at the cell the old tail vacated.
pub open spec fn advance_spec(s: Seq<Position>, d: Direction, grow: bool) -> Seq<Position>
    recommends
        s.len() >= 1,
{
    if grow {
        seq![step_spec(s[0], d)] + s
    } else {
        seq![step_spec(s[0], d)] + s.drop_last()
    }
}

/// The snake's body: an ordered chain of segment positions, head first.
#[derive(Debug)]
pub struct Snake {
    pub segments: Vec<Position>,
}

impl View for Snake {
    type V = Seq<Position>;

    open spec fn view(&self) -> Seq<Position> {
        self.segments@
    }
}

impl Snake {
    /// The chain has at least its head, and every segment lies on the field.
    pub open spec fn wf(self) -> bool {
        &&& self@.len() >= 1
        &&& forall|i: int| 0 <= i < self@.len() ==> in_bounds(#[trigger] self@[i])
    }

    /// A fresh one-segment chain with its head at `head`.
    pub fn new(head: Position) -> (s: Snake)
        requires
            in_bounds(head),
        ensures
            s.wf(),
            s@ == seq![head],
    {
        let mut segments: Vec<Position> = Vec::new();
        segments.push(head);
        proof {
            assert(segments@ =~= seq![head]);
        }
        Snake { segments }
    }

    /// How many segments the chain has.
    pub fn len(&self) -> (n: usize)
        ensures
            n == self@.len(),
    {
        self.segments.len()
    }

    /// The segment at index `i` (0 is the head).
    pub fn segment(&self, i: usize) -> (p: Position)
        requires
            i < self@.len(),
        ensures
            p == self@[i as int],
    {
        self.segments[i]
    }

    /// The head's position.
    pub fn head(&self) -> (p: Position)
        requires
            self@.len() >= 1,
        ensures
            p == self@[0],
    {
        self.segments[0]
    }

    /// Advance the chain one cell along `d`: the head moves (with toroidal
    /// wrap on the moved axis) and each body segment, head-adjacent to tail,
    /// swaps its position with the carried previous position, shifting the
    /// whole chain one cell along the path the head traced. With `must_grow`
    /// set, a new tail is appended afterwards at the vacated cell. Returns
    /// the cell the old tail vacated.
    pub fn advance(&mut self, d: Direction, must_grow: bool) -> (vacated: Position)
        requires
            old(self).wf(),
        ensures
            final(self).wf(),
            final(self)@ == advance_spec(old(self)@, d, must_grow),
            vacated == old(self)@.last(),
    {
        let ghost s0 = self@;
        let head = self.segments[0];
        let new_head = step(head, d);
        self.segments.set(0, new_head);
        let mut carry = head;
        let mut i: usize = 1;
        while i < self.segments.len()
            invariant
                1 <= i <= s0.len(),
                self.segments@.len() == s0.len(),
                s0.len() >= 1,
                self.segments@[0] == step_spec(s0[0], d),
                carry == s0[i - 1],
                forall|j: int| 1 <= j < i ==> self.segments@[j] == s0[j - 1],
                forall|j: int| i <= j < s0.len() ==> self.segments@[j] == s0[j],
                forall|j: int| 0 <= j < s0.len() ==> in_bounds(#[trigger] s0[j]),
                in_bounds(self.segments@[0]),
            decreases s0.len() - i,
        {
            let tmp = self.segments[i];
            self.segments.set(i, carry);
            carry = tmp;
            i = i + 1;
        }
        if must_grow {
            self.segments.push(carry);
            proof {
                assert(self.segments@ =~= seq![step_spec(s0[0], d)] + s0);
            }
        } else {
            proof {
                assert(self.segments@ =~= seq![step_spec(s0[0], d)] + s0.drop_last());
            }
        }
        carry
    }
}

} // verus!
