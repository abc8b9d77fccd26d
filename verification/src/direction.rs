//! The four-valued direction model: a cyclic group of order 4 under
//! clockwise rotation, with `opposite` as the half turn.

use vstd::prelude::*;

verus! {

/// The heading of a pipe: one of the four axis directions.
#[derive(Debug, Clone, Copy, PartialEq, Eq, Structural)]
pub enum Direction {
    Up,
    Down,
    Left,
    Right,
}

/// One quarter turn clockwise: Up -> Right -> Down -> Left -> Up.
pub open spec fn spec_clockwise(d: Direction) -> Direction {
    match d {
        Direction::Up => Direction::Right,
        Direction::Right => Direction::Down,
        Direction::Down => Direction::Left,
        Direction::Left => Direction::Up,
    }
}

/// One quarter turn counterclockwise: three clockwise quarter turns.
pub open spec fn spec_counterclockwise(d: Direction) -> Direction {
    spec_clockwise(spec_clockwise(spec_clockwise(d)))
}

/// The half turn: Up <-> Down, Left <-> Right.
pub open spec fn spec_opposite(d: Direction) -> Direction {
    match d {
        Direction::Up => Direction::Down,
        Direction::Down => Direction::Up,
        Direction::Right => Direction::Left,
        Direction::Left => Direction::Right,
    }
}

impl Direction {
    pub fn clockwise(&self) -> (r: Self)
        ensures
            r == spec_clockwise(*self),
    {
        match self {
            Self::Up => Self::Right,
            Self::Right => Self::Down,
            Self::Down => Self::Left,
            Self::Left => Self::Up,
        }
    }

    pub fn counterclockwise(&self) -> (r: Self)
        ensures
            r == spec_counterclockwise(*self),
    {
        self.clockwise().clockwise().clockwise()
    }

    pub fn opposite(self) -> (r: Self)
        ensures
            r == spec_opposite(self),
    {
        match self {
            Self::Up => Self::Down,
            Self::Down => Self::Up,
            Self::Right => Self::Left,
            Self::Left => Self::Right,
        }
    }
}

/// Law: four clockwise quarter turns lead back to the start.
pub proof fn lemma_clockwise_order_four(d: Direction)
    ensures
        spec_clockwise(spec_clockwise(spec_clockwise(spec_clockwise(d)))) == d,
{
}

/// Law: `opposite` is an involution and moves every direction.
pub proof fn lemma_opposite_involution(d: Direction)
    ensures
        spec_opposite(spec_opposite(d)) == d,
        spec_opposite(d) != d,
{
}

} // verus!
