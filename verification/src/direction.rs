use vstd::prelude::*;

verus! {

/// One of the six axis-aligned directions (and therefore one of the six faces of a cube).
#[derive(Clone, Copy, Debug, PartialEq, Eq, Structural)]
pub enum AxisDirection {
    Down,
    Up,
    North,
    South,
    West,
    East,
}

impl AxisDirection {
    /// The position of the direction in the order Down, Up, North, South, West, East.
    pub open spec fn spec_index(self) -> u8 {
        match self {
            AxisDirection::Down => 0,
            AxisDirection::Up => 1,
            AxisDirection::North => 2,
            AxisDirection::South => 3,
            AxisDirection::West => 4,
            AxisDirection::East => 5,
        }
    }

    /// The direction at a given position of the order Down, Up, North, South, West, East.
    pub open spec fn spec_from_index(i: u8) -> AxisDirection {
        if i == 0 {
            AxisDirection::Down
        } else if i == 1 {
            AxisDirection::Up
        } else if i == 2 {
            AxisDirection::North
        } else if i == 3 {
            AxisDirection::South
        } else if i == 4 {
            AxisDirection::West
        } else {
            AxisDirection::East
        }
    }

    pub open spec fn spec_invert(self) -> AxisDirection {
        match self {
            AxisDirection::Down => AxisDirection::Up,
            AxisDirection::Up => AxisDirection::Down,
            AxisDirection::North => AxisDirection::South,
            AxisDirection::South => AxisDirection::North,
            AxisDirection::West => AxisDirection::East,
            AxisDirection::East => AxisDirection::West,
        }
    }

    pub fn index(&self) -> (i: u8)
        ensures
            i == self.spec_index(),
            i < 6,
            AxisDirection::spec_from_index(i) == *self,
    {
        match self {
            AxisDirection::Down => 0,
            AxisDirection::Up => 1,
            AxisDirection::North => 2,
            AxisDirection::South => 3,
            AxisDirection::West => 4,
            AxisDirection::East => 5,
        }
    }

    pub fn from_index(i: u8) -> (dir: AxisDirection)
        requires
            i < 6,
        ensures
            dir == AxisDirection::spec_from_index(i),
            dir.spec_index() == i,
    {
        if i == 0 {
            AxisDirection::Down
        } else if i == 1 {
            AxisDirection::Up
        } else if i == 2 {
            AxisDirection::North
        } else if i == 3 {
            AxisDirection::South
        } else if i == 4 {
            AxisDirection::West
        } else {
            AxisDirection::East
        }
    }

    /// The opposite direction.
    pub fn invert(&self) -> (dir: AxisDirection)
        ensures
            dir == self.spec_invert(),
            dir.spec_invert() == *self,
            dir != *self,
    {
        match self {
            AxisDirection::Down => AxisDirection::Up,
            AxisDirection::Up => AxisDirection::Down,
            AxisDirection::North => AxisDirection::South,
            AxisDirection::South => AxisDirection::North,
            AxisDirection::West => AxisDirection::East,
            AxisDirection::East => AxisDirection::West,
        }
    }
}

/// The index of a direction identifies it.
pub proof fn lemma_index_injective(a: AxisDirection, b: AxisDirection)
    ensures
        (a.spec_index() == b.spec_index()) == (a == b),
        a.spec_index() < 6,
        AxisDirection::spec_from_index(a.spec_index()) == a,
{
}

} // verus!
