use vstd::prelude::*;

verus! {

/// One of the four cardinal directions, ordered cyclically clockwise:
/// West -> North -> East -> South -> West.
#[derive(Clone, Copy, Debug, PartialEq, Eq, Structural)]
pub enum Direction {
    West,
    North,
    East,
    South,
}

impl Direction {
    /// The direction one quarter turn clockwise from this one.
    pub open spec fn spec_rotate_clockwise(&self) -> Direction {
        match self {
            Direction::West => Direction::North,
            Direction::North => Direction::East,
            Direction::East => Direction::South,
            Direction::South => Direction::West,
        }
    }

    /// The direction one quarter turn counter-clockwise from this one.
    pub open spec fn spec_rotate_anti_clockwise(&self) -> Direction {
        match self {
            Direction::West => Direction::South,
            Direction::North => Direction::West,
            Direction::East => Direction::North,
            Direction::South => Direction::East,
        }
    }

    /// The opposite direction: two quarter turns in either sense.
    pub open spec fn spec_flip(&self) -> Direction {
        match self {
            Direction::West => Direction::East,
            Direction::North => Direction::South,
            Direction::East => Direction::West,
            Direction::South => Direction::North,
        }
    }

    #[verifier::when_used_as_spec(spec_rotate_clockwise)]
    pub fn rotate_clockwise(&self) -> (r: Direction)
        ensures
            r == self.spec_rotate_clockwise(),
    {
        match *self {
            Direction::West => Direction::North,
            Direction::North => Direction::East,
            Direction::East => Direction::South,
            Direction::South => Direction::West,
        }
    }

    #[verifier::when_used_as_spec(spec_rotate_anti_clockwise)]
    pub fn rotate_anti_clockwise(&self) -> (r: Direction)
        ensures
            r == self.spec_rotate_anti_clockwise(),
    {
        match *self {
            Direction::West => Direction::South,
            Direction::North => Direction::West,
            Direction::East => Direction::North,
            Direction::South => Direction::East,
        }
    }

    #[verifier::when_used_as_spec(spec_flip)]
    pub fn flip(&self) -> (r: Direction)
        ensures
            r == self.spec_flip(),
    {
        match *self {
            Direction::West => Direction::East,
            Direction::North => Direction::South,
            Direction::East => Direction::West,
            Direction::South => Direction::North,
        }
    }
}

/// The rotation operations undo each other in the expected way: a clockwise
/// quarter turn followed by a counter-clockwise one (or vice versa) is the
/// identity, flipping twice is the identity, and four clockwise quarter
/// turns return to the starting direction.
pub proof fn lemma_rotation_round_trips(d: Direction)
    ensures
        d.rotate_clockwise().rotate_anti_clockwise() == d,
        d.rotate_anti_clockwise().rotate_clockwise() == d,
        d.flip().flip() == d,
        d.rotate_clockwise().rotate_clockwise().rotate_clockwise().rotate_clockwise() == d,
{
}

/// A flip is the same as two clockwise quarter turns.
pub proof fn lemma_flip_is_two_clockwise_turns(d: Direction)
    ensures
        d.flip() == d.rotate_clockwise().rotate_clockwise(),
{
}

} // verus!
