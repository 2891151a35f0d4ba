use vstd::prelude::*;

use crate::direction::Direction;

verus! {

/// A conveyor belt tile. Items enter the tile from the side named by
/// `input` and leave toward the side named by `output`. A belt is only
/// meaningful while `input != output`; classifying a belt whose two sides
/// coincide is a caller error.
#[derive(Clone, Copy, Debug, PartialEq, Eq, Structural)]
pub struct Belt {
    pub input: Direction,
    pub output: Direction,
}

/// How a belt bends on its way through a tile, derived from the rotational
/// offset between its input and output directions.
#[derive(Clone, Copy, Debug, PartialEq, Eq, Structural)]
pub enum Turn {
    Left,
    Forward,
    Right,
}

impl Belt {
    /// A fresh straight belt, as held in hand before any placement rule
    /// adjusts it: input from the West, output toward the East.
    pub fn new() -> (b: Belt)
        ensures
            b.input == Direction::West,
            b.output == Direction::East,
    {
        Belt { input: Direction::West, output: Direction::East }
    }

    /// The turn class of this belt: the number of clockwise quarter turns
    /// from `input` to `output` maps 1 to Left, 2 to Forward and 3 to Right.
    pub open spec fn spec_turn(&self) -> Turn {
        if self.input.rotate_clockwise() == self.output {
            Turn::Left
        } else if self.input.rotate_clockwise().rotate_clockwise() == self.output {
            Turn::Forward
        } else {
            Turn::Right
        }
    }

    #[verifier::when_used_as_spec(spec_turn)]
    pub fn turn(&self) -> (t: Turn)
        requires
            self.input != self.output,
        ensures
            t == self.spec_turn(),
    {
        let dir = self.input.rotate_clockwise();
        if dir == self.output {
            return Turn::Left;
        }

        let dir = dir.rotate_clockwise();
        if dir == self.output {
            return Turn::Forward;
        }

        let dir = dir.rotate_clockwise();
        if dir == self.output {
            return Turn::Right;
        }

        vstd::pervasive::unreached()
    }
}

/// For every belt whose input and output differ, the turn class agrees with
/// the rotation count from input to output: one clockwise quarter turn is
/// Left, two are Forward, three are Right, and exactly one of the three
/// cases applies.
pub proof fn lemma_turn_mapping(b: Belt)
    requires
        b.input != b.output,
    ensures
        b.spec_turn() == Turn::Left <==> b.output == b.input.rotate_clockwise(),
        b.spec_turn() == Turn::Forward <==> b.output == b.input.rotate_clockwise().rotate_clockwise(),
        b.spec_turn() == Turn::Right <==> b.output
            == b.input.rotate_clockwise().rotate_clockwise().rotate_clockwise(),
{
}

} // verus!
