use vstd::prelude::*;

use crate::belt::Belt;
use crate::direction::Direction;

verus! {

/// Number of cells along each side of the square grid.
pub const GRID_DIM: usize = 128;

/// A fixed 128 x 128 board of optional conveyor belts, stored row-major.
/// Coordinates outside the board are treated as permanently empty: reads
/// there answer "no belt" and writes there are silently ignored, so the
/// placement rules may probe past the edge without special cases.
pub struct Grid {
    tiles: Vec<Option<Belt>>,
}

impl Grid {
    /// The backing buffer always holds exactly one slot per cell.
    pub closed spec fn wf(self) -> bool {
        self.tiles@.len() == GRID_DIM * GRID_DIM
    }

    /// Whether (x, y) names a cell of the board.
    pub open spec fn in_range(x: int, y: int) -> bool {
        0 <= x < GRID_DIM && 0 <= y < GRID_DIM
    }

    /// The belt occupying cell (x, y), if any; coordinates off the board
    /// hold no belt.
    pub closed spec fn tile(self, x: int, y: int) -> Option<Belt> {
        if Self::in_range(x, y) {
            self.tiles@[y * GRID_DIM + x]
        } else {
            None
        }
    }

    /// Off-board coordinates never hold a belt.
    pub proof fn lemma_tile_out_of_range(self, x: int, y: int)
        requires
            !Self::in_range(x, y),
        ensures
            self.tile(x, y) is None,
    {
    }

    /// An empty grid.
    pub fn new() -> (g: Grid)
        ensures
            g.wf(),
            forall|x: int, y: int| g.tile(x, y) is None,
    {
        let mut tiles: Vec<Option<Belt>> = Vec::new();
        let mut i: usize = 0;
        while i < GRID_DIM * GRID_DIM
            invariant
                i <= GRID_DIM * GRID_DIM,
                tiles@.len() == i,
                forall|k: int| 0 <= k < i ==> tiles@[k] is None,
            decreases GRID_DIM * GRID_DIM - i,
        {
            tiles.push(None);
            i = i + 1;
        }
        Grid { tiles }
    }

    /// The belt at (x, y); absent for an empty cell and for any coordinates
    /// off the board, so the caller may probe freely.
    pub fn get_belt(&self, x: isize, y: isize) -> (r: Option<Belt>)
        requires
            self.wf(),
        ensures
            r == self.tile(x as int, y as int),
    {
        if x >= 0 && x < GRID_DIM as isize && y >= 0 && y < GRID_DIM as isize {
            self.tiles[(y as usize) * GRID_DIM + (x as usize)]
        } else {
            None
        }
    }

    /// Writes a belt into (x, y). A write to coordinates off the board is
    /// silently ignored; no other cell is touched either way.
    pub fn set_belt(&mut self, x: isize, y: isize, belt: Belt)
        requires
            old(self).wf(),
        ensures
            final(self).wf(),
            Self::in_range(x as int, y as int) ==> final(self).tile(x as int, y as int)
                == Some(belt),
            !Self::in_range(x as int, y as int) ==> final(self).tile(x as int, y as int)
                == old(self).tile(x as int, y as int),
            forall|a: int, b: int|
                !(a == x as int && b == y as int) ==> final(self).tile(a, b) == old(self).tile(
                    a,
                    b,
                ),
    {
        if x >= 0 && x < GRID_DIM as isize && y >= 0 && y < GRID_DIM as isize {
            self.tiles[(y as usize) * GRID_DIM + (x as usize)] = Some(belt);
        }
    }

    /// The cell that a belt at (x, y) with the given output direction sends
    /// items into.
    pub open spec fn front_cell(x: int, y: int, output: Direction) -> (int, int) {
        match output {
            Direction::West => (x - 1, y),
            Direction::North => (x, y + 1),
            Direction::East => (x + 1, y),
            Direction::South => (x, y - 1),
        }
    }

    /// The cell behind a belt at (x, y): the one named by its input
    /// direction, with the same displacement table as the front cell. A
    /// neighbor there feeds the belt straight through when its own output
    /// points back at (x, y).
    pub open spec fn behind_cell(x: int, y: int, input: Direction) -> (int, int) {
        match input {
            Direction::West => (x - 1, y),
            Direction::North => (x, y + 1),
            Direction::East => (x + 1, y),
            Direction::South => (x, y - 1),
        }
    }

    /// The cell to the left of a belt at (x, y), relative to its output
    /// direction.
    pub open spec fn left_cell(x: int, y: int, output: Direction) -> (int, int) {
        match output {
            Direction::West => (x, y - 1),
            Direction::North => (x - 1, y),
            Direction::East => (x, y + 1),
            Direction::South => (x + 1, y),
        }
    }

    /// The cell to the right of a belt at (x, y), relative to its output
    /// direction.
    pub open spec fn right_cell(x: int, y: int, output: Direction) -> (int, int) {
        match output {
            Direction::West => (x, y + 1),
            Direction::North => (x + 1, y),
            Direction::East => (x, y - 1),
            Direction::South => (x - 1, y),
        }
    }

    /// The input direction a belt placed at (x, y) adopts, given the current
    /// neighbors. The neighbor behind takes priority: if it already feeds
    /// straight into this tile, the candidate is returned as supplied.
    /// Otherwise, if exactly one of the two side neighbors faces into the
    /// tile, the input merges from that side; if both or neither face in,
    /// the candidate is kept unchanged. The output is never altered.
    pub open spec fn resolved_belt(self, x: int, y: int, belt: Belt) -> Belt {
        let (bx, by) = Self::behind_cell(x, y, belt.input);
        if self.tile(bx, by) matches Some(behind) && behind.output == belt.input.flip() {
            belt
        } else {
            let (lx, ly) = Self::left_cell(x, y, belt.output);
            let (rx, ry) = Self::right_cell(x, y, belt.output);
            let left_in = self.tile(lx, ly) matches Some(l) && l.output
                == belt.output.rotate_clockwise();
            let right_in = self.tile(rx, ry) matches Some(r) && r.output
                == belt.output.rotate_anti_clockwise();
            if left_in && !right_in {
                Belt { input: belt.output.rotate_clockwise().flip(), output: belt.output }
            } else if right_in && !left_in {
                Belt { input: belt.output.rotate_anti_clockwise().flip(), output: belt.output }
            } else {
                belt
            }
        }
    }

    /// The content of the front cell once `resolved` has been placed at
    /// (x, y). At most one of three adjustments applies, tried in order: a
    /// front belt fed from neither behind nor straight on, whose input is
    /// perpendicular to the new output, is claimed from this side; a front
    /// belt turning across the new output whose input equals that output is
    /// reset to straight; a front belt continuing in the same direction that
    /// is not already fed from behind is reset to straight. Otherwise the
    /// front cell keeps what it held.
    pub open spec fn adjusted_front(self, x: int, y: int, resolved: Belt) -> Option<Belt> {
        let (cx, cy) = Self::front_cell(x, y, resolved.output);
        match self.tile(cx, cy) {
            None => None,
            Some(front) => {
                let (hx, hy) = Self::behind_cell(cx, cy, front.input);
                if (front.input == resolved.output.rotate_clockwise() || front.input
                    == resolved.output.rotate_anti_clockwise()) && self.tile(hx, hy) is None {
                    Some(Belt { input: resolved.output.flip(), output: front.output })
                } else if front.output == resolved.output.rotate_clockwise() || front.output
                    == resolved.output.rotate_anti_clockwise() {
                    if front.input == resolved.output {
                        Some(Belt { input: front.output.flip(), output: front.output })
                    } else {
                        Some(front)
                    }
                } else if front.output == resolved.output && front.input
                    != resolved.output.flip() {
                    Some(Belt { input: front.output.flip(), output: front.output })
                } else {
                    Some(front)
                }
            },
        }
    }

    /// Removes the belt at (x, y), if any. No other cell changes, and a
    /// request off the board is silently ignored.
    pub fn clear_tile(&mut self, x: usize, y: usize)
        requires
            old(self).wf(),
        ensures
            final(self).wf(),
            final(self).tile(x as int, y as int) is None,
            forall|a: int, b: int|
                !(a == x as int && b == y as int) ==> final(self).tile(a, b) == old(self).tile(
                    a,
                    b,
                ),
    {
        if x < GRID_DIM && y < GRID_DIM {
            self.tiles[y * GRID_DIM + x] = None;
        }
    }

    /// Resolves the input direction a belt should adopt if placed at (x, y)
    /// with the given output, from the current neighbors, without touching
    /// the grid. Used both for committing a placement and for previewing
    /// one.
    pub fn calculate_belt_position(&self, x: isize, y: isize, belt: Belt) -> (r: Belt)
        requires
            self.wf(),
        ensures
            r == self.resolved_belt(x as int, y as int, belt),
            r.output == belt.output,
    {
        let mut belt = belt;
        let (belt_behind, _) = self.belt_behind(x, y, belt);
        if let Some(belt_behind) = belt_behind {
            if belt_behind.output == belt.input.flip() {
                return belt;
            }
        }

        let (left_belt, _) = self.belt_left_of(x, y, belt);
        let (right_belt, _) = self.belt_right_of(x, y, belt);
        if left_belt.is_some() && right_belt.is_some() {
            let left_belt = left_belt.unwrap();
            let right_belt = right_belt.unwrap();

            let left_belt_facing_into = left_belt.output == belt.output.rotate_clockwise();
            let right_belt_facing_into = right_belt.output == belt.output.rotate_anti_clockwise();

            if left_belt_facing_into && !right_belt_facing_into {
                belt.input = left_belt.output.flip();
            } else if !left_belt_facing_into && right_belt_facing_into {
                belt.input = right_belt.output.flip();
            }
        } else if let Some(left_belt) = left_belt {
            let left_belt_facing_into = left_belt.output == belt.output.rotate_clockwise();

            if left_belt_facing_into {
                belt.input = left_belt.output.flip();
            }
        } else if let Some(right_belt) = right_belt {
            let right_belt_facing_into = right_belt.output == belt.output.rotate_anti_clockwise();

            if right_belt_facing_into {
                belt.input = right_belt.output.flip();
            }
        }

        belt
    }

    /// Places a belt at (x, y): the candidate's input is resolved against
    /// the neighbors, the belt the new output feeds into may have its own
    /// input adjusted, and the resolved belt is written into the target
    /// cell, overwriting any prior occupant. No cell other than the target
    /// and its front neighbor is ever touched.
    pub fn place_belt(&mut self, x: isize, y: isize, belt: Belt)
        requires
            old(self).wf(),
        ensures
            final(self).wf(),
            ({
                let resolved = old(self).resolved_belt(x as int, y as int, belt);
                let c = Self::front_cell(x as int, y as int, resolved.output);
                &&& Self::in_range(x as int, y as int) ==> final(self).tile(x as int, y as int)
                    == Some(resolved)
                &&& final(self).tile(c.0, c.1) == old(self).adjusted_front(
                    x as int,
                    y as int,
                    resolved,
                )
                &&& forall|a: int, b: int|
                    !(a == x as int && b == y as int) && !(a == c.0 && b == c.1)
                        ==> final(self).tile(a, b) == old(self).tile(a, b)
            }),
    {
        let belt = self.calculate_belt_position(x, y, belt);

        let (front_opt, (front_belt_x, front_belt_y)) = self.belt_in_front_of(x, y, belt);
        if let Some(front_belt) = front_opt {
            let mut front_belt = front_belt;
            if (front_belt.input == belt.output.rotate_clockwise() || front_belt.input
                == belt.output.rotate_anti_clockwise()) && self.belt_behind(
                front_belt_x,
                front_belt_y,
                front_belt,
            ).0.is_none() {
                front_belt.input = belt.output.flip();
                self.set_belt_in_front_of(x, y, belt, front_belt);
            } else if front_belt.output == belt.output.rotate_clockwise() || front_belt.output
                == belt.output.rotate_anti_clockwise() {
                if front_belt.input == belt.output {
                    front_belt.input = front_belt.output.flip();
                    self.set_belt_in_front_of(x, y, belt, front_belt);
                }
            } else if front_belt.output == belt.output && front_belt.input != belt.output.flip() {
                front_belt.input = front_belt.output.flip();
                self.set_belt_in_front_of(x, y, belt, front_belt);
            }
        }

        self.set_belt(x, y, belt);
    }

    /// The left neighbor cell of (x, y) for the given belt, clamped so that
    /// coordinates far off the board stay off the board instead of wrapping.
    fn left_pos(x: isize, y: isize, belt: Belt) -> (r: (isize, isize))
        ensures
            ({
                let c = Self::left_cell(x as int, y as int, belt.output);
                if Self::in_range(c.0, c.1) {
                    r.0 as int == c.0 && r.1 as int == c.1
                } else {
                    !Self::in_range(r.0 as int, r.1 as int)
                }
            }),
    {
        if x >= -1 && x <= GRID_DIM as isize && y >= -1 && y <= GRID_DIM as isize {
            match belt.output {
                Direction::West => (x, y - 1),
                Direction::North => (x - 1, y),
                Direction::East => (x, y + 1),
                Direction::South => (x + 1, y),
            }
        } else {
            (-2, -2)
        }
    }

    /// The right neighbor cell of (x, y) for the given belt.
    fn right_pos(x: isize, y: isize, belt: Belt) -> (r: (isize, isize))
        ensures
            ({
                let c = Self::right_cell(x as int, y as int, belt.output);
                if Self::in_range(c.0, c.1) {
                    r.0 as int == c.0 && r.1 as int == c.1
                } else {
                    !Self::in_range(r.0 as int, r.1 as int)
                }
            }),
    {
        if x >= -1 && x <= GRID_DIM as isize && y >= -1 && y <= GRID_DIM as isize {
            match belt.output {
                Direction::West => (x, y + 1),
                Direction::North => (x + 1, y),
                Direction::East => (x, y - 1),
                Direction::South => (x - 1, y),
            }
        } else {
            (-2, -2)
        }
    }

    /// The cell the belt's output points into.
    fn front_pos(x: isize, y: isize, belt: Belt) -> (r: (isize, isize))
        ensures
            ({
                let c = Self::front_cell(x as int, y as int, belt.output);
                if Self::in_range(c.0, c.1) {
                    r.0 as int == c.0 && r.1 as int == c.1
                } else {
                    !Self::in_range(r.0 as int, r.1 as int)
                }
            }),
    {
        if x >= -1 && x <= GRID_DIM as isize && y >= -1 && y <= GRID_DIM as isize {
            match belt.output {
                Direction::West => (x - 1, y),
                Direction::North => (x, y + 1),
                Direction::East => (x + 1, y),
                Direction::South => (x, y - 1),
            }
        } else {
            (-2, -2)
        }
    }

    /// The cell named by the belt's input direction.
    fn behind_pos(x: isize, y: isize, belt: Belt) -> (r: (isize, isize))
        ensures
            ({
                let c = Self::behind_cell(x as int, y as int, belt.input);
                if Self::in_range(c.0, c.1) {
                    r.0 as int == c.0 && r.1 as int == c.1
                } else {
                    !Self::in_range(r.0 as int, r.1 as int)
                }
            }),
    {
        if x >= -1 && x <= GRID_DIM as isize && y >= -1 && y <= GRID_DIM as isize {
            match belt.input {
                Direction::West => (x - 1, y),
                Direction::North => (x, y + 1),
                Direction::East => (x + 1, y),
                Direction::South => (x, y - 1),
            }
        } else {
            (-2, -2)
        }
    }

    /// The occupant of the left neighbor cell, with that cell's coordinates.
    fn belt_left_of(&self, x: isize, y: isize, belt: Belt) -> (r: (Option<Belt>, (isize, isize)))
        requires
            self.wf(),
        ensures
            ({
                let c = Self::left_cell(x as int, y as int, belt.output);
                r.0 == self.tile(c.0, c.1) && (Self::in_range(c.0, c.1) ==> r.1.0 as int == c.0
                    && r.1.1 as int == c.1)
            }),
    {
        let (x, y) = Self::left_pos(x, y, belt);
        (self.get_belt(x, y), (x, y))
    }

    /// The occupant of the right neighbor cell, with that cell's
    /// coordinates.
    fn belt_right_of(&self, x: isize, y: isize, belt: Belt) -> (r: (Option<Belt>, (isize, isize)))
        requires
            self.wf(),
        ensures
            ({
                let c = Self::right_cell(x as int, y as int, belt.output);
                r.0 == self.tile(c.0, c.1) && (Self::in_range(c.0, c.1) ==> r.1.0 as int == c.0
                    && r.1.1 as int == c.1)
            }),
    {
        let (x, y) = Self::right_pos(x, y, belt);
        (self.get_belt(x, y), (x, y))
    }

    /// The occupant of the front neighbor cell, with that cell's
    /// coordinates.
    fn belt_in_front_of(&self, x: isize, y: isize, belt: Belt) -> (r: (
        Option<Belt>,
        (isize, isize),
    ))
        requires
            self.wf(),
        ensures
            ({
                let c = Self::front_cell(x as int, y as int, belt.output);
                r.0 == self.tile(c.0, c.1) && (Self::in_range(c.0, c.1) ==> r.1.0 as int == c.0
                    && r.1.1 as int == c.1)
            }),
    {
        let (x, y) = Self::front_pos(x, y, belt);
        (self.get_belt(x, y), (x, y))
    }

    /// Writes a belt into the front neighbor cell of (x, y); a front cell
    /// off the board swallows the write.
    fn set_belt_in_front_of(&mut self, x: isize, y: isize, belt: Belt, new_belt: Belt)
        requires
            old(self).wf(),
        ensures
            final(self).wf(),
            ({
                let c = Self::front_cell(x as int, y as int, belt.output);
                (Self::in_range(c.0, c.1) ==> final(self).tile(c.0, c.1) == Some(new_belt))
                    && forall|a: int, b: int|
                    !(a == c.0 && b == c.1) ==> final(self).tile(a, b) == old(self).tile(a, b)
            }),
    {
        let (x, y) = Self::front_pos(x, y, belt);
        self.set_belt(x, y, new_belt);
    }

    /// The occupant of the cell behind (x, y), with that cell's
    /// coordinates.
    fn belt_behind(&self, x: isize, y: isize, belt: Belt) -> (r: (Option<Belt>, (isize, isize)))
        requires
            self.wf(),
        ensures
            ({
                let c = Self::behind_cell(x as int, y as int, belt.input);
                r.0 == self.tile(c.0, c.1) && (Self::in_range(c.0, c.1) ==> r.1.0 as int == c.0
                    && r.1.1 as int == c.1)
            }),
    {
        let (x, y) = Self::behind_pos(x, y, belt);
        (self.get_belt(x, y), (x, y))
    }
}

/// Resolution never fires without neighbors: if the cells behind, left of
/// and right of the placement are all empty, the candidate belt keeps
/// exactly the input it was supplied with.
pub proof fn lemma_resolve_no_neighbors(g: Grid, x: int, y: int, belt: Belt)
    requires
        g.tile(
            Grid::behind_cell(x, y, belt.input).0,
            Grid::behind_cell(x, y, belt.input).1,
        ) is None,
        g.tile(Grid::left_cell(x, y, belt.output).0, Grid::left_cell(x, y, belt.output).1) is None,
        g.tile(
            Grid::right_cell(x, y, belt.output).0,
            Grid::right_cell(x, y, belt.output).1,
        ) is None,
    ensures
        g.resolved_belt(x, y, belt) == belt,
{
}

} // verus!
