use vstd::prelude::*;

use crate::grid::{Direction, GameError, Grid, GridPosition};
use crate::rng::{fresh_rng, gen_u32};

verus! {

/// One occupied cell, together with the direction its occupant was moving
/// when it settled there. Wall segments do not move and carry `Still`.
#[derive(Clone, Copy, PartialEq, Eq, Structural, Debug)]
pub struct Segment {
    pub pos: GridPosition,
    pub dir: Direction,
}

impl Segment {
    pub fn new(pos: GridPosition, dir: Direction) -> (s: Self)
        ensures
            s == (Segment { pos, dir }),
    {
        Segment { pos, dir }
    }
}

/// What the snake's new head landed on this tick.
#[derive(Clone, Copy, PartialEq, Eq, Structural, Debug)]
pub enum Ate {
    Itself,
    Food,
    Wall,
}

/// Whether some segment of `segs` occupies `pos`.
pub open spec fn seq_contains_pos(segs: Seq<Segment>, pos: GridPosition) -> bool {
    exists|i: int| 0 <= i < segs.len() && segs[i].pos == pos
}

/// The single piece of food: one cell, reassigned on consumption.
#[derive(Clone, Copy, PartialEq, Eq, Structural, Debug)]
pub struct Food {
    pub pos: GridPosition,
}

impl Food {
    pub fn new(pos: GridPosition) -> (f: Food)
        ensures
            f.pos == pos,
    {
        Food { pos }
    }

    /// Moves the food to a cell drawn from `[min_x, max_x) x [min_y, max_y)`,
    /// without regard to what else occupies that cell. An empty or inverted
    /// range is rejected with `InvalidRange` and leaves the food in place.
    pub fn relocate(&mut self, min_x: i16, min_y: i16, max_x: i16, max_y: i16) -> (r: Result<
        (),
        GameError,
    >)
        ensures
            (r is Ok) <==> min_x < max_x && min_y < max_y,
            r is Ok ==> min_x <= final(self).pos.x < max_x && min_y <= final(self).pos.y < max_y,
            r is Err ==> *final(self) == *old(self) && r == Err::<(), GameError>(
                GameError::InvalidRange,
            ),
    {
        match GridPosition::random(min_x, min_y, max_x, max_y) {
            Ok(pos) => {
                self.pos = pos;
                Ok(())
            },
            Err(e) => Err(e),
        }
    }
}

/// A solid cell of row `y` on `grid`: the two interior floor bands, the
/// second row from the top and the last row.
pub open spec fn wall_band(grid: Grid, pos: GridPosition) -> bool {
    pos.y == 1 || pos.y + 1 == grid.height
}

/// A cell that the generator may make a wall: a band cell, or a perimeter
/// column cell outside the top row, which row is kept free for the score.
pub open spec fn wall_candidate(grid: Grid, pos: GridPosition) -> bool {
    wall_band(grid, pos) || ((pos.x == 0 || pos.x + 1 == grid.width) && pos.y != 0)
}

/// The static obstacle set of one round; never mutated after construction.
#[derive(Clone, Debug)]
pub struct Wall {
    pub cells: Vec<Segment>,
}

impl Wall {
    /// Every wall segment is a still candidate cell of `grid`, and no cell
    /// appears twice.
    pub open spec fn wf(self, grid: Grid) -> bool {
        &&& forall|k: int|
            0 <= k < self.cells@.len() ==> {
                &&& (#[trigger] self.cells@[k]).dir == Direction::Still
                &&& grid.contains(self.cells@[k].pos)
                &&& wall_candidate(grid, self.cells@[k].pos)
            }
        &&& forall|k1: int, k2: int|
            0 <= k1 < k2 < self.cells@.len() ==> #[trigger] self.cells@[k1].pos
                != #[trigger] self.cells@[k2].pos
    }

    /// Whether both floor bands are solid: every band cell of the grid is a
    /// wall.
    pub open spec fn covers_bands(self, grid: Grid) -> bool {
        forall|pos: GridPosition|
            grid.contains(pos) && wall_band(grid, pos) ==> #[trigger] seq_contains_pos(
                self.cells@,
                pos,
            )
    }

    /// Builds the round's walls: both floor bands are solid; each perimeter
    /// column cell outside the bands and the top row is a wall unless an
    /// independent per-cell gap roll, thirty in a hundred, spares it.
    pub fn new(grid: Grid) -> (w: Wall)
        requires
            grid.wf(),
        ensures
            w.wf(grid),
            w.covers_bands(grid),
    {
        let mut rng = fresh_rng();
        let mut cells: Vec<Segment> = Vec::new();
        let mut i: i16 = 0;
        while i < grid.width
            invariant
                grid.wf(),
                0 <= i <= grid.width,
                forall|k: int|
                    0 <= k < cells@.len() ==> {
                        &&& (#[trigger] cells@[k]).dir == Direction::Still
                        &&& grid.contains(cells@[k].pos)
                        &&& wall_candidate(grid, cells@[k].pos)
                        &&& cells@[k].pos.x < i
                    },
                forall|k1: int, k2: int|
                    0 <= k1 < k2 < cells@.len() ==> #[trigger] cells@[k1].pos
                        != #[trigger] cells@[k2].pos,
                forall|pos: GridPosition|
                    grid.contains(pos) && wall_band(grid, pos) && pos.x < i
                        ==> #[trigger] seq_contains_pos(cells@, pos),
            decreases grid.width - i,
        {
            let mut j: i16 = 0;
            while j < grid.height
                invariant
                    grid.wf(),
                    0 <= i < grid.width,
                    0 <= j <= grid.height,
                    forall|k: int|
                        0 <= k < cells@.len() ==> {
                            &&& (#[trigger] cells@[k]).dir == Direction::Still
                            &&& grid.contains(cells@[k].pos)
                            &&& wall_candidate(grid, cells@[k].pos)
                            &&& (cells@[k].pos.x < i || (cells@[k].pos.x == i && cells@[k].pos.y
                                < j))
                        },
                    forall|k1: int, k2: int|
                        0 <= k1 < k2 < cells@.len() ==> #[trigger] cells@[k1].pos
                            != #[trigger] cells@[k2].pos,
                    forall|pos: GridPosition|
                        grid.contains(pos) && wall_band(grid, pos) && (pos.x < i || (pos.x == i
                            && pos.y < j)) ==> #[trigger] seq_contains_pos(cells@, pos),
                decreases grid.height - j,
            {
                let ghost prev = cells@;
                if j == 1 || j + 1 == grid.height {
                    cells.push(Segment::new(GridPosition::new(i, j), Direction::Still));
                    proof {
                        assert(cells@[prev.len() as int].pos == (GridPosition { x: i, y: j }));
                        assert forall|pos: GridPosition|
                            grid.contains(pos) && wall_band(grid, pos) && (pos.x < i || (pos.x == i
                                && pos.y < j + 1)) implies #[trigger] seq_contains_pos(
                            cells@,
                            pos,
                        ) by {
                            if pos.x == i && pos.y == j {
                                assert(cells@[prev.len() as int].pos == pos);
                            } else {
                                assert(seq_contains_pos(prev, pos));
                                let witness = choose|n: int|
                                    0 <= n < prev.len() && prev[n].pos == pos;
                                assert(cells@[witness].pos == pos);
                            }
                        }
                    }
                } else if (i == 0 || i + 1 == grid.width) && j != 0 {
                    let roll = gen_u32(&mut rng);
                    if roll % 100 >= 30 {
                        cells.push(Segment::new(GridPosition::new(i, j), Direction::Still));
                    }
                    proof {
                        assert forall|pos: GridPosition|
                            grid.contains(pos) && wall_band(grid, pos) && (pos.x < i || (pos.x == i
                                && pos.y < j + 1)) implies #[trigger] seq_contains_pos(
                            cells@,
                            pos,
                        ) by {
                            assert(seq_contains_pos(prev, pos));
                            let witness = choose|n: int| 0 <= n < prev.len() && prev[n].pos == pos;
                            assert(cells@[witness].pos == pos);
                        }
                    }
                } else {
                    proof {
                        assert forall|pos: GridPosition|
                            grid.contains(pos) && wall_band(grid, pos) && (pos.x < i || (pos.x == i
                                && pos.y < j + 1)) implies #[trigger] seq_contains_pos(
                            cells@,
                            pos,
                        ) by {
                            assert(seq_contains_pos(prev, pos));
                        }
                    }
                }
                j = j + 1;
            }
            i = i + 1;
        }
        Wall { cells }
    }

    /// Whether some wall segment occupies `pos`.
    pub fn contains_pos(&self, pos: GridPosition) -> (r: bool)
        ensures
            r == seq_contains_pos(self.cells@, pos),
    {
        let mut k: usize = 0;
        while k < self.cells.len()
            invariant
                k <= self.cells@.len(),
                forall|n: int| 0 <= n < k ==> #[trigger] self.cells@[n].pos != pos,
            decreases self.cells@.len() - k,
        {
            if self.cells[k].pos == pos {
                return true;
            }
            k = k + 1;
        }
        false
    }
}

} // verus!
