use vstd::prelude::*;

use crate::consts::{GRID_HEIGHT, GRID_WIDTH};
use crate::rng::{fresh_rng, gen_range_i16};

verus! {

/// A cell of the playfield, addressed as column `x` and row `y`.
/// Values are kept inside `[0, width) x [0, height)` of some [`Grid`]
/// by the wrap-around movement arithmetic.
#[derive(Clone, Copy, PartialEq, Eq, Structural, Debug)]
pub struct GridPosition {
    pub x: i16,
    pub y: i16,
}

/// A movement direction. `Still` marks an occupant that does not move,
/// such as a wall segment; it is its own inverse and moving by it is a
/// no-op.
#[derive(Clone, Copy, PartialEq, Eq, Structural, Debug)]
pub enum Direction {
    Up,
    Down,
    Left,
    Right,
    Still,
}

/// The dimensions of a playfield.
#[derive(Clone, Copy, PartialEq, Eq, Structural, Debug)]
pub struct Grid {
    pub width: i16,
    pub height: i16,
}

/// The one ill-formed input the core can receive: a random-range request
/// with an empty or inverted range.
#[derive(Clone, Copy, PartialEq, Eq, Structural, Debug)]
pub enum GameError {
    InvalidRange,
}

impl Grid {
    /// A grid is well formed when both sides are positive.
    pub open spec fn wf(self) -> bool {
        0 < self.width && 0 < self.height
    }

    /// Whether `pos` lies on this grid.
    pub open spec fn contains(self, pos: GridPosition) -> bool {
        0 <= pos.x < self.width && 0 <= pos.y < self.height
    }

    /// The grid of the standard game, [`GRID_WIDTH`] by [`GRID_HEIGHT`].
    pub fn standard() -> (g: Grid)
        ensures
            g == (Grid { width: GRID_WIDTH, height: GRID_HEIGHT }),
    {
        Grid { width: GRID_WIDTH, height: GRID_HEIGHT }
    }
}

/// One coordinate decreased by one, wrapping from `0` to `n - 1`: the
/// true-modulo form of `(v - 1) mod n` on in-range inputs.
pub open spec fn wrap_dec(v: i16, n: i16) -> i16 {
    if v == 0 {
        (n - 1) as i16
    } else {
        (v - 1) as i16
    }
}

/// One coordinate increased by one, wrapping from `n - 1` to `0`: the
/// true-modulo form of `(v + 1) mod n` on in-range inputs.
pub open spec fn wrap_inc(v: i16, n: i16) -> i16 {
    if v + 1 == n {
        0
    } else {
        (v + 1) as i16
    }
}

/// Where one step from `pos` in direction `dir` lands on `grid`, with
/// wrap-around at every edge. `Still` stays in place.
pub open spec fn move_spec(pos: GridPosition, dir: Direction, grid: Grid) -> GridPosition {
    match dir {
        Direction::Up => GridPosition { x: pos.x, y: wrap_dec(pos.y, grid.height) },
        Direction::Down => GridPosition { x: pos.x, y: wrap_inc(pos.y, grid.height) },
        Direction::Left => GridPosition { x: wrap_dec(pos.x, grid.width), y: pos.y },
        Direction::Right => GridPosition { x: wrap_inc(pos.x, grid.width), y: pos.y },
        Direction::Still => pos,
    }
}

impl GridPosition {
    pub fn new(x: i16, y: i16) -> (p: Self)
        ensures
            p == (GridPosition { x, y }),
    {
        GridPosition { x, y }
    }

    /// A position drawn from `[min_x, max_x) x [min_y, max_y)`. An empty or
    /// inverted range on either axis is rejected with `InvalidRange`; on a
    /// non-empty range the result lies in it, and nothing more is promised
    /// of which cell comes out.
    pub fn random(min_x: i16, min_y: i16, max_x: i16, max_y: i16) -> (r: Result<
        GridPosition,
        GameError,
    >)
        ensures
            (r is Ok) <==> min_x < max_x && min_y < max_y,
            r is Ok ==> min_x <= r.unwrap().x < max_x && min_y <= r.unwrap().y < max_y,
            r is Err ==> r == Err::<GridPosition, GameError>(GameError::InvalidRange),
    {
        if min_x >= max_x || min_y >= max_y {
            return Err(GameError::InvalidRange);
        }
        let mut rng = fresh_rng();
        let x = gen_range_i16(&mut rng, min_x, max_x);
        let y = gen_range_i16(&mut rng, min_y, max_y);
        Ok(GridPosition { x, y })
    }

    /// One wrapped step on an arbitrary grid.
    pub fn new_from_move_on(grid: Grid, pos: GridPosition, dir: Direction) -> (p: Self)
        requires
            grid.wf(),
            grid.contains(pos),
        ensures
            p == move_spec(pos, dir, grid),
            grid.contains(p),
    {
        match dir {
            Direction::Up => GridPosition { x: pos.x, y: if pos.y == 0 { grid.height - 1 } else { pos.y - 1 } },
            Direction::Down => GridPosition { x: pos.x, y: if pos.y + 1 == grid.height { 0 } else { pos.y + 1 } },
            Direction::Left => GridPosition { x: if pos.x == 0 { grid.width - 1 } else { pos.x - 1 }, y: pos.y },
            Direction::Right => GridPosition { x: if pos.x + 1 == grid.width { 0 } else { pos.x + 1 }, y: pos.y },
            Direction::Still => GridPosition { x: pos.x, y: pos.y },
        }
    }

    /// One wrapped step on the standard grid.
    pub fn new_from_move(pos: GridPosition, dir: Direction) -> (p: Self)
        requires
            (Grid { width: GRID_WIDTH, height: GRID_HEIGHT }).contains(pos),
        ensures
            p == move_spec(pos, dir, (Grid { width: GRID_WIDTH, height: GRID_HEIGHT })),
    {
        Self::new_from_move_on(Grid::standard(), pos, dir)
    }
}

impl Direction {
    /// What `inverse` returns: opposite pairs swap, `Still` maps to itself.
    pub open spec fn inverse_spec(self) -> Direction {
        match self {
            Direction::Up => Direction::Down,
            Direction::Down => Direction::Up,
            Direction::Left => Direction::Right,
            Direction::Right => Direction::Left,
            Direction::Still => Direction::Still,
        }
    }

    /// Whether this is one of the four cardinal directions.
    pub open spec fn is_moving(self) -> bool {
        self != Direction::Still
    }

    pub fn inverse(&self) -> (d: Self)
        ensures
            d == self.inverse_spec(),
    {
        match *self {
            Direction::Up => Direction::Down,
            Direction::Down => Direction::Up,
            Direction::Left => Direction::Right,
            Direction::Right => Direction::Left,
            Direction::Still => Direction::Still,
        }
    }
}

/// Wrap invariant: a step and the step back cancel, from every cell of a
/// well-formed grid, in every direction, boundary rows and columns included.
pub proof fn lemma_move_inverse_cancels(grid: Grid, pos: GridPosition, dir: Direction)
    requires
        grid.wf(),
        grid.contains(pos),
    ensures
        move_spec(move_spec(pos, dir, grid), dir.inverse_spec(), grid) == pos,
{
}

/// Wrap invariant: the chain Up, Down, Left, Right returns to the start,
/// from every cell of a well-formed grid.
pub proof fn lemma_wrap_invariant(grid: Grid, pos: GridPosition)
    requires
        grid.wf(),
        grid.contains(pos),
    ensures
        move_spec(
            move_spec(
                move_spec(move_spec(pos, Direction::Up, grid), Direction::Down, grid),
                Direction::Left,
                grid,
            ),
            Direction::Right,
            grid,
        ) == pos,
{
}

} // verus!
