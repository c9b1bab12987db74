use vstd::prelude::*;

use crate::consts::MILLIS_PER_UPDATE;
use crate::elements::{Ate, Food, Segment, Wall};
use crate::grid::{Direction, Grid, GridPosition};
use crate::snake::Snake;

verus! {

/// One round of the game: the playfield, its occupants, the score, and the
/// fixed-timestep bookkeeping. Replaced wholesale on restart; mutated only
/// through [`GameState::poll`] and the input handlers.
pub struct GameState {
    pub grid: Grid,
    pub snake: Snake,
    pub food: Food,
    pub walls: Wall,
    pub gameover: bool,
    pub start: bool,
    pub points: u32,
    pub last_update: u64,
}

impl GameState {
    /// The smallest playfield a round fits on: wide enough for the snake's
    /// starting column and its tail, and tall enough for the floor bands and
    /// the food ranges.
    pub open spec fn grid_ok(grid: Grid) -> bool {
        grid.width >= 4 && grid.height >= 5
    }

    /// Where a fresh snake's head starts.
    pub open spec fn start_head_pos(grid: Grid) -> GridPosition {
        GridPosition { x: (grid.width / 4) as i16, y: (grid.height / 2) as i16 }
    }

    /// A snake as a fresh round makes it: length two, moving right from the
    /// starting cell.
    pub open spec fn fresh_snake(s: Snake, grid: Grid) -> bool {
        &&& s.head == (Segment { pos: Self::start_head_pos(grid), dir: Direction::Right })
        &&& s.tail.pos.x == Self::start_head_pos(grid).x - 1
        &&& s.tail.pos.y == Self::start_head_pos(grid).y
        &&& s.tail.dir == Direction::Right
        &&& s.body@.len() == 0
        &&& s.dir == Direction::Right
        &&& s.last_update_dir == Direction::Right
        &&& s.ate is None
        &&& s.next_dir is None
    }

    /// Food as a fresh round places it: anywhere strictly inside the border
    /// columns and rows.
    pub open spec fn fresh_food(f: Food, grid: Grid) -> bool {
        1 <= f.pos.x < grid.width - 1 && 1 <= f.pos.y < grid.height - 1
    }

    /// What a fresh round looks like: score zero, not started, not over, the
    /// timestamp taken from the caller's clock, and newly built occupants.
    pub open spec fn fresh_round_rel(self, grid: Grid, now: u64) -> bool {
        &&& self.grid == grid
        &&& Self::fresh_snake(self.snake, grid)
        &&& Self::fresh_food(self.food, grid)
        &&& self.walls.wf(grid)
        &&& self.walls.covers_bands(grid)
        &&& !self.gameover
        &&& !self.start
        &&& self.points == 0
        &&& self.last_update == now
    }

    /// The round invariant: a playable grid and occupants that lie on it.
    pub open spec fn wf(self) -> bool {
        &&& Self::grid_ok(self.grid)
        &&& self.snake.wf(self.grid)
        &&& self.grid.contains(self.food.pos)
        &&& self.walls.wf(self.grid)
    }

    /// Whether a poll at `now` milliseconds meets the fixed update interval.
    pub open spec fn tick_ready(self, now: u64) -> bool {
        now >= self.last_update + MILLIS_PER_UPDATE
    }

    /// Builds the snake, the food and the walls of a new round.
    fn fresh_parts(grid: Grid) -> (r: (Snake, Food, Wall))
        requires
            Self::grid_ok(grid),
        ensures
            Self::fresh_snake(r.0, grid),
            r.0.wf(grid),
            Self::fresh_food(r.1, grid),
            r.2.wf(grid),
            r.2.covers_bands(grid),
    {
        let head_x = (grid.width as u16 / 4) as i16;
        let head_y = (grid.height as u16 / 2) as i16;
        let snake = Snake::new(GridPosition::new(head_x, head_y));
        let food_pos = GridPosition::random(1, 1, grid.width - 1, grid.height - 1).unwrap();
        let food = Food::new(food_pos);
        let walls = Wall::new(grid);
        (snake, food, walls)
    }

    /// A new round on `grid`, with the caller's clock reading `now`
    /// milliseconds. The round waits for the start signal before it ticks.
    pub fn new(grid: Grid, now: u64) -> (s: GameState)
        requires
            Self::grid_ok(grid),
        ensures
            s.wf(),
            s.fresh_round_rel(grid, now),
    {
        let (snake, food, walls) = Self::fresh_parts(grid);
        GameState {
            grid,
            snake,
            food,
            walls,
            gameover: false,
            start: false,
            points: 0,
            last_update: now,
        }
    }

    /// Marks the round as started; a start signal while already running
    /// changes nothing else.
    pub fn press_start(&mut self)
        ensures
            *final(self) == (GameState { start: true, ..*old(self) }),
    {
        self.start = true;
    }

    /// Hands a directional input to the snake's buffer, subject to the
    /// anti-reversal rule; ignored before the round has started.
    pub fn handle_direction(&mut self, dir: Direction)
        ensures
            old(self).start ==> *final(self) == (GameState {
                snake: old(self).snake.buffered(dir),
                ..*old(self)
            }),
            !old(self).start ==> *final(self) == *old(self),
    {
        if self.start {
            self.snake.buffer_direction(dir);
        }
    }

    /// Tears the round down and builds a fresh one on the same grid, with
    /// score zero and the start signal cleared. A restart request before the
    /// round has started is a no-op.
    pub fn restart(&mut self, now: u64)
        requires
            old(self).wf(),
        ensures
            old(self).start ==> final(self).wf() && final(self).fresh_round_rel(
                old(self).grid,
                now,
            ),
            !old(self).start ==> *final(self) == *old(self),
    {
        if self.start {
            let (snake, food, walls) = Self::fresh_parts(self.grid);
            self.snake = snake;
            self.food = food;
            self.walls = walls;
            self.gameover = false;
            self.start = false;
            self.points = 0;
            self.last_update = now;
        }
    }

    /// One poll of the fixed-timestep controller at `now` milliseconds. A
    /// poll before the interval has elapsed changes nothing; one that meets
    /// it refreshes the timestamp whether or not the round is running, and,
    /// while the round runs, ticks the snake once and interprets the outcome:
    /// food relocates the food and scores a point, a collision ends the
    /// round.
    pub fn poll(&mut self, now: u64)
        requires
            old(self).wf(),
        ensures
            final(self).wf(),
            final(self).grid == old(self).grid,
            final(self).walls == old(self).walls,
            final(self).start == old(self).start,
            !old(self).tick_ready(now) ==> *final(self) == *old(self),
            old(self).tick_ready(now) ==> final(self).last_update == now,
            old(self).tick_ready(now) && (!old(self).start || old(self).gameover) ==> {
                &&& final(self).snake == old(self).snake
                &&& final(self).food == old(self).food
                &&& final(self).points == old(self).points
                &&& final(self).gameover == old(self).gameover
            },
            old(self).tick_ready(now) && old(self).start && !old(self).gameover ==> {
                &&& Snake::update_rel(
                    old(self).snake,
                    final(self).snake,
                    old(self).grid,
                    old(self).food.pos,
                    old(self).walls.cells@,
                )
                &&& final(self).snake.ate == Some(Ate::Food) ==> {
                    &&& 2 <= final(self).food.pos.x < old(self).grid.width - 1
                    &&& 3 <= final(self).food.pos.y < old(self).grid.height - 1
                    &&& final(self).points == (if old(self).points < u32::MAX {
                        old(self).points + 1
                    } else {
                        old(self).points as int
                    })
                    &&& !final(self).gameover
                }
                &&& (final(self).snake.ate == Some(Ate::Itself) || final(self).snake.ate
                    == Some(Ate::Wall)) ==> {
                    &&& final(self).gameover
                    &&& final(self).food == old(self).food
                    &&& final(self).points == old(self).points
                }
                &&& final(self).snake.ate is None ==> {
                    &&& !final(self).gameover
                    &&& final(self).food == old(self).food
                    &&& final(self).points == old(self).points
                }
            },
    {
        if now >= MILLIS_PER_UPDATE && now - MILLIS_PER_UPDATE >= self.last_update {
            if !self.gameover && self.start {
                let food_now = self.food;
                self.snake.update(&food_now, &self.walls, self.grid);
                match self.snake.ate {
                    Some(Ate::Food) => {
                        let relocated = self.food.relocate(
                            2,
                            3,
                            self.grid.width - 1,
                            self.grid.height - 1,
                        );
                        match relocated {
                            Ok(_) => {},
                            Err(_) => {},
                        }
                        if self.points < u32::MAX {
                            self.points = self.points + 1;
                        }
                    },
                    Some(Ate::Itself) => {
                        self.gameover = true;
                    },
                    Some(Ate::Wall) => {
                        self.gameover = true;
                    },
                    None => {},
                }
            }
            self.last_update = now;
        }
    }
}

/// The fixed timestep absorbs extra polls: once a poll has met the interval
/// and refreshed the timestamp to `now`, no poll earlier than one whole
/// interval later is ready, so it changes nothing, however often the driver
/// polls.
pub proof fn lemma_poll_idempotent_within_interval(s: GameState, now: u64, later: u64)
    requires
        s.last_update == now,
        later < now + MILLIS_PER_UPDATE,
    ensures
        !s.tick_ready(later),
{
}

} // verus!
