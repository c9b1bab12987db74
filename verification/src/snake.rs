use vstd::prelude::*;

use crate::elements::{seq_contains_pos, Ate, Food, Segment, Wall};
use crate::grid::{move_spec, Direction, Grid, GridPosition};

verus! {

/// Which collision, if any, a head landing on `head_pos` suffers, with the
/// deliberate tie-break order: the snake's own body first, then food, then
/// a wall.
pub open spec fn classify(
    head_pos: GridPosition,
    body: Seq<Segment>,
    food_pos: GridPosition,
    walls: Seq<Segment>,
) -> Option<Ate> {
    if seq_contains_pos(body, head_pos) {
        Some(Ate::Itself)
    } else if head_pos == food_pos {
        Some(Ate::Food)
    } else if seq_contains_pos(walls, head_pos) {
        Some(Ate::Wall)
    } else {
        None
    }
}

/// Collision priority: whenever the new head cell is also a body cell, the
/// outcome is `Itself`, even when the food or a wall occupies the same cell.
pub proof fn lemma_collision_priority(
    head_pos: GridPosition,
    body: Seq<Segment>,
    food_pos: GridPosition,
    walls: Seq<Segment>,
)
    requires
        seq_contains_pos(body, head_pos),
    ensures
        classify(head_pos, body, food_pos, walls) == Some(Ate::Itself),
{
}

/// The player's snake: a head and a tail segment, the ordered body cells
/// between them (oldest first), the direction it moves, the direction of the
/// last committed tick, at most one buffered turn, and the outcome of the
/// most recent tick.
#[derive(Clone, Debug)]
pub struct Snake {
    pub head: Segment,
    pub dir: Direction,
    pub body: Vec<Segment>,
    pub tail: Segment,
    pub ate: Option<Ate>,
    pub last_update_dir: Direction,
    pub next_dir: Option<Direction>,
}

impl Snake {
    /// Every occupied cell lies on `grid`, and every direction the snake can
    /// move by is a cardinal one.
    pub open spec fn wf(self, grid: Grid) -> bool {
        &&& grid.contains(self.head.pos)
        &&& grid.contains(self.tail.pos)
        &&& forall|k: int|
            0 <= k < self.body@.len() ==> grid.contains((#[trigger] self.body@[k]).pos)
        &&& self.dir.is_moving()
        &&& self.last_update_dir.is_moving()
        &&& match self.next_dir {
            Some(d) => d.is_moving(),
            None => true,
        }
    }

    /// How many cells the snake occupies: head and tail plus the body.
    pub open spec fn occupied_len(self) -> int {
        self.body@.len() + 2int
    }

    /// Whether the buffered turn lands this tick: only when the last two
    /// committed ticks moved in the same direction.
    pub open spec fn turn_pending(self) -> bool {
        self.last_update_dir == self.dir && self.next_dir is Some
    }

    /// The direction this tick commits to.
    pub open spec fn committed_dir(self) -> Direction {
        if self.turn_pending() {
            self.next_dir.unwrap()
        } else {
            self.dir
        }
    }

    /// The body once the old head has settled onto its back.
    pub open spec fn grown_body(self) -> Seq<Segment> {
        self.body@.push(self.head)
    }

    /// Where the head lands this tick.
    pub open spec fn new_head_pos(self, grid: Grid) -> GridPosition {
        move_spec(self.head.pos, self.committed_dir(), grid)
    }

    /// The outcome the next tick will record.
    pub open spec fn tick_outcome(
        self,
        grid: Grid,
        food_pos: GridPosition,
        walls: Seq<Segment>,
    ) -> Option<Ate> {
        classify(self.new_head_pos(grid), self.grown_body(), food_pos, walls)
    }

    /// The anti-reversal rule: a submitted turn is taken into the buffer only
    /// when it is a cardinal direction and does not reverse the direction the
    /// snake is committed to.
    pub open spec fn buffer_accepts(self, dir: Direction) -> bool {
        dir.is_moving() && if self.dir != self.last_update_dir {
            dir.inverse_spec() != self.dir
        } else {
            dir.inverse_spec() != self.last_update_dir
        }
    }

    /// The snake after one direction submission.
    pub open spec fn buffered(self, dir: Direction) -> Snake {
        if self.buffer_accepts(dir) {
            Snake { next_dir: Some(dir), ..self }
        } else {
            self
        }
    }

    /// How one tick transforms the snake: `post` is `pre` after committing an
    /// eligible buffered turn, advancing the head one wrapped step, recording
    /// the outcome, and shrinking the back of the body only on an outcome-free
    /// move.
    pub open spec fn update_rel(
        pre: Snake,
        post: Snake,
        grid: Grid,
        food_pos: GridPosition,
        walls: Seq<Segment>,
    ) -> bool {
        &&& post.dir == pre.committed_dir()
        &&& post.last_update_dir == pre.committed_dir()
        &&& post.next_dir == (if pre.turn_pending() {
            Option::<Direction>::None
        } else {
            pre.next_dir
        })
        &&& post.head == (Segment { pos: pre.new_head_pos(grid), dir: pre.committed_dir() })
        &&& post.ate == pre.tick_outcome(grid, food_pos, walls)
        &&& (post.ate is Some ==> post.body@ == pre.grown_body() && post.tail == pre.tail)
        &&& (post.ate is None ==> {
            &&& post.body@ == pre.grown_body().drop_first()
            &&& post.tail.pos == pre.grown_body()[0].pos
            &&& post.tail.dir == (if pre.grown_body().len() == 1 {
                pre.committed_dir()
            } else {
                pre.grown_body()[1].dir
            })
        })
    }

    /// A fresh snake of length two at `pos`, moving right; its tail sits one
    /// cell to the left, so `pos` may not lie in the leftmost column.
    pub fn new(pos: GridPosition) -> (s: Snake)
        requires
            1 <= pos.x,
        ensures
            s.head == (Segment { pos, dir: Direction::Right }),
            s.tail == (Segment {
                pos: GridPosition { x: (pos.x - 1) as i16, y: pos.y },
                dir: Direction::Right,
            }),
            s.body@ == Seq::<Segment>::empty(),
            s.dir == Direction::Right,
            s.last_update_dir == Direction::Right,
            s.ate is None,
            s.next_dir is None,
    {
        Snake {
            head: Segment::new(pos, Direction::Right),
            dir: Direction::Right,
            last_update_dir: Direction::Right,
            body: Vec::new(),
            tail: Segment::new(GridPosition::new(pos.x - 1, pos.y), Direction::Right),
            ate: None,
            next_dir: None,
        }
    }

    /// Submits `dir` for the next tick, subject to the anti-reversal rule;
    /// an accepted turn overwrites whatever was buffered before. Directions
    /// that do not move are ignored: the input layer only delivers the four
    /// cardinal symbols.
    pub fn buffer_direction(&mut self, dir: Direction)
        ensures
            *final(self) == old(self).buffered(dir),
    {
        let accept = if self.dir != self.last_update_dir {
            dir.inverse() != self.dir && dir != Direction::Still
        } else {
            dir.inverse() != self.last_update_dir && dir != Direction::Still
        };
        if accept {
            self.next_dir = Some(dir);
        }
    }

    pub fn eats(&self, food: &Food) -> (r: bool)
        ensures
            r == (self.head.pos == food.pos),
    {
        self.head.pos == food.pos
    }

    pub fn eats_self(&self) -> (r: bool)
        ensures
            r == seq_contains_pos(self.body@, self.head.pos),
    {
        let mut k: usize = 0;
        while k < self.body.len()
            invariant
                k <= self.body@.len(),
                forall|n: int| 0 <= n < k ==> (#[trigger] self.body@[n]).pos != self.head.pos,
            decreases self.body@.len() - k,
        {
            if self.body[k].pos == self.head.pos {
                return true;
            }
            k = k + 1;
        }
        false
    }

    pub fn collides(&self, walls: &Wall) -> (r: bool)
        ensures
            r == seq_contains_pos(walls.cells@, self.head.pos),
    {
        walls.contains_pos(self.head.pos)
    }

    /// One tick of the state machine: commit a buffered turn when eligible,
    /// advance the head one wrapped step, classify what the head landed on,
    /// and shrink the back of the body only on a collision-free,
    /// food-free move, so that eating grows the snake by one cell.
    pub fn update(&mut self, food: &Food, walls: &Wall, grid: Grid)
        requires
            grid.wf(),
            old(self).wf(grid),
        ensures
            final(self).wf(grid),
            Snake::update_rel(*old(self), *final(self), grid, food.pos, walls.cells@),
            final(self).ate == Some(Ate::Food) ==> final(self).occupied_len()
                == old(self).occupied_len() + 1,
            final(self).ate is None ==> final(self).occupied_len() == old(self).occupied_len(),
    {
        if self.last_update_dir == self.dir && self.next_dir.is_some() {
            self.dir = self.next_dir.unwrap();
            self.next_dir = None;
        }

        let new_head_pos = GridPosition::new_from_move_on(grid, self.head.pos, self.dir);
        let new_head = Segment::new(new_head_pos, self.dir);
        self.body.push(self.head);
        self.head = new_head;

        if self.eats_self() {
            self.ate = Some(Ate::Itself);
        } else if self.eats(food) {
            self.ate = Some(Ate::Food);
        } else if self.collides(walls) {
            self.ate = Some(Ate::Wall);
        } else {
            self.ate = None;
        }

        if self.ate.is_none() {
            let mut new_tail = self.body.remove(0);
            if self.body.len() == 0 {
                new_tail.dir = self.head.dir;
            } else {
                new_tail.dir = self.body[0].dir;
            }
            self.tail = new_tail;
            proof {
                assert(self.body@ =~= old(self).grown_body().drop_first());
            }
        }

        self.last_update_dir = self.dir;
    }
}

/// The buffer never accepts the inverse of the direction the snake currently
/// moves by: a reversal cannot even be queued.
pub proof fn lemma_no_reversal_buffered(s: Snake, dir: Direction)
    requires
        s.buffer_accepts(dir),
    ensures
        dir.inverse_spec() != s.dir,
        dir != s.dir.inverse_spec(),
{
}

/// Anti-reversal: when the last committed tick moved in the snake's current
/// direction and no turn is pending, submitting the inverse of that direction
/// leaves the buffer empty, so the very next tick still commits to the
/// current direction and moves the head one step by it, never by the inverse.
pub proof fn lemma_anti_reversal(s: Snake, grid: Grid, dir: Direction)
    requires
        s.last_update_dir == s.dir,
        s.next_dir is None,
        dir == s.dir.inverse_spec(),
    ensures
        s.buffered(dir) == s,
        s.buffered(dir).next_dir is None,
        s.buffered(dir).committed_dir() == s.dir,
        s.buffered(dir).new_head_pos(grid) == move_spec(s.head.pos, s.dir, grid),
{
}

} // verus!
