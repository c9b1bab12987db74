use snake_game::consts::MILLIS_PER_UPDATE;
use snake_game::elements::{Food, Segment, Wall};
use snake_game::game::GameState;
use snake_game::grid::{Direction, Grid, GridPosition};
use snake_game::snake::Snake;

fn ten_by_ten() -> Grid {
    Grid { width: 10, height: 10 }
}

/// A deterministic running round: snake at (5,5) heading right, one wall
/// cell, food wherever the caller says.
fn running_state(food: (i16, i16), wall: Vec<(i16, i16)>) -> GameState {
    GameState {
        grid: ten_by_ten(),
        snake: Snake::new(GridPosition::new(5, 5)),
        food: Food::new(GridPosition::new(food.0, food.1)),
        walls: Wall {
            cells: wall
                .into_iter()
                .map(|(x, y)| Segment::new(GridPosition::new(x, y), Direction::Still))
                .collect(),
        },
        gameover: false,
        start: true,
        points: 0,
        last_update: 0,
    }
}

#[test]
fn new_round_starts_fresh() {
    let s = GameState::new(Grid { width: 30, height: 20 }, 400);
    assert_eq!(s.snake.head.pos, GridPosition::new(7, 10));
    assert_eq!(s.snake.tail.pos, GridPosition::new(6, 10));
    assert_eq!(s.snake.dir, Direction::Right);
    assert!(s.snake.body.is_empty());
    assert!(!s.start);
    assert!(!s.gameover);
    assert_eq!(s.points, 0);
    assert_eq!(s.last_update, 400);
    assert!(1 <= s.food.pos.x && s.food.pos.x < 29);
    assert!(1 <= s.food.pos.y && s.food.pos.y < 19);
}

#[test]
fn new_round_works_on_the_smallest_grid() {
    let s = GameState::new(Grid { width: 4, height: 5 }, 0);
    assert_eq!(s.snake.head.pos, GridPosition::new(1, 2));
    assert_eq!(s.snake.tail.pos, GridPosition::new(0, 2));
    assert!(1 <= s.food.pos.x && s.food.pos.x < 3);
    assert!(1 <= s.food.pos.y && s.food.pos.y < 4);
}

#[test]
fn generated_walls_cover_both_bands_without_duplicates() {
    let grid = Grid { width: 12, height: 9 };
    let s = GameState::new(grid, 0);
    let cells = &s.walls.cells;
    for seg in cells.iter() {
        assert_eq!(seg.dir, Direction::Still);
        assert!(0 <= seg.pos.x && seg.pos.x < 12);
        assert!(0 <= seg.pos.y && seg.pos.y < 9);
        // every wall cell is a band cell or a perimeter cell off the top row
        assert!(
            seg.pos.y == 1
                || seg.pos.y == 8
                || ((seg.pos.x == 0 || seg.pos.x == 11) && seg.pos.y != 0)
        );
    }
    for x in 0..12 {
        assert!(cells.iter().any(|s| s.pos == GridPosition::new(x, 1)));
        assert!(cells.iter().any(|s| s.pos == GridPosition::new(x, 8)));
    }
    for (i, a) in cells.iter().enumerate() {
        for b in cells.iter().skip(i + 1) {
            assert_ne!(a.pos, b.pos);
        }
    }
}

#[test]
fn poll_before_interval_changes_nothing() {
    let mut s = running_state((0, 0), vec![]);
    s.last_update = 50;
    let head_before = s.snake.head.pos;
    s.poll(50 + MILLIS_PER_UPDATE - 1);
    assert_eq!(s.snake.head.pos, head_before);
    assert_eq!(s.last_update, 50);
}

#[test]
fn poll_at_interval_ticks_once_and_refreshes_timestamp() {
    let mut s = running_state((0, 0), vec![]);
    s.poll(MILLIS_PER_UPDATE);
    assert_eq!(s.snake.head.pos, GridPosition::new(6, 5));
    assert_eq!(s.last_update, MILLIS_PER_UPDATE);
    // a second poll within the same interval is a no-op
    s.poll(MILLIS_PER_UPDATE + 1);
    assert_eq!(s.snake.head.pos, GridPosition::new(6, 5));
    assert_eq!(s.last_update, MILLIS_PER_UPDATE);
}

#[test]
fn poll_without_start_only_refreshes_timestamp() {
    let mut s = running_state((0, 0), vec![]);
    s.start = false;
    s.poll(MILLIS_PER_UPDATE);
    assert_eq!(s.snake.head.pos, GridPosition::new(5, 5));
    assert_eq!(s.last_update, MILLIS_PER_UPDATE);
}

#[test]
fn eating_scores_a_point_and_relocates_the_food() {
    let mut s = running_state((6, 5), vec![]);
    s.poll(MILLIS_PER_UPDATE);
    assert_eq!(s.points, 1);
    assert!(!s.gameover);
    assert_eq!(s.snake.head.pos, GridPosition::new(6, 5));
    assert_eq!(s.snake.body.len() + 2, 3);
    assert!(2 <= s.food.pos.x && s.food.pos.x < 9);
    assert!(3 <= s.food.pos.y && s.food.pos.y < 9);
}

#[test]
fn wall_wrap_collision_ends_the_round() {
    // head at (0,5) moving left on a 10-wide grid, wall at (9,5)
    let mut s = running_state((2, 2), vec![(9, 5)]);
    s.snake = Snake {
        head: Segment::new(GridPosition::new(0, 5), Direction::Left),
        dir: Direction::Left,
        body: Vec::new(),
        tail: Segment::new(GridPosition::new(1, 5), Direction::Left),
        ate: None,
        last_update_dir: Direction::Left,
        next_dir: None,
    };
    s.poll(MILLIS_PER_UPDATE);
    assert_eq!(s.snake.head.pos, GridPosition::new(9, 5));
    assert!(s.gameover);
    assert_eq!(s.points, 0);
}

#[test]
fn gameover_round_no_longer_ticks() {
    let mut s = running_state((2, 2), vec![(6, 5)]);
    s.poll(MILLIS_PER_UPDATE);
    assert!(s.gameover);
    let head = s.snake.head.pos;
    s.poll(3 * MILLIS_PER_UPDATE);
    assert_eq!(s.snake.head.pos, head);
    assert_eq!(s.last_update, 3 * MILLIS_PER_UPDATE);
}

#[test]
fn direction_input_is_ignored_before_start() {
    let mut s = running_state((0, 0), vec![]);
    s.start = false;
    s.handle_direction(Direction::Up);
    assert!(s.snake.next_dir.is_none());
}

#[test]
fn direction_input_respects_anti_reversal() {
    let mut s = running_state((0, 0), vec![]);
    s.handle_direction(Direction::Left);
    assert!(s.snake.next_dir.is_none());
    s.handle_direction(Direction::Up);
    assert_eq!(s.snake.next_dir, Some(Direction::Up));
}

#[test]
fn press_start_begins_the_round() {
    let mut s = GameState::new(ten_by_ten(), 0);
    assert!(!s.start);
    s.press_start();
    assert!(s.start);
    s.poll(MILLIS_PER_UPDATE);
    assert_ne!(s.snake.head.pos, GridPosition::new(2, 5));
}

#[test]
fn restart_before_start_is_a_no_op() {
    let mut s = running_state((3, 3), vec![]);
    s.start = false;
    s.points = 7;
    s.gameover = true;
    s.restart(900);
    assert_eq!(s.points, 7);
    assert!(s.gameover);
    assert_eq!(s.last_update, 0);
}

#[test]
fn restart_after_gameover_resets_the_round() {
    let mut s = running_state((2, 2), vec![(6, 5)]);
    s.points = 4;
    s.poll(MILLIS_PER_UPDATE);
    assert!(s.gameover);
    s.restart(777);
    assert_eq!(s.points, 0);
    assert!(!s.gameover);
    assert!(!s.start);
    assert_eq!(s.last_update, 777);
    // a freshly valid snake of length two at the starting cell
    assert_eq!(s.snake.head.pos, GridPosition::new(2, 5));
    assert_eq!(s.snake.tail.pos, GridPosition::new(1, 5));
    assert!(s.snake.body.is_empty());
    assert_eq!(s.snake.dir, Direction::Right);
    assert!(s.snake.next_dir.is_none());
    assert!(s.snake.ate.is_none());
    // food inside the border, walls rebuilt with solid bands
    assert!(1 <= s.food.pos.x && s.food.pos.x < 9);
    assert!(1 <= s.food.pos.y && s.food.pos.y < 9);
    for x in 0..10 {
        assert!(s.walls.cells.iter().any(|w| w.pos == GridPosition::new(x, 1)));
        assert!(s.walls.cells.iter().any(|w| w.pos == GridPosition::new(x, 9)));
    }
}

#[test]
fn food_relocate_rejects_bad_range_and_keeps_position() {
    let mut f = Food::new(GridPosition::new(4, 4));
    assert!(f.relocate(5, 1, 5, 9).is_err());
    assert_eq!(f.pos, GridPosition::new(4, 4));
    assert!(f.relocate(1, 2, 3, 4).is_ok());
    assert!(1 <= f.pos.x && f.pos.x < 3);
    assert!(2 <= f.pos.y && f.pos.y < 4);
}
