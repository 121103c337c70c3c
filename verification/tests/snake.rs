use flower::keymap::{A, D, S, UP_ARROW, W};
use flower::snake::{
    apple_candidate, apple_position, centered_column, direction_of_key, steer, updates_per_second, Cell, Direction,
    Game, Grid, MoveResult, Random, Snake, BASE_LENGTH,
};
use flower::terminal::Point;

fn point(x: usize, y: usize) -> Point {
    Point::new(x, y)
}

#[test]
fn grid_set_get_and_clear() {
    let mut grid = Grid::empty(4, 3);
    assert_eq!(grid.cells.len(), 12);
    assert!(grid.contains(point(3, 2)));
    assert!(!grid.contains(point(4, 0)));
    assert!(!grid.contains(point(0, 3)));
    assert_eq!(grid.index(point(1, 2)), 9);
    grid.set(point(1, 2), Cell::Apple);
    assert_eq!(grid.get(point(1, 2)), Cell::Apple);
    assert_eq!(grid.cells[9], Cell::Apple);
    grid.clear();
    assert!(grid.cells.iter().all(|c| *c == Cell::Empty));
}

#[test]
fn direction_offsets_stop_at_zero() {
    assert_eq!(Direction::Up.offset(point(2, 2), 1), Some(point(2, 3)));
    assert_eq!(Direction::Down.offset(point(2, 2), 1), Some(point(2, 1)));
    assert_eq!(Direction::Down.offset(point(2, 0), 1), None);
    assert_eq!(Direction::Left.offset(point(0, 2), 1), None);
    assert_eq!(Direction::Right.offset(point(2, 2), 3), Some(point(5, 2)));
    assert_eq!(Direction::Left.opposite(), Direction::Right);
    assert_eq!(Direction::Up.opposite(), Direction::Down);
}

#[test]
fn keys_steer_but_never_reverse() {
    assert_eq!(direction_of_key(W, false), Some(Direction::Up));
    assert_eq!(direction_of_key(UP_ARROW, false), Some(Direction::Up));
    assert_eq!(direction_of_key(S, false), Some(Direction::Down));
    assert_eq!(direction_of_key(A, false), Some(Direction::Left));
    assert_eq!(direction_of_key(D, true), None);
    assert_eq!(steer(Direction::Right, Some(Direction::Left)), Direction::Right);
    assert_eq!(steer(Direction::Right, Some(Direction::Up)), Direction::Up);
    assert_eq!(steer(Direction::Down, None), Direction::Down);
    assert_eq!(updates_per_second(Direction::Up), 10);
    assert_eq!(updates_per_second(Direction::Left), 20);
}

#[test]
fn random_numbers_follow_the_generator() {
    let mut random = Random::new(0);
    assert_eq!(random.seed, 2246577883182828989);
    assert_eq!(random.next(), 1522933682);
    assert_eq!(random.next(), 967830275);
    let mut random = Random { seed: 42 };
    assert_eq!(random.next_bounded(10), 7);
    assert_eq!(random.seed, 1250496027);
}

#[test]
fn apple_candidate_takes_an_empty_cell_only() {
    let mut grid = Grid::empty(10, 10);
    let mut random = Random { seed: 42 };
    assert_eq!(apple_candidate(&grid, &mut random), Some(point(7, 4)));
    assert_eq!(random.seed, 1116302264);
    grid.set(point(7, 4), Cell::Body);
    let mut random = Random { seed: 42 };
    assert_eq!(apple_candidate(&grid, &mut random), None);
}

#[test]
fn snake_moves_grows_and_leaves_no_trail() {
    let mut grid = Grid::empty(10, 5);
    let mut snake = Snake::new(point(2, 2));
    assert_eq!(snake.score(), 0);
    assert_eq!(snake.update(&mut grid, None), MoveResult::Moved(point(3, 2)));
    assert_eq!(grid.get(point(3, 2)), Cell::Head);
    assert_eq!(grid.get(point(2, 2)), Cell::Empty);
    assert_eq!(snake.blocks, vec![point(3, 2)]);
    for x in 4..7 {
        assert_eq!(snake.update(&mut grid, None), MoveResult::Moved(point(x, 2)));
    }
    assert_eq!(snake.blocks.len(), BASE_LENGTH as usize);
    assert_eq!(grid.get(point(3, 2)), Cell::Body);
    // At full length the tail is cleared as the head moves on.
    assert_eq!(snake.update(&mut grid, None), MoveResult::Moved(point(7, 2)));
    assert_eq!(grid.get(point(3, 2)), Cell::Empty);
    assert_eq!(snake.blocks, vec![point(7, 2), point(6, 2), point(5, 2), point(4, 2)]);

    grid.set(point(8, 2), Cell::Apple);
    assert!(snake.will_eat(&grid));
    assert_eq!(snake.update(&mut grid, Some(point(0, 0))), MoveResult::Moved(point(8, 2)));
    assert_eq!(snake.len, BASE_LENGTH + 1);
    assert_eq!(snake.score(), 1);
    assert_eq!(grid.get(point(0, 0)), Cell::Apple);
    assert_eq!(grid.get(point(4, 2)), Cell::Body);
    assert_eq!(snake.blocks.len(), 5);

    assert_eq!(snake.update(&mut grid, None), MoveResult::Moved(point(9, 2)));
    // Off the right edge.
    assert_eq!(snake.update(&mut grid, None), MoveResult::Lose);
}

#[test]
fn snake_running_into_itself_loses() {
    let mut grid = Grid::empty(10, 10);
    let mut snake = Snake::new(point(5, 5));
    for _ in 0..4 {
        snake.update(&mut grid, None);
    }
    snake.direction = Direction::Up;
    assert_eq!(snake.update(&mut grid, None), MoveResult::Moved(point(9, 6)));
    snake.direction = Direction::Left;
    assert_eq!(snake.update(&mut grid, None), MoveResult::Moved(point(8, 6)));
    snake.direction = Direction::Down;
    assert_eq!(grid.get(point(8, 5)), Cell::Body);
    assert_eq!(snake.update(&mut grid, None), MoveResult::Lose);
}

#[test]
fn snake_filling_the_grid_wins() {
    let mut grid = Grid::empty(2, 2);
    let mut snake = Snake::new(point(0, 0));
    assert_eq!(snake.update(&mut grid, None), MoveResult::Win);
    assert_eq!(snake.head, point(0, 0));
}

#[test]
fn game_rounds_keep_the_high_score() {
    let mut game = Game::new(20, 10, point(9, 4));
    assert_eq!(game.ups, 20);
    game.place_apple(point(10, 4));
    game.steer(Some(Direction::Left));
    assert_eq!(game.snake.direction, Direction::Right);
    assert!(game.snake.will_eat(&game.grid));
    assert_eq!(game.advance(Some(point(0, 0))), MoveResult::Moved(point(10, 4)));
    game.steer(Some(Direction::Up));
    assert_eq!(game.ups, 10);
    assert_eq!(game.finish(), (1, true));
    assert_eq!(game.highscore, 1);
    game.reset(point(9, 4));
    assert_eq!(game.snake.len, BASE_LENGTH);
    assert_eq!(game.finish(), (0, false));
    assert_eq!(game.highscore, 1);
    assert_eq!(centered_column(40, 17), 32);
}

#[test]
fn apples_are_placed_on_empty_cells_only() {
    let mut grid = Grid::empty(4, 3);
    let mut random = Random::new(7);
    let found = apple_position(&grid, &mut random, 16).unwrap();
    assert!(grid.get(found) == Cell::Empty);
    for y in 0..3 {
        for x in 0..4 {
            grid.set(point(x, y), Cell::Body);
        }
    }
    let mut random = Random::new(7);
    assert!(apple_position(&grid, &mut random, 16).is_none());
    assert!(apple_position(&grid, &mut random, 0).is_none());
}
