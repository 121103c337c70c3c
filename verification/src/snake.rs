//! The snake game: its grid, the snake's moves, and the random placement of apples.

use vstd::prelude::*;
use crate::color::{Color, ColorPair};
use crate::terminal::{Point, TerminalCharacter};
use crate::keymap::{Keycode, UP_ARROW, W, DOWN_ARROW, S, LEFT_ARROW, A, RIGHT_ARROW, D};

verus! {

/// The character the snake's head is drawn with.
pub const HEAD_CHAR: char = '\u{2}';
/// The length the snake starts with.
pub const BASE_LENGTH: u16 = 4;

/// A cell of the grid.
#[derive(Clone, Copy, PartialEq, Eq, Structural, Debug)]
pub enum Cell {
    Empty,
    Head,
    Body,
    Apple,
}

impl Cell {
    /// How the cell is drawn.
    pub fn character(&self) -> (character: TerminalCharacter)
        ensures
            character == (match *self {
                Cell::Empty => TerminalCharacter {
                    character: ' ',
                    color: ColorPair { foreground: Color::Black, background: Color::Black },
                },
                Cell::Head => TerminalCharacter {
                    character: HEAD_CHAR,
                    color: ColorPair { foreground: Color::White, background: Color::Black },
                },
                Cell::Body => TerminalCharacter {
                    character: ' ',
                    color: ColorPair { foreground: Color::Green, background: Color::Green },
                },
                Cell::Apple => TerminalCharacter {
                    character: ' ',
                    color: ColorPair { foreground: Color::Red, background: Color::Red },
                },
            }),
    {
        match *self {
            Cell::Empty => TerminalCharacter::new(' ', ColorPair::new(Color::Black, Color::Black)),
            Cell::Head => TerminalCharacter::new(HEAD_CHAR, ColorPair::new(Color::White, Color::Black)),
            Cell::Body => TerminalCharacter::new(' ', ColorPair::new(Color::Green, Color::Green)),
            Cell::Apple => TerminalCharacter::new(' ', ColorPair::new(Color::Red, Color::Red)),
        }
    }
}

/// The playing field: `width` by `height` cells, row by row from the origin.
pub struct Grid {
    pub cells: Vec<Cell>,
    pub width: usize,
    pub height: usize,
}

impl Grid {
    pub open spec fn wf(&self) -> bool {
        self.cells@.len() == self.width * self.height
    }

    pub open spec fn spec_contains(&self, point: Point) -> bool {
        point.x < self.width && point.y < self.height
    }

    pub open spec fn spec_index(&self, point: Point) -> int {
        point.x + point.y * self.width
    }

    pub open spec fn spec_get(&self, point: Point) -> Cell {
        self.cells@[self.spec_index(point)]
    }

    /// The cells with the cell at `point` set to `cell`.
    pub open spec fn spec_set(&self, point: Point, cell: Cell) -> Seq<Cell> {
        self.cells@.update(self.spec_index(point), cell)
    }

    /// An empty grid.
    pub fn empty(width: usize, height: usize) -> (grid: Grid)
        requires
            width * height <= usize::MAX,
        ensures
            grid.wf(),
            grid.width == width,
            grid.height == height,
            forall|i: int| 0 <= i < grid.cells@.len() ==> grid.cells@[i] == Cell::Empty,
    {
        let count = width * height;
        let mut cells: Vec<Cell> = Vec::new();
        while cells.len() < count
            invariant
                cells@.len() <= count,
                forall|i: int| 0 <= i < cells@.len() ==> cells@[i] == Cell::Empty,
            decreases count - cells@.len(),
        {
            cells.push(Cell::Empty);
        }
        Grid { cells, width, height }
    }

    /// Empties every cell.
    pub fn clear(&mut self)
        ensures
            final(self).width == old(self).width,
            final(self).height == old(self).height,
            final(self).cells@.len() == old(self).cells@.len(),
            forall|i: int| 0 <= i < final(self).cells@.len() ==> final(self).cells@[i] == Cell::Empty,
    {
        let mut i: usize = 0;
        while i < self.cells.len()
            invariant
                i <= self.cells@.len(),
                self.width == old(self).width,
                self.height == old(self).height,
                self.cells@.len() == old(self).cells@.len(),
                forall|j: int| 0 <= j < i ==> self.cells@[j] == Cell::Empty,
            decreases self.cells@.len() - i,
        {
            self.cells.set(i, Cell::Empty);
            i = i + 1;
        }
    }

    /// Whether `point` is on the grid.
    pub fn contains(&self, point: Point) -> (inside: bool)
        ensures
            inside == self.spec_contains(point),
    {
        point.x < self.width && point.y < self.height
    }

    /// The position of `point`'s cell.
    pub fn index(&self, point: Point) -> (index: usize)
        requires
            self.wf(),
            self.spec_contains(point),
        ensures
            index == self.spec_index(point),
            index < self.cells@.len(),
    {
        proof {
            lemma_index_in_grid(self.width, self.height, point);
        }
        let _len: usize = self.cells.len();
        point.x + point.y * self.width
    }

    /// Sets the cell at `point`.
    pub fn set(&mut self, point: Point, cell: Cell)
        requires
            old(self).wf(),
            old(self).spec_contains(point),
        ensures
            final(self).wf(),
            final(self).width == old(self).width,
            final(self).height == old(self).height,
            final(self).cells@ == old(self).spec_set(point, cell),
    {
        let index = self.index(point);
        self.cells.set(index, cell);
    }

    /// The cell at `point`.
    pub fn get(&self, point: Point) -> (cell: Cell)
        requires
            self.wf(),
            self.spec_contains(point),
        ensures
            cell == self.spec_get(point),
    {
        self.cells[self.index(point)]
    }
}

/// A point of a grid has a cell of the grid.
pub proof fn lemma_index_in_grid(width: usize, height: usize, point: Point)
    requires
        point.x < width,
        point.y < height,
    ensures
        point.x + point.y * width < width * height,
        point.y * width < width * height,
{
    assert(point.x + point.y * width < width * height && point.y * width < width * height)
        by (nonlinear_arith)
        requires
            point.x < width,
            point.y < height,
    ;
}

/// Two different points of a grid have different cells.
pub proof fn lemma_index_distinct(width: usize, a: Point, b: Point)
    requires
        a.x < width,
        b.x < width,
        a != b,
    ensures
        a.x + a.y * width != b.x + b.y * width,
{
    if a.y == b.y {
    } else if a.y < b.y {
        assert(a.y * width + width <= b.y * width) by (nonlinear_arith)
            requires
                a.y < b.y,
        ;
    } else {
        assert(b.y * width + width <= a.y * width) by (nonlinear_arith)
            requires
                b.y < a.y,
        ;
    }
}

/// A direction the snake travels in; up is towards larger `y`.
#[derive(Clone, Copy, PartialEq, Eq, Structural, Debug)]
pub enum Direction {
    Up,
    Down,
    Left,
    Right,
}

impl Direction {
    pub open spec fn spec_offset(self, point: Point, amount: usize) -> Option<Point> {
        match self {
            Direction::Up => Some(Point { x: point.x, y: (point.y + amount) as usize }),
            Direction::Down => if point.y >= amount {
                Some(Point { x: point.x, y: (point.y - amount) as usize })
            } else {
                None
            },
            Direction::Left => if point.x >= amount {
                Some(Point { x: (point.x - amount) as usize, y: point.y })
            } else {
                None
            },
            Direction::Right => Some(Point { x: (point.x + amount) as usize, y: point.y }),
        }
    }

    /// The point `amount` cells away in this direction; none below zero.
    pub fn offset(&self, point: Point, amount: usize) -> (moved: Option<Point>)
        requires
            *self == Direction::Up ==> point.y + amount <= usize::MAX,
            *self == Direction::Right ==> point.x + amount <= usize::MAX,
        ensures
            moved == self.spec_offset(point, amount),
    {
        match self {
            Direction::Up => Some(Point::new(point.x, point.y + amount)),
            Direction::Down => if point.y >= amount {
                Some(Point::new(point.x, point.y - amount))
            } else {
                None
            },
            Direction::Left => if point.x >= amount {
                Some(Point::new(point.x - amount, point.y))
            } else {
                None
            },
            Direction::Right => Some(Point::new(point.x + amount, point.y)),
        }
    }

    pub open spec fn spec_opposite(self) -> Direction {
        match self {
            Direction::Up => Direction::Down,
            Direction::Down => Direction::Up,
            Direction::Left => Direction::Right,
            Direction::Right => Direction::Left,
        }
    }

    /// The opposite direction.
    pub fn opposite(&self) -> (opposite: Direction)
        ensures
            opposite == self.spec_opposite(),
    {
        match self {
            Direction::Up => Direction::Down,
            Direction::Down => Direction::Up,
            Direction::Left => Direction::Right,
            Direction::Right => Direction::Left,
        }
    }
}

/// **Law: opposite directions pair up.** No direction is its own opposite, and the opposite of
/// the opposite is the direction again.
pub proof fn law_opposite_pairs(direction: Direction)
    ensures
        direction.spec_opposite() != direction,
        direction.spec_opposite().spec_opposite() == direction,
{
}

/// **Law: the opposite direction leads back.** Moving some cells in a direction and then as
/// many in the opposite direction returns to the start.
pub proof fn law_opposite_leads_back(direction: Direction, start: Point, amount: usize)
    requires
        start.x + amount <= usize::MAX,
        start.y + amount <= usize::MAX,
    ensures
        direction.spec_offset(start, amount) matches Some(moved) ==> direction.spec_opposite().spec_offset(
            moved,
            amount,
        ) == Some(start),
{
}

/// The direction a key steers to: the arrows and W, A, S, D, on a make or repeat.
pub fn direction_of_key(keycode: Keycode, released: bool) -> (direction: Option<Direction>)
    ensures
        direction == (if released {
            None
        } else if keycode == UP_ARROW || keycode == W {
            Some(Direction::Up)
        } else if keycode == DOWN_ARROW || keycode == S {
            Some(Direction::Down)
        } else if keycode == LEFT_ARROW || keycode == A {
            Some(Direction::Left)
        } else if keycode == RIGHT_ARROW || keycode == D {
            Some(Direction::Right)
        } else {
            None
        }),
{
    if released {
        None
    } else if keycode == UP_ARROW || keycode == W {
        Some(Direction::Up)
    } else if keycode == DOWN_ARROW || keycode == S {
        Some(Direction::Down)
    } else if keycode == LEFT_ARROW || keycode == A {
        Some(Direction::Left)
    } else if keycode == RIGHT_ARROW || keycode == D {
        Some(Direction::Right)
    } else {
        None
    }
}

/// The direction after the player asks for `requested`: the snake cannot turn back on itself.
pub fn steer(current: Direction, requested: Option<Direction>) -> (direction: Direction)
    ensures
        direction == (match requested {
            Some(d) => if d != current.spec_opposite() {
                d
            } else {
                current
            },
            None => current,
        }),
{
    match requested {
        Some(d) => if d != current.opposite() {
            d
        } else {
            current
        },
        None => current,
    }
}

/// Updates per second in a direction: fewer going up or down, since cells are higher than
/// wide.
pub fn updates_per_second(direction: Direction) -> (ups: usize)
    ensures
        ups == (if direction == Direction::Up || direction == Direction::Down {
            10usize
        } else {
            20usize
        }),
{
    match direction {
        Direction::Up | Direction::Down => 10,
        Direction::Left | Direction::Right => 20,
    }
}

/// The outcome of a move.
#[derive(Clone, Copy, PartialEq, Eq, Structural, Debug)]
pub enum MoveResult {
    Moved(Point),
    Win,
    Lose,
}

/// The multiplier of the random number generator.
pub const RANDOM_A: u64 = 1103515245;
/// The modulus of the random number generator.
pub const RANDOM_M: u64 = 0x8000_0000;
/// The increment of the random number generator.
pub const RANDOM_C: u64 = 12345;

/// A linear congruential random number generator, with glibc's parameters.
#[derive(Clone, Copy, PartialEq, Eq, Structural, Debug)]
pub struct Random {
    pub seed: u64,
}

impl Random {
    /// A generator seeded from the time.
    pub fn new(time_ms: u64) -> (random: Random)
        ensures
            random.seed == time_ms ^ 2246577883182828989u64,
    {
        Random { seed: time_ms ^ 2246577883182828989 }
    }

    pub open spec fn spec_step(seed: u64) -> u64 {
        (((RANDOM_A * seed) % 0x1_0000_0000_0000_0000 + RANDOM_C) % RANDOM_M as int) as u64
    }

    /// The next number, below `RANDOM_M`.
    pub fn next(&mut self) -> (next: u64)
        requires
            (RANDOM_A * old(self).seed) % 0x1_0000_0000_0000_0000 + RANDOM_C <= u64::MAX,
        ensures
            next == Self::spec_step(old(self).seed),
            final(self).seed == next,
            next < RANDOM_M,
    {
        let product = RANDOM_A.wrapping_mul(self.seed);
        assert(product == (RANDOM_A * self.seed) % 0x1_0000_0000_0000_0000) by (nonlinear_arith)
            requires
                product == (RANDOM_A * self.seed) % 0x1_0000_0000_0000_0000,
        ;
        let next = (product + RANDOM_C) % RANDOM_M;
        self.seed = next;
        next
    }

    /// The next number, below `bound`.
    pub fn next_bounded(&mut self, bound: u64) -> (next: u64)
        requires
            bound > 0,
            (RANDOM_A * old(self).seed) % 0x1_0000_0000_0000_0000 + RANDOM_C <= u64::MAX,
        ensures
            next == Self::spec_step(old(self).seed) % bound,
            final(self).seed == Self::spec_step(old(self).seed),
    {
        self.next() % bound
    }
}

/// Whether a generator can draw a number: the product and increment must not overflow.
pub open spec fn can_draw(seed: u64) -> bool {
    (RANDOM_A * seed) % 0x1_0000_0000_0000_0000 + RANDOM_C <= u64::MAX
}

/// One try at placing an apple: a random cell, if it is empty. Placing an apple tries until
/// one is found.
pub fn apple_candidate(grid: &Grid, random: &mut Random) -> (candidate: Option<Point>)
    requires
        grid.wf(),
        grid.width > 0,
        grid.height > 0,
        can_draw(old(random).seed),
    ensures
        ({
            let first = Random::spec_step(old(random).seed);
            let second = Random::spec_step(first);
            let point = Point { x: (first % grid.width as u64) as usize, y: (second % grid.height as u64) as usize };
            &&& final(random).seed == second
            &&& candidate == (if grid.spec_get(point) == Cell::Empty {
                Some(point)
            } else {
                None
            })
        }),
{
    let x = random.next_bounded(grid.width as u64) as usize;
    let y = random.next_bounded(grid.height as u64) as usize;
    let point = Point::new(x, y);
    if grid.get(point) == Cell::Empty {
        Some(point)
    } else {
        None
    }
}

/// One try at placing an apple from seed `seed`: the cell drawn if it is empty, and the seed
/// after the draw (see `apple_candidate`).
pub open spec fn spec_candidate(grid: Grid, seed: u64) -> (Option<Point>, u64) {
    let first = Random::spec_step(seed);
    let second = Random::spec_step(first);
    let point = Point { x: (first % grid.width as u64) as usize, y: (second % grid.height as u64) as usize };
    (if grid.spec_get(point) == Cell::Empty {
        Some(point)
    } else {
        None
    }, second)
}

/// Up to `tries` tries at placing an apple from seed `seed`: the first empty cell drawn, if
/// any, and the seed after the last draw.
pub open spec fn spec_apple_search(grid: Grid, seed: u64, tries: nat) -> (Option<Point>, u64)
    decreases tries,
{
    if tries == 0 {
        (None, seed)
    } else {
        let (candidate, next) = spec_candidate(grid, seed);
        if candidate is Some {
            (candidate, next)
        } else {
            spec_apple_search(grid, next, (tries - 1) as nat)
        }
    }
}

/// A seed the generator has produced can always be drawn from.
proof fn lemma_drawn_seed_can_draw(seed: u64)
    requires
        seed < RANDOM_M,
    ensures
        can_draw(seed),
{
    assert(RANDOM_A * seed < 0x1_0000_0000_0000_0000 - RANDOM_C) by (nonlinear_arith)
        requires
            seed < RANDOM_M,
    ;
    vstd::arithmetic::div_mod::lemma_small_mod((RANDOM_A * seed) as nat, 0x1_0000_0000_0000_0000);
}

/// Places an apple: draws cells (see `apple_candidate`) until one is empty, at most `tries`
/// times, and returns the empty cell found.
pub fn apple_position(grid: &Grid, random: &mut Random, tries: usize) -> (found: Option<Point>)
    requires
        grid.wf(),
        grid.width > 0,
        grid.height > 0,
        can_draw(old(random).seed),
    ensures
        (found, final(random).seed) == spec_apple_search(*grid, old(random).seed, tries as nat),
{
    let mut i: usize = 0;
    while i < tries
        invariant
            grid.wf(),
            grid.width > 0,
            grid.height > 0,
            i <= tries,
            can_draw(random.seed),
            spec_apple_search(*grid, old(random).seed, tries as nat) == spec_apple_search(
                *grid,
                random.seed,
                (tries - i) as nat,
            ),
        decreases tries - i,
    {
        let candidate = apple_candidate(grid, random);
        proof {
            lemma_drawn_seed_can_draw(random.seed);
        }
        if candidate.is_some() {
            return candidate;
        }
        i = i + 1;
    }
    None
}

/// The snake: its head, the direction it travels in, the cells of its body from the most recent
/// on, and the length it grows to.
pub struct Snake {
    pub head: Point,
    pub direction: Direction,
    pub blocks: Vec<Point>,
    pub len: u16,
}

/// The cell a move of the snake leads to, if it stays on the grid.
pub open spec fn spec_target(head: Point, direction: Direction, grid: &Grid) -> Option<Point> {
    match direction.spec_offset(head, 1) {
        Some(point) => if grid.spec_contains(point) {
            Some(point)
        } else {
            None
        },
        None => None,
    }
}

impl Snake {
    /// What the snake may hold for a move on `grid`: its head and body on the grid, a
    /// positive length that can still grow.
    pub open spec fn fits(&self, grid: &Grid) -> bool {
        &&& grid.wf()
        &&& grid.spec_contains(self.head)
        &&& forall|i: int| 0 <= i < self.blocks@.len() ==> grid.spec_contains(#[trigger] self.blocks@[i])
        &&& 0 < self.len
    }

    /// The cells at the start of a move: the old head drawn as body, once there is a body.
    pub open spec fn spec_marked(&self, grid: &Grid) -> Seq<Cell> {
        if self.blocks@.len() > 0 {
            grid.spec_set(self.head, Cell::Body)
        } else {
            grid.cells@
        }
    }

    /// Whether the next move eats an apple.
    pub open spec fn spec_will_eat(&self, grid: &Grid) -> bool {
        match spec_target(self.head, self.direction, grid) {
            Some(point) => self.len != grid.width * grid.height
                && grid.spec_get(point) == Cell::Apple,
            None => false,
        }
    }

    /// A snake of the starting length at `center`, travelling right, with no body yet.
    pub fn new(center: Point) -> (snake: Snake)
        ensures
            snake.head == center,
            snake.direction == Direction::Right,
            snake.blocks@ == Seq::<Point>::empty(),
            snake.len == BASE_LENGTH,
    {
        Snake { head: center, direction: Direction::Right, blocks: Vec::new(), len: BASE_LENGTH }
    }

    /// The score: how much the snake has grown.
    pub fn score(&self) -> (score: u16)
        requires
            self.len >= BASE_LENGTH,
        ensures
            score == self.len - BASE_LENGTH,
    {
        self.len - BASE_LENGTH
    }

    /// The cell the next move leads to, if it stays on the grid.
    fn target(&self, grid: &Grid) -> (target: Option<Point>)
        requires
            grid.spec_contains(self.head),
        ensures
            target == spec_target(self.head, self.direction, grid),
    {
        match self.direction.offset(self.head, 1) {
            Some(point) => if grid.contains(point) {
                Some(point)
            } else {
                None
            },
            None => None,
        }
    }

    /// Whether the next move eats an apple; if so, a new apple is placed in the same move.
    pub fn will_eat(&self, grid: &Grid) -> (eats: bool)
        requires
            grid.wf(),
            grid.spec_contains(self.head),
        ensures
            eats == self.spec_will_eat(grid),
    {
        match self.target(grid) {
            Some(point) => self.len as usize != grid.cells.len()
                && grid.get(point) == Cell::Apple,
            None => false,
        }
    }

    /// The outcome of one move on `grid`, with `apple` where a new apple goes if one is
    /// eaten: the result, and the head, body, length and cells afterwards.
    pub open spec fn spec_update(&self, grid: &Grid, apple: Option<Point>) -> (
        MoveResult,
        Point,
        Seq<Point>,
        u16,
        Seq<Cell>,
    ) {
        let marked = self.spec_marked(grid);
        match spec_target(self.head, self.direction, grid) {
            None => (MoveResult::Lose, self.head, self.blocks@, self.len, marked),
            Some(point) => if self.len == grid.width * grid.height {
                (MoveResult::Win, self.head, self.blocks@, self.len, marked)
            } else if marked[grid.spec_index(point)] == Cell::Body {
                (MoveResult::Lose, self.head, self.blocks@, self.len, marked)
            } else {
                let eats = marked[grid.spec_index(point)] == Cell::Apple;
                let placed = if eats {
                    marked.update(grid.spec_index(apple->0), Cell::Apple)
                } else {
                    marked
                };
                let len: u16 = if eats {
                    (self.len + 1) as u16
                } else {
                    self.len
                };
                let drawn = placed.update(grid.spec_index(point), Cell::Head);
                if self.blocks@.len() < len {
                    (MoveResult::Moved(point), point, seq![point] + self.blocks@, len, drawn)
                } else {
                    (
                        MoveResult::Moved(point),
                        point,
                        seq![point] + self.blocks@.drop_last(),
                        len,
                        drawn.update(grid.spec_index(self.blocks@.last()), Cell::Empty),
                    )
                }
            }
        }
    }

    /// Moves the head one cell on, unless that leaves the grid or hits the body, or the snake
    /// already fills the grid; eating an apple grows the snake and places `apple`.
    fn try_move(&mut self, grid: &mut Grid, apple: Option<Point>) -> (result: MoveResult)
        requires
            old(grid).wf(),
            old(grid).spec_contains(old(self).head),
            old(self).len < u16::MAX,
            old(self).spec_will_eat(old(grid)) ==> (apple matches Some(a) && old(grid).spec_contains(a)),
        ensures
            final(grid).wf(),
            final(grid).width == old(grid).width,
            final(grid).height == old(grid).height,
            final(self).head == old(self).head,
            final(self).direction == old(self).direction,
            final(self).blocks@ == old(self).blocks@,
            ({
                let target = spec_target(old(self).head, old(self).direction, old(grid));
                match target {
                    None => result == MoveResult::Lose && final(grid).cells@ == old(grid).cells@
                        && final(self).len == old(self).len,
                    Some(point) => if old(self).len == old(grid).width * old(grid).height {
                        result == MoveResult::Win && final(grid).cells@ == old(grid).cells@
                            && final(self).len == old(self).len
                    } else if old(grid).spec_get(point) == Cell::Body {
                        result == MoveResult::Lose && final(grid).cells@ == old(grid).cells@
                            && final(self).len == old(self).len
                    } else if old(grid).spec_get(point) == Cell::Apple {
                        result == MoveResult::Moved(point)
                            && final(grid).cells@ == old(grid).spec_set(apple->0, Cell::Apple)
                            && final(self).len == old(self).len + 1
                    } else {
                        result == MoveResult::Moved(point) && final(grid).cells@ == old(grid).cells@
                            && final(self).len == old(self).len
                    },
                }
            }),
    {
        let point = match self.target(grid) {
            Some(point) => point,
            None => return MoveResult::Lose,
        };
        if self.len as usize == grid.cells.len() {
            return MoveResult::Win;
        }
        let cell = grid.get(point);
        match cell {
            Cell::Body => return MoveResult::Lose,
            Cell::Apple => {
                self.len = self.len + 1;
                match apple {
                    Some(apple) => grid.set(apple, Cell::Apple),
                    None => {},
                }
            },
            _ => {},
        }
        MoveResult::Moved(point)
    }

    /// One step of the game: the snake moves, grows on an apple, and the grid is redrawn.
    /// `apple` is where a new apple goes if this move eats one (see `will_eat`).
    pub fn update(&mut self, grid: &mut Grid, apple: Option<Point>) -> (result: MoveResult)
        requires
            old(self).fits(old(grid)),
            old(self).len < u16::MAX,
            old(self).spec_will_eat(old(grid)) ==> (apple matches Some(a) && old(grid).spec_contains(a)),
        ensures
            (result, final(self).head, final(self).blocks@, final(self).len, final(grid).cells@)
                == old(self).spec_update(old(grid), apple),
            final(self).direction == old(self).direction,
            final(grid).width == old(grid).width,
            final(grid).height == old(grid).height,
            final(self).fits(final(grid)),
            old(self).blocks@.len() <= old(self).len ==> final(self).blocks@.len() <= final(self).len,
    {
        let ghost marked = old(self).spec_marked(old(grid));
        proof {
            match spec_target(self.head, self.direction, grid) {
                Some(point) => {
                    lemma_index_distinct(grid.width, point, self.head);
                },
                None => {},
            }
        }
        if self.blocks.len() > 0 {
            grid.set(self.head, Cell::Body);
        }
        assert(grid.cells@ == marked);
        proof {
            match spec_target(self.head, self.direction, grid) {
                Some(point) => {
                    lemma_index_in_grid(grid.width, grid.height, point);
                    lemma_index_in_grid(grid.width, grid.height, self.head);
                    assert(spec_target(self.head, self.direction, old(grid)) == Some(point));
                    assert(grid.spec_get(point) == old(grid).spec_get(point));
                },
                None => {},
            }
        }
        assert(self.spec_will_eat(grid) == old(self).spec_will_eat(old(grid)));
        let result = self.try_move(grid, apple);
        let point = match result {
            MoveResult::Moved(point) => point,
            MoveResult::Win => return MoveResult::Win,
            MoveResult::Lose => return MoveResult::Lose,
        };
        self.head = point;
        grid.set(point, Cell::Head);
        if self.blocks.len() < self.len as usize {
            self.blocks.insert(0, point);
        } else {
            let tail = self.blocks[self.blocks.len() - 1];
            grid.set(tail, Cell::Empty);
            self.blocks.pop();
            self.blocks.insert(0, point);
        }
        assert forall|i: int| 0 <= i < self.blocks@.len() implies grid.spec_contains(
            #[trigger] self.blocks@[i],
        ) by {
            if i > 0 {
                assert(self.blocks@[i] == old(self).blocks@[i - 1]);
            }
        }
        result
    }
}

/// The game's state: the grid, the snake, the updates per second and the best score so far.
pub struct Game {
    pub grid: Grid,
    pub snake: Snake,
    pub ups: usize,
    pub highscore: u16,
}

impl Game {
    /// What holds between moves: the snake fits the grid, its body is no longer than its
    /// length, and it is at least as long as at the start.
    pub open spec fn wf(&self) -> bool {
        &&& self.snake.fits(&self.grid)
        &&& self.snake.blocks@.len() <= self.snake.len
        &&& self.snake.len >= BASE_LENGTH
    }

    /// A new game on a `width` by `height` grid, the snake at `center`.
    pub fn new(width: usize, height: usize, center: Point) -> (game: Game)
        requires
            width * height <= usize::MAX,
            center.x < width,
            center.y < height,
        ensures
            game.wf(),
            game.grid.width == width,
            game.grid.height == height,
            forall|i: int| 0 <= i < game.grid.cells@.len() ==> game.grid.cells@[i] == Cell::Empty,
            game.snake.head == center,
            game.snake.direction == Direction::Right,
            game.snake.blocks@.len() == 0,
            game.snake.len == BASE_LENGTH,
            game.ups == 20,
            game.highscore == 0,
    {
        Game { grid: Grid::empty(width, height), snake: Snake::new(center), ups: 20, highscore: 0 }
    }

    /// Starts a round: a new snake at `center` on an empty grid. An apple is placed next.
    pub fn reset(&mut self, center: Point)
        requires
            old(self).grid.wf(),
            old(self).grid.spec_contains(center),
        ensures
            final(self).wf(),
            final(self).grid.width == old(self).grid.width,
            final(self).grid.height == old(self).grid.height,
            final(self).grid.cells@.len() == old(self).grid.cells@.len(),
            forall|i: int| 0 <= i < final(self).grid.cells@.len() ==> final(self).grid.cells@[i] == Cell::Empty,
            final(self).snake.head == center,
            final(self).snake.direction == Direction::Right,
            final(self).snake.blocks@.len() == 0,
            final(self).snake.len == BASE_LENGTH,
            final(self).ups == old(self).ups,
            final(self).highscore == old(self).highscore,
    {
        self.snake = Snake::new(center);
        self.grid.clear();
    }

    /// Places an apple at `point`.
    pub fn place_apple(&mut self, point: Point)
        requires
            old(self).wf(),
            old(self).grid.spec_contains(point),
        ensures
            final(self).wf(),
            final(self).grid.width == old(self).grid.width,
            final(self).grid.height == old(self).grid.height,
            final(self).grid.cells@ == old(self).grid.spec_set(point, Cell::Apple),
            final(self).snake == old(self).snake,
            final(self).ups == old(self).ups,
            final(self).highscore == old(self).highscore,
    {
        self.grid.set(point, Cell::Apple);
    }

    /// Turns the snake as the player asks, unless that turns it back on itself, and sets the
    /// speed for the new direction.
    pub fn steer(&mut self, requested: Option<Direction>)
        ensures
            final(self).snake.direction == (match requested {
                Some(d) => if d != old(self).snake.direction.spec_opposite() {
                    d
                } else {
                    old(self).snake.direction
                },
                None => old(self).snake.direction,
            }),
            final(self).ups == (if final(self).snake.direction == Direction::Up
                || final(self).snake.direction == Direction::Down {
                10usize
            } else {
                20usize
            }),
            final(self).snake.head == old(self).snake.head,
            final(self).snake.blocks@ == old(self).snake.blocks@,
            final(self).snake.len == old(self).snake.len,
            final(self).grid.cells@ == old(self).grid.cells@,
            final(self).grid.width == old(self).grid.width,
            final(self).grid.height == old(self).grid.height,
            final(self).highscore == old(self).highscore,
    {
        self.snake.direction = steer(self.snake.direction, requested);
        self.ups = updates_per_second(self.snake.direction);
    }

    /// One move of the snake, with `apple` where a new apple goes if the move eats one.
    pub fn advance(&mut self, apple: Option<Point>) -> (result: MoveResult)
        requires
            old(self).wf(),
            old(self).snake.len < u16::MAX,
            old(self).snake.spec_will_eat(&old(self).grid) ==> (apple matches Some(a)
                && old(self).grid.spec_contains(a)),
        ensures
            final(self).wf(),
            (
                result,
                final(self).snake.head,
                final(self).snake.blocks@,
                final(self).snake.len,
                final(self).grid.cells@,
            ) == old(self).snake.spec_update(&old(self).grid, apple),
            final(self).snake.direction == old(self).snake.direction,
            final(self).grid.width == old(self).grid.width,
            final(self).grid.height == old(self).grid.height,
            final(self).ups == old(self).ups,
            final(self).highscore == old(self).highscore,
    {
        self.snake.update(&mut self.grid, apple)
    }

    /// Ends a round: the score, and whether it is a new best, which then becomes the high
    /// score.
    pub fn finish(&mut self) -> (outcome: (u16, bool))
        requires
            old(self).snake.len >= BASE_LENGTH,
        ensures
            outcome.0 == old(self).snake.len - BASE_LENGTH,
            outcome.1 == (outcome.0 > old(self).highscore),
            final(self).highscore == (if outcome.1 {
                outcome.0
            } else {
                old(self).highscore
            }),
            final(self).snake == old(self).snake,
            final(self).grid == old(self).grid,
            final(self).ups == old(self).ups,
    {
        let score = self.snake.score();
        if score > self.highscore {
            self.highscore = score;
            (score, true)
        } else {
            (score, false)
        }
    }
}

/// The column where text of `length` characters starts so that it is centred on `x_center`.
pub fn centered_column(x_center: usize, length: usize) -> (column: usize)
    requires
        length / 2 <= x_center,
    ensures
        column == x_center - length / 2,
{
    x_center - length / 2
}

} // verus!
