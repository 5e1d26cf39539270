use std::collections::VecDeque;

use vstd::arithmetic::div_mod::{lemma_fundamental_div_mod, lemma_fundamental_div_mod_converse};
use vstd::prelude::*;

use crate::game::TerminalSize;

verus! {

/// One cell of the terminal grid, in 1-based terminal coordinates.
#[derive(Debug, PartialEq, Eq, Structural, Hash, Clone, Copy)]
pub struct GridCell {
    pub x: u16,
    pub y: u16,
}

/// A direction of travel.
#[derive(Debug, PartialEq, Eq, Structural, Clone, Copy)]
pub enum Direction {
    Up,
    Down,
    Left,
    Right,
}

impl Direction {
    /// Up and Down are vertical; Left and Right are horizontal.
    pub open spec fn is_vertical(self) -> bool {
        self is Up || self is Down
    }

    pub fn vertical(&self) -> (r: bool)
        ensures
            r == self.is_vertical(),
    {
        match self {
            Direction::Up | Direction::Down => true,
            Direction::Left | Direction::Right => false,
        }
    }
}

/// The number of integers in `lo..=hi`.
pub open spec fn span(lo: u16, hi: u16) -> int {
    if lo <= hi {
        hi - lo + 1
    } else {
        0
    }
}

/// The `k`-th cell of a rectangle that starts at `(x_min, y_min)` and has `h` rows,
/// counting column by column, each column from its top row down.
pub open spec fn cell_at(x_min: u16, y_min: u16, h: int, k: int) -> GridCell {
    GridCell { x: (x_min + k / h) as u16, y: (y_min + k % h) as u16 }
}

/// Every cell of `[x_min, x_max] × [y_min, y_max]`, column by column.
pub open spec fn cells_of(x_min: u16, y_min: u16, x_max: u16, y_max: u16) -> Seq<GridCell> {
    let h = span(y_min, y_max);
    Seq::new((span(x_min, x_max) * h) as nat, |k: int| cell_at(x_min, y_min, h, k))
}

/// A cell lies in `cells_of` exactly when it lies in the rectangle.
pub proof fn lemma_cells_of_contains(x_min: u16, y_min: u16, x_max: u16, y_max: u16, c: GridCell)
    ensures
        cells_of(x_min, y_min, x_max, y_max).contains(c) <==> (x_min <= c.x <= x_max && y_min
            <= c.y <= y_max),
{
    let s = cells_of(x_min, y_min, x_max, y_max);
    let h = span(y_min, y_max);
    let w = span(x_min, x_max);
    if s.contains(c) {
        let k = choose|k: int| 0 <= k < s.len() && s[k] == c;
        assert(h > 0 && w > 0) by (nonlinear_arith)
            requires 0 <= k < w * h, w >= 0, h >= 0;
        lemma_fundamental_div_mod(k, h);
        let q = k / h;
        let r = k % h;
        assert(0 <= q < w) by (nonlinear_arith)
            requires k == h * q + r, 0 <= r < h, 0 <= k < w * h;
    }
    if x_min <= c.x <= x_max && y_min <= c.y <= y_max {
        let q = c.x - x_min;
        let r = c.y - y_min;
        let k = q * h + r;
        assert(0 <= k < w * h) by (nonlinear_arith)
            requires 0 <= q < w, 0 <= r < h, k == q * h + r;
        lemma_fundamental_div_mod_converse(k, h, q, r);
        assert(s[k] == c);
    }
}

/// A cell is free exactly when the list holds it and the body does not.
pub proof fn lemma_free_cells_contains(cells: Seq<GridCell>, body: Seq<GridCell>, c: GridCell)
    ensures
        free_cells(cells, body).contains(c) <==> (cells.contains(c) && !body.contains(c)),
{
    let pred = |d: GridCell| !body.contains(d);
    let free = cells.filter(pred);
    if free.contains(c) {
        let i = choose|i: int| 0 <= i < free.len() && free[i] == c;
        cells.lemma_filter_pred(pred, i);
        cells.lemma_filter_contains_rev(pred, c);
    }
    if cells.contains(c) && !body.contains(c) {
        let i = choose|i: int| 0 <= i < cells.len() && cells[i] == c;
        cells.lemma_filter_contains(pred, i);
    }
}

/// Why a game cannot be set up.
#[derive(Debug, PartialEq, Eq, Structural, Clone, Copy)]
pub enum GameError {
    /// The terminal leaves too little room for the board and the starting snake.
    TerminalTooSmall,
}

/// The smallest coordinate of the playable range along an axis of `n` terminal cells,
/// for a playable fraction of `percent` hundredths: `floor(2 + (n - 1) * (1 - f))`.
pub open spec fn low_bound(n: u16, percent: u16) -> int {
    2 + ((n - 1) * (100 - percent)) / 100
}

/// The largest coordinate of the playable range along an axis of `n` terminal cells:
/// `floor((n - 1) * f)`.
pub open spec fn high_bound(n: u16, percent: u16) -> int {
    ((n - 1) * percent) / 100
}

/// Whether a terminal of `w` by `h` cells, at a playable fraction of `percent`
/// hundredths, gives a rectangle that holds the starting snake: `INIT_SNAKE_SIZE`
/// cells side by side, left of the rightmost column.
pub open spec fn grid_fits(w: u16, h: u16, percent: u16) -> bool {
    &&& w >= 1
    &&& h >= 1
    &&& low_bound(w, percent) + INIT_SNAKE_SIZE <= high_bound(w, percent)
    &&& low_bound(h, percent) <= high_bound(h, percent)
}

/// The bounds of the playable rectangle and the list of its cells.
#[derive(Debug)]
pub struct GameGrid {
    pub x_min: u16,
    pub y_min: u16,
    pub x_max: u16,
    pub y_max: u16,
    pub cells: Vec<GridCell>,
}

impl GameGrid {
    /// The bounds leave room for the starting snake, and `cells` lists the rectangle.
    pub open spec fn wf(&self) -> bool {
        &&& self.x_min + INIT_SNAKE_SIZE <= self.x_max
        &&& self.y_min <= self.y_max
        &&& self.x_min >= 1
        &&& self.cells@ == cells_of(self.x_min, self.y_min, self.x_max, self.y_max)
    }

    /// Whether `c` lies inside the playable rectangle.
    pub open spec fn contains(&self, c: GridCell) -> bool {
        self.x_min <= c.x <= self.x_max && self.y_min <= c.y <= self.y_max
    }

    /// The cell one step from `head` in direction `dir`; a step off an edge of the
    /// rectangle comes back in at the opposite edge.
    pub open spec fn next_head(&self, head: GridCell, dir: Direction) -> GridCell {
        match dir {
            Direction::Right => GridCell {
                x: if head.x == self.x_max { self.x_min } else { (head.x + 1) as u16 },
                y: head.y,
            },
            Direction::Left => GridCell {
                x: if head.x == self.x_min { self.x_max } else { (head.x - 1) as u16 },
                y: head.y,
            },
            Direction::Up => GridCell {
                x: head.x,
                y: if head.y == self.y_min { self.y_max } else { (head.y - 1) as u16 },
            },
            Direction::Down => GridCell {
                x: head.x,
                y: if head.y == self.y_max { self.y_min } else { (head.y + 1) as u16 },
            },
        }
    }

    /// The bounds as `(x_min, y_min, x_max, y_max)`.
    pub fn get_corners(&self) -> (r: (u16, u16, u16, u16))
        ensures
            r == (self.x_min, self.y_min, self.x_max, self.y_max),
    {
        (self.x_min, self.y_min, self.x_max, self.y_max)
    }

    /// Computes the playable rectangle for a terminal of the given size and a playable
    /// fraction of `percent` hundredths, or refuses a terminal too small to hold it.
    pub fn new(terminal_size: &TerminalSize, percent: u16) -> (r: Result<Self, GameError>)
        requires
            0 < percent <= 100,
        ensures
            r is Ok <==> grid_fits(terminal_size.width(), terminal_size.height(), percent),
            r is Err ==> r == Err::<Self, GameError>(GameError::TerminalTooSmall),
            r matches Ok(g) ==> {
                &&& g.wf()
                &&& g.x_min == low_bound(terminal_size.width(), percent)
                &&& g.y_min == low_bound(terminal_size.height(), percent)
                &&& g.x_max == high_bound(terminal_size.width(), percent)
                &&& g.y_max == high_bound(terminal_size.height(), percent)
            },
    {
        let w = terminal_size.x();
        let h = terminal_size.y();
        if w < 1 || h < 1 {
            return Err(GameError::TerminalTooSmall);
        }
        let p = percent as u32;
        let wm = w as u32 - 1;
        let hm = h as u32 - 1;
        assert(wm * (100 - p) <= 65535 * 100 && wm * p <= wm * 100) by (nonlinear_arith)
            requires wm <= 65535, p <= 100;
        assert(hm * (100 - p) <= 65535 * 100 && hm * p <= hm * 100) by (nonlinear_arith)
            requires hm <= 65535, p <= 100;
        let x_min = 2 + wm * (100 - p) / 100;
        let y_min = 2 + hm * (100 - p) / 100;
        let x_max = wm * p / 100;
        let y_max = hm * p / 100;
        if x_min + INIT_SNAKE_SIZE as u32 > x_max || y_min > y_max {
            return Err(GameError::TerminalTooSmall);
        }
        let x_min = x_min as u16;
        let y_min = y_min as u16;
        let x_max = x_max as u16;
        let y_max = y_max as u16;
        let cells = Self::fill_cells(x_min, y_min, x_max, y_max);
        Ok(Self { x_min, y_min, x_max, y_max, cells })
    }

    /// Lists every cell of `[x_min, x_max] × [y_min, y_max]`, column by column.
    pub fn fill_cells(x_min: u16, y_min: u16, x_max: u16, y_max: u16) -> (cells: Vec<GridCell>)
        ensures
            cells@ == cells_of(x_min, y_min, x_max, y_max),
    {
        let mut cells: Vec<GridCell> = Vec::new();
        if x_min > x_max || y_min > y_max {
            let ghost w = span(x_min, x_max);
            let ghost h = span(y_min, y_max);
            assert(w * h == 0) by (nonlinear_arith)
                requires w == 0 || h == 0;
            assert(cells@ =~= cells_of(x_min, y_min, x_max, y_max));
            return cells;
        }
        let ghost h = span(y_min, y_max);
        let mut i: u32 = x_min as u32;
        while i <= x_max as u32
            invariant
                x_min <= x_max,
                y_min <= y_max,
                h == span(y_min, y_max),
                x_min <= i <= x_max + 1,
                cells@.len() == (i - x_min) * h,
                forall|k: int| 0 <= k < cells@.len() ==> cells@[k] == cell_at(x_min, y_min, h, k),
            decreases x_max + 1 - i,
        {
            let mut j: u32 = y_min as u32;
            while j <= y_max as u32
                invariant
                    x_min <= i <= x_max,
                    y_min <= y_max,
                    h == span(y_min, y_max),
                    y_min <= j <= y_max + 1,
                    cells@.len() == (i - x_min) * h + (j - y_min),
                    forall|k: int| 0 <= k < cells@.len() ==> cells@[k] == cell_at(x_min, y_min, h, k),
                decreases y_max + 1 - j,
            {
                proof {
                    lemma_fundamental_div_mod_converse(
                        cells@.len() as int,
                        h,
                        i - x_min,
                        j - y_min,
                    );
                }
                cells.push(GridCell { x: i as u16, y: j as u16 });
                j = j + 1;
            }
            assert((i - x_min) * h + h == (i + 1 - x_min) * h) by (nonlinear_arith);
            i = i + 1;
        }
        assert(cells@ =~= cells_of(x_min, y_min, x_max, y_max));
        cells
    }
}

/// The number of cells of a newly made snake.
pub const INIT_SNAKE_SIZE: u16 = 5;

/// A newly made snake on row `y`: the head at `x_max - 1`, each further cell one
/// column to the left of the one before.
pub open spec fn starting_body(x_max: u16, y: u16) -> Seq<GridCell> {
    Seq::new(INIT_SNAKE_SIZE as nat, |i: int| GridCell { x: (x_max - 1 - i) as u16, y })
}

/// The start screen's demo snake on row `y`: the head at `x_max - 5`, each further
/// cell one column to the right of the one before, the tail at `x_max - 1`.
pub open spec fn welcome_body(x_max: u16, y: u16) -> Seq<GridCell> {
    Seq::new(
        INIT_SNAKE_SIZE as nat,
        |i: int| GridCell { x: (x_max - INIT_SNAKE_SIZE + i) as u16, y },
    )
}

/// The body after a move: `new_head` in front, the last cell dropped.
pub open spec fn advanced(body: Seq<GridCell>, new_head: GridCell) -> Seq<GridCell> {
    seq![new_head] + body.drop_last()
}

/// Whether the head lies on another cell of the body.
pub open spec fn self_collides(body: Seq<GridCell>) -> bool {
    body.len() >= 1 && body.subrange(1, body.len() as int).contains(body[0])
}

/// The cells of `cells`, in order, that `body` does not occupy.
pub open spec fn free_cells(cells: Seq<GridCell>, body: Seq<GridCell>) -> Seq<GridCell> {
    cells.filter(|c: GridCell| !body.contains(c))
}

/// The snake: its cells from head to tail, and the tail cell that the last move
/// vacated, kept until the next move so that an eaten food can restore it.
#[derive(Debug)]
pub struct Snake {
    pub body: VecDeque<GridCell>,
    pub old_tail: Option<GridCell>,
}

impl Snake {
    /// Makes a snake of `INIT_SNAKE_SIZE` cells on row `y`, head at `x_max - 1`.
    fn starting_at(x_max: u16, y: u16) -> (r: Snake)
        requires
            x_max >= INIT_SNAKE_SIZE,
        ensures
            r.body@ == starting_body(x_max, y),
            r.old_tail is None,
    {
        let mut body: VecDeque<GridCell> = VecDeque::new();
        let mut i: u16 = 1;
        while i <= INIT_SNAKE_SIZE
            invariant
                x_max >= INIT_SNAKE_SIZE,
                1 <= i <= INIT_SNAKE_SIZE + 1,
                body@ =~= starting_body(x_max, y).subrange(0, i - 1),
            decreases INIT_SNAKE_SIZE + 1 - i,
        {
            body.push_back(GridCell { x: x_max - i, y });
            i = i + 1;
        }
        Snake { body, old_tail: None }
    }

    /// Makes the demo snake of `INIT_SNAKE_SIZE` cells on row `y`, head at
    /// `x_max - 5`.
    fn welcome_at(x_max: u16, y: u16) -> (r: Snake)
        requires
            x_max >= INIT_SNAKE_SIZE,
        ensures
            r.body@ == welcome_body(x_max, y),
            r.old_tail is None,
    {
        let mut body: VecDeque<GridCell> = VecDeque::new();
        let mut i: u16 = 0;
        while i < INIT_SNAKE_SIZE
            invariant
                x_max >= INIT_SNAKE_SIZE,
                0 <= i <= INIT_SNAKE_SIZE,
                body@ =~= welcome_body(x_max, y).subrange(0, i as int),
            decreases INIT_SNAKE_SIZE - i,
        {
            body.push_back(GridCell { x: x_max - INIT_SNAKE_SIZE + i, y });
            i = i + 1;
        }
        Snake { body, old_tail: None }
    }

    /// The starting snake of a game: on the middle row of the grid, head at
    /// `x_max - 1`, tail at `x_max - 5`.
    pub fn new(grid: &GameGrid) -> (r: Snake)
        requires
            grid.wf(),
        ensures
            r.body@ == starting_body(grid.x_max, ((grid.y_min + grid.y_max) / 2) as u16),
            r.old_tail is None,
    {
        let y = ((grid.y_min as u32 + grid.y_max as u32) / 2) as u16;
        Self::starting_at(grid.x_max, y)
    }

    pub fn get_head(&self) -> (r: &GridCell)
        requires
            self.body@.len() > 0,
        ensures
            *r == self.body@[0],
    {
        &self.body[0]
    }

    /// Puts `head` in front of the body.
    pub fn add_head(&mut self, head: GridCell)
        ensures
            final(self).body@ == seq![head] + old(self).body@,
            final(self).old_tail == old(self).old_tail,
    {
        self.body.push_front(head);
    }

    /// Takes the last cell off the body and keeps it as the vacated tail.
    pub fn remove_tail(&mut self)
        ensures
            old(self).body@.len() > 0 ==> final(self).body@ == old(self).body@.drop_last()
                && final(self).old_tail == Some(old(self).body@.last()),
            old(self).body@.len() == 0 ==> final(self).body@ == old(self).body@
                && final(self).old_tail is None,
    {
        self.old_tail = self.body.pop_back();
    }

    /// Puts the vacated tail back at the end of the body.
    pub fn restore_tail(&mut self)
        requires
            old(self).old_tail is Some,
        ensures
            final(self).body@ == old(self).body@.push(old(self).old_tail->0),
            final(self).old_tail is None,
    {
        match self.old_tail {
            Some(tail) => self.body.push_back(tail),
            None => {},
        }
        self.old_tail = None;
    }
}

/// The row of the start screen's demo snake, for a board whose lowest row is `y_max`.
pub open spec fn welcome_row(y_max: u16) -> int {
    (y_max + y_max / 2) / 2
}

/// Whether a terminal of `w` by `h` cells holds the start screen's full-size board
/// with its demo snake.
pub open spec fn welcome_fits(w: u16, h: u16) -> bool {
    grid_fits(w, h, 100) && welcome_row(high_bound(h, 100) as u16) >= low_bound(h, 100)
}

/// The direction after asking to turn from `current` to `requested`: the turn is
/// taken when it crosses the current axis, and ignored otherwise.
pub open spec fn turned(current: Direction, requested: Direction) -> Direction {
    if requested.is_vertical() != current.is_vertical() {
        requested
    } else {
        current
    }
}

/// A snake on a row of the board, left of its rightmost column, lies on the board
/// and leaves a cell free.
proof fn lemma_start_has_room(grid: &GameGrid, body: Seq<GridCell>, y: u16)
    requires
        grid.wf(),
        grid.y_min <= y <= grid.y_max,
        forall|i: int|
            0 <= i < body.len() ==> (#[trigger] body[i]).y == y && grid.x_min <= body[i].x
                < grid.x_max,
    ensures
        forall|i: int| 0 <= i < body.len() ==> grid.contains(#[trigger] body[i]),
        free_cells(grid.cells@, body).len() > 0,
{
    let c = GridCell { x: grid.x_max, y };
    lemma_cells_of_contains(grid.x_min, grid.y_min, grid.x_max, grid.y_max, c);
    assert(!body.contains(c)) by {
        if body.contains(c) {
            let i = choose|i: int| 0 <= i < body.len() && body[i] == c;
        }
    }
    lemma_free_cells_contains(grid.cells@, body, c);
}

/// How far a step in `dir` moves along the x axis, away from the edges.
pub open spec fn delta_x(dir: Direction) -> int {
    match dir {
        Direction::Left => -1,
        Direction::Right => 1,
        _ => 0,
    }
}

/// How far a step in `dir` moves along the y axis, away from the edges; y grows
/// downwards.
pub open spec fn delta_y(dir: Direction) -> int {
    match dir {
        Direction::Up => -1,
        Direction::Down => 1,
        _ => 0,
    }
}

/// Away from the edges of the board, a step moves the head by exactly one cell along
/// the axis of its direction, and a move keeps the snake's length.
pub proof fn lemma_step_inside(grid: GameGrid, head: GridCell, dir: Direction, body: Seq<GridCell>)
    requires
        grid.wf(),
        grid.x_min < head.x < grid.x_max,
        grid.y_min < head.y < grid.y_max,
        body.len() >= 1,
    ensures
        grid.next_head(head, dir).x == head.x + delta_x(dir),
        grid.next_head(head, dir).y == head.y + delta_y(dir),
        advanced(body, grid.next_head(head, dir)).len() == body.len(),
{
}

/// A step off an edge of the board comes back in at the opposite edge, on the same
/// row or column.
pub proof fn lemma_wrap_around(grid: GameGrid, head: GridCell)
    requires
        grid.wf(),
        grid.contains(head),
    ensures
        head.x == grid.x_max ==> grid.next_head(head, Direction::Right) == (GridCell {
            x: grid.x_min,
            y: head.y,
        }),
        head.x == grid.x_min ==> grid.next_head(head, Direction::Left) == (GridCell {
            x: grid.x_max,
            y: head.y,
        }),
        head.y == grid.y_min ==> grid.next_head(head, Direction::Up) == (GridCell {
            x: head.x,
            y: grid.y_max,
        }),
        head.y == grid.y_max ==> grid.next_head(head, Direction::Down) == (GridCell {
            x: head.x,
            y: grid.y_min,
        }),
{
}

/// A move onto a cell of the body, other than the tail that the move vacates, is a
/// collision; a snake of a single cell never collides with itself.
pub proof fn lemma_self_collision(body: Seq<GridCell>, new_head: GridCell)
    ensures
        body.len() >= 2 && body.drop_last().contains(new_head) ==> self_collides(
            advanced(body, new_head),
        ),
        body.len() == 1 ==> !self_collides(advanced(body, new_head)),
{
    let moved = advanced(body, new_head);
    if body.len() >= 2 && body.drop_last().contains(new_head) {
        let i = choose|i: int| 0 <= i < body.len() - 1 && body.drop_last()[i] == new_head;
        assert(moved.subrange(1, moved.len() as int)[i] == new_head);
    }
    if body.len() == 1 {
        assert(moved.subrange(1, moved.len() as int) =~= Seq::<GridCell>::empty());
    }
}

/// Relies on rand's `thread_rng` and `Rng::gen_range`: the value is drawn from
/// `0..n` and lies in it; `gen_range` panics on an empty range, which `n > 0` rules out.
#[verifier::external_body]
fn random_index(n: usize) -> (r: usize)
    requires
        n > 0,
    ensures
        r < n,
{
    rand::Rng::gen_range(&mut rand::thread_rng(), 0..n)
}

/// One running game: the board, the snake, the food and the direction of travel.
pub struct GameInstance {
    pub grid: GameGrid,
    pub snake: Snake,
    pub food: GridCell,
    pub direction: Direction,
}

impl GameInstance {
    /// Whether `next` and `alive` are what one tick makes of `self`: the snake moves;
    /// a collision ends the game, whether or not the head also met the food; a head
    /// that meets the food restores the vacated tail, and the game goes on exactly when
    /// a cell is left free, which then holds the new food.
    pub open spec fn ticked(self, next: Self, alive: bool) -> bool {
        let body = self.snake.body@;
        let new_head = self.grid.next_head(body[0], self.direction);
        let moved = advanced(body, new_head);
        let after = next.snake.body@;
        &&& next.grid == self.grid
        &&& next.direction == self.direction
        &&& self_collides(moved) ==> {
            &&& !alive
            &&& after == moved
            &&& next.snake.old_tail == Some(body.last())
            &&& next.food == self.food
        }
        &&& !self_collides(moved) && new_head != self.food ==> {
            &&& alive
            &&& after == moved
            &&& next.snake.old_tail == Some(body.last())
            &&& next.food == self.food
        }
        &&& !self_collides(moved) && new_head == self.food ==> {
            &&& after == seq![new_head] + body
            &&& after.len() == body.len() + 1
            &&& next.snake.old_tail is None
            &&& alive <==> free_cells(self.grid.cells@, after).len() > 0
            &&& alive ==> !after.contains(next.food)
            &&& !alive ==> next.food == self.food
        }
    }

    /// Whether `self` is a game just set up on a terminal of `w` by `h` cells at a
    /// playable fraction of `percent` hundredths, with the snake `body` heading in
    /// `direction`.
    pub open spec fn is_fresh(
        self,
        w: u16,
        h: u16,
        percent: u16,
        body: Seq<GridCell>,
        direction: Direction,
    ) -> bool {
        &&& self.wf()
        &&& self.grid.x_min == low_bound(w, percent)
        &&& self.grid.y_min == low_bound(h, percent)
        &&& self.grid.x_max == high_bound(w, percent)
        &&& self.grid.y_max == high_bound(h, percent)
        &&& self.snake.body@ == body
        &&& self.snake.old_tail is None
        &&& self.direction == direction
        &&& !self.snake.body@.contains(self.food)
    }

    /// The grid is well formed, the snake is not empty, and the snake and the food lie
    /// on the board.
    pub open spec fn wf(&self) -> bool {
        &&& self.grid.wf()
        &&& self.snake.body@.len() >= 1
        &&& forall|i: int|
            0 <= i < self.snake.body@.len() ==> self.grid.contains(#[trigger] self.snake.body@[i])
        &&& self.grid.contains(self.food)
    }

    /// Sets up a game on the board for a playable fraction of `percent` hundredths:
    /// the starting snake on the middle row, heading right, and food on a free cell.
    pub fn new(terminal_size: &TerminalSize, percent: u16) -> (r: Result<Self, GameError>)
        requires
            0 < percent <= 100,
        ensures
            r is Ok <==> grid_fits(terminal_size.width(), terminal_size.height(), percent),
            r is Err ==> r == Err::<Self, GameError>(GameError::TerminalTooSmall),
            r matches Ok(g) ==> g.is_fresh(
                terminal_size.width(),
                terminal_size.height(),
                percent,
                starting_body(g.grid.x_max, ((g.grid.y_min + g.grid.y_max) / 2) as u16),
                Direction::Right,
            ),
    {
        let grid = match GameGrid::new(terminal_size, percent) {
            Ok(grid) => grid,
            Err(e) => return Err(e),
        };
        let snake = Snake::new(&grid);
        Self::start(grid, snake, Direction::Right)
    }

    /// Sets up the start screen's demo game on the full terminal: the snake on a row
    /// three quarters of the way down, its head at `x_max - 5` and heading left, and
    /// food on a free cell.
    pub fn new_welcome(terminal_size: &TerminalSize) -> (r: Result<Self, GameError>)
        ensures
            r is Ok <==> welcome_fits(terminal_size.width(), terminal_size.height()),
            r is Err ==> r == Err::<Self, GameError>(GameError::TerminalTooSmall),
            r matches Ok(g) ==> g.is_fresh(
                terminal_size.width(),
                terminal_size.height(),
                100,
                welcome_body(g.grid.x_max, welcome_row(g.grid.y_max) as u16),
                Direction::Left,
            ),
    {
        let grid = match GameGrid::new(terminal_size, 100) {
            Ok(grid) => grid,
            Err(e) => return Err(e),
        };
        let y_max = grid.y_max as u32;
        let y = (y_max + y_max / 2) / 2;
        if y < grid.y_min as u32 {
            return Err(GameError::TerminalTooSmall);
        }
        let snake = Snake::welcome_at(grid.x_max, y as u16);
        Self::start(grid, snake, Direction::Left)
    }

    /// Completes a game from its board and a snake laid along one row: food on a
    /// free cell, and the snake heading in `direction`.
    fn start(grid: GameGrid, snake: Snake, direction: Direction) -> (r: Result<Self, GameError>)
        requires
            grid.wf(),
            snake.body@.len() >= 1,
            grid.y_min <= snake.body@[0].y <= grid.y_max,
            forall|i: int|
                0 <= i < snake.body@.len() ==> (#[trigger] snake.body@[i]).y == snake.body@[0].y
                    && grid.x_min <= snake.body@[i].x < grid.x_max,
        ensures
            r matches Ok(g) && g.grid == grid && g.snake == snake && g.direction == direction
                && g.wf() && !g.snake.body@.contains(g.food),
    {
        proof {
            lemma_start_has_room(&grid, snake.body@, snake.body@[0].y);
        }
        match Self::generate_random_food(&grid.cells, &snake) {
            Some(food) => {
                proof {
                    lemma_cells_of_contains(grid.x_min, grid.y_min, grid.x_max, grid.y_max, food);
                }
                Ok(Self { grid, snake, food, direction })
            },
            None => Err(GameError::TerminalTooSmall),
        }
    }

    /// Turns the snake to `requested` when that crosses the current axis of travel; a
    /// request along the same axis, ahead or straight back, is ignored.
    pub fn request_direction(&mut self, requested: Direction)
        ensures
            final(self).direction == turned(old(self).direction, requested),
            final(self).grid == old(self).grid,
            final(self).snake == old(self).snake,
            final(self).food == old(self).food,
    {
        if requested.vertical() != self.direction.vertical() {
            self.direction = requested;
        }
    }

    /// Runs one tick: moves the snake; ends the game if the head lands on the body;
    /// otherwise, if the head lands on the food, restores the vacated tail and puts new
    /// food on a free cell. Returns whether the game goes on: false on a collision,
    /// whether or not the head also met the food, and false when the grown snake leaves
    /// no cell free for new food.
    pub fn game_cycle(&mut self) -> (alive: bool)
        requires
            old(self).wf(),
        ensures
            final(self).wf(),
            old(self).ticked(*final(self), alive),
    {
        let ghost body = self.snake.body@;
        self.move_snake();
        if self.check_collision() {
            return false;
        }
        if *self.snake.get_head() == self.food {
            self.snake.restore_tail();
            assert(self.snake.body@ =~= seq![self.snake.body@[0]] + body);
            assert forall|i: int| 0 <= i < self.snake.body@.len() implies self.grid.contains(
                #[trigger] self.snake.body@[i],
            ) by {
                if i > 0 {
                    assert(self.snake.body@[i] == body[i - 1]);
                }
            }
            match Self::generate_random_food(&self.grid.cells, &self.snake) {
                Some(food) => {
                    proof {
                        lemma_cells_of_contains(
                            self.grid.x_min,
                            self.grid.y_min,
                            self.grid.x_max,
                            self.grid.y_max,
                            food,
                        );
                    }
                    self.food = food;
                },
                None => return false,
            }
        }
        true
    }

    /// Whether `body` holds `cell`.
    fn occupies(body: &VecDeque<GridCell>, cell: GridCell) -> (r: bool)
        ensures
            r == body@.contains(cell),
    {
        let mut i: usize = 0;
        while i < body.len()
            invariant
                i <= body@.len(),
                forall|j: int| 0 <= j < i ==> body@[j] != cell,
            decreases body@.len() - i,
        {
            if body[i] == cell {
                return true;
            }
            i = i + 1;
        }
        false
    }

    /// The cells of `cells`, in order, that the snake does not occupy.
    pub fn empty_cells(cells: &[GridCell], snake: &Snake) -> (r: Vec<GridCell>)
        ensures
            r@ == free_cells(cells@, snake.body@),
    {
        let mut free: Vec<GridCell> = Vec::new();
        let mut i: usize = 0;
        while i < cells.len()
            invariant
                i <= cells@.len(),
                free@ == free_cells(cells@.subrange(0, i as int), snake.body@),
            decreases cells@.len() - i,
        {
            let cell = cells[i];
            let occupied = Self::occupies(&snake.body, cell);
            proof {
                let pred = |c: GridCell| !snake.body@.contains(c);
                assert(cells@.subrange(0, i as int + 1) =~= cells@.subrange(0, i as int).push(cell));
                cells@.subrange(0, i as int).lemma_filter_push(cell, pred);
            }
            if !occupied {
                free.push(cell);
            }
            i = i + 1;
        }
        assert(cells@.subrange(0, cells@.len() as int) =~= cells@);
        free
    }

    /// The free cell at position `index` of the free cells of `cells`, in order, or
    /// `None` when there are not that many.
    pub fn place_food_at(cells: &[GridCell], snake: &Snake, index: usize) -> (r: Option<GridCell>)
        ensures
            r == if index < free_cells(cells@, snake.body@).len() {
                Some(free_cells(cells@, snake.body@)[index as int])
            } else {
                None
            },
    {
        let free = Self::empty_cells(cells, snake);
        if index < free.len() {
            Some(free[index])
        } else {
            None
        }
    }

    /// Picks a cell of `cells` that the snake does not occupy, uniformly at random, or
    /// `None` when the snake covers them all.
    pub fn generate_random_food(cells: &[GridCell], snake: &Snake) -> (r: Option<GridCell>)
        ensures
            r is Some <==> free_cells(cells@, snake.body@).len() > 0,
            r matches Some(c) ==> exists|i: int|
                0 <= i < free_cells(cells@, snake.body@).len() && c == free_cells(
                    cells@,
                    snake.body@,
                )[i],
            r matches Some(c) ==> cells@.contains(c) && !snake.body@.contains(c),
    {
        let free = Self::empty_cells(cells, snake);
        if free.len() == 0 {
            return None;
        }
        let index = random_index(free.len());
        let food = Self::place_food_at(cells, snake, index);
        proof {
            assert(free@.contains(free@[index as int]));
            lemma_free_cells_contains(cells@, snake.body@, free@[index as int]);
        }
        food
    }

    /// Moves the snake one step in the current direction: the new head goes in front
    /// and the last cell is taken off and kept as the vacated tail.
    pub fn move_snake(&mut self)
        requires
            old(self).wf(),
        ensures
            final(self).grid == old(self).grid,
            final(self).food == old(self).food,
            final(self).direction == old(self).direction,
            final(self).snake.body@ == advanced(
                old(self).snake.body@,
                old(self).grid.next_head(old(self).snake.body@[0], old(self).direction),
            ),
            final(self).snake.old_tail == Some(old(self).snake.body@.last()),
            final(self).wf(),
    {
        let head = *self.snake.get_head();
        let new_head = match self.direction {
            Direction::Right => {
                let x = if head.x == self.grid.x_max {
                    self.grid.x_min
                } else {
                    head.x + 1
                };
                GridCell { x, y: head.y }
            },
            Direction::Left => {
                let x = if head.x == self.grid.x_min {
                    self.grid.x_max
                } else {
                    head.x - 1
                };
                GridCell { x, y: head.y }
            },
            Direction::Up => {
                let y = if head.y == self.grid.y_min {
                    self.grid.y_max
                } else {
                    head.y - 1
                };
                GridCell { x: head.x, y }
            },
            Direction::Down => {
                let y = if head.y == self.grid.y_max {
                    self.grid.y_min
                } else {
                    head.y + 1
                };
                GridCell { x: head.x, y }
            },
        };
        assert(self.grid.contains(head));
        self.snake.add_head(new_head);
        self.snake.remove_tail();
        proof {
            let b = self.snake.body@;
            assert forall|i: int| 0 <= i < b.len() implies self.grid.contains(#[trigger] b[i]) by {
                if i > 0 {
                    assert(b[i] == old(self).snake.body@[i - 1]);
                }
            }
        }
    }

    /// Whether the head lies on another cell of the body.
    pub fn check_collision(&self) -> (r: bool)
        requires
            self.snake.body@.len() >= 1,
        ensures
            r == self_collides(self.snake.body@),
    {
        let body = &self.snake.body;
        let head = body[0];
        let mut i: usize = 1;
        while i < body.len()
            invariant
                body == &self.snake.body,
                1 <= i <= body@.len(),
                head == body@[0],
                forall|j: int| 1 <= j < i ==> body@[j] != head,
            decreases body@.len() - i,
        {
            if body[i] == head {
                let ghost rest = body@.subrange(1, body@.len() as int);
                assert(rest[i - 1] == body@[i as int]);
                assert(rest.contains(head));
                return true;
            }
            i = i + 1;
        }
        assert forall|j: int| 0 <= j < body@.len() - 1 implies body@.subrange(
            1,
            body@.len() as int,
        )[j] != head by {
            assert(body@.subrange(1, body@.len() as int)[j] == body@[j + 1]);
        }
        false
    }
}

} // verus!
