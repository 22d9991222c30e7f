use vstd::prelude::*;

verus! {

/// The state of one cell.
#[derive(PartialEq, Eq, Structural, Clone, Copy, Debug)]
pub enum CellState {
    Dead,
    Alive,
}

impl CellState {
    /// The opposite state.
    pub fn next_state(&self) -> (r: CellState)
        ensures
            r == (match *self {
                CellState::Dead => CellState::Alive,
                CellState::Alive => CellState::Dead,
            }),
    {
        match self {
            CellState::Dead => CellState::Alive,
            CellState::Alive => CellState::Dead,
        }
    }
}

/// The next state of a cell in `s` that has `n` live neighbours.
pub open spec fn life_rule(s: CellState, n: int) -> CellState {
    match s {
        CellState::Alive => if n < 2 || n > 3 { CellState::Dead } else { CellState::Alive },
        CellState::Dead => if n == 3 { CellState::Alive } else { CellState::Dead },
    }
}

/// The cell state a coin draw gives: alive for `true`.
pub open spec fn coin_state(c: bool) -> CellState {
    if c { CellState::Alive } else { CellState::Dead }
}

/// `coins` has one draw for each cell of a `width` by `height` grid.
pub open spec fn coins_fit(coins: Seq<Seq<bool>>, width: nat, height: nat) -> bool {
    &&& coins.len() == height
    &&& forall|y: int| 0 <= y < height ==> #[trigger] coins[y].len() == width
}

/// The mathematical model of a grid: its dimensions and its rows of cells.
pub struct Grid {
    pub width: nat,
    pub height: nat,
    pub cells: Seq<Seq<CellState>>,
}

impl Grid {
    /// Every row is present and each row has `width` cells.
    pub open spec fn wf(self) -> bool {
        &&& self.cells.len() == self.height
        &&& forall|y: int| 0 <= y < self.height ==> #[trigger] self.cells[y].len() == self.width
    }

    pub open spec fn in_bounds(self, x: int, y: int) -> bool {
        0 <= x < self.width && 0 <= y < self.height
    }

    /// Whether (x, y) lies on the grid and holds a live cell; off-grid
    /// positions are absent, never wrapped.
    pub open spec fn alive(self, x: int, y: int) -> bool {
        self.in_bounds(x, y) && self.cells[y][x] == CellState::Alive
    }

    pub open spec fn alive_count(self, x: int, y: int) -> int {
        if self.alive(x, y) { 1 } else { 0 }
    }

    /// Live cells among the eight Moore neighbours of (x, y).
    pub open spec fn neighbors(self, x: int, y: int) -> int {
        self.alive_count(x - 1, y - 1) + self.alive_count(x, y - 1) + self.alive_count(x + 1, y - 1)
            + self.alive_count(x - 1, y) + self.alive_count(x + 1, y)
            + self.alive_count(x - 1, y + 1) + self.alive_count(x, y + 1) + self.alive_count(x + 1, y + 1)
    }

    /// The next generation: every cell follows the rule, all computed from
    /// this grid.
    pub open spec fn successor(self) -> Grid {
        Grid {
            width: self.width,
            height: self.height,
            cells: Seq::new(
                self.height,
                |y: int| Seq::new(self.width, |x: int| life_rule(self.cells[y][x], self.neighbors(x, y))),
            ),
        }
    }

    /// `n` generations on from this grid.
    pub open spec fn iterate(self, n: nat) -> Grid
        decreases n,
    {
        if n == 0 { self } else { self.iterate((n - 1) as nat).successor() }
    }

    /// A grid of the given size whose cells are all `s`.
    pub open spec fn filled(width: nat, height: nat, s: CellState) -> Grid {
        Grid { width, height, cells: Seq::new(height, |y: int| Seq::new(width, |x: int| s)) }
    }

    pub open spec fn all_dead(self) -> bool {
        forall|x: int, y: int| !#[trigger] self.alive(x, y)
    }

    /// The grid whose cell (x, y) is alive exactly where `coins[y][x]` is true.
    pub open spec fn from_coins(width: nat, height: nat, coins: Seq<Seq<bool>>) -> Grid {
        Grid {
            width,
            height,
            cells: Seq::new(height, |y: int| Seq::new(width, |x: int| coin_state(coins[y][x]))),
        }
    }
}

/// A fixed-size grid of cells, stored row by row.
pub struct World {
    width: usize,
    height: usize,
    cells: Vec<Vec<CellState>>,
}

impl View for World {
    type V = Grid;

    closed spec fn view(&self) -> Grid {
        Grid {
            width: self.width as nat,
            height: self.height as nat,
            cells: self.cells@.map_values(|row: Vec<CellState>| row@),
        }
    }
}

/// Relies on rand::random: a value drawn from the thread-local generator,
/// which for `bool` is a fair coin. Nothing is promised of the value.
pub assume_specification<T>[ rand::random::<T> ]() -> (r: T)
    where
        rand::distributions::Standard: rand::distributions::Distribution<T>,
;

/// One fair coin draw for each cell of a `width` by `height` grid, row by row.
pub(crate) fn draw_coins(width: usize, height: usize) -> (r: Vec<Vec<bool>>)
    ensures
        coins_fit(r@.map_values(|row: Vec<bool>| row@), width as nat, height as nat),
{
    let mut coins: Vec<Vec<bool>> = Vec::with_capacity(height);
    for y in 0..height
        invariant
            coins.len() == y,
            forall|j: int| 0 <= j < y ==> #[trigger] coins@[j]@.len() == width,
    {
        let mut row: Vec<bool> = Vec::with_capacity(width);
        for x in 0..width
            invariant
                row.len() == x,
        {
            row.push(rand::random::<bool>());
        }
        coins.push(row);
    }
    coins
}

impl World {
    pub open spec fn wf(&self) -> bool {
        self@.wf()
    }

    /// A `width` by `height` grid with every cell dead.
    pub fn new(width: usize, height: usize) -> (r: World)
        ensures
            r.wf(),
            r@ == Grid::filled(width as nat, height as nat, CellState::Dead),
    {
        let mut cells: Vec<Vec<CellState>> = Vec::with_capacity(height);
        for _y in 0..height
            invariant
                forall|j: int| 0 <= j < cells.len() ==> #[trigger] cells@[j]@ == Seq::new(width as nat, |x: int| CellState::Dead),
                cells.len() == _y,
        {
            let mut row: Vec<CellState> = Vec::with_capacity(width);
            for _x in 0..width
                invariant
                    row.len() == _x,
                    forall|i: int| 0 <= i < row.len() ==> #[trigger] row@[i] == CellState::Dead,
            {
                row.push(CellState::Dead);
            }
            assert(row@ =~= Seq::new(width as nat, |x: int| CellState::Dead));
            cells.push(row);
        }
        let r = World { width, height, cells };
        assert(r@.cells =~= Grid::filled(width as nat, height as nat, CellState::Dead).cells);
        r
    }

    pub fn width(&self) -> (r: usize)
        ensures
            r == self@.width,
    {
        self.width
    }

    pub fn height(&self) -> (r: usize)
        ensures
            r == self@.height,
    {
        self.height
    }

    /// The state of the cell at column `x`, row `y`.
    pub fn get(&self, x: usize, y: usize) -> (r: CellState)
        requires
            self.wf(),
            x < self@.width,
            y < self@.height,
        ensures
            r == self@.cells[y as int][x as int],
    {
        assert(self@.cells[y as int] == self.cells@[y as int]@);
        self.cells[y][x]
    }

    /// Sets the cell at column `x`, row `y`.
    pub fn set(&mut self, x: usize, y: usize, s: CellState)
        requires
            old(self).wf(),
            x < old(self)@.width,
            y < old(self)@.height,
        ensures
            final(self).wf(),
            final(self)@ == (Grid {
                cells: old(self)@.cells.update(y as int, old(self)@.cells[y as int].update(x as int, s)),
                ..old(self)@
            }),
    {
        self.cells[y][x] = s;
        assert(self@.cells =~= old(self)@.cells.update(y as int, old(self)@.cells[y as int].update(x as int, s)));
    }

    /// Sets the cell at column `x`, row `y` from `coins[y][x]`: alive for
    /// `true`, dead for `false`. What the cells held before plays no part.
    pub fn fill_from_coins(&mut self, coins: &Vec<Vec<bool>>)
        requires
            old(self).wf(),
            coins_fit(coins@.map_values(|row: Vec<bool>| row@), old(self)@.width, old(self)@.height),
        ensures
            final(self).wf(),
            final(self)@ == Grid::from_coins(
                old(self)@.width,
                old(self)@.height,
                coins@.map_values(|row: Vec<bool>| row@),
            ),
    {
        let ghost c = coins@.map_values(|row: Vec<bool>| row@);
        let width = self.width;
        let height = self.height;
        for y in 0..height
            invariant
                self.wf(),
                self@.width == width,
                self@.height == height,
                width == old(self)@.width,
                height == old(self)@.height,
                c == coins@.map_values(|row: Vec<bool>| row@),
                coins_fit(c, width as nat, height as nat),
                forall|j: int, i: int|
                    0 <= j < y && 0 <= i < width ==> #[trigger] self@.cells[j][i] == coin_state(c[j][i]),
        {
            for x in 0..width
                invariant
                    self.wf(),
                    y < height,
                    self@.width == width,
                    self@.height == height,
                    c == coins@.map_values(|row: Vec<bool>| row@),
                    coins_fit(c, width as nat, height as nat),
                    forall|j: int, i: int|
                        0 <= j < y && 0 <= i < width ==> #[trigger] self@.cells[j][i] == coin_state(c[j][i]),
                    forall|i: int| 0 <= i < x ==> #[trigger] self@.cells[y as int][i] == coin_state(c[y as int][i]),
            {
                assert(c[y as int] == coins@[y as int]@);
                let s = if coins[y][x] {
                    CellState::Alive
                } else {
                    CellState::Dead
                };
                self.set(x, y, s);
            }
        }
        let ghost target = Grid::from_coins(width as nat, height as nat, c);
        assert forall|j: int| 0 <= j < height implies #[trigger] self@.cells[j] =~= target.cells[j] by {}
        assert(self@.cells =~= target.cells);
    }

    /// Sets every cell, independently, alive or dead by a fair coin draw.
    /// Whatever the draws were, the grid keeps its size and each cell
    /// holds its own draw; the old cells play no part.
    pub fn randomize(&mut self)
        requires
            old(self).wf(),
        ensures
            final(self).wf(),
            exists|c: Seq<Seq<bool>>|
                coins_fit(c, old(self)@.width, old(self)@.height)
                && final(self)@ == #[trigger] Grid::from_coins(old(self)@.width, old(self)@.height, c),
    {
        let coins = draw_coins(self.width, self.height);
        self.fill_from_coins(&coins);
    }

    /// 1 where (x, y) holds a live cell, else 0; (x, y) must be on the grid.
    fn alive_at(&self, x: usize, y: usize) -> (r: u8)
        requires
            self.wf(),
            x < self@.width,
            y < self@.height,
        ensures
            r as int == self@.alive_count(x as int, y as int),
    {
        assert(self@.cells[y as int] == self.cells@[y as int]@);
        match self.cells[y][x] {
            CellState::Alive => 1,
            CellState::Dead => 0,
        }
    }

    /// The number of live cells among the eight neighbours of (x, y);
    /// neighbours that would lie off the grid are not counted.
    pub fn count_neighbors(&self, x: usize, y: usize) -> (r: u8)
        requires
            self.wf(),
            x < self@.width,
            y < self@.height,
        ensures
            r as int == self@.neighbors(x as int, y as int),
            r <= 8,
    {
        let has_left = x > 0;
        let has_right = x + 1 < self.width;
        let has_up = y > 0;
        let has_down = y + 1 < self.height;
        let mut count: u8 = 0;
        if has_up {
            if has_left {
                count += self.alive_at(x - 1, y - 1);
            }
            count += self.alive_at(x, y - 1);
            if has_right {
                count += self.alive_at(x + 1, y - 1);
            }
        }
        if has_left {
            count += self.alive_at(x - 1, y);
        }
        if has_right {
            count += self.alive_at(x + 1, y);
        }
        if has_down {
            if has_left {
                count += self.alive_at(x - 1, y + 1);
            }
            count += self.alive_at(x, y + 1);
            if has_right {
                count += self.alive_at(x + 1, y + 1);
            }
        }
        count
    }

    /// The same count as `count_neighbors`.
    pub fn count_alive_neighbors(&self, x: usize, y: usize) -> (r: u8)
        requires
            self.wf(),
            x < self@.width,
            y < self@.height,
        ensures
            r as int == self@.neighbors(x as int, y as int),
            r <= 8,
    {
        self.count_neighbors(x, y)
    }

    /// The next generation as a new world, computed wholly from `self`.
    pub fn next_state(&self) -> (r: World)
        requires
            self.wf(),
        ensures
            r.wf(),
            r@ == self@.successor(),
    {
        let ghost next = self@.successor();
        let mut new_cells: Vec<Vec<CellState>> = Vec::with_capacity(self.height);
        for y in 0..self.height
            invariant
                self.wf(),
                next == self@.successor(),
                new_cells.len() == y,
                forall|j: int| 0 <= j < y ==> #[trigger] new_cells@[j]@ == next.cells[j],
        {
            let mut row: Vec<CellState> = Vec::with_capacity(self.width);
            for x in 0..self.width
                invariant
                    self.wf(),
                    next == self@.successor(),
                    y < self@.height,
                    row.len() == x,
                    forall|i: int| 0 <= i < x ==> #[trigger] row@[i] == next.cells[y as int][i],
            {
                assert(self@.cells[y as int] == self.cells@[y as int]@);
                let neighbors = self.count_neighbors(x, y);
                let next_cell = match self.cells[y][x] {
                    CellState::Alive => if neighbors < 2 || neighbors > 3 {
                        CellState::Dead
                    } else {
                        CellState::Alive
                    },
                    CellState::Dead => if neighbors == 3 {
                        CellState::Alive
                    } else {
                        CellState::Dead
                    },
                };
                row.push(next_cell);
            }
            assert(row@ =~= next.cells[y as int]);
            new_cells.push(row);
        }
        let r = World { width: self.width, height: self.height, cells: new_cells };
        assert(r@.cells =~= next.cells);
        r
    }

    /// Advances the world by one generation, in place.
    pub fn next_generation(&mut self)
        requires
            old(self).wf(),
        ensures
            final(self).wf(),
            final(self)@ == old(self)@.successor(),
    {
        *self = self.next_state();
    }
}

} // verus!
