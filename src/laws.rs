use vstd::prelude::*;
use crate::input::action_of;
use crate::session::{next_running, world_after_action};
use crate::world::{CellState, Grid, life_rule};

verus! {

/// Two well-formed grids of one size with the same live cells are equal.
pub proof fn lemma_same_live_cells_equal(a: Grid, b: Grid)
    requires
        a.wf(),
        b.wf(),
        a.width == b.width,
        a.height == b.height,
        forall|x: int, y: int| #[trigger] a.alive(x, y) == b.alive(x, y),
    ensures
        a == b,
{
    assert forall|y: int| 0 <= y < a.height implies #[trigger] a.cells[y] =~= b.cells[y] by {
        assert forall|x: int| 0 <= x < a.width implies a.cells[y][x] == b.cells[y][x] by {
            assert(a.alive(x, y) == b.alive(x, y));
        }
    }
    assert(a.cells =~= b.cells);
}

/// On a grid whose cells are all alive, a corner cell has exactly three live
/// neighbours (where the grid is at least two by two), and a cell away from
/// every edge has exactly eight.
pub proof fn lemma_full_grid_neighbors(w: nat, h: nat, x: int, y: int)
    ensures
        w >= 2 && h >= 2 ==> Grid::filled(w, h, CellState::Alive).neighbors(0, 0) == 3,
        0 < x < w - 1 && 0 < y < h - 1 ==> Grid::filled(w, h, CellState::Alive).neighbors(x, y) == 8,
{
}

/// The cells of `g` that live are exactly the vertical bar (x, y - 1),
/// (x, y), (x, y + 1).
pub open spec fn is_vertical_bar(g: Grid, x: int, y: int) -> bool {
    &&& g.wf()
    &&& forall|i: int, j: int| #[trigger] g.alive(i, j) <==> (i == x && y - 1 <= j <= y + 1)
}

/// The cells of `g` that live are exactly the horizontal bar (x - 1, y),
/// (x, y), (x + 1, y).
pub open spec fn is_horizontal_bar(g: Grid, x: int, y: int) -> bool {
    &&& g.wf()
    &&& forall|i: int, j: int| #[trigger] g.alive(i, j) <==> (j == y && x - 1 <= i <= x + 1)
}

proof fn lemma_vertical_to_horizontal(g: Grid, x: int, y: int)
    requires
        is_vertical_bar(g, x, y),
        1 <= x && x + 1 < g.width,
        1 <= y && y + 1 < g.height,
    ensures
        is_horizontal_bar(g.successor(), x, y),
{
    let s = g.successor();
    assert forall|i: int, j: int| #[trigger] s.alive(i, j) <==> (j == y && x - 1 <= i <= x + 1) by {
        if s.in_bounds(i, j) {
            assert(g.alive(i, j) <==> g.cells[j][i] == CellState::Alive);
            assert(s.cells[j][i] == life_rule(g.cells[j][i], g.neighbors(i, j)));
        }
    }
}

proof fn lemma_horizontal_to_vertical(g: Grid, x: int, y: int)
    requires
        is_horizontal_bar(g, x, y),
        1 <= x && x + 1 < g.width,
        1 <= y && y + 1 < g.height,
    ensures
        is_vertical_bar(g.successor(), x, y),
{
    let s = g.successor();
    assert forall|i: int, j: int| #[trigger] s.alive(i, j) <==> (i == x && y - 1 <= j <= y + 1) by {
        if s.in_bounds(i, j) {
            assert(g.alive(i, j) <==> g.cells[j][i] == CellState::Alive);
            assert(s.cells[j][i] == life_rule(g.cells[j][i], g.neighbors(i, j)));
        }
    }
}

/// A vertical bar of three live cells, clear of the edges, turns into the
/// horizontal bar through its middle after one generation and back into
/// itself after two.
pub proof fn lemma_blinker(g: Grid, x: int, y: int)
    requires
        is_vertical_bar(g, x, y),
        1 <= x && x + 1 < g.width,
        1 <= y && y + 1 < g.height,
    ensures
        is_horizontal_bar(g.successor(), x, y),
        g.successor().successor() == g,
{
    lemma_vertical_to_horizontal(g, x, y);
    lemma_horizontal_to_vertical(g.successor(), x, y);
    let t = g.successor().successor();
    assert forall|i: int, j: int| #[trigger] t.alive(i, j) == g.alive(i, j) by {
        assert(t.alive(i, j) <==> (i == x && y - 1 <= j <= y + 1));
    }
    lemma_same_live_cells_equal(t, g);
}

/// A grid with no live cell stays unchanged, however many generations pass.
pub proof fn lemma_dead_grid_stays_dead(g: Grid, n: nat)
    requires
        g.wf(),
        g.all_dead(),
    ensures
        g.iterate(n) == g,
    decreases n,
{
    if n > 0 {
        lemma_dead_grid_stays_dead(g, (n - 1) as nat);
        let s = g.successor();
        assert forall|i: int, j: int| #[trigger] s.alive(i, j) == g.alive(i, j) by {
            assert(!g.alive(i, j));
            if s.in_bounds(i, j) {
                assert(g.neighbors(i, j) == 0);
                assert(s.cells[j][i] == life_rule(g.cells[j][i], 0));
            }
        }
        lemma_same_live_cells_equal(s, g);
    }
}

/// A grid with no rows or no columns is its own next generation.
pub proof fn lemma_degenerate_grid_fixed(g: Grid)
    requires
        g.wf(),
        g.width == 0 || g.height == 0,
    ensures
        g.successor() == g,
{
    let s = g.successor();
    lemma_same_live_cells_equal(s, g);
}

/// Of all bytes, only `r` (0x72) sets the cells from the coin draws before a
/// tick's advance, and it leaves the run flag as it was; every other byte
/// leaves the cells alone.
pub proof fn lemma_only_r_randomizes(g: Grid, b: u8, coins: Seq<Seq<bool>>, running: bool)
    ensures
        b == 0x72 ==> world_after_action(g, action_of(b), coins) == Grid::from_coins(g.width, g.height, coins),
        b == 0x72 ==> next_running(running, action_of(b)) == running,
        b != 0x72 ==> world_after_action(g, action_of(b), coins) == g,
{
}

} // verus!
