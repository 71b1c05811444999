//! The transition rule the compute kernel is expected to apply, stated and
//! run on the host: standard Game of Life over the 8-neighborhood, with
//! out-of-range neighbors counted as dead (clamped edges, no wraparound).
//!
//! This is the reference semantics of the kernel boundary contract: a live
//! cell with 2 or 3 live neighbors survives, a dead cell with exactly 3
//! live neighbors is born, every other cell is dead in the next generation.

use vstd::prelude::*;
use crate::grid::GameState;
use crate::grid::lemma_linear_index_in_range;

verus! {

/// Whether position (x, y) is on the grid and holds a live cell;
/// positions off the grid count as dead (clamped edges).
pub open spec fn alive_at(cells: Seq<bool>, w: int, h: int, y: int, x: int) -> bool {
    0 <= y < h && 0 <= x < w && cells[y * w + x]
}

/// The number of live cells among the 8 neighbors of (x, y).
pub open spec fn neighbor_count(cells: Seq<bool>, w: int, h: int, y: int, x: int) -> int {
    (if alive_at(cells, w, h, y - 1, x - 1) { 1int } else { 0int })
        + (if alive_at(cells, w, h, y - 1, x) { 1int } else { 0int })
        + (if alive_at(cells, w, h, y - 1, x + 1) { 1int } else { 0int })
        + (if alive_at(cells, w, h, y, x - 1) { 1int } else { 0int })
        + (if alive_at(cells, w, h, y, x + 1) { 1int } else { 0int })
        + (if alive_at(cells, w, h, y + 1, x - 1) { 1int } else { 0int })
        + (if alive_at(cells, w, h, y + 1, x) { 1int } else { 0int })
        + (if alive_at(cells, w, h, y + 1, x + 1) { 1int } else { 0int })
}

/// The state of cell (x, y) in the next generation.
pub open spec fn next_cell(cells: Seq<bool>, w: int, h: int, y: int, x: int) -> bool {
    let n = neighbor_count(cells, w, h, y, x);
    if alive_at(cells, w, h, y, x) {
        n == 2 || n == 3
    } else {
        n == 3
    }
}

/// The whole next generation, row-major.
pub open spec fn next_grid(cells: Seq<bool>, w: int, h: int) -> Seq<bool> {
    Seq::new((w * h) as nat, |i: int| next_cell(cells, w, h, i / w, i % w))
}

/// `n` generations of the rule, starting from `cells`.
pub open spec fn iterate(cells: Seq<bool>, w: int, h: int, n: nat) -> Seq<bool>
    decreases n,
{
    if n == 0 {
        cells
    } else {
        next_grid(iterate(cells, w, h, (n - 1) as nat), w, h)
    }
}

impl GameState {
    /// Count the live neighbors of (x, y), off-grid neighbors dead.
    fn live_neighbors(&self, x: usize, y: usize) -> (count: u32)
        requires
            self.wf(),
            x < self.width,
            y < self.height,
        ensures
            count == neighbor_count(
                self.view(),
                self.width as int,
                self.height as int,
                y as int,
                x as int,
            ),
    {
        let mut count: u32 = 0;
        if y > 0 && x > 0 && self.cell(x - 1, y - 1) {
            count = count + 1;
        }
        if y > 0 && self.cell(x, y - 1) {
            count = count + 1;
        }
        if y > 0 && x + 1 < self.width && self.cell(x + 1, y - 1) {
            count = count + 1;
        }
        if x > 0 && self.cell(x - 1, y) {
            count = count + 1;
        }
        if x + 1 < self.width && self.cell(x + 1, y) {
            count = count + 1;
        }
        if y + 1 < self.height && x > 0 && self.cell(x - 1, y + 1) {
            count = count + 1;
        }
        if y + 1 < self.height && self.cell(x, y + 1) {
            count = count + 1;
        }
        if y + 1 < self.height && x + 1 < self.width && self.cell(x + 1, y + 1) {
            count = count + 1;
        }
        count
    }

    /// One generation of the rule on the host. The kernel dispatched by the
    /// step protocol is expected to compute exactly this function.
    pub fn next_generation(&self) -> (g: GameState)
        requires
            self.wf(),
        ensures
            g.wf(),
            g.width == self.width,
            g.height == self.height,
            g.view() == next_grid(self.view(), self.width as int, self.height as int),
    {
        let w = self.width;
        let h = self.height;
        let n = w * h;
        let mut cells: Vec<bool> = Vec::new();
        let mut i: usize = 0;
        while i < n
            invariant
                i <= n,
                n == w * h,
                w == self.width,
                h == self.height,
                self.wf(),
                cells@.len() == i,
                forall|j: int| 0 <= j < i ==> cells@[j] == next_cell(
                    self.view(),
                    w as int,
                    h as int,
                    j / (w as int),
                    j % (w as int),
                ),
            decreases n - i,
        {
            proof {
                assert(w > 0) by (nonlinear_arith)
                    requires i < n && n == w * h && w >= 0 && h >= 0;
                assert(i / w < h && i % w < w) by (nonlinear_arith)
                    requires i < n && n == w * h && w > 0;
            }
            let y = i / w;
            let x = i % w;
            let alive = self.cell(x, y);
            let count = self.live_neighbors(x, y);
            let next = if alive {
                count == 2 || count == 3
            } else {
                count == 3
            };
            cells.push(next);
            i = i + 1;
        }
        let g = GameState { width: w, height: h, cells };
        assert(g.view() =~= next_grid(self.view(), w as int, h as int));
        g
    }
}

/// The all-dead grid is a fixed point of the rule: with no live cell,
/// no cell has 3 live neighbors, so nothing is born.
pub proof fn lemma_all_dead_fixed_point(cells: Seq<bool>, w: int, h: int)
    requires
        w >= 0,
        h >= 0,
        cells.len() == w * h,
        forall|i: int| 0 <= i < cells.len() ==> !cells[i],
    ensures
        next_grid(cells, w, h) == cells,
{
    assert forall|yy: int, xx: int| !alive_at(cells, w, h, yy, xx) by {
        if 0 <= yy < h && 0 <= xx < w {
            lemma_linear_index_in_range(w, h, yy, xx);
        }
    }
    assert(next_grid(cells, w, h) =~= cells);
}

/// Any number of steps of the rule leaves the all-dead grid all dead:
/// a static input keeps producing a static output, generation after
/// generation.
pub proof fn lemma_all_dead_stays_dead(cells: Seq<bool>, w: int, h: int, n: nat)
    requires
        w >= 0,
        h >= 0,
        cells.len() == w * h,
        forall|i: int| 0 <= i < cells.len() ==> !cells[i],
    ensures
        iterate(cells, w, h, n) == cells,
    decreases n,
{
    if n > 0 {
        lemma_all_dead_stays_dead(cells, w, h, (n - 1) as nat);
        lemma_all_dead_fixed_point(cells, w, h);
    }
}

} // verus!
