//! The grid data model: a fixed-size 2-D boolean array stored row-major.

use vstd::prelude::*;

verus! {

/// One generation of the simulation: `width * height` cells, row-major,
/// `true` = alive. Dimensions are fixed at construction; a new generation
/// is a new `GameState`, never an in-place mutation.
#[derive(Debug)]
pub struct GameState {
    pub width: usize,
    pub height: usize,
    pub cells: Vec<bool>,
}

impl GameState {
    /// Shape invariant: the flat cell vector holds exactly one entry per
    /// cell, and a cell occupies four bytes in the accelerator's buffers,
    /// so the byte size `width * height * 4` must be representable.
    pub open spec fn wf(self) -> bool {
        &&& self.cells.len() == self.width * self.height
        &&& self.width * self.height * 4 <= usize::MAX
    }

    /// The cells as a flat row-major sequence; cell (x, y) sits at
    /// linear index `y * width + x`.
    pub open spec fn view(self) -> Seq<bool> {
        self.cells@
    }

    /// The cell at column `x`, row `y`.
    pub open spec fn spec_cell(self, y: int, x: int) -> bool {
        self.cells@[y * self.width + x]
    }

    /// The all-dead grid of the given dimensions.
    pub fn new(width: usize, height: usize) -> (g: GameState)
        requires
            width * height * 4 <= usize::MAX,
        ensures
            g.wf(),
            g.width == width,
            g.height == height,
            g.view() =~= Seq::new((width * height) as nat, |i: int| false),
    {
        let n = width * height;
        let mut cells: Vec<bool> = Vec::new();
        let mut i: usize = 0;
        while i < n
            invariant
                i <= n,
                cells@ =~= Seq::new(i as nat, |j: int| false),
            decreases n - i,
        {
            cells.push(false);
            i = i + 1;
        }
        GameState { width, height, cells }
    }

    /// Read one cell.
    pub fn cell(&self, x: usize, y: usize) -> (alive: bool)
        requires
            self.wf(),
            x < self.width,
            y < self.height,
        ensures
            alive == self.spec_cell(y as int, x as int),
    {
        proof {
            lemma_linear_index_in_range(self.width as int, self.height as int, y as int, x as int);
        }
        self.cells[y * self.width + x]
    }

    /// Overwrite one cell; every other cell keeps its value.
    pub fn set_cell(&mut self, x: usize, y: usize, alive: bool)
        requires
            old(self).wf(),
            x < old(self).width,
            y < old(self).height,
        ensures
            final(self).wf(),
            final(self).width == old(self).width,
            final(self).height == old(self).height,
            final(self).view() == old(self).view().update(y * old(self).width + x, alive),
    {
        proof {
            lemma_linear_index_in_range(self.width as int, self.height as int, y as int, x as int);
        }
        let i = y * self.width + x;
        self.cells.set(i, alive);
    }
}

impl PartialEq for GameState {
    /// Two grids are equal when they have the same dimensions and the
    /// same cells.
    fn eq(&self, other: &GameState) -> (r: bool) {
        if self.width != other.width || self.height != other.height || self.cells.len()
            != other.cells.len() {
            return false;
        }
        let n = self.cells.len();
        let mut i: usize = 0;
        while i < n
            invariant
                i <= n,
                n == self.cells@.len(),
                n == other.cells@.len(),
                forall|j: int| 0 <= j < i ==> self.cells@[j] == other.cells@[j],
            decreases n - i,
        {
            if self.cells[i] != other.cells[i] {
                return false;
            }
            i = i + 1;
        }
        assert(self.cells@ =~= other.cells@);
        true
    }
}

impl vstd::std_specs::cmp::PartialEqSpecImpl for GameState {
    open spec fn obeys_eq_spec() -> bool {
        true
    }

    open spec fn eq_spec(&self, other: &GameState) -> bool {
        &&& self.width == other.width
        &&& self.height == other.height
        &&& self.cells@ == other.cells@
    }
}

/// The textual image of a grid: `height` lines of `width` glyphs each,
/// `#` for a live cell, `.` for a dead one, every line newline-terminated.
pub open spec fn rendered(cells: Seq<bool>, w: int, h: int) -> Seq<char> {
    Seq::new(
        (h * (w + 1)) as nat,
        |i: int|
            {
                let x = i % (w + 1);
                let y = i / (w + 1);
                if x == w {
                    '\n'
                } else if cells[y * w + x] {
                    '#'
                } else {
                    '.'
                }
            },
    )
}

impl GameState {
    /// Render the grid in the fixed textual format: one line per row,
    /// top to bottom, `#` alive and `.` dead, each line ending in a
    /// newline.
    pub fn render(&self) -> (s: String)
        requires
            self.wf(),
        ensures
            s@ == rendered(self.view(), self.width as int, self.height as int),
    {
        let w = self.width;
        let h = self.height;
        let mut s = String::new();
        if h == 0 {
            assert(s@ =~= rendered(self.view(), w as int, h as int));
            return s;
        }
        proof {
            assert(w < usize::MAX && h * (w + 1) <= usize::MAX) by (nonlinear_arith)
                requires w * h * 4 <= usize::MAX && h >= 1 && w >= 0;
        }
        let row = w + 1;
        let n = h * row;
        let mut i: usize = 0;
        while i < n
            invariant
                i <= n,
                n == h * row,
                row == w + 1,
                w == self.width,
                h == self.height,
                self.wf(),
                s@.len() == i,
                forall|j: int| 0 <= j < i ==> s@[j] == rendered(
                    self.view(),
                    w as int,
                    h as int,
                )[j],
            decreases n - i,
        {
            proof {
                assert(i / row < h && i % row < row) by (nonlinear_arith)
                    requires i < n && n == h * row && row > 0;
            }
            let x = i % row;
            let y = i / row;
            if x == w {
                proof {
                    reveal_strlit("\n");
                }
                s.append("\n");
            } else {
                proof {
                    lemma_linear_index_in_range(w as int, h as int, y as int, x as int);
                }
                if self.cell(x, y) {
                    proof {
                        reveal_strlit("#");
                    }
                    s.append("#");
                } else {
                    proof {
                        reveal_strlit(".");
                    }
                    s.append(".");
                }
            }
            i = i + 1;
        }
        assert(s@ =~= rendered(self.view(), w as int, h as int));
        s
    }
}

/// A linear index `y * width + x` built from in-range coordinates is in
/// range for a `width * height` buffer.
pub proof fn lemma_linear_index_in_range(width: int, height: int, y: int, x: int)
    requires
        0 <= x < width,
        0 <= y < height,
    ensures
        0 <= y * width + x < width * height,
{
    assert(y * width + x < width * height) by (nonlinear_arith)
        requires 0 <= x < width && 0 <= y < height;
}

} // verus!
