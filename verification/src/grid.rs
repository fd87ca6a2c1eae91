//! The mathematical model of a board: its dimensions and its cells in row-major order,
//! with the neighbor count, the generation step and the resize stated over them.

use vstd::prelude::*;
use vstd::arithmetic::div_mod::{lemma_fundamental_div_mod, lemma_fundamental_div_mod_converse};

verus! {

/// A rectangle of cells, `true` for alive. The cell in row `y` and column `x`
/// is `cells[y * width + x]`.
pub ghost struct Grid {
    pub width: nat,
    pub height: nat,
    pub cells: Seq<bool>,
}

/// The first index of the three-wide window around index `i`, clamped at the lower edge.
pub open spec fn window_first(i: int) -> int {
    if i == 0 {
        0
    } else {
        i - 1
    }
}

/// The last index of the three-wide window around index `i` on an axis of length `len`,
/// clamped at the upper edge.
pub open spec fn window_last(i: int, len: nat) -> int {
    if i + 1 < len {
        i + 1
    } else {
        len - 1
    }
}

/// One for a live neighbor, zero otherwise.
pub open spec fn tally(counts: bool) -> nat {
    if counts {
        1
    } else {
        0
    }
}

/// The rule B3/S23: a cell is alive in the next generation if it has exactly three live
/// neighbors, or if it has exactly two and is alive now.
pub open spec fn lives_on(alive: bool, live_neighbors: nat) -> bool {
    live_neighbors == 3 || (live_neighbors == 2 && alive)
}

impl Grid {
    /// There is exactly one cell for each position.
    pub open spec fn wf(self) -> bool {
        self.cells.len() == self.width * self.height
    }

    /// The grid of the given dimensions whose cells are all dead.
    pub open spec fn dead(width: nat, height: nat) -> Grid {
        Grid { width, height, cells: Seq::new(width * height, |k: int| false) }
    }

    /// Whether row `y`, column `x` is a position of the grid.
    pub open spec fn contains(self, y: int, x: int) -> bool {
        0 <= y < self.height && 0 <= x < self.width
    }

    /// The cell in row `y` and column `x`.
    pub open spec fn at(self, y: int, x: int) -> bool
        recommends
            self.contains(y, x),
    {
        self.cells[y * self.width + x]
    }

    /// The grid with the cell in row `y` and column `x` replaced by `alive`.
    pub open spec fn with_cell(self, y: int, x: int, alive: bool) -> Grid
        recommends
            self.contains(y, x),
    {
        Grid { cells: self.cells.update(y * self.width + x, alive), ..self }
    }

    /// Whether `(j, i)` lies in the neighborhood window of `(y, x)`: the three-by-three
    /// block around `(y, x)`, clamped against the edges of the grid.
    pub open spec fn in_window(self, y: int, x: int, j: int, i: int) -> bool {
        &&& window_first(y) <= j <= window_last(y, self.height)
        &&& window_first(x) <= i <= window_last(x, self.width)
    }

    /// Whether `(j, i)` is a live neighbor of `(y, x)`: a live cell of the window other
    /// than `(y, x)` itself.
    pub open spec fn live_neighbor(self, y: int, x: int, j: int, i: int) -> bool {
        self.in_window(y, x, j, i) && !(j == y && i == x) && self.at(j, i)
    }

    /// The number of live neighbors of `(y, x)`. The window never reaches beyond the
    /// three-by-three block around `(y, x)`, so the eight cells around it are all there
    /// is to count.
    pub open spec fn live_neighbors(self, y: int, x: int) -> nat {
        tally(self.live_neighbor(y, x, y - 1, x - 1))
            + tally(self.live_neighbor(y, x, y - 1, x))
            + tally(self.live_neighbor(y, x, y - 1, x + 1))
            + tally(self.live_neighbor(y, x, y, x - 1))
            + tally(self.live_neighbor(y, x, y, x + 1))
            + tally(self.live_neighbor(y, x, y + 1, x - 1))
            + tally(self.live_neighbor(y, x, y + 1, x))
            + tally(self.live_neighbor(y, x, y + 1, x + 1))
    }

    /// The cell in row `y` and column `x` one generation on.
    pub open spec fn next_cell(self, y: int, x: int) -> bool {
        lives_on(self.at(y, x), self.live_neighbors(y, x))
    }

    /// The next generation: every cell decided by the rule from this generation.
    pub open spec fn step(self) -> Grid {
        Grid {
            cells: Seq::new(
                self.width * self.height,
                |k: int| self.next_cell(k / (self.width as int), k % (self.width as int)),
            ),
            ..self
        }
    }

    /// The `k`-th cell in row-major order, with its row and column.
    pub open spec fn entry(self, k: int) -> ((usize, usize), bool) {
        (((k / (self.width as int)) as usize, (k % (self.width as int)) as usize), self.cells[k])
    }

    /// The cell that a resized grid has in row `y` and column `x`: the cell of this grid
    /// where it has one, a dead cell elsewhere.
    pub open spec fn kept(self, y: int, x: int) -> bool {
        self.contains(y, x) && self.at(y, x)
    }

    /// The grid of the given dimensions that agrees with this one where they overlap,
    /// anchored at the top-left, and is dead elsewhere.
    pub open spec fn resize(self, width: nat, height: nat) -> Grid {
        Grid {
            width,
            height,
            cells: Seq::new(
                width * height,
                |k: int| self.kept(k / (width as int), k % (width as int)),
            ),
        }
    }
}

/// A position of a `width` by `height` grid has its offset among the `width * height` cells.
pub proof fn lemma_offset_bounds(width: nat, height: nat, y: int, x: int)
    requires
        0 <= y < height,
        0 <= x < width,
    ensures
        0 <= y * width + x < width * height,
{
    assert(y * width + x < width * height) by (nonlinear_arith)
        requires
            0 <= y < height,
            0 <= x < width,
    ;
    assert(0 <= y * width) by (nonlinear_arith)
        requires
            0 <= y,
            0 <= width,
    ;
}

/// The offset `y * width + x` gives back its row and column.
pub proof fn lemma_offset_row_column(width: nat, y: int, x: int)
    requires
        0 <= x < width,
    ensures
        (y * width + x) / (width as int) == y,
        (y * width + x) % (width as int) == x,
{
    lemma_fundamental_div_mod_converse(y * width + x, width as int, y, x);
}

/// An offset among the `width * height` cells is the offset of its row and column.
pub proof fn lemma_row_column_bounds(width: nat, height: nat, k: int)
    requires
        0 <= k < width * height,
    ensures
        0 <= k / (width as int) < height,
        0 <= k % (width as int) < width,
        k == (k / (width as int)) * width + k % (width as int),
{
    let w = width as int;
    assert(w > 0) by (nonlinear_arith)
        requires
            0 <= k < w * height,
            0 <= w,
    ;
    lemma_fundamental_div_mod(k, w);
    let q = k / w;
    let r = k % w;
    assert(0 <= r < w);
    assert(w * q == q * w) by (nonlinear_arith);
    assert(0 <= q < height) by (nonlinear_arith)
        requires
            k == q * w + r,
            0 <= r < w,
            0 <= k < w * height,
    ;
}

} // verus!
