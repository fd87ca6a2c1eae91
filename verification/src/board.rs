//! The board: a grid of cells in memory, with checked access, the generation step and
//! the resize.

use vstd::prelude::*;
use crate::grid::{
    lemma_offset_bounds, lemma_offset_row_column, tally, window_first, window_last, Grid,
};

verus! {

/// A finite board of cells, stored row by row. A position is a `(row, column)` pair.
#[derive(Debug)]
pub struct Board {
    size: [usize; 2],
    data: Vec<bool>,
}

impl View for Board {
    type V = Grid;

    closed spec fn view(&self) -> Grid {
        Grid { width: self.size[0] as nat, height: self.size[1] as nat, cells: self.data@ }
    }
}

impl Board {
    /// A board holds exactly one cell for each of its positions.
    #[verifier::type_invariant]
    spec fn inv(&self) -> bool {
        self.data@.len() == self.size[0] * self.size[1]
    }

    /// A board of `width` by `height` dead cells.
    #[must_use]
    pub fn new(width: usize, height: usize) -> (board: Self)
        requires
            width * height <= usize::MAX,
        ensures
            board@ == Grid::dead(width as nat, height as nat),
    {
        match width.checked_mul(height) {
            Some(length) => {
                let data = vec![false; length];
                assert(data@ =~= Grid::dead(width as nat, height as nat).cells);
                Self { size: [width, height], data }
            },
            // Only a caller that was not verified comes here, and is stopped.
            None => vstd::pervasive::unreached(),
        }
    }

    /// The board of `width` by `height` cells that holds `data`, row by row.
    pub(crate) fn from_cells(width: usize, height: usize, data: Vec<bool>) -> (board: Self)
        requires
            data@.len() == width * height,
        ensures
            board@ == (Grid { width: width as nat, height: height as nat, cells: data@ }),
    {
        Self { size: [width, height], data }
    }

    /// A board of `width` by `height` cells that agrees with this one where the two
    /// overlap, anchored at the top-left, and is dead elsewhere.
    #[must_use]
    pub fn resize(&self, width: usize, height: usize) -> (board: Self)
        requires
            width * height <= usize::MAX,
        ensures
            board@ == self@.resize(width as nat, height as nat),
            board@.width == width,
            board@.height == height,
    {
        proof {
            use_type_invariant(self);
        }
        if width.checked_mul(height).is_none() {
            // Only a caller that was not verified comes here, and is stopped.
            vstd::pervasive::unreached::<()>();
        }
        let ghost goal = self@.resize(width as nat, height as nat);
        let mut data: Vec<bool> = Vec::new();
        let mut y: usize = 0;
        while y < height
            invariant
                self@.wf(),
                width * height <= usize::MAX,
                goal == self@.resize(width as nat, height as nat),
                y <= height,
                data@.len() == y * width,
                forall|k: int| 0 <= k < data@.len() ==> data@[k] == goal.cells[k],
            decreases height - y,
        {
            let mut x: usize = 0;
            while x < width
                invariant
                    self@.wf(),
                    width * height <= usize::MAX,
                    goal == self@.resize(width as nat, height as nat),
                    y < height,
                    x <= width,
                    data@.len() == y * width + x,
                    forall|k: int| 0 <= k < data@.len() ==> data@[k] == goal.cells[k],
                decreases width - x,
            {
                proof {
                    lemma_offset_bounds(width as nat, height as nat, y as int, x as int);
                    lemma_offset_row_column(width as nat, y as int, x as int);
                }
                let kept = y < self.size[1] && x < self.size[0] && self[(y, x)];
                data.push(kept);
                x += 1;
            }
            assert(y * width + width == (y + 1) * width) by (nonlinear_arith);
            y += 1;
        }
        assert(height * width == width * height) by (nonlinear_arith);
        assert(data@ =~= goal.cells);
        Self { size: [width, height], data }
    }

    /// The dimensions: the width, then the height.
    #[must_use]
    pub fn size(&self) -> (size: &[usize; 2])
        ensures
            size[0] == self@.width,
            size[1] == self@.height,
            size[0] * size[1] <= usize::MAX,
            self@.wf(),
    {
        proof {
            use_type_invariant(self);
            assert(self.data.len() == self.data@.len());
        }
        &self.size
    }

    /// The cells, row by row.
    #[must_use]
    pub fn data(&self) -> (data: &Vec<bool>)
        ensures
            data@ == self@.cells,
            data@.len() == self@.width * self@.height,
    {
        proof {
            use_type_invariant(self);
        }
        &self.data
    }

    /// The cell at `pos`, or `None` where the board has no such position.
    #[must_use]
    pub fn get(&self, pos: (usize, usize)) -> (cell: Option<bool>)
        ensures
            cell == (if self@.contains(pos.0 as int, pos.1 as int) {
                Some(self@.at(pos.0 as int, pos.1 as int))
            } else {
                None
            }),
    {
        let (y, x) = pos;
        if x < self.size[0] && y < self.size[1] {
            Some(self[(y, x)])
        } else {
            None
        }
    }

    /// The cell at `pos`, to be read or written in place, or `None` where the board has no
    /// such position. Whatever is written there, the rest of the board stays as it is.
    #[must_use]
    pub fn get_mut(&mut self, pos: (usize, usize)) -> (cell: Option<&mut bool>)
        ensures
            match cell {
                Some(cell) => {
                    &&& old(self)@.contains(pos.0 as int, pos.1 as int)
                    &&& *cell == old(self)@.at(pos.0 as int, pos.1 as int)
                    &&& final(self)@ == old(self)@.with_cell(
                        pos.0 as int,
                        pos.1 as int,
                        *final(cell),
                    )
                },
                None => {
                    &&& !old(self)@.contains(pos.0 as int, pos.1 as int)
                    &&& final(self)@ == old(self)@
                },
            },
    {
        let (y, x) = pos;
        if x < self.size[0] && y < self.size[1] {
            Some(std::ops::IndexMut::index_mut(self, (y, x)))
        } else {
            None
        }
    }

    /// Overwrites the cell at `pos`.
    pub fn set(&mut self, pos: (usize, usize), alive: bool)
        requires
            old(self)@.contains(pos.0 as int, pos.1 as int),
        ensures
            final(self)@ == old(self)@.with_cell(pos.0 as int, pos.1 as int, alive),
    {
        let cell = std::ops::IndexMut::index_mut(self, pos);
        *cell = alive;
    }

    /// The number of live neighbors of the cell at `pos`: the live cells of the
    /// three-by-three block around it, clamped against the edges of the board, the cell
    /// itself left out.
    pub fn live_neighbors(&self, pos: (usize, usize)) -> (count: usize)
        requires
            self@.contains(pos.0 as int, pos.1 as int),
        ensures
            count == self@.live_neighbors(pos.0 as int, pos.1 as int),
    {
        proof {
            use_type_invariant(self);
        }
        let (y, x) = pos;
        let width = self.size[0];
        let height = self.size[1];
        if x >= width || y >= height {
            // Only a caller that was not verified comes here, and is stopped.
            vstd::pervasive::unreached::<()>();
        }
        let x_first = if x == 0 { 0 } else { x - 1 };
        let x_last = if x + 1 < width { x + 1 } else { width - 1 };
        let y_first = if y == 0 { 0 } else { y - 1 };
        let y_last = if y + 1 < height { y + 1 } else { height - 1 };

        let mut count: usize = 0;
        let mut j = y_first;
        while j <= y_last
            invariant
                self@.wf(),
                self@.contains(y as int, x as int),
                x_first == window_first(x as int),
                x_last == window_last(x as int, self@.width),
                y_first == window_first(y as int),
                y_last == window_last(y as int, self@.height),
                y_first <= j <= y_last + 1,
                count == self@.tally_rows(y as int, x as int, j as int),
            decreases y_last + 1 - j,
        {
            let mut i = x_first;
            while i <= x_last
                invariant
                    self@.wf(),
                    self@.contains(y as int, x as int),
                    x_first == window_first(x as int),
                    x_last == window_last(x as int, self@.width),
                    y_first == window_first(y as int),
                    y_last == window_last(y as int, self@.height),
                    y_first <= j <= y_last,
                    x_first <= i <= x_last + 1,
                    count == self@.tally_rows(y as int, x as int, j as int) + self@.tally_row(
                        y as int,
                        x as int,
                        j as int,
                        i as int,
                    ),
                decreases x_last + 1 - i,
            {
                if self[(j, i)] && !(i == x && j == y) {
                    count += 1;
                }
                i += 1;
            }
            j += 1;
        }
        count
    }

    /// The next generation: a new board of the same dimensions, each cell decided from
    /// this board by the rule B3/S23. This board stays as it is.
    #[must_use]
    pub fn next(&self) -> (board: Self)
        ensures
            board@ == self@.step(),
            board@.width == self@.width,
            board@.height == self@.height,
    {
        proof {
            use_type_invariant(self);
        }
        let width = self.size[0];
        let height = self.size[1];
        let ghost goal = self@.step();
        let mut data: Vec<bool> = Vec::new();
        let mut j: usize = 0;
        while j < height
            invariant
                self@.wf(),
                width == self@.width,
                height == self@.height,
                goal == self@.step(),
                j <= height,
                data@.len() == j * width,
                forall|k: int| 0 <= k < data@.len() ==> data@[k] == goal.cells[k],
            decreases height - j,
        {
            let mut i: usize = 0;
            while i < width
                invariant
                    self@.wf(),
                    width == self@.width,
                    height == self@.height,
                    goal == self@.step(),
                    j < height,
                    i <= width,
                    data@.len() == j * width + i,
                    forall|k: int| 0 <= k < data@.len() ==> data@[k] == goal.cells[k],
                decreases width - i,
            {
                proof {
                    lemma_offset_bounds(width as nat, height as nat, j as int, i as int);
                    lemma_offset_row_column(width as nat, j as int, i as int);
                }
                let live_neighbors = self.live_neighbors((j, i));
                let alive = live_neighbors == 3 || (live_neighbors == 2 && self[(j, i)]);
                data.push(alive);
                i += 1;
            }
            assert(j * width + width == (j + 1) * width) by (nonlinear_arith);
            j += 1;
        }
        assert(height * width == width * height) by (nonlinear_arith);
        assert(data@ =~= goal.cells);
        Self { size: [width, height], data }
    }

    /// Every cell with its position, row by row.
    pub fn iter(&self) -> (cells: Vec<((usize, usize), bool)>)
        ensures
            cells@.len() == self@.width * self@.height,
            forall|k: int|
                0 <= k < cells@.len() ==> cells@[k] == self@.entry(k),
    {
        proof {
            use_type_invariant(self);
        }
        let width = self.size[0];
        let height = self.size[1];
        let mut cells: Vec<((usize, usize), bool)> = Vec::new();
        let mut j: usize = 0;
        while j < height
            invariant
                self@.wf(),
                width == self@.width,
                height == self@.height,
                j <= height,
                cells@.len() == j * width,
                forall|k: int| 0 <= k < cells@.len() ==> cells@[k] == self@.entry(k),
            decreases height - j,
        {
            let mut i: usize = 0;
            while i < width
                invariant
                    self@.wf(),
                    width == self@.width,
                    height == self@.height,
                    j < height,
                    i <= width,
                    cells@.len() == j * width + i,
                    forall|k: int| 0 <= k < cells@.len() ==> cells@[k] == self@.entry(k),
                decreases width - i,
            {
                proof {
                    lemma_offset_row_column(width as nat, j as int, i as int);
                }
                cells.push(((j, i), self[(j, i)]));
                i += 1;
            }
            assert(j * width + width == (j + 1) * width) by (nonlinear_arith);
            j += 1;
        }
        assert(height * width == width * height) by (nonlinear_arith);
        cells
    }
}

impl Grid {
    /// The live neighbors of `(y, x)` in row `j`, in the columns before `end`.
    spec fn tally_row(self, y: int, x: int, j: int, end: int) -> nat {
        (if x - 1 < end {
            tally(self.live_neighbor(y, x, j, x - 1))
        } else {
            0
        }) + (if x < end {
            tally(self.live_neighbor(y, x, j, x))
        } else {
            0
        }) + (if x + 1 < end {
            tally(self.live_neighbor(y, x, j, x + 1))
        } else {
            0
        })
    }

    /// The live neighbors of `(y, x)` in the rows before `end`.
    spec fn tally_rows(self, y: int, x: int, end: int) -> nat {
        (if y - 1 < end {
            self.tally_row(y, x, y - 1, x + 2)
        } else {
            0
        }) + (if y < end {
            self.tally_row(y, x, y, x + 2)
        } else {
            0
        }) + (if y + 1 < end {
            self.tally_row(y, x, y + 1, x + 2)
        } else {
            0
        })
    }
}

impl Clone for Board {
    /// A board of its own with the same dimensions and cells.
    fn clone(&self) -> (board: Self)
        ensures
            board@ == self@,
    {
        proof {
            use_type_invariant(self);
        }
        let data = self.data.clone();
        Self { size: self.size, data }
    }
}

impl std::ops::Index<(usize, usize)> for Board {
    type Output = bool;

    /// The cell at `pos`, which must be a position of the board.
    fn index(&self, pos: (usize, usize)) -> (cell: &bool)
        ensures
            *cell == self@.at(pos.0 as int, pos.1 as int),
    {
        let (y, x) = pos;
        let width = self.size[0];
        if x >= width || y >= self.size[1] {
            // Only a caller that was not verified comes here, and is stopped.
            vstd::pervasive::unreached::<()>();
        }
        proof {
            use_type_invariant(self);
            lemma_offset_bounds(self@.width, self@.height, y as int, x as int);
            assert(self.data.len() == self.data@.len());
        }
        &self.data[y * width + x]
    }
}

impl vstd::std_specs::core::IndexSpecImpl<(usize, usize)> for Board {
    open spec fn index_req(&self, pos: &(usize, usize)) -> bool {
        self@.contains(pos.0 as int, pos.1 as int)
    }
}

impl std::ops::IndexMut<(usize, usize)> for Board {
    /// The cell at `pos`, which must be a position of the board, to be written in place.
    fn index_mut(&mut self, pos: (usize, usize)) -> (cell: &mut bool)
        requires
            old(self)@.contains(pos.0 as int, pos.1 as int),
        ensures
            *cell == old(self)@.at(pos.0 as int, pos.1 as int),
            final(self)@ == old(self)@.with_cell(pos.0 as int, pos.1 as int, *final(cell)),
    {
        let (y, x) = pos;
        let width = self.size[0];
        if x >= width || y >= self.size[1] {
            // Only a caller that was not verified comes here, and is stopped.
            vstd::pervasive::unreached::<()>();
        }
        proof {
            use_type_invariant(&*self);
            lemma_offset_bounds(self@.width, self@.height, y as int, x as int);
            assert(self.data.len() == self.data@.len());
        }
        &mut self.data[y * width + x]
    }
}

} // verus!
