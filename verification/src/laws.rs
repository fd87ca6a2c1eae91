//! What holds of every grid: laws of the generation step, of the resize and of the record.

use vstd::prelude::*;
use crate::board::Board;
use crate::codec::RecordView;
use crate::grid::{lemma_offset_bounds, lemma_offset_row_column, lemma_row_column_bounds, Grid};

verus! {

/// Whether `i` is the first or the last index of an axis of length `len`.
pub open spec fn at_end(i: int, len: nat) -> bool {
    i == 0 || i == len - 1
}

/// The neighborhood window of a position is the part of the three-by-three block around
/// it that lies in the grid.
pub proof fn lemma_window_is_block_in_grid(g: Grid, y: int, x: int, j: int, i: int)
    requires
        g.contains(y, x),
    ensures
        g.in_window(y, x, j, i) <==> {
            &&& g.contains(j, i)
            &&& y - 1 <= j <= y + 1
            &&& x - 1 <= i <= x + 1
        },
{
}

/// A position has at most eight live neighbors; on an edge of a grid of at least two by
/// two cells at most five, and in a corner at most three.
pub proof fn lemma_live_neighbors_bound(g: Grid, y: int, x: int)
    requires
        g.contains(y, x),
        g.width >= 2,
        g.height >= 2,
    ensures
        g.live_neighbors(y, x) <= 8,
        at_end(y, g.height) || at_end(x, g.width) ==> g.live_neighbors(y, x) <= 5,
        at_end(y, g.height) && at_end(x, g.width) ==> g.live_neighbors(y, x) <= 3,
{
}

/// In a grid of a single cell, or of none, no position has a live neighbor, and the step
/// leaves no cell alive.
pub proof fn lemma_single_cell_dies(g: Grid, y: int, x: int)
    requires
        g.width < 2,
        g.height < 2,
        g.contains(y, x),
    ensures
        g.live_neighbors(y, x) == 0,
        !g.step().at(y, x),
{
    lemma_step_cell(g, y, x);
}

/// A step keeps the dimensions, and gives a grid with one cell for each position.
pub proof fn lemma_step_keeps_size(g: Grid)
    ensures
        g.step().width == g.width,
        g.step().height == g.height,
        g.step().wf(),
{
}

/// A step decides the cell at every position by the rule, from the grid before the step.
pub proof fn lemma_step_cell(g: Grid, y: int, x: int)
    requires
        g.contains(y, x),
    ensures
        g.step().at(y, x) == g.next_cell(y, x),
{
    lemma_offset_bounds(g.width, g.height, y, x);
    lemma_offset_row_column(g.width, y, x);
}

/// The next generation depends on the dimensions and the cells alone: whatever two calls
/// of `Board::next` return for boards that are equal in these, the results are equal in
/// them too.
pub proof fn lemma_next_is_determined(a: Board, b: Board, next_a: Board, next_b: Board)
    requires
        a@ == b@,
        next_a@ == a@.step(),
        next_b@ == b@.step(),
    ensures
        next_a@ == next_b@,
{
}

/// A block of two by two live cells in the top-left corner of a grid of at least three
/// by three cells, all others dead, is a still life: the step leaves the grid as it is.
pub proof fn lemma_block_is_still(g: Grid)
    requires
        g.wf(),
        g.width >= 3,
        g.height >= 3,
        forall|y: int, x: int| g.contains(y, x) ==> #[trigger] g.at(y, x) == (y < 2 && x < 2),
    ensures
        g.step() == g,
{
    assert forall|k: int| 0 <= k < g.cells.len() implies g.step().cells[k] == g.cells[k] by {
        lemma_row_column_bounds(g.width, g.height, k);
        let y = k / (g.width as int);
        let x = k % (g.width as int);
        assert(g.cells[k] == g.at(y, x));
        assert(g.next_cell(y, x) == (y < 2 && x < 2));
    }
    assert(g.step().cells =~= g.cells);
}

/// A resized grid has, at each of its positions, the cell that the grid had there, and a
/// dead cell where the grid had none.
pub proof fn lemma_resize_cell(g: Grid, width: nat, height: nat, y: int, x: int)
    requires
        0 <= y < height,
        0 <= x < width,
    ensures
        g.resize(width, height).at(y, x) == (if y < g.height && x < g.width {
            g.at(y, x)
        } else {
            false
        }),
{
    lemma_offset_bounds(width, height, y, x);
    lemma_offset_row_column(width, y, x);
}

/// A resized grid has the dimensions asked for, and one cell for each position.
pub proof fn lemma_resize_size(g: Grid, width: nat, height: nat)
    ensures
        g.resize(width, height).width == width,
        g.resize(width, height).height == height,
        g.resize(width, height).wf(),
{
}

/// Resizing a grid to its own dimensions gives the grid back.
pub proof fn lemma_resize_same_size(g: Grid)
    requires
        g.wf(),
    ensures
        g.resize(g.width, g.height) == g,
{
    let r = g.resize(g.width, g.height);
    assert forall|k: int| 0 <= k < g.cells.len() implies r.cells[k] == g.cells[k] by {
        lemma_row_column_bounds(g.width, g.height, k);
    }
    assert(r.cells =~= g.cells);
}

/// A step of a grid without cells gives a grid without cells.
pub proof fn lemma_step_of_empty(g: Grid)
    requires
        g.width * g.height == 0,
    ensures
        g.step().width * g.step().height == 0,
        g.step().cells.len() == 0,
{
}

/// Decoding the record of a grid gives the grid back.
pub proof fn lemma_codec_round_trip(g: Grid)
    requires
        g.wf(),
    ensures
        g.record().grid() == Some(g),
{
}

/// A record whose number of cells disagrees with its dimensions is rejected.
pub proof fn lemma_inconsistent_record_rejected(record: RecordView)
    requires
        record.data.len() != record.width * record.height,
    ensures
        record.grid().is_none(),
{
}

} // verus!
