//! The record a board is saved as and loaded from: its dimensions and its cells, as
//! plain values, in the shape `{ "size": [width, height], "data": [cell, ...] }`.

use vstd::prelude::*;
use crate::board::Board;
use crate::grid::Grid;

verus! {

/// A saved board, as it is read: nothing yet says that the cells fit the dimensions.
#[derive(Debug)]
pub struct Record {
    /// The width, then the height.
    pub size: [usize; 2],
    /// The cells, row by row.
    pub data: Vec<bool>,
}

/// What a record holds.
pub ghost struct RecordView {
    pub width: nat,
    pub height: nat,
    pub data: Seq<bool>,
}

impl View for Record {
    type V = RecordView;

    open spec fn view(&self) -> RecordView {
        RecordView { width: self.size[0] as nat, height: self.size[1] as nat, data: self.data@ }
    }
}

impl RecordView {
    /// The record holds exactly one cell for each position of its dimensions.
    pub open spec fn consistent(self) -> bool {
        self.data.len() == self.width * self.height
    }

    /// The grid that the record describes, where it describes one.
    pub open spec fn grid(self) -> Option<Grid> {
        if self.consistent() {
            Some(Grid { width: self.width, height: self.height, cells: self.data })
        } else {
            None
        }
    }
}

impl Grid {
    /// The record of the grid.
    pub open spec fn record(self) -> RecordView {
        RecordView { width: self.width, height: self.height, data: self.cells }
    }
}

/// Why a record is no board.
#[derive(Debug, Clone, Copy, PartialEq, Eq)]
pub enum DecodeError {
    /// The record holds `found` cells, which is not `width * height`.
    LengthMismatch { width: usize, height: usize, found: usize },
}

impl Record {
    /// What is wrong with the record, where it describes no board.
    pub open spec fn mismatch(&self) -> DecodeError {
        DecodeError::LengthMismatch {
            width: self.size[0],
            height: self.size[1],
            found: self.data.len(),
        }
    }
}

impl Board {
    /// The record of the board.
    #[must_use]
    pub fn encode(&self) -> (record: Record)
        ensures
            record@ == self@.record(),
    {
        Record { size: *self.size(), data: self.data().clone() }
    }

    /// The board that `record` describes. A record whose number of cells is not the
    /// product of its dimensions describes none.
    pub fn decode(record: Record) -> (result: Result<Board, DecodeError>)
        ensures
            match result {
                Ok(board) => record@.grid() == Some(board@),
                Err(error) => record@.grid().is_none() && error == record.mismatch(),
            },
    {
        let width = record.size[0];
        let height = record.size[1];
        let found = record.data.len();
        match width.checked_mul(height) {
            Some(length) if length == found => Ok(Board::from_cells(width, height, record.data)),
            _ => Err(DecodeError::LengthMismatch { width, height, found }),
        }
    }
}

} // verus!
