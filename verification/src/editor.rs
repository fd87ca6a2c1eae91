//! The editing session behind a window: the board in hand, the edit mode and the resize
//! dialog, and what each action of the user makes of them. Drawing, files and the texts
//! being typed belong to the window; every decision on the board is taken here.

use vstd::prelude::*;
use crate::board::Board;
use crate::codec::{DecodeError, Record, RecordView};
use crate::dimension::{parse_dimension, reads_as};
use crate::grid::Grid;

verus! {

/// An editing session.
#[derive(Debug)]
pub struct Editor {
    board: Option<Board>,
    edit_mode: bool,
    resizing: bool,
    resize_warning: bool,
}

/// What a session holds.
pub ghost struct EditorView {
    /// The board in hand, if there is one.
    pub board: Option<Grid>,
    /// Whether a click on a cell toggles it.
    pub edit_mode: bool,
    /// Whether the resize dialog is open.
    pub resizing: bool,
    /// Whether the resize dialog warns that its dimensions could not be read.
    pub resize_warning: bool,
}

/// What became of the dimensions confirmed in the resize dialog.
#[derive(Debug, Clone, Copy, PartialEq, Eq)]
pub enum ResizeOutcome {
    /// The board has the new dimensions and the dialog is closed.
    Resized,
    /// One of the dimensions could not be read: the dialog stays, with its warning.
    Unreadable,
    /// A board of these dimensions has more cells than can be counted: nothing changed.
    TooLarge { width: usize, height: usize },
}

impl EditorView {
    /// After "Next": the board, if there is one, is one generation on.
    pub open spec fn stepped(self) -> EditorView {
        EditorView {
            board: match self.board {
                Some(grid) => Some(grid.step()),
                None => None,
            },
            ..self
        }
    }

    /// After a click on the cell in row `row` and column `column`: in edit mode, and where
    /// the board has such a cell, the cell is toggled. Otherwise nothing changes.
    pub open spec fn clicked(self, row: int, column: int) -> EditorView {
        match self.board {
            Some(grid) if self.edit_mode && grid.contains(row, column) => EditorView {
                board: Some(grid.with_cell(row, column, !grid.at(row, column))),
                ..self
            },
            _ => self,
        }
    }

    /// After the confirmed dimensions were applied: the board is resized, or, where there
    /// was none, a dead board of these dimensions is in hand; the dialog is closed.
    pub open spec fn resized(self, width: nat, height: nat) -> EditorView {
        EditorView {
            board: Some(
                match self.board {
                    Some(grid) => grid.resize(width, height),
                    None => Grid::dead(width, height),
                },
            ),
            resizing: false,
            resize_warning: false,
            ..self
        }
    }

    /// After "Ok" in the resize dialog, with what its two fields read as: with both read,
    /// and a board of these dimensions within what can be counted, the dimensions are
    /// applied; with one unread, the dialog warns.
    pub open spec fn confirmed(self, width: Option<usize>, height: Option<usize>) -> EditorView {
        match (width, height) {
            (Some(width), Some(height)) => if width * height <= usize::MAX {
                self.resized(width as nat, height as nat)
            } else {
                self
            },
            _ => EditorView { resize_warning: true, ..self },
        }
    }

    /// What "Ok" in the resize dialog comes to, with what its two fields read as.
    pub open spec fn outcome(width: Option<usize>, height: Option<usize>) -> ResizeOutcome {
        match (width, height) {
            (Some(width), Some(height)) => if width * height <= usize::MAX {
                ResizeOutcome::Resized
            } else {
                ResizeOutcome::TooLarge { width, height }
            },
            _ => ResizeOutcome::Unreadable,
        }
    }

    /// After a record was read from a file: the board it describes is in hand. A record
    /// that describes none changes nothing.
    pub open spec fn loaded(self, record: RecordView) -> EditorView {
        match record.grid() {
            Some(grid) => EditorView { board: Some(grid), ..self },
            None => self,
        }
    }
}

impl View for Editor {
    type V = EditorView;

    closed spec fn view(&self) -> EditorView {
        EditorView {
            board: match self.board {
                Some(board) => Some(board@),
                None => None,
            },
            edit_mode: self.edit_mode,
            resizing: self.resizing,
            resize_warning: self.resize_warning,
        }
    }
}

impl Editor {
    /// A session with `board` in hand, out of edit mode, the resize dialog closed.
    pub fn new(board: Option<Board>) -> (editor: Self)
        ensures
            editor@ == (EditorView {
                board: match board {
                    Some(board) => Some(board@),
                    None => None,
                },
                edit_mode: false,
                resizing: false,
                resize_warning: false,
            }),
    {
        Editor { board, edit_mode: false, resizing: false, resize_warning: false }
    }

    /// The board in hand, if there is one.
    pub fn board(&self) -> (board: Option<&Board>)
        ensures
            match board {
                Some(board) => self@.board == Some(board@),
                None => self@.board.is_none(),
            },
    {
        self.board.as_ref()
    }

    /// Whether a click on a cell toggles it.
    pub fn edit_mode(&self) -> (on: bool)
        ensures
            on == self@.edit_mode,
    {
        self.edit_mode
    }

    /// Whether the resize dialog is open.
    pub fn resizing(&self) -> (open: bool)
        ensures
            open == self@.resizing,
    {
        self.resizing
    }

    /// Whether the resize dialog warns that its dimensions could not be read.
    pub fn resize_warning(&self) -> (warning: bool)
        ensures
            warning == self@.resize_warning,
    {
        self.resize_warning
    }

    /// Enters or leaves edit mode.
    pub fn set_edit_mode(&mut self, on: bool)
        ensures
            final(self)@ == (EditorView { edit_mode: on, ..old(self)@ }),
    {
        self.edit_mode = on;
    }

    /// "Next": the board, if there is one, moves one generation on.
    pub fn step(&mut self)
        ensures
            final(self)@ == old(self)@.stepped(),
    {
        let next = match &self.board {
            Some(board) => Some(board.next()),
            None => None,
        };
        self.board = next;
    }

    /// A click on the cell in row `row` and column `column`: in edit mode, and where the
    /// board has such a cell, the cell is toggled.
    pub fn click(&mut self, row: usize, column: usize)
        ensures
            final(self)@ == old(self)@.clicked(row as int, column as int),
    {
        if self.edit_mode {
            match &mut self.board {
                Some(board) => {
                    match board.get_mut((row, column)) {
                        Some(cell) => {
                            *cell = !*cell;
                        },
                        None => {},
                    }
                },
                None => {},
            }
        }
    }

    /// "Resize": the resize dialog opens.
    pub fn open_resize(&mut self)
        ensures
            final(self)@ == (EditorView { resizing: true, ..old(self)@ }),
    {
        self.resizing = true;
    }

    /// "Cancel" in the resize dialog: the dialog closes and its warning is gone.
    pub fn cancel_resize(&mut self)
        ensures
            final(self)@ == (EditorView { resizing: false, resize_warning: false, ..old(self)@ }),
    {
        self.resizing = false;
        self.resize_warning = false;
    }

    /// "Ok" in the resize dialog, with the texts of its two fields. With both read as
    /// dimensions, the board is resized and the dialog closes; with one unread, the dialog
    /// warns and the board stays as it is.
    pub fn confirm_resize(&mut self, width: &str, height: &str) -> (outcome: ResizeOutcome)
        ensures
            final(self)@ == old(self)@.confirmed(reads_as(width@), reads_as(height@)),
            outcome == EditorView::outcome(reads_as(width@), reads_as(height@)),
    {
        match (parse_dimension(width), parse_dimension(height)) {
            (Some(width), Some(height)) => {
                if width.checked_mul(height).is_none() {
                    return ResizeOutcome::TooLarge { width, height };
                }
                let board = match &self.board {
                    Some(board) => board.resize(width, height),
                    None => Board::new(width, height),
                };
                self.board = Some(board);
                self.resizing = false;
                self.resize_warning = false;
                ResizeOutcome::Resized
            },
            _ => {
                self.resize_warning = true;
                ResizeOutcome::Unreadable
            },
        }
    }

    /// The record of the board in hand, to be saved.
    pub fn save(&self) -> (record: Option<Record>)
        ensures
            match record {
                Some(record) => self@.board.is_some() && record@ == self@.board.unwrap().record(),
                None => self@.board.is_none(),
            },
    {
        match &self.board {
            Some(board) => Some(board.encode()),
            None => None,
        }
    }

    /// A record read from a file: the board that it describes replaces the one in hand.
    /// A record that describes none is refused, and the board in hand stays.
    pub fn load(&mut self, record: Record) -> (result: Result<(), DecodeError>)
        ensures
            final(self)@ == old(self)@.loaded(record@),
            result == (if record@.grid().is_some() {
                Ok::<(), DecodeError>(())
            } else {
                Err(record.mismatch())
            }),
    {
        match Board::decode(record) {
            Ok(board) => {
                self.board = Some(board);
                Ok(())
            },
            Err(error) => Err(error),
        }
    }
}

} // verus!
