//! Utilities to determine the winner of a game (if any)

use vstd::prelude::*;
use crate::gameboard::{GameBoard, BoardSpace, BoardSpaceLocation};

verus! {

/// The row, column, or diagonal that a game was won with
///
/// The [`get_winner`] function checks each win position in the order
/// that `WinPosition` variants are defined.
#[derive(Debug, PartialEq, Eq, Structural, Clone, Copy)]
pub enum WinPosition {
    TopRow,
    MiddleRow,
    BottomRow,
    LeftColumn,
    MiddleColumn,
    RightColumn,
    TopLeftToBottomRight,
    BottomLeftToTopRight,
}

/// The board indices of the three spaces of a win position, in the order
/// of [`WinPosition::as_board_spaces`]
pub open spec fn line_indices(w: WinPosition) -> (int, int, int) {
    match w {
        WinPosition::TopRow => (0, 1, 2),
        WinPosition::MiddleRow => (3, 4, 5),
        WinPosition::BottomRow => (6, 7, 8),
        WinPosition::LeftColumn => (0, 3, 6),
        WinPosition::MiddleColumn => (1, 4, 7),
        WinPosition::RightColumn => (2, 5, 8),
        WinPosition::TopLeftToBottomRight => (0, 4, 8),
        WinPosition::BottomLeftToTopRight => (6, 4, 2),
    }
}

/// The position of a win position in the enumeration order of [`WinPosition::all`]
pub open spec fn win_position_index(w: WinPosition) -> int {
    match w {
        WinPosition::TopRow => 0,
        WinPosition::MiddleRow => 1,
        WinPosition::BottomRow => 2,
        WinPosition::LeftColumn => 3,
        WinPosition::MiddleColumn => 4,
        WinPosition::RightColumn => 5,
        WinPosition::TopLeftToBottomRight => 6,
        WinPosition::BottomLeftToTopRight => 7,
    }
}

/// Whether the three spaces of `w` all hold the same non-Empty mark on `b`
pub open spec fn spec_line_won(b: Seq<BoardSpace>, w: WinPosition) -> bool {
    let (i, j, k) = line_indices(w);
    !(b[i] is Empty) && b[j] == b[i] && b[k] == b[i]
}

/// The result of analyzing a board for a winner: the winning mark (or Empty
/// when no line is won) together with the first won line in enumeration order
pub open spec fn spec_winner(b: Seq<BoardSpace>) -> (BoardSpace, Option<WinPosition>) {
    if spec_line_won(b, WinPosition::TopRow) {
        (b[0], Some(WinPosition::TopRow))
    } else if spec_line_won(b, WinPosition::MiddleRow) {
        (b[3], Some(WinPosition::MiddleRow))
    } else if spec_line_won(b, WinPosition::BottomRow) {
        (b[6], Some(WinPosition::BottomRow))
    } else if spec_line_won(b, WinPosition::LeftColumn) {
        (b[0], Some(WinPosition::LeftColumn))
    } else if spec_line_won(b, WinPosition::MiddleColumn) {
        (b[1], Some(WinPosition::MiddleColumn))
    } else if spec_line_won(b, WinPosition::RightColumn) {
        (b[2], Some(WinPosition::RightColumn))
    } else if spec_line_won(b, WinPosition::TopLeftToBottomRight) {
        (b[0], Some(WinPosition::TopLeftToBottomRight))
    } else if spec_line_won(b, WinPosition::BottomLeftToTopRight) {
        (b[6], Some(WinPosition::BottomLeftToTopRight))
    } else {
        (BoardSpace::Empty, None)
    }
}

impl WinPosition {
    /// Returns an array of [`BoardSpaceLocation`] with each space contained in this `WinPosition`
    pub fn as_board_spaces(&self) -> (r: [BoardSpaceLocation; 3])
        ensures
            (r@[0].as_int(), r@[1].as_int(), r@[2].as_int()) == line_indices(*self),
    {
        match self {
            Self::TopRow => [
                BoardSpaceLocation::TopLeft,
                BoardSpaceLocation::TopMiddle,
                BoardSpaceLocation::TopRight,
            ],
            Self::MiddleRow => [
                BoardSpaceLocation::MiddleLeft,
                BoardSpaceLocation::MiddleMiddle,
                BoardSpaceLocation::MiddleRight,
            ],
            Self::BottomRow => [
                BoardSpaceLocation::BottomLeft,
                BoardSpaceLocation::BottomMiddle,
                BoardSpaceLocation::BottomRight,
            ],
            Self::LeftColumn => [
                BoardSpaceLocation::TopLeft,
                BoardSpaceLocation::MiddleLeft,
                BoardSpaceLocation::BottomLeft,
            ],
            Self::MiddleColumn => [
                BoardSpaceLocation::TopMiddle,
                BoardSpaceLocation::MiddleMiddle,
                BoardSpaceLocation::BottomMiddle,
            ],
            Self::RightColumn => [
                BoardSpaceLocation::TopRight,
                BoardSpaceLocation::MiddleRight,
                BoardSpaceLocation::BottomRight,
            ],
            Self::TopLeftToBottomRight => [
                BoardSpaceLocation::TopLeft,
                BoardSpaceLocation::MiddleMiddle,
                BoardSpaceLocation::BottomRight,
            ],
            Self::BottomLeftToTopRight => [
                BoardSpaceLocation::BottomLeft,
                BoardSpaceLocation::MiddleMiddle,
                BoardSpaceLocation::TopRight,
            ],
        }
    }

    /// Returns all variants of `WinPosition`, in enumeration order
    pub fn all() -> (r: [WinPosition; 8])
        ensures
            r@.len() == 8,
            forall|i: int| 0 <= i < 8 ==> win_position_index(#[trigger] r@[i]) == i,
    {
        let variants: [WinPosition; 8] = [
            WinPosition::TopRow,
            WinPosition::MiddleRow,
            WinPosition::BottomRow,
            WinPosition::LeftColumn,
            WinPosition::MiddleColumn,
            WinPosition::RightColumn,
            WinPosition::TopLeftToBottomRight,
            WinPosition::BottomLeftToTopRight,
        ];
        variants
    }
}

/// Whether the three spaces of `w` all hold the same non-Empty mark on `board`
fn line_won(board: &GameBoard, w: WinPosition) -> (r: bool)
    ensures
        r == spec_line_won(board@, w),
{
    proof {
        crate::gameboard::lemma_board_view_len(*board);
    }
    let locations = w.as_board_spaces();
    let first = *board.space(locations[0]);
    let second = *board.space(locations[1]);
    let third = *board.space(locations[2]);
    !matches!(first, BoardSpace::Empty) && second == first && third == first
}

/// Analyzes a given [`GameBoard`] for a winner
///
/// The results of analysis are returned as a tuple `(winning_player, win_position)`.
///
/// The winning player is represented as a [`BoardSpace`] variant;
/// [`BoardSpace::X`] if player X won, [`BoardSpace::O`] if player O won,
/// or [`BoardSpace::Empty`] if neither player won.
///
/// The win position is represented as an optional [`WinPosition`];
/// `Some(WinPosition)` if a winner is found or `None` if no winner is found.
pub fn get_winner(board: &GameBoard) -> (r: (BoardSpace, Option<WinPosition>))
    ensures
        r == spec_winner(board@),
{
    proof {
        crate::gameboard::lemma_board_view_len(*board);
    }
    if line_won(board, WinPosition::TopRow) {
        return (*board.space(BoardSpaceLocation::TopLeft), Some(WinPosition::TopRow));
    }
    if line_won(board, WinPosition::MiddleRow) {
        return (*board.space(BoardSpaceLocation::MiddleLeft), Some(WinPosition::MiddleRow));
    }
    if line_won(board, WinPosition::BottomRow) {
        return (*board.space(BoardSpaceLocation::BottomLeft), Some(WinPosition::BottomRow));
    }
    if line_won(board, WinPosition::LeftColumn) {
        return (*board.space(BoardSpaceLocation::TopLeft), Some(WinPosition::LeftColumn));
    }
    if line_won(board, WinPosition::MiddleColumn) {
        return (*board.space(BoardSpaceLocation::TopMiddle), Some(WinPosition::MiddleColumn));
    }
    if line_won(board, WinPosition::RightColumn) {
        return (*board.space(BoardSpaceLocation::TopRight), Some(WinPosition::RightColumn));
    }
    if line_won(board, WinPosition::TopLeftToBottomRight) {
        return (
            *board.space(BoardSpaceLocation::TopLeft),
            Some(WinPosition::TopLeftToBottomRight),
        );
    }
    if line_won(board, WinPosition::BottomLeftToTopRight) {
        return (
            *board.space(BoardSpaceLocation::BottomLeft),
            Some(WinPosition::BottomLeftToTopRight),
        );
    }
    (BoardSpace::Empty, None)
}

} // verus!
