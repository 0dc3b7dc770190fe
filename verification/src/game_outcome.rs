//! Utilities to determine the winner of a game (if any)

use vstd::prelude::*;
use crate::gameboard::{GameBoard, BoardSpace, BoardSpaceLocation};

verus! {

/// The outcome of a game, if any
///
/// The `PlayerX` and `PlayerO` variants represent that the game
/// was won by the indicated player, and include the [`WinPosition`] the game was won with.
///
/// The `Draw` variant represents that the game is finished (no more moves can be played)
/// but that there was no winner.
///
/// The `Incomplete` variant represents that neither player has won, but that there
/// are still moves that can be played.
#[derive(Debug, PartialEq, Eq, Structural, Clone, Copy)]
pub enum GameOutcome {
    PlayerX(WinPosition),
    PlayerO(WinPosition),
    Draw,
    Incomplete,
}

/// The row, column, or diagonal that a game was won with
///
/// The [`GameOutcome::analyze_game`] function checks each win position in the
/// order that `WinPosition` variants are defined.
#[derive(Debug, PartialEq, Eq, Structural, Clone, Copy)]
pub enum WinPosition {
    TopRow,
    MiddleRow,
    BottomRow,
    LeftColumn,
    MiddleColumn,
    RightColumn,
    TopLeftToBottomRight,
    BottomLeftToTopRight,
}

/// The board indices of the three spaces of a win position, in the order
/// of [`WinPosition::as_board_spaces`]
pub open spec fn line_indices(w: WinPosition) -> (int, int, int) {
    match w {
        WinPosition::TopRow => (0, 1, 2),
        WinPosition::MiddleRow => (3, 4, 5),
        WinPosition::BottomRow => (6, 7, 8),
        WinPosition::LeftColumn => (0, 3, 6),
        WinPosition::MiddleColumn => (1, 4, 7),
        WinPosition::RightColumn => (2, 5, 8),
        WinPosition::TopLeftToBottomRight => (0, 4, 8),
        WinPosition::BottomLeftToTopRight => (6, 4, 2),
    }
}

/// The position of a win position in the enumeration order of [`WinPosition::all`]
pub open spec fn win_position_index(w: WinPosition) -> int {
    match w {
        WinPosition::TopRow => 0,
        WinPosition::MiddleRow => 1,
        WinPosition::BottomRow => 2,
        WinPosition::LeftColumn => 3,
        WinPosition::MiddleColumn => 4,
        WinPosition::RightColumn => 5,
        WinPosition::TopLeftToBottomRight => 6,
        WinPosition::BottomLeftToTopRight => 7,
    }
}

/// Whether the three spaces of `w` all hold the same non-Empty mark on `b`
pub open spec fn spec_line_won(b: Seq<BoardSpace>, w: WinPosition) -> bool {
    let (i, j, k) = line_indices(w);
    !(b[i] is Empty) && b[j] == b[i] && b[k] == b[i]
}

/// The first win position, in enumeration order, whose three spaces all hold
/// the same non-Empty mark, if any
pub open spec fn spec_winning_line(b: Seq<BoardSpace>) -> Option<WinPosition> {
    if spec_line_won(b, WinPosition::TopRow) {
        Some(WinPosition::TopRow)
    } else if spec_line_won(b, WinPosition::MiddleRow) {
        Some(WinPosition::MiddleRow)
    } else if spec_line_won(b, WinPosition::BottomRow) {
        Some(WinPosition::BottomRow)
    } else if spec_line_won(b, WinPosition::LeftColumn) {
        Some(WinPosition::LeftColumn)
    } else if spec_line_won(b, WinPosition::MiddleColumn) {
        Some(WinPosition::MiddleColumn)
    } else if spec_line_won(b, WinPosition::RightColumn) {
        Some(WinPosition::RightColumn)
    } else if spec_line_won(b, WinPosition::TopLeftToBottomRight) {
        Some(WinPosition::TopLeftToBottomRight)
    } else if spec_line_won(b, WinPosition::BottomLeftToTopRight) {
        Some(WinPosition::BottomLeftToTopRight)
    } else {
        None
    }
}

/// The number of Empty spaces of `b` at indices `i` and beyond
pub open spec fn count_empty_from(b: Seq<BoardSpace>, i: int) -> nat
    decreases 9 - i,
{
    if i < 0 || i >= 9 {
        0
    } else {
        (if b[i] is Empty {
            1nat
        } else {
            0nat
        }) + count_empty_from(b, i + 1)
    }
}

/// The number of Empty spaces of a board
pub open spec fn count_empty(b: Seq<BoardSpace>) -> nat {
    count_empty_from(b, 0)
}

/// The outcome of a board: the winner holding the first winning line in
/// enumeration order, or else a draw when the board is full, or else an
/// incomplete game
pub open spec fn spec_outcome(b: Seq<BoardSpace>) -> GameOutcome {
    match spec_winning_line(b) {
        Some(w) => {
            let (i, j, k) = line_indices(w);
            if b[i] is X {
                GameOutcome::PlayerX(w)
            } else {
                GameOutcome::PlayerO(w)
            }
        },
        None => {
            if count_empty(b) > 0 {
                GameOutcome::Incomplete
            } else {
                GameOutcome::Draw
            }
        },
    }
}

/// Whether the three spaces of `w` all hold the same non-Empty mark on `board`
fn line_won(board: &GameBoard, w: WinPosition) -> (r: bool)
    ensures
        r == spec_line_won(board@, w),
{
    proof {
        crate::gameboard::lemma_board_view_len(*board);
    }
    let locations = w.as_board_spaces();
    let first = *board.space(locations[0]);
    let second = *board.space(locations[1]);
    let third = *board.space(locations[2]);
    !matches!(first, BoardSpace::Empty) && second == first && third == first
}

impl GameOutcome {
    /// Analyzes a given [`GameBoard`] for a winner
    ///
    /// If a game has multiple valid win positions,
    /// only one win position (and therefore one winner) is selected.
    /// The priority of win positions is defined by the order that [`WinPosition`] variants
    /// are defined in; the earlier variants are higher priority than the later variants.
    ///
    /// More specifically, the priority is defined by the order that variants are returned by
    /// the [`WinPosition::all`] function, but this order and the variant definition order
    /// should be identical.
    pub fn analyze_game(board: &GameBoard) -> (r: GameOutcome)
        ensures
            r == spec_outcome(board@),
    {
        proof {
            crate::gameboard::lemma_board_view_len(*board);
        }
        if line_won(board, WinPosition::TopRow) {
            return winner_outcome(board, WinPosition::TopRow);
        }
        if line_won(board, WinPosition::MiddleRow) {
            return winner_outcome(board, WinPosition::MiddleRow);
        }
        if line_won(board, WinPosition::BottomRow) {
            return winner_outcome(board, WinPosition::BottomRow);
        }
        if line_won(board, WinPosition::LeftColumn) {
            return winner_outcome(board, WinPosition::LeftColumn);
        }
        if line_won(board, WinPosition::MiddleColumn) {
            return winner_outcome(board, WinPosition::MiddleColumn);
        }
        if line_won(board, WinPosition::RightColumn) {
            return winner_outcome(board, WinPosition::RightColumn);
        }
        if line_won(board, WinPosition::TopLeftToBottomRight) {
            return winner_outcome(board, WinPosition::TopLeftToBottomRight);
        }
        if line_won(board, WinPosition::BottomLeftToTopRight) {
            return winner_outcome(board, WinPosition::BottomLeftToTopRight);
        }

        // At this point, we have determined that neither player has won,
        // as all win positions have been checked and no winner was found.
        // The return value will now be Incomplete if empty spaces were found,
        // or Draw if no empty spaces were found (indicating no more possible moves)
        assert(spec_winning_line(board@) is None);
        let mut k: usize = 0;
        while k < 9
            invariant
                k <= 9,
                forall|j: int| 0 <= j < k ==> !((#[trigger] board@[j]) is Empty),
                board@.len() == 9,
                spec_winning_line(board@) is None,
            decreases 9 - k,
        {
            if matches!(*board.space_by_index(k as u8), BoardSpace::Empty) {
                proof {
                    lemma_count_empty_at_least(board@, k as int);
                }
                return GameOutcome::Incomplete;
            }
            k = k + 1;
        }
        proof {
            lemma_count_empty_none(board@, 0);
        }
        GameOutcome::Draw
    }

    /// Returns `true` if the game is finished
    ///
    /// The game is finished if there are no more moves to be played or a player has won.
    pub fn game_finished(&self) -> (r: bool)
        ensures
            r == !(*self is Incomplete),
    {
        !matches!(self, Self::Incomplete)
    }

    /// Returns `true` if the game has been won
    pub fn game_won(&self) -> (r: bool)
        ensures
            r == (*self is PlayerX || *self is PlayerO),
    {
        !matches!(self, Self::Draw | Self::Incomplete)
    }
}

/// The outcome reported for a board whose line `w` is won: the player holding
/// the line's mark, together with the line
fn winner_outcome(board: &GameBoard, w: WinPosition) -> (r: GameOutcome)
    requires
        spec_line_won(board@, w),
    ensures
        r == (if board@[line_indices(w).0] is X {
            GameOutcome::PlayerX(w)
        } else {
            GameOutcome::PlayerO(w)
        }),
{
    proof {
        crate::gameboard::lemma_board_view_len(*board);
    }
    let locations = w.as_board_spaces();
    match board.space(locations[0]) {
        BoardSpace::X => GameOutcome::PlayerX(w),
        _ => GameOutcome::PlayerO(w),
    }
}

/// Writing a mark to an Empty space lowers the Empty count of every prefix
/// start `j` at or before that space by one, and leaves later suffixes alone.
pub proof fn lemma_count_empty_update(b: Seq<BoardSpace>, i: int, m: BoardSpace, j: int)
    requires
        b.len() == 9,
        0 <= i < 9,
        b[i] is Empty,
        !(m is Empty),
        0 <= j <= 9,
    ensures
        count_empty_from(b.update(i, m), j) == if j <= i {
            count_empty_from(b, j) - 1
        } else {
            count_empty_from(b, j) as int
        },
    decreases 9 - j,
{
    if j < 9 {
        lemma_count_empty_update(b, i, m, j + 1);
    }
}

/// No suffix of a board holds more Empty spaces than it has spaces.
pub proof fn lemma_count_empty_bound(b: Seq<BoardSpace>, i: int)
    requires
        0 <= i <= 9,
    ensures
        count_empty_from(b, i) <= 9 - i,
    decreases 9 - i,
{
    if i < 9 {
        lemma_count_empty_bound(b, i + 1);
    }
}

/// Starting the Empty count earlier never lowers it.
pub proof fn lemma_count_empty_mono(b: Seq<BoardSpace>, l1: int, l2: int)
    requires
        0 <= l1 <= l2 <= 9,
    ensures
        count_empty_from(b, l1) >= count_empty_from(b, l2),
    decreases l2 - l1,
{
    if l1 < l2 {
        lemma_count_empty_mono(b, l1 + 1, l2);
    }
}

/// If the space at `i` is Empty, the board holds at least one Empty space.
pub proof fn lemma_count_empty_at_least(b: Seq<BoardSpace>, i: int)
    requires
        0 <= i < 9,
        b[i] is Empty,
    ensures
        count_empty(b) > 0,
{
    assert(count_empty_from(b, i) > 0);
    lemma_count_empty_suffix_pos(b, i, 0);
}

/// A positive suffix count at `i` means a positive suffix count at any `j <= i`.
proof fn lemma_count_empty_suffix_pos(b: Seq<BoardSpace>, i: int, j: int)
    requires
        0 <= j <= i < 9,
        count_empty_from(b, i) > 0,
    ensures
        count_empty_from(b, j) > 0,
    decreases i - j,
{
    if j < i {
        lemma_count_empty_suffix_pos(b, i, j + 1);
    }
}

/// A board with no Empty space at any index from `i` on has suffix count zero.
proof fn lemma_count_empty_none(b: Seq<BoardSpace>, i: int)
    requires
        forall|j: int| i <= j < 9 ==> !((#[trigger] b[j]) is Empty),
    ensures
        count_empty_from(b, i) == 0,
    decreases 9 - i,
{
    if 0 <= i < 9 {
        lemma_count_empty_none(b, i + 1);
    }
}

impl WinPosition {
    /// Returns an array of [`BoardSpaceLocation`] with each space contained in this `WinPosition`
    pub fn as_board_spaces(&self) -> (r: [BoardSpaceLocation; 3])
        ensures
            (r@[0].as_int(), r@[1].as_int(), r@[2].as_int()) == line_indices(*self),
    {
        match self {
            Self::TopRow => [
                BoardSpaceLocation::TopLeft,
                BoardSpaceLocation::TopMiddle,
                BoardSpaceLocation::TopRight,
            ],
            Self::MiddleRow => [
                BoardSpaceLocation::MiddleLeft,
                BoardSpaceLocation::MiddleMiddle,
                BoardSpaceLocation::MiddleRight,
            ],
            Self::BottomRow => [
                BoardSpaceLocation::BottomLeft,
                BoardSpaceLocation::BottomMiddle,
                BoardSpaceLocation::BottomRight,
            ],
            Self::LeftColumn => [
                BoardSpaceLocation::TopLeft,
                BoardSpaceLocation::MiddleLeft,
                BoardSpaceLocation::BottomLeft,
            ],
            Self::MiddleColumn => [
                BoardSpaceLocation::TopMiddle,
                BoardSpaceLocation::MiddleMiddle,
                BoardSpaceLocation::BottomMiddle,
            ],
            Self::RightColumn => [
                BoardSpaceLocation::TopRight,
                BoardSpaceLocation::MiddleRight,
                BoardSpaceLocation::BottomRight,
            ],
            Self::TopLeftToBottomRight => [
                BoardSpaceLocation::TopLeft,
                BoardSpaceLocation::MiddleMiddle,
                BoardSpaceLocation::BottomRight,
            ],
            Self::BottomLeftToTopRight => [
                BoardSpaceLocation::BottomLeft,
                BoardSpaceLocation::MiddleMiddle,
                BoardSpaceLocation::TopRight,
            ],
        }
    }

    /// Returns all variants of `WinPosition`, in enumeration order
    pub fn all() -> (r: [WinPosition; 8])
        ensures
            r@.len() == 8,
            forall|i: int| 0 <= i < 8 ==> win_position_index(#[trigger] r@[i]) == i,
    {
        let variants: [WinPosition; 8] = [
            WinPosition::TopRow,
            WinPosition::MiddleRow,
            WinPosition::BottomRow,
            WinPosition::LeftColumn,
            WinPosition::MiddleColumn,
            WinPosition::RightColumn,
            WinPosition::TopLeftToBottomRight,
            WinPosition::BottomLeftToTopRight,
        ];
        variants
    }
}

} // verus!
