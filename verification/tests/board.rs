//! Tests of the board model, outcome analysis and winner analysis

use tactic::gameboard::{GameBoard, BoardSpace, BoardSpaceLocation};
use tactic::game_outcome::{GameOutcome, WinPosition};
use tactic::winner;

/// Builds a board from nine characters in enumeration order:
/// 'X', 'O', or anything else for an empty space.
fn make_board(cells: [char; 9]) -> GameBoard {
    let mut board = GameBoard::new();
    let locations = BoardSpaceLocation::all();
    for i in 0..9 {
        match cells[i] {
            'X' => board.space_mut(locations[i], BoardSpace::X),
            'O' => board.space_mut(locations[i], BoardSpace::O),
            _ => {}
        }
    }
    board
}

#[test]
fn new_board_is_empty() {
    let board = GameBoard::new();
    for (location, space) in board.all_spaces() {
        assert_eq!(space, BoardSpace::Empty);
        let (x, y) = location.as_coordinates();
        assert!(x <= 2 && y <= 2);
    }
}

#[test]
fn default_space_is_empty() {
    let space: BoardSpace = Default::default();
    assert_eq!(space, BoardSpace::Empty);
}

#[test]
fn space_characters() {
    assert_eq!(BoardSpace::Empty.get_char(), ' ');
    assert_eq!(BoardSpace::X.get_char(), 'X');
    assert_eq!(BoardSpace::O.get_char(), 'O');
}

#[test]
fn coordinates_round_trip() {
    for location in BoardSpaceLocation::all() {
        let coordinates = location.as_coordinates();
        assert_eq!(BoardSpaceLocation::from_coordinates(coordinates), location);
    }
    assert_eq!(
        BoardSpaceLocation::TopLeft.as_coordinates(),
        (0, 0)
    );
    assert_eq!(
        BoardSpaceLocation::TopMiddle.as_coordinates(),
        (1, 0)
    );
    assert_eq!(
        BoardSpaceLocation::BottomRight.as_coordinates(),
        (2, 2)
    );
    assert_eq!(
        BoardSpaceLocation::from_coordinates((0, 2)),
        BoardSpaceLocation::BottomLeft
    );
}

#[test]
fn writing_and_reading_spaces() {
    let mut board = GameBoard::new();
    board.space_mut(BoardSpaceLocation::MiddleMiddle, BoardSpace::X);
    board.space_by_coordinates_mut((2, 0), BoardSpace::O);
    assert_eq!(*board.space(BoardSpaceLocation::MiddleMiddle), BoardSpace::X);
    assert_eq!(*board.space_by_coordinates((1, 1)), BoardSpace::X);
    assert_eq!(*board.space(BoardSpaceLocation::TopRight), BoardSpace::O);
    assert_eq!(*board.space(BoardSpaceLocation::TopLeft), BoardSpace::Empty);

    // overwriting a space holds the new state
    board.space_mut(BoardSpaceLocation::MiddleMiddle, BoardSpace::O);
    assert_eq!(*board.space(BoardSpaceLocation::MiddleMiddle), BoardSpace::O);
}

#[test]
fn all_spaces_reports_each_location_once() {
    let board = make_board(['X', ' ', ' ', ' ', 'O', ' ', ' ', ' ', 'X']);
    let spaces = board.all_spaces();
    assert_eq!(spaces.len(), 9);
    assert_eq!(spaces[0], (BoardSpaceLocation::TopLeft, BoardSpace::X));
    assert_eq!(spaces[4], (BoardSpaceLocation::MiddleMiddle, BoardSpace::O));
    assert_eq!(spaces[8], (BoardSpaceLocation::BottomRight, BoardSpace::X));
    assert_eq!(spaces[1], (BoardSpaceLocation::TopMiddle, BoardSpace::Empty));
}

#[test]
fn empty_board_is_incomplete() {
    assert_eq!(GameBoard::new().game_outcome(), GameOutcome::Incomplete);
}

#[test]
fn row_win_is_detected() {
    let board = make_board(['X', 'X', 'X', 'O', 'O', ' ', ' ', ' ', ' ']);
    assert_eq!(
        board.game_outcome(),
        GameOutcome::PlayerX(WinPosition::TopRow)
    );
}

#[test]
fn column_win_is_detected() {
    let board = make_board(['X', 'O', ' ', 'X', 'O', ' ', ' ', 'O', 'X']);
    assert_eq!(
        board.game_outcome(),
        GameOutcome::PlayerO(WinPosition::MiddleColumn)
    );
}

#[test]
fn diagonal_win_is_detected() {
    let board = make_board(['X', 'O', 'O', ' ', 'X', ' ', ' ', ' ', 'X']);
    assert_eq!(
        board.game_outcome(),
        GameOutcome::PlayerX(WinPosition::TopLeftToBottomRight)
    );
    let other = make_board(['O', 'X', 'X', ' ', 'X', ' ', 'X', 'O', 'O']);
    assert_eq!(
        other.game_outcome(),
        GameOutcome::PlayerX(WinPosition::BottomLeftToTopRight)
    );
}

#[test]
fn earlier_win_position_takes_priority() {
    // X holds both the top row and the left column; the top row is
    // reported because it comes first in enumeration order
    let board = make_board(['X', 'X', 'X', 'X', ' ', ' ', 'X', ' ', ' ']);
    assert_eq!(
        board.game_outcome(),
        GameOutcome::PlayerX(WinPosition::TopRow)
    );
}

#[test]
fn full_board_without_line_is_a_draw() {
    let board = make_board(['X', 'O', 'X', 'X', 'O', 'O', 'O', 'X', 'X']);
    assert_eq!(board.game_outcome(), GameOutcome::Draw);
}

#[test]
fn outcome_predicates() {
    assert!(!GameOutcome::Incomplete.game_finished());
    assert!(GameOutcome::Draw.game_finished());
    assert!(GameOutcome::PlayerX(WinPosition::TopRow).game_finished());
    assert!(!GameOutcome::Incomplete.game_won());
    assert!(!GameOutcome::Draw.game_won());
    assert!(GameOutcome::PlayerO(WinPosition::LeftColumn).game_won());
}

#[test]
fn win_positions_cover_their_spaces() {
    let all = WinPosition::all();
    assert_eq!(all.len(), 8);
    let spaces = WinPosition::MiddleRow.as_board_spaces();
    assert_eq!(
        spaces,
        [
            BoardSpaceLocation::MiddleLeft,
            BoardSpaceLocation::MiddleMiddle,
            BoardSpaceLocation::MiddleRight
        ]
    );
}

#[test]
fn get_winner_finds_first_winning_line() {
    let board = make_board(['O', 'X', ' ', 'O', 'X', ' ', 'O', ' ', ' ']);
    let (mark, position) = winner::get_winner(&board);
    assert_eq!(mark, BoardSpace::O);
    assert!(matches!(position, Some(winner::WinPosition::LeftColumn)));
}

#[test]
fn get_winner_on_undecided_board() {
    let board = make_board(['X', 'O', ' ', ' ', ' ', ' ', ' ', ' ', ' ']);
    let (mark, position) = winner::get_winner(&board);
    assert_eq!(mark, BoardSpace::Empty);
    assert!(position.is_none());
}

#[test]
fn winner_positions_enumerate() {
    let all = winner::WinPosition::all();
    assert_eq!(all.len(), 8);
    let spaces = winner::WinPosition::BottomLeftToTopRight.as_board_spaces();
    assert_eq!(
        spaces,
        [
            BoardSpaceLocation::BottomLeft,
            BoardSpaceLocation::MiddleMiddle,
            BoardSpaceLocation::TopRight
        ]
    );
}

#[test]
fn board_renders_as_string() {
    let board = make_board(['X', 'O', 'X', ' ', 'O', ' ', ' ', ' ', 'X']);
    let expected = "\n X | O | X\n-----------\n   | O |  \n-----------\n   |   | X";
    assert_eq!(board.as_string(), expected);
}
