//! Tests of the move evaluator and the AI player policy

use tactic::gameboard::{GameBoard, BoardSpace, BoardSpaceLocation};
use tactic::active_player::ActivePlayer;
use tactic::ai::{AiPlayer, AiError, PossibleMove, evaluate_moves, SCORE_UNIT};

/// Builds a board from nine characters in enumeration order:
/// 'X', 'O', or anything else for an empty space.
fn make_board(cells: [char; 9]) -> GameBoard {
    let mut board = GameBoard::new();
    let locations = BoardSpaceLocation::all();
    for i in 0..9 {
        match cells[i] {
            'X' => board.space_mut(locations[i], BoardSpace::X),
            'O' => board.space_mut(locations[i], BoardSpace::O),
            _ => {}
        }
    }
    board
}

fn score_at(moves: &[PossibleMove], location: BoardSpaceLocation) -> i64 {
    moves
        .iter()
        .find(|m| *m.new_location() == location)
        .expect("candidate for location missing")
        .win_score()
}

#[test]
fn candidate_count_matches_empty_spaces() {
    // an empty board offers nine moves
    let empty = GameBoard::new();
    let moves = evaluate_moves(&empty, &ActivePlayer::PlayerX);
    assert_eq!(moves.len(), 9);

    // a board with four marks offers five
    let board = make_board(['X', 'X', ' ', 'O', 'O', ' ', ' ', ' ', ' ']);
    let moves = evaluate_moves(&board, &ActivePlayer::PlayerX);
    assert_eq!(moves.len(), 5);
}

#[test]
fn immediate_win_scores_one_unit() {
    // completing the top row for X scores exactly +1.0
    let board = make_board(['X', 'X', ' ', 'O', 'O', ' ', ' ', ' ', ' ']);
    let moves = evaluate_moves(&board, &ActivePlayer::PlayerX);
    assert_eq!(score_at(&moves, BoardSpaceLocation::TopRight), SCORE_UNIT);
}

#[test]
fn opponent_win_scores_minus_one_unit() {
    // a move of O that completes O's row counts -1.0 for perspective X
    let board = make_board(['X', 'X', ' ', 'O', 'O', ' ', 'X', ' ', ' ']);
    let pm = PossibleMove::new(
        &board,
        BoardSpaceLocation::MiddleRight,
        &ActivePlayer::PlayerO,
        &ActivePlayer::PlayerX,
    );
    assert_eq!(pm.win_score(), -SCORE_UNIT);
}

#[test]
fn filling_move_without_line_scores_zero() {
    // one empty space left; filling it completes the board with no line
    let board = make_board(['X', 'O', 'X', 'X', 'O', 'O', 'O', 'X', ' ']);
    let moves = evaluate_moves(&board, &ActivePlayer::PlayerX);
    assert_eq!(moves.len(), 1);
    assert_eq!(moves[0].win_score(), 0);
}

#[test]
fn win_one_ply_further_scores_half_unit() {
    // O moves at BottomRight; the single continuation has X complete the
    // top row, so O's move scores half of a full win for perspective X
    let board = make_board(['X', 'X', ' ', 'O', 'O', 'X', 'O', 'X', ' ']);
    let pm = PossibleMove::new(
        &board,
        BoardSpaceLocation::BottomRight,
        &ActivePlayer::PlayerO,
        &ActivePlayer::PlayerX,
    );
    assert_eq!(pm.win_score(), SCORE_UNIT / 2);
    assert_eq!(pm.win_score(), 5160960);
}

#[test]
fn all_scores_stay_within_one_unit() {
    let boards = [
        make_board([' ', ' ', ' ', ' ', ' ', ' ', ' ', ' ', ' ']),
        make_board(['X', ' ', ' ', ' ', 'O', ' ', ' ', ' ', ' ']),
        make_board(['X', 'X', ' ', 'O', 'O', ' ', ' ', ' ', ' ']),
        make_board(['X', 'O', 'X', 'X', 'O', 'O', 'O', 'X', ' ']),
    ];
    for board in boards.iter() {
        for perspective in [ActivePlayer::PlayerX, ActivePlayer::PlayerO] {
            for m in evaluate_moves(board, &perspective) {
                assert!(-SCORE_UNIT <= m.win_score());
                assert!(m.win_score() <= SCORE_UNIT);
            }
        }
    }
}

#[test]
fn evaluation_is_deterministic() {
    let board = make_board(['X', ' ', ' ', 'O', 'X', ' ', ' ', ' ', 'O']);
    let first = evaluate_moves(&board, &ActivePlayer::PlayerX);
    let second = evaluate_moves(&board, &ActivePlayer::PlayerX);
    assert_eq!(first.len(), second.len());
    for (a, b) in first.iter().zip(second.iter()) {
        assert_eq!(a.new_location(), b.new_location());
        assert_eq!(a.win_score(), b.win_score());
    }
}

#[test]
fn immediate_win_ranked_strictly_highest() {
    // side A holds two of three top-row spaces, all else empty; the
    // completing move outranks every other candidate strictly
    let board = make_board(['X', 'X', ' ', ' ', ' ', ' ', ' ', ' ', ' ']);
    let moves = evaluate_moves(&board, &ActivePlayer::PlayerX);
    assert_eq!(moves.len(), 7);
    let winning_score = score_at(&moves, BoardSpaceLocation::TopRight);
    assert_eq!(winning_score, SCORE_UNIT);
    for m in moves.iter() {
        if *m.new_location() != BoardSpaceLocation::TopRight {
            assert!(m.win_score() < winning_score);
        }
    }

    // at full difficulty the policy must select exactly that space
    let ai_player = AiPlayer::new(100);
    let new_board = ai_player
        .do_turn_with_draw(&board, &ActivePlayer::PlayerX, 0)
        .expect("turn should be playable");
    assert_eq!(*new_board.space(BoardSpaceLocation::TopRight), BoardSpace::X);
}

#[test]
fn blocking_move_outranks_all_others() {
    // O is one move from completing the middle column; X to act: the
    // blocking move must score higher than every non-blocking move
    let board = make_board(['X', 'O', ' ', ' ', 'O', ' ', ' ', ' ', 'X']);
    let moves = evaluate_moves(&board, &ActivePlayer::PlayerX);
    let blocking_score = score_at(&moves, BoardSpaceLocation::BottomMiddle);
    for m in moves.iter() {
        if *m.new_location() != BoardSpaceLocation::BottomMiddle {
            assert!(m.win_score() < blocking_score);
        }
    }

    let ai_player = AiPlayer::new(100);
    let new_board = ai_player
        .do_turn_with_draw(&board, &ActivePlayer::PlayerX, 50)
        .expect("turn should be playable");
    assert_eq!(*new_board.space(BoardSpaceLocation::BottomMiddle), BoardSpace::X);
}

#[test]
fn full_difficulty_ignores_the_draw() {
    let board = make_board(['X', 'X', ' ', 'O', 'O', ' ', ' ', ' ', ' ']);
    let ai_player = AiPlayer::new(100);
    let mut results = Vec::new();
    for draw in [0u8, 37, 73, 99] {
        let new_board = ai_player
            .do_turn_with_draw(&board, &ActivePlayer::PlayerX, draw)
            .expect("turn should be playable");
        results.push(new_board.as_string());
    }
    for r in results.iter() {
        assert_eq!(*r, results[0]);
    }
    // and the selected move is the winning one
    let chosen = ai_player
        .do_turn_with_draw(&board, &ActivePlayer::PlayerX, 42)
        .unwrap();
    assert_eq!(*chosen.space(BoardSpaceLocation::TopRight), BoardSpace::X);
}

#[test]
fn minimal_difficulty_always_blunders() {
    // with difficulty 1 the mistake chance is 99, so any draw below 99
    // picks the move at index floor(1 * n / 100) == 0: the worst move
    let board = make_board(['X', 'X', ' ', 'O', 'O', ' ', ' ', ' ', ' ']);
    let moves = evaluate_moves(&board, &ActivePlayer::PlayerX);
    let worst = moves
        .iter()
        .map(|m| (m.win_score(), *m.new_location()))
        .min_by_key(|(s, _)| *s)
        .unwrap();
    let ai_player = AiPlayer::new(1);
    let new_board = ai_player
        .do_turn_with_draw(&board, &ActivePlayer::PlayerX, 0)
        .expect("turn should be playable");
    let (x, y) = worst.1.as_coordinates();
    assert_eq!(*new_board.space_by_coordinates((x, y)), BoardSpace::X);
}

#[test]
fn finished_game_returns_game_finished() {
    // a known draw pattern: X O X / X O O / O X X
    let board = make_board(['X', 'O', 'X', 'X', 'O', 'O', 'O', 'X', 'X']);
    assert!(board.game_outcome().game_finished());
    let ai_player = AiPlayer::new(100);
    assert!(matches!(
        ai_player.do_turn(&board, &ActivePlayer::PlayerX),
        Err(AiError::GameFinished)
    ));
    assert!(matches!(
        ai_player.do_turn_with_draw(&board, &ActivePlayer::PlayerO, 10),
        Err(AiError::GameFinished)
    ));

    // a won board is refused the same way, and the board is untouched
    let won = make_board(['X', 'X', 'X', 'O', 'O', ' ', ' ', ' ', ' ']);
    let before = won.as_string();
    assert!(matches!(
        ai_player.do_turn(&won, &ActivePlayer::PlayerO),
        Err(AiError::GameFinished)
    ));
    assert_eq!(won.as_string(), before);
}

#[test]
fn do_turn_plays_a_legal_move() {
    // do_turn draws its own chance value; whatever it draws, it must
    // place exactly one mark of the active player on an empty space
    let board = make_board(['X', ' ', ' ', ' ', 'O', ' ', ' ', ' ', ' ']);
    let ai_player = AiPlayer::new(85);
    for _ in 0..20 {
        let new_board = ai_player
            .do_turn(&board, &ActivePlayer::PlayerX)
            .expect("turn should be playable");
        let locations = BoardSpaceLocation::all();
        let mut changed = 0;
        for loc in locations {
            let old_space = *board.space(loc);
            let new_space = *new_board.space(loc);
            if old_space != new_space {
                assert_eq!(old_space, BoardSpace::Empty);
                assert_eq!(new_space, BoardSpace::X);
                changed += 1;
            }
        }
        assert_eq!(changed, 1);
    }
}

#[test]
fn difficulty_accessors() {
    let ai_player = AiPlayer::new(85);
    assert_eq!(ai_player.difficulty(), 85);
    assert_eq!(ai_player.mistake_chance(), 15);

    let mut adjusted = ai_player;
    adjusted.set_difficulty(40);
    assert_eq!(adjusted.difficulty(), 40);
    assert_eq!(adjusted.mistake_chance(), 60);

    let default_player: AiPlayer = Default::default();
    assert_eq!(default_player.difficulty(), 100);
    assert_eq!(default_player.mistake_chance(), 0);
}
