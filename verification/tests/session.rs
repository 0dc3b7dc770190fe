//! Tests of the players and the game session state

use tactic::gameboard::{BoardSpace, BoardSpaceLocation};
use tactic::active_player::ActivePlayer;
use tactic::player_type::PlayerType;
use tactic::game_outcome::{GameOutcome, WinPosition};
use tactic::game_settings::{GameMode, GameAutoquitMode};
use tactic::ui::UI;
use tactic::ui::setup_menu::SetupMenu;

#[test]
fn opposite_is_involutive() {
    assert_eq!(ActivePlayer::PlayerX.opposite(), ActivePlayer::PlayerO);
    assert_eq!(ActivePlayer::PlayerO.opposite(), ActivePlayer::PlayerX);
    assert_eq!(
        ActivePlayer::PlayerX.opposite().opposite(),
        ActivePlayer::PlayerX
    );
}

#[test]
fn switch_changes_player() {
    let mut player = ActivePlayer::PlayerX;
    player.switch();
    assert_eq!(player, ActivePlayer::PlayerO);
    player.switch();
    assert_eq!(player, ActivePlayer::PlayerX);
}

#[test]
fn player_marks_and_characters() {
    assert_eq!(ActivePlayer::PlayerX.get_char(), 'X');
    assert_eq!(ActivePlayer::PlayerO.get_char(), 'O');
    assert_eq!(ActivePlayer::PlayerX.get_board_space(), BoardSpace::X);
    assert_eq!(ActivePlayer::PlayerO.get_board_space(), BoardSpace::O);
}

#[test]
fn default_player_type_is_human() {
    let t: PlayerType = Default::default();
    assert_eq!(t, PlayerType::Human);
}

#[test]
fn new_ui_state() {
    let ui = UI::new(PlayerType::Human, PlayerType::Human, 80, 24);
    assert_eq!(*ui.player_x(), PlayerType::Human);
    assert_eq!(*ui.player_o(), PlayerType::Human);
    assert_eq!(*ui.active_player(), ActivePlayer::PlayerX);
    assert_eq!(ui.cursor_x_pos(), 0);
    assert_eq!(ui.cursor_y_pos(), 0);
    assert_eq!(ui.terminal_size(), (80, 24));
    assert!(!ui.exit_flag());
    assert_eq!(*ui.game_mode(), GameMode::Classic);
    assert_eq!(*ui.game_autoquit_mode(), GameAutoquitMode::Unlimited);
    assert_eq!(ui.game_autoquit_value(), 1);
    assert_eq!(ui.player_x_score(), 0);
    assert_eq!(ui.player_o_score(), 0);
    assert_eq!(ui.number_of_draws(), 0);
    assert_eq!(ui.number_of_games(), 0);
    assert_eq!(
        ui.borrow_game_board().game_outcome(),
        GameOutcome::Incomplete
    );
}

#[test]
fn default_ui_state() {
    let ui: UI = Default::default();
    assert_eq!(*ui.player_x(), PlayerType::Human);
    assert_eq!(*ui.player_o(), PlayerType::Human);
    assert_eq!(*ui.active_player(), ActivePlayer::PlayerX);
}

#[test]
fn cursor_moves_respect_the_edges() {
    let mut ui = UI::new(PlayerType::Human, PlayerType::Human, 80, 24);
    // starts at (0, 0): moving left or up fails
    assert!(!ui.move_cursor_left());
    assert!(!ui.move_cursor_up());
    assert!(ui.move_cursor_right());
    assert!(ui.move_cursor_right());
    // at the right edge now
    assert!(!ui.move_cursor_right());
    assert_eq!(ui.cursor_x_pos(), 2);
    assert!(ui.move_cursor_down());
    assert!(ui.move_cursor_down());
    assert!(!ui.move_cursor_down());
    assert_eq!(ui.cursor_y_pos(), 2);
    assert!(ui.move_cursor_left());
    assert!(ui.move_cursor_up());
    assert_eq!(ui.cursor_x_pos(), 1);
    assert_eq!(ui.cursor_y_pos(), 1);
}

#[test]
fn reset_cursor_centers_it() {
    let mut ui = UI::new(PlayerType::Human, PlayerType::Human, 80, 24);
    ui.reset_cursor_pos();
    assert_eq!(ui.cursor_x_pos(), 1);
    assert_eq!(ui.cursor_y_pos(), 1);
}

#[test]
fn claiming_spaces() {
    let mut ui = UI::new(PlayerType::Human, PlayerType::Human, 80, 24);
    // claim (0, 0) for X
    assert!(ui.claim_space());
    assert_eq!(
        *ui.borrow_game_board().space(BoardSpaceLocation::TopLeft),
        BoardSpace::X
    );
    // the same space cannot be claimed twice
    assert!(!ui.claim_space());

    // switch to O, move to (1, 1) was done by switching; claim it
    ui.switch_active_player();
    assert_eq!(*ui.active_player(), ActivePlayer::PlayerO);
    assert_eq!(ui.cursor_x_pos(), 1);
    assert_eq!(ui.cursor_y_pos(), 1);
    assert!(ui.claim_space());
    assert_eq!(
        *ui.borrow_game_board().space(BoardSpaceLocation::MiddleMiddle),
        BoardSpace::O
    );
}

#[test]
fn recording_outcomes_in_classic_mode() {
    let mut ui = UI::new(PlayerType::Human, PlayerType::Human, 80, 24);
    ui.record_outcome(&GameOutcome::PlayerX(WinPosition::TopRow));
    ui.record_outcome(&GameOutcome::PlayerO(WinPosition::LeftColumn));
    ui.record_outcome(&GameOutcome::PlayerO(WinPosition::MiddleRow));
    ui.record_outcome(&GameOutcome::Draw);
    ui.record_outcome(&GameOutcome::Incomplete);
    assert_eq!(ui.player_x_score(), 1);
    assert_eq!(ui.player_o_score(), 2);
    assert_eq!(ui.number_of_draws(), 1);
    assert_eq!(ui.number_of_games(), 4);
}

#[test]
fn recording_outcomes_in_reverse_mode() {
    // switch the game mode to reverse through the setup menu
    let mut ui = UI::new(PlayerType::Human, PlayerType::Human, 80, 24);
    let mut menu = SetupMenu::new();
    menu.game_mode.next_value().unwrap();
    menu.apply_settings(&mut ui);
    assert_eq!(*ui.game_mode(), GameMode::Reverse);

    // in reverse mode the player completing a line loses the point
    ui.record_outcome(&GameOutcome::PlayerX(WinPosition::TopRow));
    assert_eq!(ui.player_x_score(), 0);
    assert_eq!(ui.player_o_score(), 1);
    ui.record_outcome(&GameOutcome::PlayerO(WinPosition::TopRow));
    assert_eq!(ui.player_x_score(), 1);
    assert_eq!(ui.player_o_score(), 1);
}

#[test]
fn starting_a_new_game_clears_the_board() {
    let mut ui = UI::new(PlayerType::Human, PlayerType::Human, 80, 24);
    assert!(ui.claim_space());
    ui.set_active_player(ActivePlayer::PlayerO);
    ui.start_new_game();
    assert_eq!(*ui.active_player(), ActivePlayer::PlayerX);
    assert_eq!(ui.cursor_x_pos(), 1);
    assert_eq!(ui.cursor_y_pos(), 1);
    assert_eq!(ui.borrow_game_board().game_outcome(), GameOutcome::Incomplete);
    for (_, space) in ui.borrow_game_board().all_spaces() {
        assert_eq!(space, BoardSpace::Empty);
    }
}

#[test]
fn exit_flag_and_terminal_size() {
    let mut ui = UI::new(PlayerType::Human, PlayerType::Human, 80, 24);
    ui.set_exit_flag(true);
    assert!(ui.exit_flag());
    ui.set_exit_flag(false);
    assert!(!ui.exit_flag());
    ui.set_terminal_size(100, 40);
    assert_eq!(ui.terminal_size(), (100, 40));
}

#[test]
fn taking_the_board_returns_it() {
    let mut ui = UI::new(PlayerType::Human, PlayerType::Human, 80, 24);
    assert!(ui.claim_space());
    let board = ui.take_game_board();
    assert_eq!(*board.space(BoardSpaceLocation::TopLeft), BoardSpace::X);
}

#[test]
fn active_player_type_follows_the_turn() {
    let ai = tactic::ai::AiPlayer::new(60);
    let mut ui = UI::new(PlayerType::Human, PlayerType::AI(ai), 80, 24);
    assert_eq!(*ui.active_player_type(), PlayerType::Human);
    ui.set_active_player(ActivePlayer::PlayerO);
    assert_eq!(*ui.active_player_type(), PlayerType::AI(ai));
}

#[test]
fn adopting_an_ai_board() {
    let ai = tactic::ai::AiPlayer::new(100);
    let mut ui = UI::new(PlayerType::Human, PlayerType::AI(ai), 80, 24);
    let new_board = ai
        .do_turn(ui.borrow_game_board(), &ActivePlayer::PlayerO)
        .expect("empty board has moves");
    ui.set_game_board(new_board);
    let occupied = ui
        .borrow_game_board()
        .all_spaces()
        .into_iter()
        .filter(|(_, space)| *space == BoardSpace::O)
        .count();
    assert_eq!(occupied, 1);
}
