//! The game session state behind the user interface
//!
//! The terminal itself (raw mode, drawing, reading key events) belongs to
//! the program around this library; this module holds the state that the
//! interface manipulates — whose turn it is, where the selection cursor
//! stands, the board, the scores and the chosen settings — and the rules by
//! which that state changes.

use vstd::prelude::*;
use crate::gameboard::{GameBoard, BoardSpace, BoardSpaceLocation};
use crate::player_type::PlayerType;
use crate::game_outcome::GameOutcome;
use crate::game_settings::{GameMode, GameAutoquitMode};
use crate::active_player::ActivePlayer;

pub mod setup_menu;

verus! {

broadcast use crate::gameboard::lemma_board_view_len;

/// The state a [`UI`] holds, field for field, as contracts speak of it
pub ghost struct UiView {
    pub player_x: PlayerType,
    pub player_o: PlayerType,
    pub active_player: ActivePlayer,
    pub cursor_x_pos: u8,
    pub cursor_y_pos: u8,
    pub game_board: GameBoard,
    pub terminal_x_size: u16,
    pub terminal_y_size: u16,
    pub exit_flag: bool,
    pub game_mode: GameMode,
    pub game_autoquit_mode: GameAutoquitMode,
    pub game_autoquit_value: u32,
    pub player_x_score: u32,
    pub player_o_score: u32,
    pub number_of_draws: u32,
}

/// Struct used to manage the game UI state
///
/// Stores game state: which player's turn is active, the cursor position,
/// the board, the running scores, and the game settings chosen in the
/// setup menu.
pub struct UI {
    pub(crate) player_x: PlayerType,
    pub(crate) player_o: PlayerType,
    pub(crate) active_player: ActivePlayer,
    pub(crate) cursor_x_pos: u8,
    pub(crate) cursor_y_pos: u8,
    pub(crate) game_board: GameBoard,
    pub(crate) terminal_x_size: u16,
    pub(crate) terminal_y_size: u16,
    pub(crate) exit_flag: bool,
    pub(crate) game_mode: GameMode,
    pub(crate) game_autoquit_mode: GameAutoquitMode,
    pub(crate) game_autoquit_value: u32,
    pub(crate) player_x_score: u32,
    pub(crate) player_o_score: u32,
    pub(crate) number_of_draws: u32,
}

impl View for UI {
    type V = UiView;

    closed spec fn view(&self) -> UiView {
        UiView {
            player_x: self.player_x,
            player_o: self.player_o,
            active_player: self.active_player,
            cursor_x_pos: self.cursor_x_pos,
            cursor_y_pos: self.cursor_y_pos,
            game_board: self.game_board,
            terminal_x_size: self.terminal_x_size,
            terminal_y_size: self.terminal_y_size,
            exit_flag: self.exit_flag,
            game_mode: self.game_mode,
            game_autoquit_mode: self.game_autoquit_mode,
            game_autoquit_value: self.game_autoquit_value,
            player_x_score: self.player_x_score,
            player_o_score: self.player_o_score,
            number_of_draws: self.number_of_draws,
        }
    }
}

impl UI {
    /// The selection cursor always stands on one of the nine spaces.
    #[verifier::type_invariant]
    spec fn cursor_on_board(self) -> bool {
        self.cursor_x_pos <= 2 && self.cursor_y_pos <= 2
    }

    /// Creates a new UI state for the given players and terminal size
    ///
    /// Player X starts, the cursor rests on the top-left space, the board
    /// is empty and all scores are zero.
    pub fn new(player_x: PlayerType, player_o: PlayerType, terminal_x_size: u16,
        terminal_y_size: u16) -> (r: Self)
        ensures
            r@.player_x == player_x,
            r@.player_o == player_o,
            r@.active_player is PlayerX,
            r@.cursor_x_pos == 0 && r@.cursor_y_pos == 0,
            forall|i: int| 0 <= i < 9 ==> (#[trigger] r@.game_board@[i]) is Empty,
            r@.terminal_x_size == terminal_x_size,
            r@.terminal_y_size == terminal_y_size,
            !r@.exit_flag,
            r@.game_mode is Classic,
            r@.game_autoquit_mode is Unlimited,
            r@.game_autoquit_value == 1,
            r@.player_x_score == 0 && r@.player_o_score == 0 && r@.number_of_draws == 0,
    {
        Self {
            player_x,
            player_o,
            active_player: ActivePlayer::PlayerX,
            cursor_x_pos: 0,
            cursor_y_pos: 0,
            game_board: GameBoard::new(),
            terminal_x_size,
            terminal_y_size,
            exit_flag: false,
            game_mode: GameMode::Classic,
            game_autoquit_mode: GameAutoquitMode::Unlimited,
            game_autoquit_value: 1,
            player_x_score: 0,
            player_o_score: 0,
            number_of_draws: 0,
        }
    }

    /// Returns a reference to the [`GameBoard`] of this `UI`
    ///
    /// Unlike [`UI::take_game_board`], this does not consume the `UI` instance.
    pub fn borrow_game_board(&self) -> (r: &GameBoard)
        ensures
            *r == self@.game_board,
    {
        &self.game_board
    }

    /// Consumes this `UI` and returns the [`GameBoard`]
    ///
    /// Unlike [`UI::borrow_game_board`], this consumes the `UI` instance.
    pub fn take_game_board(self) -> (r: GameBoard)
        ensures
            r == self@.game_board,
    {
        self.game_board
    }

    /// Replaces the [`GameBoard`] of this `UI`, adopting a board returned
    /// by an AI turn
    pub fn set_game_board(&mut self, game_board: GameBoard)
        ensures
            final(self)@ == (UiView { game_board, ..old(self)@ }),
    {
        proof {
            use_type_invariant(&*self);
        }
        self.game_board = game_board;
    }

    /// Returns a reference to the [`PlayerType`] of the X player
    pub fn player_x(&self) -> (r: &PlayerType)
        ensures
            *r == self@.player_x,
    {
        &self.player_x
    }

    /// Returns a reference to the [`PlayerType`] of the O player
    pub fn player_o(&self) -> (r: &PlayerType)
        ensures
            *r == self@.player_o,
    {
        &self.player_o
    }

    /// Returns a reference to the currently active player
    pub fn active_player(&self) -> (r: &ActivePlayer)
        ensures
            *r == self@.active_player,
    {
        &self.active_player
    }

    /// Hands the turn to the given player
    pub fn set_active_player(&mut self, active_player: ActivePlayer)
        ensures
            final(self)@ == (UiView { active_player, ..old(self)@ }),
    {
        proof {
            use_type_invariant(&*self);
        }
        self.active_player = active_player;
    }

    /// The column, within `0..=2`, that the selection cursor stands on
    pub fn cursor_x_pos(&self) -> (r: u8)
        ensures
            r == self@.cursor_x_pos,
            r <= 2,
    {
        proof {
            use_type_invariant(self);
        }
        self.cursor_x_pos
    }

    /// The row, within `0..=2`, that the selection cursor stands on
    pub fn cursor_y_pos(&self) -> (r: u8)
        ensures
            r == self@.cursor_y_pos,
            r <= 2,
    {
        proof {
            use_type_invariant(self);
        }
        self.cursor_y_pos
    }

    /// Whether the user asked to leave the game
    pub fn exit_flag(&self) -> (r: bool)
        ensures
            r == self@.exit_flag,
    {
        self.exit_flag
    }

    /// Records that the user asked to leave the game, or withdrew that
    pub fn set_exit_flag(&mut self, exit_flag: bool)
        ensures
            final(self)@ == (UiView { exit_flag, ..old(self)@ }),
    {
        proof {
            use_type_invariant(&*self);
        }
        self.exit_flag = exit_flag;
    }

    /// The terminal size last reported, columns then rows
    pub fn terminal_size(&self) -> (r: (u16, u16))
        ensures
            r.0 == self@.terminal_x_size,
            r.1 == self@.terminal_y_size,
    {
        (self.terminal_x_size, self.terminal_y_size)
    }

    /// Records a newly reported terminal size, columns then rows
    pub fn set_terminal_size(&mut self, terminal_x_size: u16, terminal_y_size: u16)
        ensures
            final(self)@ == (UiView { terminal_x_size, terminal_y_size, ..old(self)@ }),
    {
        proof {
            use_type_invariant(&*self);
        }
        self.terminal_x_size = terminal_x_size;
        self.terminal_y_size = terminal_y_size;
    }

    /// The running score of the X player
    pub fn player_x_score(&self) -> (r: u32)
        ensures
            r == self@.player_x_score,
    {
        self.player_x_score
    }

    /// The running score of the O player
    pub fn player_o_score(&self) -> (r: u32)
        ensures
            r == self@.player_o_score,
    {
        self.player_o_score
    }

    /// How many games ended in a draw
    pub fn number_of_draws(&self) -> (r: u32)
        ensures
            r == self@.number_of_draws,
    {
        self.number_of_draws
    }

    /// How many games have been finished: every finished game put one
    /// point on a score or counted one draw
    pub fn number_of_games(&self) -> (r: u64)
        ensures
            r == self@.player_x_score + self@.player_o_score + self@.number_of_draws,
    {
        (self.player_x_score as u64) + (self.player_o_score as u64) + (self.number_of_draws
            as u64)
    }

    /// The game mode chosen for the running games
    pub fn game_mode(&self) -> (r: &GameMode)
        ensures
            *r == self@.game_mode,
    {
        &self.game_mode
    }

    /// How the number of games to play is limited
    pub fn game_autoquit_mode(&self) -> (r: &GameAutoquitMode)
        ensures
            *r == self@.game_autoquit_mode,
    {
        &self.game_autoquit_mode
    }

    /// The limit value that [`UI::game_autoquit_mode`] refers to
    pub fn game_autoquit_value(&self) -> (r: u32)
        ensures
            r == self@.game_autoquit_value,
    {
        self.game_autoquit_value
    }

    /// Clears the board and hands the turn to player X, ready for a new game
    pub fn start_new_game(&mut self)
        ensures
            final(self)@ == (UiView {
                active_player: ActivePlayer::PlayerX,
                cursor_x_pos: 1,
                cursor_y_pos: 1,
                game_board: final(self)@.game_board,
                ..old(self)@
            }),
            forall|i: int| 0 <= i < 9 ==> (#[trigger] final(self)@.game_board@[i]) is Empty,
    {
        proof {
            use_type_invariant(&*self);
        }
        self.reset_cursor_pos();
        self.active_player = ActivePlayer::PlayerX;
        self.game_board = GameBoard::new();
    }

    /// Adds a finished game's outcome to the running scores
    ///
    /// In the classic mode the player completing a line scores; in the
    /// reverse mode that player's opponent scores. A draw counts a draw,
    /// and an unfinished outcome changes nothing.
    pub fn record_outcome(&mut self, game_outcome: &GameOutcome)
        requires
            game_outcome is PlayerX || game_outcome is PlayerO ==> old(
                self,
            )@.player_x_score < u32::MAX && old(self)@.player_o_score < u32::MAX,
            game_outcome is Draw ==> old(self)@.number_of_draws < u32::MAX,
        ensures
            final(self)@ == (UiView {
                player_x_score: final(self)@.player_x_score,
                player_o_score: final(self)@.player_o_score,
                number_of_draws: final(self)@.number_of_draws,
                ..old(self)@
            }),
            final(self)@.player_x_score == old(self)@.player_x_score + (if (game_outcome
                is PlayerX && old(self)@.game_mode is Classic) || (game_outcome is PlayerO
                && old(self)@.game_mode is Reverse) {
                1int
            } else {
                0int
            }),
            final(self)@.player_o_score == old(self)@.player_o_score + (if (game_outcome
                is PlayerO && old(self)@.game_mode is Classic) || (game_outcome is PlayerX
                && old(self)@.game_mode is Reverse) {
                1int
            } else {
                0int
            }),
            final(self)@.number_of_draws == old(self)@.number_of_draws + (if game_outcome
                is Draw {
                1int
            } else {
                0int
            }),
    {
        proof {
            use_type_invariant(&*self);
        }
        match game_outcome {
            GameOutcome::PlayerX(_) => {
                match self.game_mode {
                    GameMode::Classic => {
                        self.player_x_score = self.player_x_score + 1;
                    },
                    GameMode::Reverse => {
                        self.player_o_score = self.player_o_score + 1;
                    },
                }
            },
            GameOutcome::PlayerO(_) => {
                match self.game_mode {
                    GameMode::Classic => {
                        self.player_o_score = self.player_o_score + 1;
                    },
                    GameMode::Reverse => {
                        self.player_x_score = self.player_x_score + 1;
                    },
                }
            },
            GameOutcome::Draw => {
                self.number_of_draws = self.number_of_draws + 1;
            },
            GameOutcome::Incomplete => {
                // do nothing
            },
        }
    }

    /// Move cursor to the right (positive x) if possible
    ///
    /// Returns `true` if successful, `false` if not
    pub fn move_cursor_right(&mut self) -> (r: bool)
        ensures
            r == (old(self)@.cursor_x_pos < 2),
            final(self)@ == (UiView {
                cursor_x_pos: if r {
                    (old(self)@.cursor_x_pos + 1) as u8
                } else {
                    old(self)@.cursor_x_pos
                },
                ..old(self)@
            }),
    {
        proof {
            use_type_invariant(&*self);
        }
        if self.cursor_x_pos < 2 {
            self.cursor_x_pos = self.cursor_x_pos + 1;
            true
        } else {
            false
        }
    }

    /// Move cursor to the left (negative x) if possible
    ///
    /// Returns `true` if successful, `false` if not
    pub fn move_cursor_left(&mut self) -> (r: bool)
        ensures
            r == (old(self)@.cursor_x_pos > 0),
            final(self)@ == (UiView {
                cursor_x_pos: if r {
                    (old(self)@.cursor_x_pos - 1) as u8
                } else {
                    old(self)@.cursor_x_pos
                },
                ..old(self)@
            }),
    {
        proof {
            use_type_invariant(&*self);
        }
        if self.cursor_x_pos > 0 {
            self.cursor_x_pos = self.cursor_x_pos - 1;
            true
        } else {
            false
        }
    }

    /// Move cursor downwards (positive y) if possible
    ///
    /// Returns `true` if successful, `false` if not
    pub fn move_cursor_down(&mut self) -> (r: bool)
        ensures
            r == (old(self)@.cursor_y_pos < 2),
            final(self)@ == (UiView {
                cursor_y_pos: if r {
                    (old(self)@.cursor_y_pos + 1) as u8
                } else {
                    old(self)@.cursor_y_pos
                },
                ..old(self)@
            }),
    {
        proof {
            use_type_invariant(&*self);
        }
        if self.cursor_y_pos < 2 {
            self.cursor_y_pos = self.cursor_y_pos + 1;
            true
        } else {
            false
        }
    }

    /// Move cursor upwards (negative y) if possible
    ///
    /// Returns `true` if successful, `false` if not
    pub fn move_cursor_up(&mut self) -> (r: bool)
        ensures
            r == (old(self)@.cursor_y_pos > 0),
            final(self)@ == (UiView {
                cursor_y_pos: if r {
                    (old(self)@.cursor_y_pos - 1) as u8
                } else {
                    old(self)@.cursor_y_pos
                },
                ..old(self)@
            }),
    {
        proof {
            use_type_invariant(&*self);
        }
        if self.cursor_y_pos > 0 {
            self.cursor_y_pos = self.cursor_y_pos - 1;
            true
        } else {
            false
        }
    }

    /// Claim the selected space for the active player if possible
    ///
    /// Returns `true` if successful, `false` if not
    pub fn claim_space(&mut self) -> (r: bool)
        ensures
            r == (old(self)@.game_board@[old(self)@.cursor_y_pos * 3 + old(
                self,
            )@.cursor_x_pos] is Empty),
            final(self)@ == (UiView { game_board: final(self)@.game_board, ..old(self)@ }),
            final(self)@.game_board@ == if r {
                old(self)@.game_board@.update(
                    old(self)@.cursor_y_pos * 3 + old(self)@.cursor_x_pos,
                    old(self)@.active_player.spec_board_space(),
                )
            } else {
                old(self)@.game_board@
            },
    {
        proof {
            use_type_invariant(&*self);
        }
        let desired_location = BoardSpaceLocation::from_coordinates(
            (self.cursor_x_pos, self.cursor_y_pos),
        );
        let desired_space = *self.game_board.space(desired_location);

        // only update the space if the selected space is empty
        if matches!(desired_space, BoardSpace::Empty) {
            // write the active player's mark to this space
            let mark = self.active_player.get_board_space();
            self.game_board.space_mut(desired_location, mark);
            true
        } else {
            false
        }
    }

    /// Switches the active player and resets the cursor position
    pub fn switch_active_player(&mut self)
        ensures
            final(self)@ == (UiView {
                active_player: old(self)@.active_player.spec_opposite(),
                cursor_x_pos: 1,
                cursor_y_pos: 1,
                ..old(self)@
            }),
    {
        proof {
            use_type_invariant(&*self);
        }
        // switch player
        self.active_player.switch();

        // reset cursor position
        self.reset_cursor_pos();
    }

    /// Resets cursor position to (1,1)
    pub fn reset_cursor_pos(&mut self)
        ensures
            final(self)@ == (UiView { cursor_x_pos: 1, cursor_y_pos: 1, ..old(self)@ }),
    {
        proof {
            use_type_invariant(&*self);
        }
        self.cursor_x_pos = 1;
        self.cursor_y_pos = 1;
    }

    /// Returns the [`PlayerType`] of the currently active player
    pub fn active_player_type(&self) -> (r: &PlayerType)
        ensures
            *r == if self@.active_player is PlayerO {
                self@.player_o
            } else {
                self@.player_x
            },
    {
        match self.active_player {
            ActivePlayer::PlayerO => &self.player_o,
            ActivePlayer::PlayerX => &self.player_x,
        }
    }
}

impl Default for UI {
    /// A UI state with the default player types and no terminal size yet
    fn default() -> (r: Self)
        ensures
            r@.player_x is Human,
            r@.player_o is Human,
            r@.active_player is PlayerX,
    {
        Self::new(PlayerType::default(), PlayerType::default(), 0, 0)
    }
}

} // verus!
