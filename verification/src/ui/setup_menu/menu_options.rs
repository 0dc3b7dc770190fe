//! The individual options of the setup menu
//!
//! Each option holds one configurable value, can step it forwards and
//! backwards within its bounds, and names itself and its current value for
//! rendering.

use vstd::prelude::*;
use vstd::string::StringExecFns;
use crate::active_player::ActivePlayer;
use crate::player_type::PlayerType;
use crate::ai::AiPlayer;
use crate::game_settings::{GameMode, GameAutoquitMode};

verus! {

/// The character of a single decimal digit
pub open spec fn digit_char(d: int) -> char {
    if d == 0 {
        '0'
    } else if d == 1 {
        '1'
    } else if d == 2 {
        '2'
    } else if d == 3 {
        '3'
    } else if d == 4 {
        '4'
    } else if d == 5 {
        '5'
    } else if d == 6 {
        '6'
    } else if d == 7 {
        '7'
    } else if d == 8 {
        '8'
    } else {
        '9'
    }
}

/// The decimal digits of `n`, most significant first
pub open spec fn spec_decimal(n: int) -> Seq<char>
    decreases n,
{
    if n < 10 {
        seq![digit_char(n)]
    } else {
        spec_decimal(n / 10).push(digit_char(n % 10))
    }
}

/// The one-character string of a single decimal digit
fn digit_str(d: u32) -> (r: &'static str)
    requires
        d < 10,
    ensures
        r@ == seq![digit_char(d as int)],
{
    proof {
        reveal_strlit("0");
        reveal_strlit("1");
        reveal_strlit("2");
        reveal_strlit("3");
        reveal_strlit("4");
        reveal_strlit("5");
        reveal_strlit("6");
        reveal_strlit("7");
        reveal_strlit("8");
        reveal_strlit("9");
    }
    let r = match d {
        0 => "0",
        1 => "1",
        2 => "2",
        3 => "3",
        4 => "4",
        5 => "5",
        6 => "6",
        7 => "7",
        8 => "8",
        _ => "9",
    };
    proof {
        assert(r@ =~= seq![digit_char(d as int)]);
    }
    r
}

/// Renders a number in decimal
fn decimal_string(value: u32) -> (r: String)
    ensures
        r@ == spec_decimal(value as int),
    decreases value,
{
    if value < 10 {
        String::from_str(digit_str(value))
    } else {
        let mut r = decimal_string(value / 10);
        r.append(digit_str(value % 10));
        proof {
            assert(r@ =~= spec_decimal(value as int));
        }
        r
    }
}

/// The option choosing the game mode: classic play, or reverse where
/// completing a line loses
pub struct GameModeMenuOption {
    pub selected_game_mode: GameMode,
}

/// The rendered name of a game mode
pub open spec fn game_mode_value_name(m: GameMode) -> Seq<char> {
    match m {
        GameMode::Classic => "Classic"@,
        GameMode::Reverse => "Reverse"@,
    }
}

impl GameModeMenuOption {

    /// Creates and returns a new `GameModeMenuOption`
    pub fn new() -> (r: Self)
        ensures
            r.selected_game_mode is Classic,
    {
        Self { selected_game_mode: GameMode::Classic }
    }

    /// The selected game mode
    pub fn value(self) -> (r: GameMode)
        ensures
            r == self.selected_game_mode,
    {
        self.selected_game_mode
    }

    /// The display name of this option
    pub fn option_name(&self) -> (r: String)
        ensures
            r@ == "Game Mode"@,
    {
        "Game Mode".to_owned()
    }

    /// The display name of the currently selected value
    pub fn current_value_name(&self) -> (r: String)
        ensures
            r@ == game_mode_value_name(self.selected_game_mode),
    {
        match self.selected_game_mode {
            GameMode::Classic => "Classic".to_owned(),
            GameMode::Reverse => "Reverse".to_owned(),
        }
    }

    /// Switches to the other game mode; always succeeds
    pub fn next_value(&mut self) -> (r: Result<(), ()>)
        ensures
            r is Ok,
            final(self).selected_game_mode == (match old(self).selected_game_mode {
                GameMode::Classic => GameMode::Reverse,
                GameMode::Reverse => GameMode::Classic,
            }),
    {
        match self.selected_game_mode {
            GameMode::Classic => self.selected_game_mode = GameMode::Reverse,
            GameMode::Reverse => self.selected_game_mode = GameMode::Classic,
        }
        Ok(())
    }

    /// Switches to the other game mode; always succeeds
    pub fn prev_value(&mut self) -> (r: Result<(), ()>)
        ensures
            r is Ok,
            final(self).selected_game_mode == (match old(self).selected_game_mode {
                GameMode::Classic => GameMode::Reverse,
                GameMode::Reverse => GameMode::Classic,
            }),
    {
        self.next_value()
    }

    /// The mode cycles, so no maximum is ever reached
    pub fn at_maximum(&self) -> (r: bool)
        ensures
            !r,
    {
        false
    }

    /// The mode cycles, so no minimum is ever reached
    pub fn at_minimum(&self) -> (r: bool)
        ensures
            !r,
    {
        false
    }

    /// A sentence describing the selected game mode
    pub fn description(&self) -> (r: Option<String>)
        ensures
            r is Some,
            r->0@ == (match self.selected_game_mode {
                GameMode::Classic => "Play to place three of your pieces in a row. "@,
                GameMode::Reverse => "Play to avoid placing three of your pieces in a row. "@,
            }),
    {
        Some(
            match self.selected_game_mode {
                GameMode::Classic => "Play to place three of your pieces in a row. ".to_owned(),
                GameMode::Reverse => "Play to avoid placing three of your pieces in a row. ".to_owned(),
            },
        )
    }
}

/// The option choosing the game-limit count that the autoquit mode refers to
pub struct AutoquitValueMenuOption {
    pub selected_value: u32,
}

impl AutoquitValueMenuOption {
    /// Creates and returns a new `AutoquitValueMenuOption`
    pub fn new() -> (r: Self)
        ensures
            r.selected_value == 1,
    {
        Self { selected_value: 1 }
    }

    /// The selected limit value
    pub fn value(self) -> (r: u32)
        ensures
            r == self.selected_value,
    {
        self.selected_value
    }

    /// The display name of this option
    pub fn option_name(&self) -> (r: String)
        ensures
            r@ == "Game Limit Value"@,
    {
        "Game Limit Value".to_owned()
    }

    /// The display name of the currently selected value
    pub fn current_value_name(&self) -> (r: String)
        ensures
            r@ == spec_decimal(self.selected_value as int),
    {
        decimal_string(self.selected_value)
    }

    /// Steps the limit up by one; fails only when the value cannot grow
    pub fn next_value(&mut self) -> (r: Result<(), ()>)
        ensures
            r is Ok <==> old(self).selected_value < u32::MAX,
            final(self).selected_value == (if old(self).selected_value < u32::MAX {
                old(self).selected_value + 1
            } else {
                old(self).selected_value as int
            }),
    {
        if let Some(new_value) = self.selected_value.checked_add(1) {
            self.selected_value = new_value;
            Ok(())
        } else {
            Err(())
        }
    }

    /// Steps the limit down by one; fails at the minimum of one
    pub fn prev_value(&mut self) -> (r: Result<(), ()>)
        ensures
            r is Ok <==> old(self).selected_value > 1,
            final(self).selected_value == (if old(self).selected_value > 1 {
                old(self).selected_value - 1
            } else {
                old(self).selected_value as int
            }),
    {
        if let Some(new_value) = self.selected_value.checked_sub(1) {
            if new_value > 0 {
                self.selected_value = new_value;
                Ok(())
            } else {
                Err(())
            }
        } else {
            Err(())
        }
    }

    /// Whether the limit has reached the largest representable value
    pub fn at_maximum(&self) -> (r: bool)
        ensures
            r == (self.selected_value == u32::MAX),
    {
        self.selected_value == u32::MAX
    }

    /// Whether the limit has reached its minimum of one game
    pub fn at_minimum(&self) -> (r: bool)
        ensures
            r == (self.selected_value == 1),
    {
        self.selected_value == 1
    }

    /// This option describes itself by its name alone
    pub fn description(&self) -> (r: Option<String>)
        ensures
            r is None,
    {
        None
    }
}

/// The option choosing how the number of games to play is limited
pub struct AutoquitModeMenuOption {
    pub selected_mode: GameAutoquitMode,
}

/// The rendered name of a game-limit kind
pub open spec fn autoquit_mode_value_name(m: GameAutoquitMode) -> Seq<char> {
    match m {
        GameAutoquitMode::Unlimited => "Unlimited"@,
        GameAutoquitMode::GameNumberLimit => "Max number of total games"@,
        GameAutoquitMode::NonDrawNumberLimit => "Max number of won games"@,
        GameAutoquitMode::ScoreNumberLimit => "Max score of either player"@,
    }
}

impl AutoquitModeMenuOption {

    /// The limit kind one step after `m`, if any
    pub open spec fn spec_next_mode(m: GameAutoquitMode) -> Option<GameAutoquitMode> {
        match m {
            GameAutoquitMode::Unlimited => Some(GameAutoquitMode::GameNumberLimit),
            GameAutoquitMode::GameNumberLimit => Some(GameAutoquitMode::NonDrawNumberLimit),
            GameAutoquitMode::NonDrawNumberLimit => Some(GameAutoquitMode::ScoreNumberLimit),
            GameAutoquitMode::ScoreNumberLimit => None,
        }
    }

    /// The limit kind one step before `m`, if any
    pub open spec fn spec_prev_mode(m: GameAutoquitMode) -> Option<GameAutoquitMode> {
        match m {
            GameAutoquitMode::Unlimited => None,
            GameAutoquitMode::GameNumberLimit => Some(GameAutoquitMode::Unlimited),
            GameAutoquitMode::NonDrawNumberLimit => Some(GameAutoquitMode::GameNumberLimit),
            GameAutoquitMode::ScoreNumberLimit => Some(GameAutoquitMode::NonDrawNumberLimit),
        }
    }

    /// Creates and returns a new `AutoquitModeMenuOption`
    pub fn new() -> (r: Self)
        ensures
            r.selected_mode is Unlimited,
    {
        Self { selected_mode: GameAutoquitMode::Unlimited }
    }

    /// A reference to the selected limit kind
    pub fn value(&self) -> (r: &GameAutoquitMode)
        ensures
            *r == self.selected_mode,
    {
        &self.selected_mode
    }

    /// The selected limit kind, consuming this option
    pub fn consume(self) -> (r: GameAutoquitMode)
        ensures
            r == self.selected_mode,
    {
        self.selected_mode
    }

    /// The display name of this option
    pub fn option_name(&self) -> (r: String)
        ensures
            r@ == "Game Limit Type"@,
    {
        "Game Limit Type".to_owned()
    }

    /// The display name of the currently selected value
    pub fn current_value_name(&self) -> (r: String)
        ensures
            r@ == autoquit_mode_value_name(self.selected_mode),
    {
        match self.selected_mode {
            GameAutoquitMode::Unlimited => "Unlimited".to_owned(),
            GameAutoquitMode::GameNumberLimit => "Max number of total games".to_owned(),
            GameAutoquitMode::NonDrawNumberLimit => "Max number of won games".to_owned(),
            GameAutoquitMode::ScoreNumberLimit => "Max score of either player".to_owned(),
        }
    }

    /// Steps to the next limit kind; fails at the last one
    pub fn next_value(&mut self) -> (r: Result<(), ()>)
        ensures
            r is Ok <==> Self::spec_next_mode(old(self).selected_mode) is Some,
            final(self).selected_mode == (match Self::spec_next_mode(
                old(self).selected_mode,
            ) {
                Some(m) => m,
                None => old(self).selected_mode,
            }),
    {
        match self.selected_mode {
            GameAutoquitMode::Unlimited => {
                self.selected_mode = GameAutoquitMode::GameNumberLimit;
            },
            GameAutoquitMode::GameNumberLimit => {
                self.selected_mode = GameAutoquitMode::NonDrawNumberLimit;
            },
            GameAutoquitMode::NonDrawNumberLimit => {
                self.selected_mode = GameAutoquitMode::ScoreNumberLimit;
            },
            GameAutoquitMode::ScoreNumberLimit => {
                return Err(());
            },
        }
        Ok(())
    }

    /// Steps to the previous limit kind; fails at the first one
    pub fn prev_value(&mut self) -> (r: Result<(), ()>)
        ensures
            r is Ok <==> Self::spec_prev_mode(old(self).selected_mode) is Some,
            final(self).selected_mode == (match Self::spec_prev_mode(
                old(self).selected_mode,
            ) {
                Some(m) => m,
                None => old(self).selected_mode,
            }),
    {
        match self.selected_mode {
            GameAutoquitMode::Unlimited => {
                return Err(());
            },
            GameAutoquitMode::GameNumberLimit => {
                self.selected_mode = GameAutoquitMode::Unlimited;
            },
            GameAutoquitMode::NonDrawNumberLimit => {
                self.selected_mode = GameAutoquitMode::GameNumberLimit;
            },
            GameAutoquitMode::ScoreNumberLimit => {
                self.selected_mode = GameAutoquitMode::NonDrawNumberLimit;
            },
        }
        Ok(())
    }

    /// Whether the last limit kind is selected
    pub fn at_maximum(&self) -> (r: bool)
        ensures
            r == (self.selected_mode is ScoreNumberLimit),
    {
        matches!(self.selected_mode, GameAutoquitMode::ScoreNumberLimit)
    }

    /// Whether the first limit kind is selected
    pub fn at_minimum(&self) -> (r: bool)
        ensures
            r == (self.selected_mode is Unlimited),
    {
        matches!(self.selected_mode, GameAutoquitMode::Unlimited)
    }

    /// This option describes itself by its name alone
    pub fn description(&self) -> (r: Option<String>)
        ensures
            r is None,
    {
        None
    }
}

/// The option choosing one AI player's difficulty, in steps of five
/// hundredths
pub struct DifficultyMenuOption {
    pub selected_difficulty: i8,
    pub player: ActivePlayer,
}

impl DifficultyMenuOption {
    /// Creates and returns a new `DifficultyMenuOption` for the specified player
    pub fn new(player: ActivePlayer) -> (r: Self)
        ensures
            r.selected_difficulty == 85,
            r.player == player,
    {
        Self { player, selected_difficulty: 85 }
    }

    /// An [`AiPlayer`] at the selected difficulty
    ///
    /// A difficulty of zero cannot form a player and is ruled out by the
    /// precondition; callers step the option back up first.
    pub fn value(self) -> (r: AiPlayer)
        requires
            1 <= self.selected_difficulty <= 100,
        ensures
            r.spec_difficulty() == self.selected_difficulty,
    {
        AiPlayer::new(self.selected_difficulty as u8)
    }

    /// The display name of this option
    pub fn option_name(&self) -> (r: String)
        ensures
            r@ == (match self.player {
                ActivePlayer::PlayerX => "Player X Difficulty"@,
                ActivePlayer::PlayerO => "Player O Difficulty"@,
            }),
    {
        match self.player {
            ActivePlayer::PlayerX => "Player X Difficulty".to_owned(),
            ActivePlayer::PlayerO => "Player O Difficulty".to_owned(),
        }
    }

    /// The display name of the currently selected value
    pub fn current_value_name(&self) -> (r: String)
        requires
            self.selected_difficulty >= 0,
        ensures
            r@ == spec_decimal(self.selected_difficulty as int),
    {
        decimal_string(self.selected_difficulty as u32)
    }

    /// Steps the difficulty up by five hundredths; fails beyond 100
    pub fn next_value(&mut self) -> (r: Result<(), ()>)
        ensures
            r is Ok <==> old(self).selected_difficulty + 5 <= 100,
            final(self).selected_difficulty == (if old(self).selected_difficulty + 5
                <= 100 {
                old(self).selected_difficulty + 5
            } else {
                old(self).selected_difficulty as int
            }),
            final(self).player == old(self).player,
    {
        match self.selected_difficulty.checked_add(5) {
            Some(new_value) => {
                if new_value > 100 {
                    Err(())
                } else {
                    self.selected_difficulty = new_value;
                    Ok(())
                }
            },
            None => Err(()),
        }
    }

    /// Steps the difficulty down by five hundredths; fails below zero
    pub fn prev_value(&mut self) -> (r: Result<(), ()>)
        ensures
            r is Ok <==> old(self).selected_difficulty - 5 >= 0,
            final(self).selected_difficulty == (if old(self).selected_difficulty - 5 >= 0 {
                old(self).selected_difficulty - 5
            } else {
                old(self).selected_difficulty as int
            }),
            final(self).player == old(self).player,
    {
        match self.selected_difficulty.checked_sub(5) {
            Some(new_value) => {
                if new_value < 0 {
                    Err(())
                } else {
                    self.selected_difficulty = new_value;
                    Ok(())
                }
            },
            None => Err(()),
        }
    }

    /// Whether the difficulty has reached 100 hundredths
    pub fn at_maximum(&self) -> (r: bool)
        ensures
            r == (self.selected_difficulty == 100),
    {
        self.selected_difficulty == 100
    }

    /// Whether the difficulty has reached zero
    pub fn at_minimum(&self) -> (r: bool)
        ensures
            r == (self.selected_difficulty == 0),
    {
        self.selected_difficulty == 0
    }

    /// This option describes itself by its name alone
    pub fn description(&self) -> (r: Option<String>)
        ensures
            r is None,
    {
        None
    }
}

/// The option choosing whether a player is human- or AI-controlled
pub struct PlayerTypeMenuOption {
    pub selected_player_type: PlayerType,
    pub player: ActivePlayer,
}

/// The rendered name of a player type
pub open spec fn player_type_value_name(t: PlayerType) -> Seq<char> {
    match t {
        PlayerType::Human => "Human"@,
        PlayerType::AI(_) => "AI"@,
    }
}

impl PlayerTypeMenuOption {

    /// Creates and returns a new `PlayerTypeMenuOption` for the specified player
    pub fn new(player: ActivePlayer, default_type: PlayerType) -> (r: Self)
        ensures
            r.player == player,
            r.selected_player_type == default_type,
    {
        Self { player, selected_player_type: default_type }
    }

    /// A reference to the selected player type
    pub fn value(&self) -> (r: &PlayerType)
        ensures
            *r == self.selected_player_type,
    {
        &self.selected_player_type
    }

    /// The display name of the currently selected value
    pub fn current_value_name(&self) -> (r: String)
        ensures
            r@ == player_type_value_name(self.selected_player_type),
    {
        match self.selected_player_type {
            PlayerType::Human => "Human".to_owned(),
            PlayerType::AI(_) => "AI".to_owned(),
        }
    }

    /// The display name of this option
    pub fn option_name(&self) -> (r: String)
        ensures
            r@ == (match self.player {
                ActivePlayer::PlayerX => "Player X Type"@,
                ActivePlayer::PlayerO => "Player O Type"@,
            }),
    {
        match self.player {
            ActivePlayer::PlayerX => "Player X Type".to_owned(),
            ActivePlayer::PlayerO => "Player O Type".to_owned(),
        }
    }

    /// Switches between a human and an AI at the maximum difficulty;
    /// always succeeds
    pub fn next_value(&mut self) -> (r: Result<(), ()>)
        ensures
            r is Ok,
            old(self).selected_player_type is Human ==> (final(self).selected_player_type
                matches PlayerType::AI(p) && p.spec_difficulty() == 100),
            old(self).selected_player_type is AI ==> final(self).selected_player_type
                is Human,
            final(self).player == old(self).player,
    {
        match self.selected_player_type {
            PlayerType::Human => self.selected_player_type = PlayerType::AI(
                AiPlayer::default(),
            ),
            PlayerType::AI(_) => self.selected_player_type = PlayerType::Human,
        }
        Ok(())
    }

    /// Switches between a human and an AI at the maximum difficulty;
    /// always succeeds
    pub fn prev_value(&mut self) -> (r: Result<(), ()>)
        ensures
            r is Ok,
            old(self).selected_player_type is Human ==> (final(self).selected_player_type
                matches PlayerType::AI(p) && p.spec_difficulty() == 100),
            old(self).selected_player_type is AI ==> final(self).selected_player_type
                is Human,
            final(self).player == old(self).player,
    {
        self.next_value()
    }

    /// The type cycles, so no maximum is ever reached
    pub fn at_maximum(&self) -> (r: bool)
        ensures
            !r,
    {
        false
    }

    /// The type cycles, so no minimum is ever reached
    pub fn at_minimum(&self) -> (r: bool)
        ensures
            !r,
    {
        false
    }

    /// This option describes itself by its name alone
    pub fn description(&self) -> (r: Option<String>)
        ensures
            r is None,
    {
        None
    }
}

} // verus!
