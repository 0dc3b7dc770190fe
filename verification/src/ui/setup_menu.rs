//! The pre-game settings menu
//!
//! The menu holds one option per configurable setting, tracks which option
//! the user has selected, and scrolls so that the selection stays visible.
//! Drawing the menu and reading keys belong to the program around this
//! library; stepping the selection, stepping option values and applying
//! the chosen settings are the menu's own rules and live here.

use vstd::prelude::*;
use crate::player_type::PlayerType;
use crate::active_player::ActivePlayer;
use crate::game_settings::GameAutoquitMode;
use super::{UI, UiView};

pub mod menu_options;

use menu_options::{
    PlayerTypeMenuOption,
    DifficultyMenuOption,
    AutoquitModeMenuOption,
    AutoquitValueMenuOption,
    GameModeMenuOption,
};

verus! {

/// Representation of the state of the menu
pub struct SetupMenu {
    /// the player type chosen for player X; the AI difficulty shown here is
    /// not used, an AI player is created from the 'player_x_ai' option
    pub player_x_type: PlayerTypeMenuOption,
    /// the player type chosen for player O; the AI difficulty shown here is
    /// not used, an AI player is created from the 'player_o_ai' option
    pub player_o_type: PlayerTypeMenuOption,
    /// only used if player X is AI
    pub player_x_ai: DifficultyMenuOption,
    /// only used if player O is AI
    pub player_o_ai: DifficultyMenuOption,
    pub autoquit_mode: AutoquitModeMenuOption,
    pub autoquit_value: AutoquitValueMenuOption,
    pub game_mode: GameModeMenuOption,
    pub selected_option: SelectedOption,
    /// terminal x size
    pub term_x: u16,
    /// terminal y size
    pub term_y: u16,
    /// scroll position; the index of the first row to be printed
    pub scroll_pos: u16,
}

/// The option rows of the menu, in the order they are shown
#[derive(Debug, PartialEq, Eq, Structural, Clone, Copy)]
pub enum SelectedOption {
    PlayerXType,
    PlayerXAi,
    PlayerOType,
    PlayerOAi,
    AutoquitMode,
    AutoquitValue,
    GameMode,
}

/// The row of an option in the enumeration order of [`SelectedOption::all`]
pub open spec fn spec_option_index(o: SelectedOption) -> int {
    match o {
        SelectedOption::PlayerXType => 0,
        SelectedOption::PlayerXAi => 1,
        SelectedOption::PlayerOType => 2,
        SelectedOption::PlayerOAi => 3,
        SelectedOption::AutoquitMode => 4,
        SelectedOption::AutoquitValue => 5,
        SelectedOption::GameMode => 6,
    }
}

impl SelectedOption {
    /// Returns all `SelectedOption` variants, in enumeration order
    pub fn all() -> (r: [SelectedOption; 7])
        ensures
            r@.len() == 7,
            forall|i: int| 0 <= i < 7 ==> spec_option_index(#[trigger] r@[i]) == i,
    {
        let all_options: [SelectedOption; 7] = [
            SelectedOption::PlayerXType,
            SelectedOption::PlayerXAi,
            SelectedOption::PlayerOType,
            SelectedOption::PlayerOAi,
            SelectedOption::AutoquitMode,
            SelectedOption::AutoquitValue,
            SelectedOption::GameMode,
        ];
        all_options
    }

    /// Returns the index (row) of this option
    pub fn index(&self) -> (r: u16)
        ensures
            r as int == spec_option_index(*self),
            r <= 6,
    {
        match self {
            SelectedOption::PlayerXType => 0,
            SelectedOption::PlayerXAi => 1,
            SelectedOption::PlayerOType => 2,
            SelectedOption::PlayerOAi => 3,
            SelectedOption::AutoquitMode => 4,
            SelectedOption::AutoquitValue => 5,
            SelectedOption::GameMode => 6,
        }
    }

    /// Returns true if the given option has a description
    pub fn is_described(&self) -> (r: bool)
        ensures
            r == (*self is GameMode),
    {
        matches!(self, SelectedOption::GameMode)
    }
}

/// The option selected after `m`'s, stepping downwards: options belonging
/// to a disabled setting (an AI difficulty of a human player, the limit
/// value of an unlimited game) are skipped
pub open spec fn spec_next_option(m: SetupMenu) -> SelectedOption {
    match m.selected_option {
        SelectedOption::PlayerXType => if m.player_x_type.selected_player_type is Human {
            SelectedOption::PlayerOType
        } else {
            SelectedOption::PlayerXAi
        },
        SelectedOption::PlayerXAi => SelectedOption::PlayerOType,
        SelectedOption::PlayerOType => if m.player_o_type.selected_player_type is Human {
            SelectedOption::AutoquitMode
        } else {
            SelectedOption::PlayerOAi
        },
        SelectedOption::PlayerOAi => SelectedOption::AutoquitMode,
        SelectedOption::AutoquitMode => if m.autoquit_mode.selected_mode is Unlimited {
            SelectedOption::GameMode
        } else {
            SelectedOption::AutoquitValue
        },
        SelectedOption::AutoquitValue => SelectedOption::GameMode,
        SelectedOption::GameMode => SelectedOption::PlayerXType,
    }
}

/// The option selected before `m`'s, stepping upwards, skipping disabled
/// options as [`spec_next_option`] does
pub open spec fn spec_prev_option(m: SetupMenu) -> SelectedOption {
    match m.selected_option {
        SelectedOption::PlayerXType => SelectedOption::GameMode,
        SelectedOption::PlayerXAi => SelectedOption::PlayerXType,
        SelectedOption::PlayerOType => if m.player_x_type.selected_player_type is Human {
            SelectedOption::PlayerXType
        } else {
            SelectedOption::PlayerXAi
        },
        SelectedOption::PlayerOAi => SelectedOption::PlayerOType,
        SelectedOption::AutoquitMode => if m.player_o_type.selected_player_type is Human {
            SelectedOption::PlayerOType
        } else {
            SelectedOption::PlayerOAi
        },
        SelectedOption::AutoquitValue => SelectedOption::AutoquitMode,
        SelectedOption::GameMode => if m.autoquit_mode.selected_mode is Unlimited {
            SelectedOption::AutoquitMode
        } else {
            SelectedOption::AutoquitValue
        },
    }
}

/// `a - b`, stopping at zero, as the saturating subtraction computes it
pub open spec fn sat_sub(a: int, b: int) -> int {
    if a >= b {
        a - b
    } else {
        0
    }
}

/// The scroll position after adjusting `m` so that the selected option is
/// visible: on newly expanded space scrolling restarts from the top; a
/// selection above the window scrolls up to it, one below the window
/// scrolls down far enough to show it and its description
pub open spec fn spec_adjusted_scroll(m: SetupMenu, expanded: bool) -> int {
    let scroll0 = if expanded {
        0
    } else {
        m.scroll_pos as int
    };
    let extra_height = if m.selected_option is GameMode {
        1int
    } else {
        0int
    };
    let idx = spec_option_index(m.selected_option);
    if idx < scroll0 {
        idx
    } else if idx >= scroll0 + sat_sub(m.term_y as int, 1 + extra_height) {
        sat_sub(idx, sat_sub(m.term_y as int, 3 + extra_height))
    } else {
        scroll0
    }
}

/// Whether option `o` is shown as enabled in menu `m`: an AI difficulty
/// only with an AI player, the limit value only with a limited game
pub open spec fn spec_option_enabled(m: SetupMenu, o: SelectedOption) -> bool {
    match o {
        SelectedOption::PlayerXAi => !(m.player_x_type.selected_player_type is Human),
        SelectedOption::PlayerOAi => !(m.player_o_type.selected_player_type is Human),
        SelectedOption::AutoquitValue => !(m.autoquit_mode.selected_mode is Unlimited),
        _ => true,
    }
}

impl SetupMenu {
    /// Creates and returns a new `SetupMenu`: player X human, player O an
    /// AI at the maximum difficulty, both difficulty options at 85, no
    /// game limit, classic mode, the first option selected
    pub fn new() -> (r: Self)
        ensures
            r.player_x_type.player is PlayerX,
            r.player_x_type.selected_player_type is Human,
            r.player_o_type.player is PlayerO,
            (r.player_o_type.selected_player_type matches PlayerType::AI(p)
                && p.spec_difficulty() == 100),
            r.player_x_ai.player is PlayerX,
            r.player_x_ai.selected_difficulty == 85,
            r.player_o_ai.player is PlayerO,
            r.player_o_ai.selected_difficulty == 85,
            r.autoquit_mode.selected_mode is Unlimited,
            r.autoquit_value.selected_value == 1,
            r.game_mode.selected_game_mode is Classic,
            r.selected_option is PlayerXType,
            r.term_x == 0 && r.term_y == 0 && r.scroll_pos == 0,
    {
        Self {
            player_x_type: PlayerTypeMenuOption::new(ActivePlayer::PlayerX, PlayerType::Human),
            player_o_type: PlayerTypeMenuOption::new(
                ActivePlayer::PlayerO,
                PlayerType::AI(crate::ai::AiPlayer::default()),
            ),
            player_x_ai: DifficultyMenuOption::new(ActivePlayer::PlayerX),
            player_o_ai: DifficultyMenuOption::new(ActivePlayer::PlayerO),
            autoquit_mode: AutoquitModeMenuOption::new(),
            autoquit_value: AutoquitValueMenuOption::new(),
            game_mode: GameModeMenuOption::new(),
            selected_option: SelectedOption::PlayerXType,
            term_x: 0,
            term_y: 0,
            scroll_pos: 0,
        }
    }

    /// Selects the next option
    pub fn next_option(&mut self)
        ensures
            *final(self) == (SetupMenu {
                selected_option: spec_next_option(*old(self)),
                scroll_pos: final(self).scroll_pos,
                ..*old(self)
            }),
            final(self).scroll_pos == spec_adjusted_scroll(
                SetupMenu { selected_option: spec_next_option(*old(self)), ..*old(self) },
                false,
            ),
    {
        match self.selected_option {
            SelectedOption::PlayerXType => {
                if matches!(*self.player_x_type.value(), PlayerType::Human) {
                    self.selected_option = SelectedOption::PlayerOType;
                } else {
                    self.selected_option = SelectedOption::PlayerXAi;
                }
            },
            SelectedOption::PlayerXAi => {
                self.selected_option = SelectedOption::PlayerOType;
            },
            SelectedOption::PlayerOType => {
                if matches!(*self.player_o_type.value(), PlayerType::Human) {
                    self.selected_option = SelectedOption::AutoquitMode;
                } else {
                    self.selected_option = SelectedOption::PlayerOAi;
                }
            },
            SelectedOption::PlayerOAi => {
                self.selected_option = SelectedOption::AutoquitMode;
            },
            SelectedOption::AutoquitMode => {
                if matches!(*self.autoquit_mode.value(), GameAutoquitMode::Unlimited) {
                    self.selected_option = SelectedOption::GameMode;
                } else {
                    self.selected_option = SelectedOption::AutoquitValue;
                }
            },
            SelectedOption::AutoquitValue => {
                self.selected_option = SelectedOption::GameMode;
            },
            SelectedOption::GameMode => {
                self.selected_option = SelectedOption::PlayerXType;
            },
        }
        self.adjust_scrolling(false);
    }

    /// Selects the previous option
    pub fn prev_option(&mut self)
        ensures
            *final(self) == (SetupMenu {
                selected_option: spec_prev_option(*old(self)),
                scroll_pos: final(self).scroll_pos,
                ..*old(self)
            }),
            final(self).scroll_pos == spec_adjusted_scroll(
                SetupMenu { selected_option: spec_prev_option(*old(self)), ..*old(self) },
                false,
            ),
    {
        match self.selected_option {
            SelectedOption::PlayerXType => {
                self.selected_option = SelectedOption::GameMode;
            },
            SelectedOption::PlayerXAi => {
                self.selected_option = SelectedOption::PlayerXType;
            },
            SelectedOption::PlayerOType => {
                if matches!(*self.player_x_type.value(), PlayerType::Human) {
                    self.selected_option = SelectedOption::PlayerXType;
                } else {
                    self.selected_option = SelectedOption::PlayerXAi;
                }
            },
            SelectedOption::PlayerOAi => {
                self.selected_option = SelectedOption::PlayerOType;
            },
            SelectedOption::AutoquitMode => {
                if matches!(*self.player_o_type.value(), PlayerType::Human) {
                    self.selected_option = SelectedOption::PlayerOType;
                } else {
                    self.selected_option = SelectedOption::PlayerOAi;
                }
            },
            SelectedOption::AutoquitValue => {
                self.selected_option = SelectedOption::AutoquitMode;
            },
            SelectedOption::GameMode => {
                if matches!(*self.autoquit_mode.value(), GameAutoquitMode::Unlimited) {
                    self.selected_option = SelectedOption::AutoquitMode;
                } else {
                    self.selected_option = SelectedOption::AutoquitValue;
                }
            },
        }
        self.adjust_scrolling(false);
    }

    /// Records a newly reported terminal size, columns then rows
    pub fn set_term_size(&mut self, term_x: u16, term_y: u16)
        ensures
            *final(self) == (SetupMenu { term_x, term_y, ..*old(self) }),
    {
        self.term_x = term_x;
        self.term_y = term_y;
    }

    /// Alter the given [`UI`] instance to match the settings of this `SetupMenu`
    ///
    /// Consumes this `SetupMenu` instance. A player set to AI takes an
    /// [`AiPlayer`](crate::ai::AiPlayer) at the difficulty its option
    /// holds, which the precondition keeps within `(0, 100]`.
    pub fn apply_settings(self, ui_instance: &mut UI)
        requires
            self.player_x_type.selected_player_type is AI ==> 1
                <= self.player_x_ai.selected_difficulty <= 100,
            self.player_o_type.selected_player_type is AI ==> 1
                <= self.player_o_ai.selected_difficulty <= 100,
        ensures
            final(ui_instance)@ == (UiView {
                player_x: final(ui_instance)@.player_x,
                player_o: final(ui_instance)@.player_o,
                game_autoquit_mode: self.autoquit_mode.selected_mode,
                game_autoquit_value: self.autoquit_value.selected_value,
                game_mode: self.game_mode.selected_game_mode,
                ..old(ui_instance)@
            }),
            self.player_x_type.selected_player_type is Human
                ==> final(ui_instance)@.player_x is Human,
            self.player_x_type.selected_player_type is AI
                ==> (final(ui_instance)@.player_x matches PlayerType::AI(p)
                && p.spec_difficulty() == self.player_x_ai.selected_difficulty),
            self.player_o_type.selected_player_type is Human
                ==> final(ui_instance)@.player_o is Human,
            self.player_o_type.selected_player_type is AI
                ==> (final(ui_instance)@.player_o matches PlayerType::AI(p)
                && p.spec_difficulty() == self.player_o_ai.selected_difficulty),
    {
        proof {
            use_type_invariant(&*ui_instance);
        }
        ui_instance.player_x = match self.player_x_type.value() {
            PlayerType::Human => PlayerType::Human,
            PlayerType::AI(_) => PlayerType::AI(self.player_x_ai.value()),
        };

        ui_instance.player_o = match self.player_o_type.value() {
            PlayerType::Human => PlayerType::Human,
            PlayerType::AI(_) => PlayerType::AI(self.player_o_ai.value()),
        };

        ui_instance.game_autoquit_mode = self.autoquit_mode.consume();
        ui_instance.game_autoquit_value = self.autoquit_value.value();
        ui_instance.game_mode = self.game_mode.value();
    }

    /// Sets the scroll position so that the currently selected option is
    /// visible, and newly added space is utilized
    pub fn adjust_scrolling(&mut self, expanded: bool)
        ensures
            *final(self) == (SetupMenu {
                scroll_pos: spec_adjusted_scroll(*old(self), expanded) as u16,
                ..*old(self)
            }),
    {
        if expanded {
            self.scroll_pos = 0;
        }
        let extra_height: u16 = if self.selected_option.is_described() {
            1
        } else {
            0
        };
        let selected_option_index = self.selected_option.index();
        if selected_option_index < self.scroll_pos {
            self.scroll_pos = selected_option_index;
        } else if (selected_option_index as u32) >= (self.scroll_pos as u32) + (
        self.term_y.saturating_sub(1 + extra_height) as u32) {
            self.scroll_pos = selected_option_index.saturating_sub(
                self.term_y.saturating_sub(3 + extra_height),
            );
        }
    }

    /// Returns true if the given option should be rendered as enabled
    ///
    /// Uses current state to determine whether the option should be enabled
    pub fn option_enabled(&self, option: SelectedOption) -> (r: bool)
        ensures
            r == spec_option_enabled(*self, option),
    {
        match option {
            SelectedOption::PlayerXAi => {
                !matches!(*self.player_x_type.value(), PlayerType::Human)
            },
            SelectedOption::PlayerOAi => {
                !matches!(*self.player_o_type.value(), PlayerType::Human)
            },
            SelectedOption::AutoquitValue => {
                !matches!(*self.autoquit_mode.value(), GameAutoquitMode::Unlimited)
            },
            _ => true,
        }
    }
}

} // verus!
