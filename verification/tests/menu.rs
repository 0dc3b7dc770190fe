//! Tests of the setup menu and its options

use tactic::player_type::PlayerType;
use tactic::active_player::ActivePlayer;
use tactic::game_settings::{GameMode, GameAutoquitMode};
use tactic::ui::UI;
use tactic::ui::setup_menu::{SetupMenu, SelectedOption};
use tactic::ui::setup_menu::menu_options::{
    GameModeMenuOption, AutoquitValueMenuOption, AutoquitModeMenuOption, DifficultyMenuOption,
    PlayerTypeMenuOption,
};

#[test]
fn new_menu_defaults() {
    let menu = SetupMenu::new();
    assert_eq!(*menu.player_x_type.value(), PlayerType::Human);
    assert!(matches!(*menu.player_o_type.value(), PlayerType::AI(p) if p.difficulty() == 100));
    assert_eq!(menu.player_x_ai.selected_difficulty, 85);
    assert_eq!(menu.player_o_ai.selected_difficulty, 85);
    assert_eq!(*menu.autoquit_mode.value(), GameAutoquitMode::Unlimited);
    assert_eq!(menu.autoquit_value.selected_value, 1);
    assert_eq!(menu.game_mode.selected_game_mode, GameMode::Classic);
    assert_eq!(menu.selected_option, SelectedOption::PlayerXType);
    assert_eq!(menu.scroll_pos, 0);
}

#[test]
fn selected_option_enumeration() {
    let all = SelectedOption::all();
    assert_eq!(all.len(), 7);
    for (i, option) in all.iter().enumerate() {
        assert_eq!(option.index() as usize, i);
    }
    assert!(SelectedOption::GameMode.is_described());
    assert!(!SelectedOption::PlayerXType.is_described());
}

#[test]
fn next_option_skips_disabled_rows() {
    let mut menu = SetupMenu::new();
    menu.set_term_size(80, 24);
    // player X is human, so its difficulty row is skipped
    menu.next_option();
    assert_eq!(menu.selected_option, SelectedOption::PlayerOType);
    // player O is an AI, so its difficulty row comes next
    menu.next_option();
    assert_eq!(menu.selected_option, SelectedOption::PlayerOAi);
    menu.next_option();
    assert_eq!(menu.selected_option, SelectedOption::AutoquitMode);
    // the game limit is unlimited, so its value row is skipped
    menu.next_option();
    assert_eq!(menu.selected_option, SelectedOption::GameMode);
    // and from the last row selection wraps to the first
    menu.next_option();
    assert_eq!(menu.selected_option, SelectedOption::PlayerXType);
}

#[test]
fn next_option_visits_enabled_rows() {
    let mut menu = SetupMenu::new();
    menu.set_term_size(80, 24);
    // switch player X to an AI: its difficulty row becomes reachable
    menu.player_x_type.next_value().unwrap();
    // limit the game count: the value row becomes reachable
    menu.autoquit_mode.next_value().unwrap();
    menu.next_option();
    assert_eq!(menu.selected_option, SelectedOption::PlayerXAi);
    menu.next_option();
    assert_eq!(menu.selected_option, SelectedOption::PlayerOType);
    menu.next_option();
    menu.next_option();
    assert_eq!(menu.selected_option, SelectedOption::AutoquitMode);
    menu.next_option();
    assert_eq!(menu.selected_option, SelectedOption::AutoquitValue);
}

#[test]
fn prev_option_walks_backwards() {
    let mut menu = SetupMenu::new();
    menu.set_term_size(80, 24);
    menu.prev_option();
    assert_eq!(menu.selected_option, SelectedOption::GameMode);
    menu.prev_option();
    assert_eq!(menu.selected_option, SelectedOption::AutoquitMode);
    menu.prev_option();
    assert_eq!(menu.selected_option, SelectedOption::PlayerOAi);
    menu.prev_option();
    assert_eq!(menu.selected_option, SelectedOption::PlayerOType);
    // player X is human: from player O's type row, selection skips the
    // X difficulty row
    menu.prev_option();
    assert_eq!(menu.selected_option, SelectedOption::PlayerXType);
}

#[test]
fn option_enabled_follows_settings() {
    let mut menu = SetupMenu::new();
    assert!(menu.option_enabled(SelectedOption::PlayerXType));
    assert!(!menu.option_enabled(SelectedOption::PlayerXAi));
    assert!(menu.option_enabled(SelectedOption::PlayerOAi));
    assert!(!menu.option_enabled(SelectedOption::AutoquitValue));
    menu.player_x_type.next_value().unwrap();
    menu.autoquit_mode.next_value().unwrap();
    assert!(menu.option_enabled(SelectedOption::PlayerXAi));
    assert!(menu.option_enabled(SelectedOption::AutoquitValue));
}

#[test]
fn game_mode_option_cycles() {
    let mut option = GameModeMenuOption::new();
    assert_eq!(option.option_name(), "Game Mode");
    assert_eq!(option.current_value_name(), "Classic");
    assert!(!option.at_maximum());
    assert!(!option.at_minimum());
    assert_eq!(
        option.description().unwrap(),
        "Play to place three of your pieces in a row. "
    );
    option.next_value().unwrap();
    assert_eq!(option.current_value_name(), "Reverse");
    assert_eq!(
        option.description().unwrap(),
        "Play to avoid placing three of your pieces in a row. "
    );
    option.prev_value().unwrap();
    assert_eq!(option.current_value_name(), "Classic");
}

#[test]
fn autoquit_value_option_steps() {
    let mut option = AutoquitValueMenuOption::new();
    assert_eq!(option.option_name(), "Game Limit Value");
    assert_eq!(option.current_value_name(), "1");
    assert!(option.at_minimum());
    assert!(option.prev_value().is_err());
    option.next_value().unwrap();
    option.next_value().unwrap();
    assert_eq!(option.current_value_name(), "3");
    assert!(!option.at_minimum());
    option.prev_value().unwrap();
    assert_eq!(option.selected_value, 2);
    assert!(option.description().is_none());
    assert!(!option.at_maximum());
}

#[test]
fn autoquit_value_renders_decimals() {
    let mut option = AutoquitValueMenuOption::new();
    option.selected_value = 10;
    assert_eq!(option.current_value_name(), "10");
    option.selected_value = 407;
    assert_eq!(option.current_value_name(), "407");
    option.selected_value = 4_294_967_295;
    assert_eq!(option.current_value_name(), "4294967295");
}

#[test]
fn autoquit_mode_option_steps() {
    let mut option = AutoquitModeMenuOption::new();
    assert_eq!(option.option_name(), "Game Limit Type");
    assert_eq!(option.current_value_name(), "Unlimited");
    assert!(option.at_minimum());
    assert!(option.prev_value().is_err());
    option.next_value().unwrap();
    assert_eq!(option.current_value_name(), "Max number of total games");
    option.next_value().unwrap();
    assert_eq!(option.current_value_name(), "Max number of won games");
    option.next_value().unwrap();
    assert_eq!(option.current_value_name(), "Max score of either player");
    assert!(option.at_maximum());
    assert!(option.next_value().is_err());
    assert_eq!(option.consume(), GameAutoquitMode::ScoreNumberLimit);
}

#[test]
fn difficulty_option_steps_by_five() {
    let mut option = DifficultyMenuOption::new(ActivePlayer::PlayerX);
    assert_eq!(option.option_name(), "Player X Difficulty");
    assert_eq!(option.current_value_name(), "85");
    option.next_value().unwrap();
    option.next_value().unwrap();
    option.next_value().unwrap();
    assert_eq!(option.current_value_name(), "100");
    assert!(option.at_maximum());
    assert!(option.next_value().is_err());
    let ai = option.value();
    assert_eq!(ai.difficulty(), 100);

    let mut down = DifficultyMenuOption::new(ActivePlayer::PlayerO);
    assert_eq!(down.option_name(), "Player O Difficulty");
    for _ in 0..17 {
        down.prev_value().unwrap();
    }
    assert_eq!(down.current_value_name(), "0");
    assert!(down.at_minimum());
    assert!(down.prev_value().is_err());
    assert!(down.description().is_none());
}

#[test]
fn player_type_option_toggles() {
    let mut option = PlayerTypeMenuOption::new(ActivePlayer::PlayerX, PlayerType::Human);
    assert_eq!(option.option_name(), "Player X Type");
    assert_eq!(option.current_value_name(), "Human");
    assert!(!option.at_maximum());
    assert!(!option.at_minimum());
    option.next_value().unwrap();
    assert_eq!(option.current_value_name(), "AI");
    assert!(matches!(*option.value(), PlayerType::AI(p) if p.difficulty() == 100));
    option.prev_value().unwrap();
    assert_eq!(option.current_value_name(), "Human");
    assert!(option.description().is_none());
}

#[test]
fn scrolling_follows_the_selection() {
    let mut menu = SetupMenu::new();
    // a terminal three rows tall shows rows [scroll, scroll + 2)
    menu.set_term_size(80, 3);
    menu.player_x_type.next_value().unwrap();
    menu.autoquit_mode.next_value().unwrap();
    // walking down moves the window down once the selection leaves it
    menu.next_option();
    assert_eq!(menu.selected_option, SelectedOption::PlayerXAi);
    menu.next_option();
    menu.next_option();
    menu.next_option();
    assert_eq!(menu.selected_option, SelectedOption::AutoquitMode);
    assert!(menu.scroll_pos > 0);
    // walking back up to the first row scrolls back to the top
    menu.prev_option();
    menu.prev_option();
    menu.prev_option();
    menu.prev_option();
    assert_eq!(menu.selected_option, SelectedOption::PlayerXType);
    assert_eq!(menu.scroll_pos, 0);
}

#[test]
fn applying_settings_configures_the_ui() {
    let mut ui = UI::new(PlayerType::Human, PlayerType::Human, 80, 24);
    let mut menu = SetupMenu::new();
    // player X becomes an AI at difficulty 90, player O a human
    menu.player_x_type.next_value().unwrap();
    menu.player_x_ai.next_value().unwrap();
    menu.player_o_type.next_value().unwrap();
    // limit to three non-draw games, reverse mode
    menu.autoquit_mode.next_value().unwrap();
    menu.autoquit_mode.next_value().unwrap();
    menu.autoquit_value.next_value().unwrap();
    menu.autoquit_value.next_value().unwrap();
    menu.game_mode.next_value().unwrap();
    menu.apply_settings(&mut ui);

    assert!(matches!(*ui.player_x(), PlayerType::AI(p) if p.difficulty() == 90));
    assert_eq!(*ui.player_o(), PlayerType::Human);
    assert_eq!(*ui.game_autoquit_mode(), GameAutoquitMode::NonDrawNumberLimit);
    assert_eq!(ui.game_autoquit_value(), 3);
    assert_eq!(*ui.game_mode(), GameMode::Reverse);
}
