//! Enums to represent different game settings

use vstd::prelude::*;

verus! {

/// Determines the game mode to be played
#[derive(Debug, PartialEq, Eq, Structural, Clone, Copy)]
pub enum GameMode {
    Classic,
    Reverse,
}

impl Default for GameMode {
    /// The classic rules
    fn default() -> (r: Self)
        ensures
            r is Classic,
    {
        GameMode::Classic
    }
}

/// Determines how many games will be played before auto-exiting
#[derive(Debug, PartialEq, Eq, Structural, Clone, Copy)]
pub enum GameAutoquitMode {
    /// No limit
    Unlimited,
    /// Limit the total number of games
    GameNumberLimit,
    /// Limit the number of games that are not draws
    NonDrawNumberLimit,
    /// Limit the score of either player
    ScoreNumberLimit,
}

impl Default for GameAutoquitMode {
    /// No limit
    fn default() -> (r: Self)
        ensures
            r is Unlimited,
    {
        GameAutoquitMode::Unlimited
    }
}

} // verus!
