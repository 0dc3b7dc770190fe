//! The PlayerType enum

use vstd::prelude::*;
use crate::ai::AiPlayer;

verus! {

/// Represents the type of a player (either human or AI)
#[derive(Debug, PartialEq, Eq, Structural, Clone, Copy)]
pub enum PlayerType {
    Human,
    AI(AiPlayer),
}

impl Default for PlayerType {
    /// A human player
    fn default() -> (r: Self)
        ensures
            r is Human,
    {
        PlayerType::Human
    }
}

} // verus!
