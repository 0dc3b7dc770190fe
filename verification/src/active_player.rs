//! The ActivePlayer enum

use vstd::prelude::*;
use crate::gameboard::BoardSpace;

verus! {

/// Represents which player (X or O) is currently active
#[derive(Debug, PartialEq, Eq, Structural, Clone, Copy)]
pub enum ActivePlayer {
    PlayerX,
    PlayerO,
}

impl ActivePlayer {
    /// The other player
    pub open spec fn spec_opposite(self) -> ActivePlayer {
        match self {
            ActivePlayer::PlayerX => ActivePlayer::PlayerO,
            ActivePlayer::PlayerO => ActivePlayer::PlayerX,
        }
    }

    /// The board mark this player plays with
    pub open spec fn spec_board_space(self) -> BoardSpace {
        match self {
            ActivePlayer::PlayerX => BoardSpace::X,
            ActivePlayer::PlayerO => BoardSpace::O,
        }
    }

    /// Switches this `ActivePlayer` to the opposite player
    pub fn switch(&mut self)
        ensures
            *final(self) == old(self).spec_opposite(),
        no_unwind
    {
        *self = self.opposite();
    }

    /// Returns the opposite `ActivePlayer`
    ///
    /// The operation is total and involutive: the opposite of the opposite
    /// is the player itself.
    pub fn opposite(&self) -> (r: Self)
        ensures
            r == self.spec_opposite(),
            r.spec_opposite() == *self,
        no_unwind
    {
        match self {
            ActivePlayer::PlayerO => ActivePlayer::PlayerX,
            ActivePlayer::PlayerX => ActivePlayer::PlayerO,
        }
    }

    /// Returns the character representing this `ActivePlayer`
    pub fn get_char(&self) -> (c: char)
        ensures
            c == self.spec_board_space().spec_char(),
    {
        match self {
            ActivePlayer::PlayerO => 'O',
            ActivePlayer::PlayerX => 'X',
        }
    }

    /// Returns the [`BoardSpace`] variant associated with this `ActivePlayer` variant
    pub fn get_board_space(&self) -> (r: BoardSpace)
        ensures
            r == self.spec_board_space(),
            !(r is Empty),
    {
        match self {
            ActivePlayer::PlayerX => BoardSpace::X,
            ActivePlayer::PlayerO => BoardSpace::O,
        }
    }
}

} // verus!
