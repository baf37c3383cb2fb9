//! The marks, cells, players and player slots of a game.

use vstd::prelude::*;

verus! {

/// One of the two symbols a player places on the board.
#[derive(Debug, PartialEq, Eq, Clone, Copy, Structural)]
pub enum Piece {
    X,
    O,
}

impl Piece {
    /// The other of the two symbols.
    pub open spec fn other(self) -> Piece {
        match self {
            Piece::X => Piece::O,
            Piece::O => Piece::X,
        }
    }

    /// The letter a piece is shown as.
    pub open spec fn name_spec(self) -> Seq<char> {
        match self {
            Piece::O => "O"@,
            Piece::X => "X"@,
        }
    }

    /// The letter a piece is shown as.
    pub fn name(self) -> (name: &'static str)
        ensures
            name@ == self.name_spec(),
    {
        match self {
            Self::O => "O",
            Self::X => "X",
        }
    }
}

/// What one square of the board holds.
#[derive(Debug, PartialEq, Eq, Clone, Copy, Structural)]
pub enum CellState {
    Empty,
    Occupied(Piece),
}

impl Default for CellState {
    fn default() -> (cell: Self)
        ensures
            cell == CellState::Empty,
    {
        Self::Empty
    }
}

/// A participant: who moves for the slot, and with which piece.
#[derive(Debug, PartialEq, Eq, Clone, Copy, Structural)]
pub enum Player {
    Computer(Piece),
    Human(Piece),
}

impl Player {
    /// The piece this player places.
    pub open spec fn piece_spec(self) -> Piece {
        match self {
            Player::Computer(piece) => piece,
            Player::Human(piece) => piece,
        }
    }

    /// The word for the player's role.
    pub open spec fn name_spec(self) -> Seq<char> {
        match self {
            Player::Computer(_) => "Computer"@,
            Player::Human(_) => "Human"@,
        }
    }

    /// The word for the player's role.
    pub fn name(&self) -> (name: &'static str)
        ensures
            name@ == self.name_spec(),
    {
        match self {
            Self::Computer(_) => "Computer",
            Self::Human(_) => "Human",
        }
    }

    /// The piece this player places.
    pub fn piece(&self) -> (piece: &Piece)
        ensures
            *piece == self.piece_spec(),
    {
        match self {
            Self::Human(piece) | Self::Computer(piece) => piece,
        }
    }
}

/// One of the two slots of a game.
#[derive(Debug, PartialEq, Eq, Clone, Copy, Structural)]
pub enum PlayerID {
    Player1,
    Player2,
}

impl PlayerID {
    /// The slot that is not this one.
    pub open spec fn other(self) -> PlayerID {
        match self {
            PlayerID::Player1 => PlayerID::Player2,
            PlayerID::Player2 => PlayerID::Player1,
        }
    }
}

} // verus!
