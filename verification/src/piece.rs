//! The two players and what a square of the board can hold.

use vstd::prelude::*;
use vstd::string::*;

verus! {

/// One of the two sides of a game. `X` moves first; in a single-player game `O` is the computer.
#[derive(Clone, Copy, PartialEq, Eq, Structural, Debug)]
pub enum Player {
    X,
    O,
}

/// What a square holds. A game board holds only `X`, `O` and `Empty`; the other three are
/// highlights that the display puts on a copy of the board to show the cursor.
#[derive(Clone, Copy, PartialEq, Eq, Structural, Debug)]
pub enum BoardPiece {
    X,
    XSelected,
    O,
    OSelected,
    Taken,
    Empty,
}

impl Player {
    /// The letter that names the player.
    pub open spec fn name(self) -> Seq<char> {
        match self {
            Player::X => "X"@,
            Player::O => "O"@,
        }
    }

    /// The piece that the player puts on the board.
    pub open spec fn piece(self) -> BoardPiece {
        match self {
            Player::X => BoardPiece::X,
            Player::O => BoardPiece::O,
        }
    }

    /// The other player.
    pub open spec fn other(self) -> Player {
        match self {
            Player::X => Player::O,
            Player::O => Player::X,
        }
    }

    pub fn get_player_piece(&self) -> (text: String)
        ensures
            text@ == self.name(),
    {
        match self {
            Player::X => String::from_str("X"),
            Player::O => String::from_str("O"),
        }
    }

    pub fn get_board_piece(&self) -> (piece: BoardPiece)
        ensures
            piece == self.piece(),
    {
        match self {
            Player::X => BoardPiece::X,
            Player::O => BoardPiece::O,
        }
    }

    /// The player who moves after this one.
    pub fn opponent(&self) -> (next: Player)
        ensures
            next == self.other(),
    {
        match self {
            Player::X => Player::O,
            Player::O => Player::X,
        }
    }
}

impl BoardPiece {
    /// The player who owns the piece: `X` and `O` have one, an empty square and the
    /// highlights have none.
    pub open spec fn owner(self) -> Option<Player> {
        match self {
            BoardPiece::X => Some(Player::X),
            BoardPiece::O => Some(Player::O),
            _ => None,
        }
    }

    /// A piece that a game board may hold.
    pub open spec fn in_play(self) -> bool {
        self == BoardPiece::X || self == BoardPiece::O || self == BoardPiece::Empty
    }

    /// The three characters that show the piece on screen.
    pub open spec fn text(self) -> Seq<char> {
        match self {
            BoardPiece::Taken => " \u{e2}\u{152}\u{a7} "@,
            BoardPiece::XSelected => " \u{f0}\u{178}\u{2026}\u{2021} "@,
            BoardPiece::OSelected => " \u{e2}\u{201c}\u{aa} "@,
            BoardPiece::Empty => "   "@,
            BoardPiece::X => " X "@,
            BoardPiece::O => " O "@,
        }
    }

    /// The player who owns the piece, if it is one of the two pieces of the game.
    pub fn get_owner(&self) -> (player: Option<Player>)
        ensures
            player == self.owner(),
    {
        match self {
            BoardPiece::X => Some(Player::X),
            BoardPiece::O => Some(Player::O),
            _ => None,
        }
    }

    pub fn get_board_piece(&self) -> (text: String)
        ensures
            text@ == self.text(),
    {
        match self {
            BoardPiece::Taken => String::from_str(" \u{e2}\u{152}\u{a7} "),
            BoardPiece::XSelected => String::from_str(" \u{f0}\u{178}\u{2026}\u{2021} "),
            BoardPiece::OSelected => String::from_str(" \u{e2}\u{201c}\u{aa} "),
            BoardPiece::Empty => String::from_str("   "),
            BoardPiece::X => String::from_str(" X "),
            BoardPiece::O => String::from_str(" O "),
        }
    }
}

} // verus!
