//! How a game stands: still running, drawn, or won, as read off a board.

use vstd::prelude::*;
use crate::board::{Board, Grid, Line};
use crate::piece::{BoardPiece, Player};

verus! {

/// The standing of a game. It is never stored: it is read off the board after each move.
#[derive(Clone, Copy, PartialEq, Eq, Structural, Debug)]
pub enum GameState {
    /// No line is complete and a square is still empty.
    Running,
    /// No line is complete and no square is empty.
    Draw,
    /// A line is complete; the player owns it.
    Win(Player),
}

impl Board {
    /// Whether all three squares of line `k` hold `piece`.
    pub open spec fn line_filled_by(board: Grid, k: int, piece: BoardPiece) -> bool {
        &&& Board::line_piece(board, k, 0) == piece
        &&& Board::line_piece(board, k, 1) == piece
        &&& Board::line_piece(board, k, 2) == piece
    }

    /// The player whose piece fills all three squares of line `k`, if there is one. Such
    /// a line is complete.
    pub open spec fn line_owner(board: Grid, k: int) -> Option<Player> {
        if Board::line_filled_by(board, k, BoardPiece::X) {
            Some(Player::X)
        } else if Board::line_filled_by(board, k, BoardPiece::O) {
            Some(Player::O)
        } else {
            None
        }
    }

    /// The number of the first complete line at or after line `k`; 8 if there is none.
    pub open spec fn first_complete_from(board: Grid, k: int) -> int
        decreases 8 - k,
    {
        if k >= 8 {
            8
        } else if Board::line_owner(board, k) is Some {
            k
        } else {
            Board::first_complete_from(board, k + 1)
        }
    }

    /// The number of the first complete line in the order of search; 8 if there is none.
    pub open spec fn first_complete(board: Grid) -> int {
        Board::first_complete_from(board, 0)
    }

    /// The standing of the game on this board. A complete line wins for its owner; where
    /// several lines are complete, the first in the order of search decides. Without a
    /// complete line the game runs while a square is empty, and is drawn when none is.
    pub open spec fn status(board: Grid) -> GameState {
        let k = Board::first_complete(board);
        if k < 8 {
            GameState::Win(Board::line_owner(board, k)->0)
        } else if Board::has_empty(board) {
            GameState::Running
        } else {
            GameState::Draw
        }
    }
}

/// Reads the standing of the game off the board. The lines are searched in their order:
/// rows from the top, columns from the left, then the two diagonals; the first one
/// filled by a single player's pieces wins for that player. Highlights of the display
/// belong to no player and complete no line.
pub fn check_win(game_board: Grid) -> (state: GameState)
    ensures
        state == Board::status(game_board),
{
    let mut k: usize = 0;
    while k < 8
        invariant
            k <= 8,
            Board::first_complete(game_board) == Board::first_complete_from(game_board, k as int),
        decreases 8 - k,
    {
        let line = Board::line_at(&game_board, k);
        if line[0] == line[1] && line[1] == line[2] {
            match line[0].get_owner() {
                Some(player) => {
                    return GameState::Win(player);
                },
                None => {},
            }
        }
        k += 1;
    }

    proof {
        Board::lemma_full_board(game_board);
    }
    if Board::get_turn(&game_board) < 9 {
        GameState::Running
    } else {
        GameState::Draw
    }
}

impl Board {
    /// What `first_complete_from` finds: below 8 it is a complete line with no complete
    /// line between `k` and it, and 8 means that no line from `k` on is complete.
    pub proof fn lemma_first_complete_from(board: Grid, k: int)
        requires
            0 <= k <= 8,
        ensures
            k <= Board::first_complete_from(board, k) <= 8,
            Board::first_complete_from(board, k) < 8 ==> Board::line_owner(
                board,
                Board::first_complete_from(board, k),
            ) is Some,
            forall|j: int|
                k <= j < Board::first_complete_from(board, k) ==> Board::line_owner(board, j)
                    is None,
        decreases 8 - k,
    {
        if k < 8 && Board::line_owner(board, k) is None {
            Board::lemma_first_complete_from(board, k + 1);
        }
    }

    /// Three equal pieces of a player in a line win the game for that player. Where
    /// both players have such a line, which no game reaches, the first line in the
    /// order of search decides; so the other player is asked to have none.
    pub proof fn lemma_complete_line_wins(board: Grid, k: int, player: Player)
        requires
            0 <= k < 8,
            Board::line_filled_by(board, k, player.piece()),
            forall|j: int| 0 <= j < 8 ==> !Board::line_filled_by(board, j, player.other().piece()),
        ensures
            Board::status(board) == GameState::Win(player),
    {
        Board::lemma_first_complete_from(board, 0);
        assert(Board::line_owner(board, k) is Some);
        let first = Board::first_complete(board);
        assert(!Board::line_filled_by(board, first, player.other().piece()));
    }

    /// A game is won only through a complete line: a board judged won for a player has a
    /// line whose three squares hold that player's piece.
    pub proof fn lemma_win_has_line(board: Grid, player: Player)
        requires
            Board::status(board) == GameState::Win(player),
        ensures
            exists|k: int| 0 <= k < 8 && Board::line_filled_by(board, k, player.piece()),
    {
        Board::lemma_first_complete_from(board, 0);
        let k = Board::first_complete(board);
        assert(Board::line_filled_by(board, k, player.piece()));
    }

    /// A full board on which no line holds three equal pieces of a player is a draw.
    pub proof fn lemma_full_board_is_draw(board: Grid)
        requires
            forall|k: int, player: Player|
                0 <= k < 8 ==> !Board::line_filled_by(board, k, player.piece()),
            !Board::has_empty(board),
        ensures
            Board::status(board) == GameState::Draw,
    {
        Board::lemma_no_line(board);
    }

    /// A board with an empty square on which no line holds three equal pieces of a
    /// player is a running game.
    pub proof fn lemma_open_board_is_running(board: Grid)
        requires
            forall|k: int, player: Player|
                0 <= k < 8 ==> !Board::line_filled_by(board, k, player.piece()),
            Board::has_empty(board),
        ensures
            Board::status(board) == GameState::Running,
    {
        Board::lemma_no_line(board);
    }

    /// The board alone settles what a query returns: two lines read as line `k` of the
    /// same board are the same line, and two readings of its standing are the same
    /// standing. Asking again changes no answer.
    pub proof fn lemma_same_board_same_answers(
        board: Grid,
        k: int,
        first_line: Line,
        second_line: Line,
        first_state: GameState,
        second_state: GameState,
    )
        requires
            first_line@ == Board::line(board, k),
            second_line@ == Board::line(board, k),
            first_state == Board::status(board),
            second_state == Board::status(board),
        ensures
            first_line == second_line,
            first_state == second_state,
    {
        assert forall|i: int| 0 <= i < 3 implies first_line[i] == second_line[i] by {
            assert(first_line@[i] == second_line@[i]);
        }
        assert(first_line =~= second_line);
    }

    /// Where no line holds three equal pieces of a player, the search finds no complete
    /// line.
    proof fn lemma_no_line(board: Grid)
        requires
            forall|k: int, player: Player|
                0 <= k < 8 ==> !Board::line_filled_by(board, k, player.piece()),
        ensures
            Board::first_complete(board) == 8,
    {
        Board::lemma_first_complete_from(board, 0);
        let first = Board::first_complete(board);
        if first < 8 {
            let player = Board::line_owner(board, first)->0;
            assert(Board::line_filled_by(board, first, player.piece()));
        }
    }
}

} // verus!
