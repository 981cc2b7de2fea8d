//! The board as five lines of text.

use vstd::prelude::*;
use vstd::string::*;
use crate::board::{Board, Grid, Line};
use crate::error::GameError;
use crate::piece::{BoardPiece, Player};
use crate::position::Position;

verus! {

/// A row of the board as text: its three pieces with a bar between them.
pub open spec fn row_text(row: Seq<BoardPiece>) -> Seq<char> {
    row[0].text() + "|"@ + row[1].text() + "|"@ + row[2].text()
}

/// The line drawn between two rows.
pub open spec fn rule_text() -> Seq<char> {
    "------------"@
}

/// A board as text: its three rows from the top, with a rule between them.
pub open spec fn board_text(board: Grid) -> Seq<Seq<char>> {
    seq![
        row_text(board[0]@),
        rule_text(),
        row_text(board[1]@),
        rule_text(),
        row_text(board[2]@),
    ]
}

/// The highlight for the cursor of `player` on a square that holds `under`: the
/// player's own highlight on an empty square, and `Taken` on any other.
pub open spec fn cursor_piece(under: BoardPiece, player: Player) -> BoardPiece {
    if under == BoardPiece::Empty {
        match player {
            Player::X => BoardPiece::XSelected,
            Player::O => BoardPiece::OSelected,
        }
    } else {
        BoardPiece::Taken
    }
}

/// Whether the strings are the given lines of text, one for one.
pub open spec fn shows(lines: Seq<String>, text: Seq<Seq<char>>) -> bool {
    lines.len() == text.len() && forall|i: int| 0 <= i < lines.len() ==> (#[trigger] lines[i])@
        == text[i]
}

/// The five lines that show the board.
pub fn display_board(game_board: &Grid) -> (lines: Vec<String>)
    ensures
        shows(lines@, board_text(*game_board)),
{
    let mut lines: Vec<String> = Vec::new();
    lines.push(build_row_display(&game_board[0]));
    lines.push(String::from_str("------------"));
    lines.push(build_row_display(&game_board[1]));
    lines.push(String::from_str("------------"));
    lines.push(build_row_display(&game_board[2]));
    lines
}

/// The five lines that show the board with the cursor of `current_player` on
/// `current_pos`. The highlight goes on a copy: the board itself never holds one.
/// A cursor off the board is refused with `OutOfRange`.
pub fn display_selector_board(
    game_board: &Grid,
    current_pos: Position,
    current_player: Player,
) -> (shown: Result<Vec<String>, GameError>)
    ensures
        current_pos.in_range() ==> shown is Ok && exists|copy: Grid|
            #[trigger] Board::is_placement(
                *game_board,
                current_pos.y as int,
                current_pos.x as int,
                cursor_piece(
                    Board::at(*game_board, current_pos.y as int, current_pos.x as int),
                    current_player,
                ),
                copy,
            ) && shows(shown->Ok_0@, board_text(copy)),
        !current_pos.in_range() ==> shown is Err && shown->Err_0 == GameError::OutOfRange,
{
    if !current_pos.is_on_board() {
        return Err(GameError::OutOfRange);
    }
    let y = current_pos.get_y();
    let x = current_pos.get_x();

    let marker: BoardPiece = if game_board[y as usize][x as usize] == BoardPiece::Empty {
        match current_player {
            Player::X => BoardPiece::XSelected,
            Player::O => BoardPiece::OSelected,
        }
    } else {
        BoardPiece::Taken
    };

    let new_game_board = Board::place_marker(game_board, current_pos, marker)?;
    Ok(display_board(&new_game_board))
}

/// A row of the board as text.
pub fn build_row_display(board_row: &Line) -> (text: String)
    ensures
        text@ == row_text(board_row@),
{
    let mut row_objects: Vec<String> = Vec::new();

    let mut i: usize = 0;
    while i < 3
        invariant
            i <= 3,
            row_objects@.len() == i,
            forall|j: int| 0 <= j < i ==> (#[trigger] row_objects@[j])@ == board_row@[j].text(),
        decreases 3 - i,
    {
        row_objects.push(board_row[i].get_board_piece());
        i += 1;
    }

    let mut formatted_row = String::new();
    formatted_row.append(row_objects[0].as_str());
    formatted_row.append("|");
    formatted_row.append(row_objects[1].as_str());
    formatted_row.append("|");
    formatted_row.append(row_objects[2].as_str());
    assert(formatted_row@ =~= row_text(board_row@));
    formatted_row
}

} // verus!
