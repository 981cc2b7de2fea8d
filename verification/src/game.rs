//! The course of a game, one step at a time.
//!
//! Reading keys and drawing the board is left to the program around the library. It
//! hands in what happened, a key or a finished turn, and is told what follows from it.

use vstd::prelude::*;
use vstd::string::*;
use crate::board::{valid_move, Board, Grid};
use crate::computer::computer_move;
use crate::config::Difficulty;
use crate::error::GameError;
use crate::piece::{BoardPiece, Player};
use crate::position::{move_current_pos, Movement, Position};
use crate::state::GameState;

verus! {

/// A key as far as the game tells keys apart.
#[derive(Clone, Copy, PartialEq, Eq, Structural, Debug)]
pub enum Key {
    Up,
    Down,
    Left,
    Right,
    Enter,
    /// The key that ends the program.
    Quit,
    /// Any other key, or an event that is no key press.
    Other,
}

/// What a key does to a player's turn.
#[derive(Clone, Copy, PartialEq, Eq, Debug)]
pub enum TurnStep {
    /// The turn goes on with the cursor on this square.
    Select(Position),
    /// The player has moved; this is the board after the move.
    Place(Grid),
    /// The player asked to leave the game.
    Quit,
}

/// What follows a finished turn.
#[derive(PartialEq, Eq, Debug)]
pub enum GameStep {
    /// The game goes on, and this player moves.
    NextTurn(Player),
    /// The game is over; the sentence says how it ended.
    Finished(String),
}

/// The sentence that reports a draw.
pub open spec fn draw_message() -> Seq<char> {
    "The game ends in a draw!"@
}

/// The sentence that reports that the computer has won.
pub open spec fn computer_won_message() -> Seq<char> {
    "The computer has won the game!"@
}

/// The sentence that reports that a person playing `player` has won.
pub open spec fn player_won_message(player: Player) -> Seq<char> {
    "Player "@ + player.name() + " has won the game!"@
}

/// Whether the computer plays `player`: it plays `O` in a game for one.
pub open spec fn computer_plays(single_player: bool, player: Player) -> bool {
    single_player && player == Player::O
}

/// The sentence that reports that `winner` has won.
pub open spec fn win_message(single_player: bool, winner: Player) -> Seq<char> {
    if computer_plays(single_player, winner) {
        computer_won_message()
    } else {
        player_won_message(winner)
    }
}

/// Whether the computer makes the move of `player`.
pub fn is_computer_turn(single_player: bool, player: Player) -> (computer: bool)
    ensures
        computer == computer_plays(single_player, player),
{
    single_player && player == Player::O
}

/// Makes a move: puts the piece of `player` on `position` if the position is on the
/// board and the square is empty. A position off the board gives `OutOfRange`, an
/// occupied square `IllegalMove`.
pub fn play_move(
    game_board: &Grid,
    position: Position,
    player: Player,
) -> (moved: Result<Grid, GameError>)
    ensures
        Board::is_open(*game_board, position.y as int, position.x as int) ==> moved is Ok
            && Board::is_placement(
            *game_board,
            position.y as int,
            position.x as int,
            player.piece(),
            moved->Ok_0,
        ),
        !position.in_range() ==> moved == Err::<Grid, GameError>(
            GameError::OutOfRange,
        ),
        position.in_range() && !Board::is_open(
            *game_board,
            position.y as int,
            position.x as int,
        ) ==> moved == Err::<Grid, GameError>(GameError::IllegalMove),
        moved is Ok ==> Board::turn_count(moved->Ok_0) == Board::turn_count(*game_board) + 1,
        moved is Ok && Board::is_game_board(*game_board) ==> Board::is_game_board(moved->Ok_0),
{
    if !position.is_on_board() {
        return Err(GameError::OutOfRange);
    }
    if !valid_move(game_board, position) {
        return Err(GameError::IllegalMove);
    }
    let moved = Board::place_marker(game_board, position, player.get_board_piece());
    proof {
        Board::lemma_move_counts(
            *game_board,
            position.y as int,
            position.x as int,
            player.piece(),
            moved->Ok_0,
        );
    }
    moved
}

/// One key of a player's turn. The arrow keys move the cursor, round the edges of the
/// board. Enter on an empty square makes the move; on an occupied square it changes
/// nothing. The quit key ends the game, and any other key changes nothing.
pub fn player_turn(
    game_board: &Grid,
    current_pos: Position,
    current_player: Player,
    key: Key,
) -> (step: TurnStep)
    ensures
        match key {
            Key::Quit => step == TurnStep::Quit,
            Key::Up => step matches TurnStep::Select(next) && next@ == current_pos.moved(
                Movement::Up,
            ),
            Key::Down => step matches TurnStep::Select(next) && next@ == current_pos.moved(
                Movement::Down,
            ),
            Key::Left => step matches TurnStep::Select(next) && next@ == current_pos.moved(
                Movement::Left,
            ),
            Key::Right => step matches TurnStep::Select(next) && next@ == current_pos.moved(
                Movement::Right,
            ),
            Key::Enter => if Board::is_open(
                *game_board,
                current_pos.y as int,
                current_pos.x as int,
            ) {
                step matches TurnStep::Place(board) && Board::is_placement(
                    *game_board,
                    current_pos.y as int,
                    current_pos.x as int,
                    current_player.piece(),
                    board,
                )
            } else {
                step == TurnStep::Select(current_pos)
            },
            Key::Other => step == TurnStep::Select(current_pos),
        },
{
    match key {
        Key::Quit => TurnStep::Quit,
        Key::Up => TurnStep::Select(move_current_pos(current_pos, Movement::Up)),
        Key::Down => TurnStep::Select(move_current_pos(current_pos, Movement::Down)),
        Key::Left => TurnStep::Select(move_current_pos(current_pos, Movement::Left)),
        Key::Right => TurnStep::Select(move_current_pos(current_pos, Movement::Right)),
        Key::Enter => {
            match play_move(game_board, current_pos, current_player) {
                Ok(updated_board) => TurnStep::Place(updated_board),
                Err(_) => TurnStep::Select(current_pos),
            }
        },
        Key::Other => TurnStep::Select(current_pos),
    }
}

/// The computer's turn: it chooses its square and puts `O` there. On a full board
/// there is no move, and the answer is `PolicyPrecondition`.
pub fn computer_turn(game_board: Grid, difficulty: Difficulty) -> (moved: Result<
    Grid,
    GameError,
>)
    ensures
        Board::has_empty(game_board) ==> moved is Ok && exists|y: int, x: int|
            Board::is_open(game_board, y, x) && #[trigger] Board::is_placement(
                game_board,
                y,
                x,
                BoardPiece::O,
                moved->Ok_0,
            ),
        !Board::has_empty(game_board) ==> moved == Err::<Grid, GameError>(
            GameError::PolicyPrecondition,
        ),
        difficulty == Difficulty::Hard ==> match Board::planned_square(game_board) {
            Some(square) => moved is Ok && Board::is_placement(
                game_board,
                square.0,
                square.1,
                BoardPiece::O,
                moved->Ok_0,
            ),
            None => true,
        },
        moved is Ok ==> Board::turn_count(moved->Ok_0) == Board::turn_count(game_board) + 1,
        moved is Ok && Board::is_game_board(game_board) ==> Board::is_game_board(moved->Ok_0),
{
    let computer_move = computer_move(&game_board, difficulty)?;

    let moved = Board::place_marker(&game_board, computer_move, BoardPiece::O);
    proof {
        Board::lemma_move_counts(
            game_board,
            computer_move.y as int,
            computer_move.x as int,
            BoardPiece::O,
            moved->Ok_0,
        );
    }
    moved
}

/// What follows a turn of `current_player` that left the game in `state`. While the
/// game runs, the other player moves next. A draw and a win end it, with the sentence
/// to report: a win of `O` in a game for one is the computer's.
pub fn after_turn(single_player: bool, current_player: Player, state: GameState) -> (step:
    GameStep)
    ensures
        match state {
            GameState::Running => step == GameStep::NextTurn(current_player.other()),
            GameState::Draw => step matches GameStep::Finished(message) && message@
                == draw_message(),
            GameState::Win(winner) => step matches GameStep::Finished(message) && message@
                == win_message(single_player, winner),
        },
{
    match state {
        GameState::Running => GameStep::NextTurn(current_player.opponent()),
        GameState::Draw => GameStep::Finished(String::from_str("The game ends in a draw!")),
        GameState::Win(winner) => {
            if is_computer_turn(single_player, winner) {
                GameStep::Finished(String::from_str("The computer has won the game!"))
            } else {
                let mut message = String::from_str("Player ");
                message.append(winner.get_player_piece().as_str());
                message.append(" has won the game!");
                GameStep::Finished(message)
            }
        },
    }
}

} // verus!
