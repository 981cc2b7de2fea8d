use tic_tac_toe::board::{valid_move, Board};
use tic_tac_toe::config::Difficulty;
use tic_tac_toe::error::GameError;
use tic_tac_toe::game::{
    after_turn, computer_turn, is_computer_turn, play_move, player_turn, GameStep, Key, TurnStep,
};
use tic_tac_toe::piece::{BoardPiece, Player};
use tic_tac_toe::position::Position;
use tic_tac_toe::state::{check_win, GameState};

const E: BoardPiece = BoardPiece::Empty;
const X: BoardPiece = BoardPiece::X;
const O: BoardPiece = BoardPiece::O;

#[test]
fn play_move_places_the_piece_of_the_player() {
    let board = [[X, E, E], [E, O, E], [E, E, E]];
    assert_eq!(play_move(&board, Position::new(0, 2), Player::X), Ok([[X, E, X], [E, O, E], [E, E, E]]));
    assert_eq!(play_move(&board, Position::new(2, 0), Player::O), Ok([[X, E, E], [E, O, E], [O, E, E]]));
}

#[test]
fn play_move_refuses_an_occupied_square() {
    let board = [[X, E, E], [E, O, E], [E, E, E]];
    assert_eq!(play_move(&board, Position::new(0, 0), Player::O), Err(GameError::IllegalMove));
    assert_eq!(play_move(&board, Position::new(0, 0), Player::X), Err(GameError::IllegalMove));
    assert_eq!(play_move(&board, Position::new(1, 1), Player::X), Err(GameError::IllegalMove));
}

#[test]
fn play_move_refuses_a_position_off_the_board() {
    let board = [[X, E, E], [E, O, E], [E, E, E]];
    assert_eq!(play_move(&board, Position::new(3, 0), Player::X), Err(GameError::OutOfRange));
    assert_eq!(play_move(&board, Position::new(0, -1), Player::O), Err(GameError::OutOfRange));
}

#[test]
fn arrow_keys_move_the_cursor() {
    let board = Board::new();
    let centre = Position::new(1, 1);
    assert_eq!(player_turn(&board, centre, Player::X, Key::Up), TurnStep::Select(Position::new(0, 1)));
    assert_eq!(player_turn(&board, centre, Player::X, Key::Down), TurnStep::Select(Position::new(2, 1)));
    assert_eq!(player_turn(&board, centre, Player::X, Key::Left), TurnStep::Select(Position::new(1, 0)));
    assert_eq!(player_turn(&board, centre, Player::X, Key::Right), TurnStep::Select(Position::new(1, 2)));
    assert_eq!(player_turn(&board, Position::new(0, 0), Player::O, Key::Up), TurnStep::Select(Position::new(2, 0)));
    assert_eq!(player_turn(&board, Position::new(2, 2), Player::O, Key::Right), TurnStep::Select(Position::new(2, 0)));
}

#[test]
fn enter_on_an_empty_square_moves() {
    let board = [[X, E, E], [E, O, E], [E, E, E]];
    assert_eq!(
        player_turn(&board, Position::new(2, 2), Player::X, Key::Enter),
        TurnStep::Place([[X, E, E], [E, O, E], [E, E, X]])
    );
    assert_eq!(
        player_turn(&board, Position::new(0, 1), Player::O, Key::Enter),
        TurnStep::Place([[X, O, E], [E, O, E], [E, E, E]])
    );
}

#[test]
fn enter_on_an_occupied_square_changes_nothing() {
    let board = [[X, E, E], [E, O, E], [E, E, E]];
    assert_eq!(player_turn(&board, Position::new(0, 0), Player::O, Key::Enter), TurnStep::Select(Position::new(0, 0)));
    assert_eq!(player_turn(&board, Position::new(1, 1), Player::X, Key::Enter), TurnStep::Select(Position::new(1, 1)));
}

#[test]
fn enter_off_the_board_changes_nothing() {
    let board = Board::new();
    assert_eq!(player_turn(&board, Position::new(4, 4), Player::X, Key::Enter), TurnStep::Select(Position::new(4, 4)));
}

#[test]
fn other_keys_change_nothing() {
    let board = [[X, E, E], [E, O, E], [E, E, E]];
    assert_eq!(player_turn(&board, Position::new(2, 1), Player::X, Key::Other), TurnStep::Select(Position::new(2, 1)));
}

#[test]
fn quit_key_leaves() {
    let board = [[X, E, E], [E, O, E], [E, E, E]];
    assert_eq!(player_turn(&board, Position::new(2, 1), Player::X, Key::Quit), TurnStep::Quit);
}

#[test]
fn computer_plays_o_in_a_game_for_one() {
    assert!(is_computer_turn(true, Player::O));
    assert!(!is_computer_turn(true, Player::X));
    assert!(!is_computer_turn(false, Player::O));
    assert!(!is_computer_turn(false, Player::X));
}

#[test]
fn running_game_goes_to_the_other_player() {
    assert_eq!(after_turn(true, Player::X, GameState::Running), GameStep::NextTurn(Player::O));
    assert_eq!(after_turn(true, Player::O, GameState::Running), GameStep::NextTurn(Player::X));
    assert_eq!(after_turn(false, Player::X, GameState::Running), GameStep::NextTurn(Player::O));
    assert_eq!(after_turn(false, Player::O, GameState::Running), GameStep::NextTurn(Player::X));
}

#[test]
fn draw_is_reported() {
    let message = GameStep::Finished("The game ends in a draw!".to_string());
    assert_eq!(after_turn(true, Player::X, GameState::Draw), message);
    assert_eq!(after_turn(false, Player::O, GameState::Draw), message);
}

#[test]
fn win_is_reported() {
    assert_eq!(
        after_turn(true, Player::X, GameState::Win(Player::X)),
        GameStep::Finished("Player X has won the game!".to_string())
    );
    assert_eq!(
        after_turn(true, Player::O, GameState::Win(Player::O)),
        GameStep::Finished("The computer has won the game!".to_string())
    );
    assert_eq!(
        after_turn(false, Player::X, GameState::Win(Player::X)),
        GameStep::Finished("Player X has won the game!".to_string())
    );
    assert_eq!(
        after_turn(false, Player::O, GameState::Win(Player::O)),
        GameStep::Finished("Player O has won the game!".to_string())
    );
}

#[test]
fn computer_turn_puts_o_on_an_empty_square() {
    let board = [[X, E, E], [E, E, E], [E, E, E]];
    for difficulty in [Difficulty::Easy, Difficulty::Medium, Difficulty::Hard] {
        for _ in 0..50 {
            let moved = computer_turn(board, difficulty).unwrap();
            let mut changed = Vec::new();
            for y in 0..3usize {
                for x in 0..3usize {
                    if moved[y][x] != board[y][x] {
                        changed.push((y, x));
                    }
                }
            }
            assert_eq!(changed.len(), 1);
            let (y, x) = changed[0];
            assert_eq!(board[y][x], E);
            assert_eq!(moved[y][x], O);
            assert_eq!(Board::get_turn(&moved), 2);
        }
    }
}

#[test]
fn computer_turn_on_hard_takes_the_win() {
    assert_eq!(
        computer_turn([[X, X, E], [O, O, E], [E, E, E]], Difficulty::Hard),
        Ok([[X, X, E], [O, O, O], [E, E, E]])
    );
    assert_eq!(
        computer_turn([[X, X, E], [E, E, E], [E, E, E]], Difficulty::Hard),
        Ok([[X, X, O], [E, E, E], [E, E, E]])
    );
    assert_eq!(computer_turn(Board::new(), Difficulty::Hard), Ok([[E, E, E], [E, O, E], [E, E, E]]));
}

#[test]
fn computer_turn_on_a_full_board() {
    let full = [[X, O, X], [X, O, O], [O, X, X]];
    for difficulty in [Difficulty::Easy, Difficulty::Medium, Difficulty::Hard] {
        assert_eq!(computer_turn(full, difficulty), Err(GameError::PolicyPrecondition));
    }
}

#[test]
fn winning_move_wins() {
    let moved = computer_turn([[X, X, E], [O, O, E], [E, E, E]], Difficulty::Hard).unwrap();
    assert_eq!(check_win(moved), GameState::Win(Player::O));
}

#[test]
fn a_whole_game_against_the_computer() {
    // the person takes the first empty square each time; the game ends within nine turns
    for difficulty in [Difficulty::Easy, Difficulty::Medium, Difficulty::Hard] {
        for _ in 0..30 {
            let mut board = Board::new();
            let mut player = Player::X;
            let mut turns = 0;
            let message = loop {
                board = if is_computer_turn(true, player) {
                    computer_turn(board, difficulty).unwrap()
                } else {
                    let position = Board::empty_positions(&board)[0];
                    assert!(valid_move(&board, position));
                    play_move(&board, position, player).unwrap()
                };
                turns += 1;
                assert_eq!(Board::get_turn(&board), turns);
                match after_turn(true, player, check_win(board)) {
                    GameStep::NextTurn(next) => {
                        assert_eq!(next, player.opponent());
                        player = next;
                    }
                    GameStep::Finished(message) => break message,
                }
            };
            assert!(turns <= 9);
            assert!(
                message == "The game ends in a draw!"
                    || message == "Player X has won the game!"
                    || message == "The computer has won the game!"
            );
        }
    }
}
