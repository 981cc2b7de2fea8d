use tic_tac_toe::board::Board;
use tic_tac_toe::display::game::{build_row_display, display_board, display_selector_board};
use tic_tac_toe::display::inputs::{decimal, MenuStep, OptionSelect};
use tic_tac_toe::error::GameError;
use tic_tac_toe::game::Key;
use tic_tac_toe::piece::{BoardPiece, Player};
use tic_tac_toe::position::Position;

const E: BoardPiece = BoardPiece::Empty;
const X: BoardPiece = BoardPiece::X;
const O: BoardPiece = BoardPiece::O;

const TAKEN: &str = " \u{e2}\u{152}\u{a7} ";
const X_SELECTED: &str = " \u{f0}\u{178}\u{2026}\u{2021} ";
const O_SELECTED: &str = " \u{e2}\u{201c}\u{aa} ";

fn menu() -> OptionSelect {
    OptionSelect::new()
        .set_title("Difficulty".to_string())
        .add_option("Easy".to_string())
        .add_option("Medium".to_string())
        .add_option("Hard".to_string())
}

#[test]
fn row_as_text() {
    assert_eq!(build_row_display(&[X, O, E]), " X | O |   ");
    assert_eq!(build_row_display(&[E, E, E]), "   |   |   ");
    assert_eq!(build_row_display(&[O, O, X]), " O | O | X ");
    assert_eq!(
        build_row_display(&[BoardPiece::Taken, BoardPiece::XSelected, BoardPiece::OSelected]),
        format!("{}|{}|{}", TAKEN, X_SELECTED, O_SELECTED)
    );
}

#[test]
fn board_as_text() {
    assert_eq!(
        display_board(&[[X, O, E], [E, X, O], [O, E, X]]),
        vec![" X | O |   ", "------------", "   | X | O ", "------------", " O |   | X "]
    );
    assert_eq!(
        display_board(&Board::new()),
        vec!["   |   |   ", "------------", "   |   |   ", "------------", "   |   |   "]
    );
}

#[test]
fn cursor_on_an_empty_square() {
    let board = [[X, O, E], [E, X, O], [O, E, X]];
    assert_eq!(
        display_selector_board(&board, Position::new(0, 2), Player::X),
        Ok(vec![
            format!(" X | O |{}", X_SELECTED),
            "------------".to_string(),
            "   | X | O ".to_string(),
            "------------".to_string(),
            " O |   | X ".to_string(),
        ])
    );
    assert_eq!(
        display_selector_board(&board, Position::new(2, 1), Player::O),
        Ok(vec![
            " X | O |   ".to_string(),
            "------------".to_string(),
            "   | X | O ".to_string(),
            "------------".to_string(),
            format!(" O |{}| X ", O_SELECTED),
        ])
    );
}

#[test]
fn cursor_on_an_occupied_square() {
    let board = [[X, O, E], [E, X, O], [O, E, X]];
    for player in [Player::X, Player::O] {
        assert_eq!(
            display_selector_board(&board, Position::new(1, 1), player),
            Ok(vec![
                " X | O |   ".to_string(),
                "------------".to_string(),
                format!("   |{}| O ", TAKEN),
                "------------".to_string(),
                " O |   | X ".to_string(),
            ])
        );
    }
}

#[test]
fn cursor_off_the_board() {
    let board = Board::new();
    assert_eq!(display_selector_board(&board, Position::new(3, 1), Player::X), Err(GameError::OutOfRange));
    assert_eq!(display_selector_board(&board, Position::new(1, -1), Player::O), Err(GameError::OutOfRange));
}

#[test]
fn cursor_leaves_the_board_as_it_is() {
    let board = [[X, O, E], [E, X, O], [O, E, X]];
    let _ = display_selector_board(&board, Position::new(0, 2), Player::X);
    assert_eq!(board, [[X, O, E], [E, X, O], [O, E, X]]);
}

#[test]
fn numbers_in_decimal() {
    assert_eq!(decimal(0), "0");
    assert_eq!(decimal(7), "7");
    assert_eq!(decimal(9), "9");
    assert_eq!(decimal(10), "10");
    assert_eq!(decimal(42), "42");
    assert_eq!(decimal(100), "100");
    assert_eq!(decimal(1234567890), "1234567890");
    assert_eq!(decimal(usize::MAX), usize::MAX.to_string());
}

#[test]
fn menu_heading() {
    assert_eq!(menu().heading(), "Difficulty:");
    assert_eq!(OptionSelect::new().heading(), ":");
}

#[test]
fn menu_lines() {
    assert_eq!(menu().option_count(), 3);
    assert_eq!(menu().lines(0), vec!["> [1] Easy", "  [2] Medium", "  [3] Hard"]);
    assert_eq!(menu().lines(1), vec!["  [1] Easy", "> [2] Medium", "  [3] Hard"]);
    assert_eq!(menu().lines(2), vec!["  [1] Easy", "  [2] Medium", "> [3] Hard"]);
    assert_eq!(menu().lines(3), vec!["  [1] Easy", "  [2] Medium", "  [3] Hard"]);
    assert_eq!(OptionSelect::new().lines(0), Vec::<String>::new());
}

#[test]
fn menu_with_many_options() {
    let mut many = OptionSelect::new();
    for i in 0..12 {
        many = many.add_option(format!("option {}", i));
    }
    let lines = many.lines(9);
    assert_eq!(lines[8], "  [9] option 8");
    assert_eq!(lines[9], "> [10] option 9");
    assert_eq!(lines[11], "  [12] option 11");
}

#[test]
fn set_title_replaces_the_title() {
    let twice = menu().set_title("Mode".to_string());
    assert_eq!(twice.heading(), "Mode:");
    assert_eq!(twice.lines(0), vec!["> [1] Easy", "  [2] Medium", "  [3] Hard"]);
}

#[test]
fn menu_keys_move_the_mark() {
    assert_eq!(menu().step(0, Key::Down), MenuStep::Show(1));
    assert_eq!(menu().step(1, Key::Down), MenuStep::Show(2));
    assert_eq!(menu().step(2, Key::Up), MenuStep::Show(1));
    assert_eq!(menu().step(1, Key::Up), MenuStep::Show(0));
}

#[test]
fn menu_mark_stops_at_the_ends() {
    assert_eq!(menu().step(0, Key::Up), MenuStep::Show(0));
    assert_eq!(menu().step(2, Key::Down), MenuStep::Show(2));
}

#[test]
fn menu_enter_chooses() {
    assert_eq!(menu().step(0, Key::Enter), MenuStep::Chosen("Easy".to_string()));
    assert_eq!(menu().step(1, Key::Enter), MenuStep::Chosen("Medium".to_string()));
    assert_eq!(menu().step(2, Key::Enter), MenuStep::Chosen("Hard".to_string()));
}

#[test]
fn menu_other_keys() {
    assert_eq!(menu().step(1, Key::Left), MenuStep::Show(1));
    assert_eq!(menu().step(1, Key::Right), MenuStep::Show(1));
    assert_eq!(menu().step(1, Key::Other), MenuStep::Show(1));
    assert_eq!(menu().step(1, Key::Quit), MenuStep::Quit);
}
