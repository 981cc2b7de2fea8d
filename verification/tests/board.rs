use tic_tac_toe::board::{valid_move, Board};
use tic_tac_toe::error::GameError;
use tic_tac_toe::piece::BoardPiece;
use tic_tac_toe::position::{BoardPosition, Column, Diagonal, Position, Row};

const E: BoardPiece = BoardPiece::Empty;
const X: BoardPiece = BoardPiece::X;
const O: BoardPiece = BoardPiece::O;

#[test]
fn new_board_is_empty() {
    let board = Board::new();
    assert_eq!(board, [[E, E, E], [E, E, E], [E, E, E]]);
    assert_eq!(Board::get_turn(&board), 0);
}

#[test]
fn get_turn_counts_occupied_squares() {
    assert_eq!(Board::get_turn(&[[X, E, E], [E, O, E], [E, E, X]]), 3);
    assert_eq!(Board::get_turn(&[[X, O, X], [X, O, O], [O, X, X]]), 9);
    assert_eq!(Board::get_turn(&[[E, E, E], [E, E, E], [E, E, O]]), 1);
}

#[test]
fn get_turn_counts_highlights_as_occupied() {
    assert_eq!(Board::get_turn(&[[BoardPiece::Taken, E, E], [E, BoardPiece::XSelected, E], [E, E, E]]), 2);
}

#[test]
fn place_marker_changes_one_square() {
    let board = [[X, E, E], [E, O, E], [E, E, E]];
    let placed = Board::place_marker(&board, Position::new(2, 1), X);
    assert_eq!(placed, Ok([[X, E, E], [E, O, E], [E, X, E]]));
    assert_eq!(board, [[X, E, E], [E, O, E], [E, E, E]]);
}

#[test]
fn place_marker_does_not_check_occupancy() {
    let board = [[X, E, E], [E, O, E], [E, E, E]];
    let placed = Board::place_marker(&board, Position::new(1, 1), X);
    assert_eq!(placed, Ok([[X, E, E], [E, X, E], [E, E, E]]));
}

#[test]
fn place_marker_refuses_positions_off_the_board() {
    let board = Board::new();
    assert_eq!(Board::place_marker(&board, Position::new(3, 0), X), Err(GameError::OutOfRange));
    assert_eq!(Board::place_marker(&board, Position::new(0, 3), X), Err(GameError::OutOfRange));
    assert_eq!(Board::place_marker(&board, Position::new(-1, 0), X), Err(GameError::OutOfRange));
    assert_eq!(Board::place_marker(&board, Position::new(0, -1), X), Err(GameError::OutOfRange));
    assert_eq!(Board::place_marker(&board, Position::new(127, -128), X), Err(GameError::OutOfRange));
}

#[test]
fn place_marker_reaches_every_square() {
    for y in 0..3i8 {
        for x in 0..3i8 {
            let placed = Board::place_marker(&Board::new(), Position::new(y, x), O).unwrap();
            for r in 0..3usize {
                for c in 0..3usize {
                    let expected = if r == y as usize && c == x as usize { O } else { E };
                    assert_eq!(placed[r][c], expected);
                }
            }
        }
    }
}

#[test]
fn rows_columns_and_diagonals() {
    let board = [[X, O, E], [E, X, O], [O, E, X]];
    assert_eq!(Board::get_row(&board, Row::Top), [X, O, E]);
    assert_eq!(Board::get_row(&board, Row::Middle), [E, X, O]);
    assert_eq!(Board::get_row(&board, Row::Bottom), [O, E, X]);
    assert_eq!(Board::get_column(&board, Column::Left), [X, E, O]);
    assert_eq!(Board::get_column(&board, Column::Middle), [O, X, E]);
    assert_eq!(Board::get_column(&board, Column::Right), [E, O, X]);
    assert_eq!(Board::get_diagonal(&board, Diagonal::TopLeftToBottomRight), [X, X, X]);
    assert_eq!(Board::get_diagonal(&board, Diagonal::TopRightToBottomLeft), [E, X, O]);
}

#[test]
fn lines_by_number() {
    let board = [[X, O, E], [E, X, O], [O, E, X]];
    assert_eq!(Board::get_line(&board, 0), Ok([X, O, E]));
    assert_eq!(Board::get_line(&board, 1), Ok([E, X, O]));
    assert_eq!(Board::get_line(&board, 2), Ok([O, E, X]));
    assert_eq!(Board::get_line(&board, 3), Ok([X, E, O]));
    assert_eq!(Board::get_line(&board, 4), Ok([O, X, E]));
    assert_eq!(Board::get_line(&board, 5), Ok([E, O, X]));
    assert_eq!(Board::get_line(&board, 6), Ok([X, X, X]));
    assert_eq!(Board::get_line(&board, 7), Ok([E, X, O]));
    assert_eq!(Board::get_line(&board, 8), Err(GameError::OutOfRange));
    assert_eq!(Board::get_line(&board, usize::MAX), Err(GameError::OutOfRange));
}

#[test]
fn row_and_column_from_index() {
    assert_eq!(Row::from_index(0), Ok(Row::Top));
    assert_eq!(Row::from_index(1), Ok(Row::Middle));
    assert_eq!(Row::from_index(2), Ok(Row::Bottom));
    assert_eq!(Row::from_index(3), Err(GameError::OutOfRange));
    assert_eq!(Column::from_index(0), Ok(Column::Left));
    assert_eq!(Column::from_index(1), Ok(Column::Middle));
    assert_eq!(Column::from_index(2), Ok(Column::Right));
    assert_eq!(Column::from_index(3), Err(GameError::OutOfRange));
}

#[test]
fn pieces_by_named_square() {
    let board = [[X, O, E], [E, X, O], [O, E, X]];
    assert_eq!(Board::get_board_piece_at_position(&board, BoardPosition::TopLeft), X);
    assert_eq!(Board::get_board_piece_at_position(&board, BoardPosition::TopMiddle), O);
    assert_eq!(Board::get_board_piece_at_position(&board, BoardPosition::TopRight), E);
    assert_eq!(Board::get_board_piece_at_position(&board, BoardPosition::MiddleLeft), E);
    assert_eq!(Board::get_board_piece_at_position(&board, BoardPosition::MiddleMiddle), X);
    assert_eq!(Board::get_board_piece_at_position(&board, BoardPosition::MiddleRight), O);
    assert_eq!(Board::get_board_piece_at_position(&board, BoardPosition::BottomLeft), O);
    assert_eq!(Board::get_board_piece_at_position(&board, BoardPosition::BottomMiddle), E);
    assert_eq!(Board::get_board_piece_at_position(&board, BoardPosition::BottomRight), X);
}

#[test]
fn queries_give_the_same_answer_each_time() {
    let board = [[X, O, E], [E, X, O], [O, E, X]];
    assert_eq!(Board::get_row(&board, Row::Middle), Board::get_row(&board, Row::Middle));
    assert_eq!(Board::get_column(&board, Column::Right), Board::get_column(&board, Column::Right));
    assert_eq!(
        Board::get_diagonal(&board, Diagonal::TopRightToBottomLeft),
        Board::get_diagonal(&board, Diagonal::TopRightToBottomLeft)
    );
    assert_eq!(Board::get_turn(&board), Board::get_turn(&board));
}

#[test]
fn valid_move_wants_an_empty_square_on_the_board() {
    let board = [[X, E, E], [E, O, E], [E, E, E]];
    assert!(valid_move(&board, Position::new(0, 1)));
    assert!(valid_move(&board, Position::new(2, 2)));
    assert!(!valid_move(&board, Position::new(0, 0)));
    assert!(!valid_move(&board, Position::new(1, 1)));
    assert!(!valid_move(&board, Position::new(3, 0)));
    assert!(!valid_move(&board, Position::new(0, 3)));
    assert!(!valid_move(&board, Position::new(-1, 2)));
    assert!(!valid_move(&board, Position::new(2, -1)));
}

#[test]
fn valid_move_rejects_highlighted_squares() {
    let board = [[BoardPiece::Taken, BoardPiece::XSelected, BoardPiece::OSelected], [E, E, E], [E, E, E]];
    assert!(!valid_move(&board, Position::new(0, 0)));
    assert!(!valid_move(&board, Position::new(0, 1)));
    assert!(!valid_move(&board, Position::new(0, 2)));
}

#[test]
fn empty_positions_row_by_row() {
    let board = [[X, E, O], [E, O, X], [X, E, E]];
    assert_eq!(
        Board::empty_positions(&board),
        vec![Position::new(0, 1), Position::new(1, 0), Position::new(2, 1), Position::new(2, 2)]
    );
    assert_eq!(Board::empty_positions(&[[X, O, X], [X, O, O], [O, X, X]]), vec![]);
    assert_eq!(Board::empty_positions(&Board::new()).len(), 9);
}
