//! The board: a grid of three rows of three squares, its lines, and the placing of a piece.
//!
//! A board is a plain value, an array of three rows of three pieces each, indexed by row
//! and then by column.
//! Nothing here changes a board in place: placing a piece gives a new board.

use vstd::prelude::*;
use crate::error::GameError;
use crate::piece::BoardPiece;
use crate::position::{on_board, BoardPosition, Column, Diagonal, Position, Row};

verus! {

/// A board: three rows of three squares each.
pub type Grid = [[BoardPiece; 3]; 3];

/// The three pieces of a row, a column or a diagonal.
pub type Line = [BoardPiece; 3];

/// The operations on a board. The type holds no data: a board is the grid itself.
pub struct Board;

impl Board {
    /// The piece in row `y`, column `x`.
    pub open spec fn at(board: Grid, y: int, x: int) -> BoardPiece {
        board[y][x]
    }

    /// The row and column of square number `n`, the squares counted row by row from
    /// the top left.
    pub open spec fn square(n: int) -> (int, int) {
        (n / 3, n % 3)
    }

    /// The piece on square number `n`.
    pub open spec fn piece_on(board: Grid, n: int) -> BoardPiece {
        Board::at(board, n / 3, n % 3)
    }

    /// Whether every square is empty.
    pub open spec fn is_blank(board: Grid) -> bool {
        forall|y: int, x: int| on_board(y, x) ==> Board::at(board, y, x) == BoardPiece::Empty
    }

    /// Whether the board holds nothing but pieces of the game: no highlight of the display.
    pub open spec fn is_game_board(board: Grid) -> bool {
        forall|y: int, x: int| on_board(y, x) ==> (#[trigger] Board::at(board, y, x)).in_play()
    }

    /// Whether some square is empty.
    pub open spec fn has_empty(board: Grid) -> bool {
        exists|y: int, x: int| on_board(y, x) && Board::at(board, y, x) == BoardPiece::Empty
    }

    /// How many of the first `n` squares are occupied.
    pub open spec fn occupied_among(board: Grid, n: int) -> nat
        decreases n,
    {
        if n <= 0 {
            0
        } else if Board::piece_on(board, n - 1) != BoardPiece::Empty {
            Board::occupied_among(board, n - 1) + 1
        } else {
            Board::occupied_among(board, n - 1)
        }
    }

    /// How many squares are occupied: the number of turns played so far.
    pub open spec fn turn_count(board: Grid) -> nat {
        Board::occupied_among(board, 9)
    }

    /// The empty squares among the first `n`, in the order of their numbers.
    pub open spec fn empty_among(board: Grid, n: int) -> Seq<(int, int)>
        decreases n,
    {
        if n <= 0 {
            Seq::empty()
        } else if Board::piece_on(board, n - 1) == BoardPiece::Empty {
            Board::empty_among(board, n - 1).push(Board::square(n - 1))
        } else {
            Board::empty_among(board, n - 1)
        }
    }

    /// All empty squares, row by row from the top left.
    pub open spec fn empty_squares(board: Grid) -> Seq<(int, int)> {
        Board::empty_among(board, 9)
    }

    /// Whether `after` is `before` with `piece` put on the square `(y, x)`, and every
    /// other square as it was.
    pub open spec fn is_placement(
        before: Grid,
        y: int,
        x: int,
        piece: BoardPiece,
        after: Grid,
    ) -> bool {
        forall|r: int, c: int|
            on_board(r, c) ==> #[trigger] Board::at(after, r, c) == if r == y && c == x {
                piece
            } else {
                Board::at(before, r, c)
            }
    }

    /// Whether a piece may be put on `(y, x)`: the square is on the board and empty.
    pub open spec fn is_open(board: Grid, y: int, x: int) -> bool {
        on_board(y, x) && Board::at(board, y, x) == BoardPiece::Empty
    }

    /// The row and column of square `i` of line `k`. The eight lines are numbered in the
    /// order in which they are searched: the rows from the top (0 to 2), the columns from
    /// the left (3 to 5), the diagonal from the top left (6) and the one from the top
    /// right (7). Rows run left to right, columns and diagonals top to bottom.
    pub open spec fn line_square(k: int, i: int) -> (int, int) {
        if k < 3 {
            (k, i)
        } else if k < 6 {
            (i, k - 3)
        } else if k == 6 {
            (i, i)
        } else {
            (i, 2 - i)
        }
    }

    /// The piece on square `i` of line `k`.
    pub open spec fn line_piece(board: Grid, k: int, i: int) -> BoardPiece {
        Board::at(board, Board::line_square(k, i).0, Board::line_square(k, i).1)
    }

    /// The three pieces of line `k`.
    pub open spec fn line(board: Grid, k: int) -> Seq<BoardPiece> {
        Seq::new(3, |i: int| Board::line_piece(board, k, i))
    }

    /// A board with every square empty.
    pub fn new() -> (board: Grid)
        ensures
            Board::is_blank(board),
            Board::is_game_board(board),
    {
        [
            [BoardPiece::Empty, BoardPiece::Empty, BoardPiece::Empty],
            [BoardPiece::Empty, BoardPiece::Empty, BoardPiece::Empty],
            [BoardPiece::Empty, BoardPiece::Empty, BoardPiece::Empty],
        ]
    }

    /// The number of occupied squares.
    pub fn get_turn(game_board: &Grid) -> (turn: usize)
        ensures
            turn == Board::turn_count(*game_board),
            turn <= 9,
    {
        let mut turn: usize = 0;
        let mut n: usize = 0;
        while n < 9
            invariant
                n <= 9,
                turn <= n,
                turn == Board::occupied_among(*game_board, n as int),
            decreases 9 - n,
        {
            if game_board[n / 3][n % 3] != BoardPiece::Empty {
                turn += 1;
            }
            n += 1;
        }
        turn
    }

    /// Puts `current_player_board_piece` on `current_pos` and returns the new board. The
    /// square need not be empty: whether a move is allowed is for `valid_move` to say.
    /// A position off the board is refused with `OutOfRange`.
    pub fn place_marker(
        game_board: &Grid,
        current_pos: Position,
        current_player_board_piece: BoardPiece,
    ) -> (placed: Result<Grid, GameError>)
        ensures
            current_pos.in_range() ==> placed is Ok && Board::is_placement(
                *game_board,
                current_pos.y as int,
                current_pos.x as int,
                current_player_board_piece,
                placed->Ok_0,
            ),
            !current_pos.in_range() ==> placed == Err::<Grid, GameError>(
                GameError::OutOfRange,
            ),
            placed is Ok && Board::is_game_board(*game_board)
                && current_player_board_piece.in_play() ==> Board::is_game_board(placed->Ok_0),
    {
        if !current_pos.is_on_board() {
            return Err(GameError::OutOfRange);
        }
        let y = current_pos.get_y() as usize;
        let x = current_pos.get_x() as usize;

        let mut new_game_board = *game_board;
        new_game_board[y][x] = current_player_board_piece;
        proof {
            if Board::is_game_board(*game_board) && current_player_board_piece.in_play() {
                assert forall|r: int, c: int| on_board(r, c) implies (#[trigger] Board::at(
                    new_game_board,
                    r,
                    c,
                )).in_play() by {
                    assert(Board::at(*game_board, r, c).in_play());
                }
            }
        }
        Ok(new_game_board)
    }

    /// The piece on the named square.
    pub fn get_board_piece_at_position(
        game_board: &Grid,
        position: BoardPosition,
    ) -> (piece: BoardPiece)
        ensures
            piece == Board::at(*game_board, position.coords().0, position.coords().1),
    {
        match position {
            BoardPosition::TopLeft => game_board[0][0],
            BoardPosition::TopMiddle => game_board[0][1],
            BoardPosition::TopRight => game_board[0][2],
            BoardPosition::MiddleLeft => game_board[1][0],
            BoardPosition::MiddleMiddle => game_board[1][1],
            BoardPosition::MiddleRight => game_board[1][2],
            BoardPosition::BottomLeft => game_board[2][0],
            BoardPosition::BottomMiddle => game_board[2][1],
            BoardPosition::BottomRight => game_board[2][2],
        }
    }

    /// The three pieces of a row, from left to right.
    pub fn get_row(game_board: &Grid, row: Row) -> (line: Line)
        ensures
            forall|x: int| 0 <= x <= 2 ==> line[x] == Board::at(*game_board, row.index(), x),
            line@ == Board::line(*game_board, row.index()),
    {
        let line = match row {
            Row::Top => game_board[0],
            Row::Middle => game_board[1],
            Row::Bottom => game_board[2],
        };
        assert(line@ =~= Board::line(*game_board, row.index()));
        line
    }

    /// The three pieces of a column, from top to bottom.
    pub fn get_column(game_board: &Grid, column: Column) -> (line: Line)
        ensures
            forall|y: int| 0 <= y <= 2 ==> line[y] == Board::at(*game_board, y, column.index()),
            line@ == Board::line(*game_board, 3 + column.index()),
    {
        let column_number: usize = match column {
            Column::Left => 0,
            Column::Middle => 1,
            Column::Right => 2,
        };
        let column_array = [
            game_board[0][column_number],
            game_board[1][column_number],
            game_board[2][column_number],
        ];
        assert(column_array@ =~= Board::line(*game_board, 3 + column.index()));
        column_array
    }

    /// The three pieces of a diagonal, from top to bottom.
    pub fn get_diagonal(game_board: &Grid, diagonal: Diagonal) -> (line: Line)
        ensures
            forall|y: int|
                0 <= y <= 2 ==> line[y] == Board::at(*game_board, y, diagonal.column_at(y)),
            line@ == Board::line(*game_board, diagonal.line_number()),
    {
        let diagonal_array = match diagonal {
            Diagonal::TopLeftToBottomRight => [game_board[0][0], game_board[1][1], game_board[2][2]],
            Diagonal::TopRightToBottomLeft => [game_board[0][2], game_board[1][1], game_board[2][0]],
        };
        assert(diagonal_array@ =~= Board::line(*game_board, diagonal.line_number()));
        diagonal_array
    }

    /// The three pieces of line `k`.
    pub(crate) fn line_at(game_board: &Grid, k: usize) -> (line: Line)
        requires
            k < 8,
        ensures
            line@ == Board::line(*game_board, k as int),
    {
        if k == 0 {
            Board::get_row(game_board, Row::Top)
        } else if k == 1 {
            Board::get_row(game_board, Row::Middle)
        } else if k == 2 {
            Board::get_row(game_board, Row::Bottom)
        } else if k == 3 {
            Board::get_column(game_board, Column::Left)
        } else if k == 4 {
            Board::get_column(game_board, Column::Middle)
        } else if k == 5 {
            Board::get_column(game_board, Column::Right)
        } else if k == 6 {
            Board::get_diagonal(game_board, Diagonal::TopLeftToBottomRight)
        } else {
            Board::get_diagonal(game_board, Diagonal::TopRightToBottomLeft)
        }
    }

    /// The three pieces of line `k`, for `k` below 8; `OutOfRange` for any other number.
    pub fn get_line(game_board: &Grid, k: usize) -> (line: Result<
        Line,
        GameError,
    >)
        ensures
            k < 8 ==> line is Ok && line->Ok_0@ == Board::line(*game_board, k as int),
            k >= 8 ==> line == Err::<Line, GameError>(GameError::OutOfRange),
    {
        if k < 8 {
            Ok(Board::line_at(game_board, k))
        } else {
            Err(GameError::OutOfRange)
        }
    }

    /// The square `i` of line `k`, as a position.
    pub(crate) fn line_position(k: usize, i: usize) -> (position: Position)
        requires
            k < 8,
            i < 3,
        ensures
            position@ == Board::line_square(k as int, i as int),
            position.in_range(),
    {
        if k < 3 {
            Position::new(k as i8, i as i8)
        } else if k < 6 {
            Position::new(i as i8, (k - 3) as i8)
        } else if k == 6 {
            Position::new(i as i8, i as i8)
        } else {
            Position::new(i as i8, (2 - i) as i8)
        }
    }

    /// The empty squares, row by row from the top left.
    pub fn empty_positions(game_board: &Grid) -> (empty: Vec<Position>)
        ensures
            empty@.len() == Board::empty_squares(*game_board).len(),
            forall|i: int|
                0 <= i < empty@.len() ==> (#[trigger] empty@[i])@ == Board::empty_squares(
                    *game_board,
                )[i],
            empty@.len() + Board::turn_count(*game_board) == 9,
            empty@.len() > 0 <==> Board::has_empty(*game_board),
            forall|i: int|
                0 <= i < empty@.len() ==> Board::is_open(
                    *game_board,
                    (#[trigger] empty@[i]).y as int,
                    empty@[i].x as int,
                ),
    {
        let mut empty: Vec<Position> = Vec::new();
        let mut n: usize = 0;
        while n < 9
            invariant
                n <= 9,
                empty@.len() == Board::empty_among(*game_board, n as int).len(),
                forall|i: int|
                    0 <= i < empty@.len() ==> (#[trigger] empty@[i])@ == Board::empty_among(
                        *game_board,
                        n as int,
                    )[i],
                empty@.len() + Board::occupied_among(*game_board, n as int) == n,
                forall|m: int|
                    0 <= m < n && Board::piece_on(*game_board, m) == BoardPiece::Empty
                        ==> empty@.len() > 0,
                forall|i: int|
                    0 <= i < empty@.len() ==> Board::is_open(
                        *game_board,
                        (#[trigger] empty@[i]).y as int,
                        empty@[i].x as int,
                    ),
            decreases 9 - n,
        {
            let y = n / 3;
            let x = n % 3;
            if game_board[y][x] == BoardPiece::Empty {
                empty.push(Position::new(y as i8, x as i8));
            }
            n += 1;
        }
        proof {
            if Board::has_empty(*game_board) {
                let (y, x) = choose|y: int, x: int|
                    on_board(y, x) && Board::at(*game_board, y, x) == BoardPiece::Empty;
                assert(Board::piece_on(*game_board, 3 * y + x) == BoardPiece::Empty);
            }
            if empty@.len() > 0 {
                assert(Board::is_open(*game_board, empty@[0].y as int, empty@[0].x as int));
            }
        }
        empty
    }
}

/// Whether a piece may be put on `current_pos`: the position is on the board and its
/// square is empty.
pub fn valid_move(game_board: &Grid, current_pos: Position) -> (valid: bool)
    ensures
        valid == Board::is_open(*game_board, current_pos.y as int, current_pos.x as int),
{
    if !current_pos.is_on_board() {
        return false;
    }
    let y = current_pos.get_y() as usize;
    let x = current_pos.get_x() as usize;

    game_board[y][x] == BoardPiece::Empty
}

impl Board {
    /// A board is full exactly when nine squares are occupied.
    pub proof fn lemma_full_board(board: Grid)
        ensures
            Board::turn_count(board) <= 9,
            Board::turn_count(board) == 9 <==> !Board::has_empty(board),
    {
        Board::lemma_occupied_among(board, 9);
        if Board::has_empty(board) {
            let (y, x) = choose|y: int, x: int|
                on_board(y, x) && Board::at(board, y, x) == BoardPiece::Empty;
            assert(Board::piece_on(board, 3 * y + x) == BoardPiece::Empty);
        }
        if Board::turn_count(board) < 9 {
            let m = choose|m: int| 0 <= m < 9 && Board::piece_on(board, m) == BoardPiece::Empty;
            assert(on_board(m / 3, m % 3));
        }
    }

    /// The list of empty squares holds empty squares of the board only, as many as the
    /// occupied squares leave of the nine, and is empty exactly on a full board.
    pub proof fn lemma_empty_squares(board: Grid)
        ensures
            Board::empty_squares(board).len() + Board::turn_count(board) == 9,
            forall|i: int|
                0 <= i < Board::empty_squares(board).len() ==> Board::is_open(
                    board,
                    (#[trigger] Board::empty_squares(board)[i]).0,
                    Board::empty_squares(board)[i].1,
                ),
            Board::empty_squares(board).len() > 0 <==> Board::has_empty(board),
    {
        Board::lemma_empty_among(board, 9);
        if Board::has_empty(board) {
            let (y, x) = choose|y: int, x: int|
                on_board(y, x) && Board::at(board, y, x) == BoardPiece::Empty;
            assert(Board::piece_on(board, 3 * y + x) == BoardPiece::Empty);
        }
        if Board::empty_squares(board).len() > 0 {
            let m = choose|m: int| 0 <= m < 9 && Board::piece_on(board, m) == BoardPiece::Empty;
            assert(on_board(m / 3, m % 3));
        }
    }

    /// A piece put on an empty square is one more occupied square: a move advances
    /// the count of turns by one.
    pub proof fn lemma_move_counts(
        before: Grid,
        y: int,
        x: int,
        piece: BoardPiece,
        after: Grid,
    )
        requires
            Board::is_open(before, y, x),
            piece != BoardPiece::Empty,
            Board::is_placement(before, y, x, piece, after),
        ensures
            Board::turn_count(after) == Board::turn_count(before) + 1,
    {
        Board::lemma_move_counts_among(before, y, x, piece, after, 9);
    }

    /// Among the first `n` squares, a piece put on an empty square is one more occupied
    /// square if its square is among them, and changes nothing if not.
    proof fn lemma_move_counts_among(
        before: Grid,
        y: int,
        x: int,
        piece: BoardPiece,
        after: Grid,
        n: int,
    )
        requires
            0 <= n <= 9,
            Board::is_open(before, y, x),
            piece != BoardPiece::Empty,
            Board::is_placement(before, y, x, piece, after),
        ensures
            Board::occupied_among(after, n) == Board::occupied_among(before, n) + if 3 * y + x
                < n {
                1nat
            } else {
                0nat
            },
        decreases n,
    {
        if n > 0 {
            Board::lemma_move_counts_among(before, y, x, piece, after, n - 1);
            let r = (n - 1) / 3;
            let c = (n - 1) % 3;
            assert(on_board(r, c));
            assert(Board::piece_on(after, n - 1) == Board::at(after, r, c));
            assert((r == y && c == x) <==> 3 * y + x == n - 1);
        }
    }

    /// Putting a piece on a square settles the new board: two boards that both are
    /// the old one with the piece on that square are the same board.
    pub proof fn lemma_placement_is_settled(
        before: Grid,
        y: int,
        x: int,
        piece: BoardPiece,
        first: Grid,
        second: Grid,
    )
        requires
            Board::is_placement(before, y, x, piece, first),
            Board::is_placement(before, y, x, piece, second),
        ensures
            first == second,
    {
        assert forall|r: int| 0 <= r < 3 implies first[r] == second[r] by {
            assert forall|c: int| 0 <= c < 3 implies first[r][c] == second[r][c] by {
                assert(on_board(r, c));
                assert(Board::at(first, r, c) == Board::at(second, r, c));
            }
            assert(first[r] =~= second[r]);
        }
        assert(first =~= second);
    }

    /// Among the first `n` squares at most `n` are occupied, and all `n` are exactly
    /// when none of them is empty.
    pub proof fn lemma_occupied_among(board: Grid, n: int)
        requires
            0 <= n,
        ensures
            Board::occupied_among(board, n) <= n,
            Board::occupied_among(board, n) == n <==> forall|m: int|
                0 <= m < n ==> Board::piece_on(board, m) != BoardPiece::Empty,
        decreases n,
    {
        if n > 0 {
            Board::lemma_occupied_among(board, n - 1);
            if Board::occupied_among(board, n) == n {
                assert forall|m: int| 0 <= m < n implies Board::piece_on(board, m)
                    != BoardPiece::Empty by {}
            } else if Board::piece_on(board, n - 1) != BoardPiece::Empty {
                let m = choose|m: int|
                    0 <= m < n - 1 && Board::piece_on(board, m) == BoardPiece::Empty;
                assert(0 <= m < n);
            }
        }
    }

    /// Of the first `n` squares each is either occupied or listed as empty; what is
    /// listed is an empty square of the board; and the list has an entry exactly when
    /// one of the `n` squares is empty.
    pub proof fn lemma_empty_among(board: Grid, n: int)
        requires
            0 <= n <= 9,
        ensures
            Board::empty_among(board, n).len() + Board::occupied_among(board, n) == n,
            forall|i: int|
                0 <= i < Board::empty_among(board, n).len() ==> Board::is_open(
                    board,
                    (#[trigger] Board::empty_among(board, n)[i]).0,
                    Board::empty_among(board, n)[i].1,
                ),
            Board::empty_among(board, n).len() > 0 <==> exists|m: int|
                0 <= m < n && Board::piece_on(board, m) == BoardPiece::Empty,
        decreases n,
    {
        if n > 0 {
            Board::lemma_empty_among(board, n - 1);
            if Board::piece_on(board, n - 1) != BoardPiece::Empty
                && Board::empty_among(board, n).len() == 0 {
                assert forall|m: int| 0 <= m < n implies Board::piece_on(board, m)
                    != BoardPiece::Empty by {}
            }
        }
    }
}

} // verus!
