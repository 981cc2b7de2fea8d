//! The computer opponent. It plays `O` against `X`.
//!
//! A move is decided in layers, tried in order: take a square that wins at once, take
//! the square with which the opponent would win at once, play by position, and at last
//! take a random empty square. The difficulty says which layers are tried. All that
//! chance decides is gathered in a `Chance` value, so that the decision itself is a
//! function of the board, the difficulty and that value.

use vstd::prelude::*;
use rand::Rng;
use crate::board::{valid_move, Board, Grid, Line};
use crate::config::Difficulty;
use crate::error::GameError;
use crate::piece::{BoardPiece, Player};
use crate::position::{on_board, BoardPosition, Position};
use crate::state::GameState;

verus! {

/// Of five moves on `Medium`, the number in which a layer is overlooked.
pub const MISS_CHANCE_NUMERATOR: u32 = 3;

/// See `MISS_CHANCE_NUMERATOR`.
pub const MISS_CHANCE_DENOMINATOR: u32 = 5;

/// What a layer of the decision found: a move, or nothing. Without a move the position
/// is the centre of the board and means nothing.
#[derive(Clone, Copy, PartialEq, Eq, Structural, Debug)]
pub struct ComputerMove {
    pub valid_move: bool,
    pub position: Position,
}

/// What chance contributes to one move.
#[derive(Clone, Copy, PartialEq, Eq, Structural, Debug)]
pub struct Chance {
    /// On `Medium`: the winning move is overlooked.
    pub miss_win: bool,
    /// On `Medium`: the opponent's threat is overlooked.
    pub miss_block: bool,
    /// Which empty square a random move takes: this number, modulo the number of empty
    /// squares, counted row by row from the top left.
    pub pick: usize,
}

impl ComputerMove {
    /// Whether the value says what `answer` says: the same square where there is one,
    /// and no move, with the centre as its position, where there is none.
    pub open spec fn stands_for(self, answer: Option<(int, int)>) -> bool {
        match answer {
            Some(square) => self.valid_move && self.position@ == square,
            None => !self.valid_move && self.position@ == (1int, 1int),
        }
    }
}

/// 1 if the condition holds, else 0.
pub open spec fn one_if(condition: bool) -> int {
    if condition {
        1
    } else {
        0
    }
}

/// How many of the three pieces of a line are `piece`.
pub open spec fn count_in(line: Seq<BoardPiece>, piece: BoardPiece) -> int {
    one_if(line[0] == piece) + one_if(line[1] == piece) + one_if(line[2] == piece)
}

/// The index of the first empty square among the three of a line.
pub open spec fn first_empty(line: Seq<BoardPiece>) -> Option<int> {
    if line[0] == BoardPiece::Empty {
        Some(0)
    } else if line[1] == BoardPiece::Empty {
        Some(1)
    } else if line[2] == BoardPiece::Empty {
        Some(2)
    } else {
        None
    }
}

/// The edge squares between the corners, in the order in which they are tried.
pub open spec fn side_square(i: int) -> (int, int) {
    if i == 0 {
        (0, 1)
    } else if i == 1 {
        (1, 0)
    } else if i == 2 {
        (1, 2)
    } else {
        (2, 1)
    }
}

/// The corners, in the order in which they are tried. Corner `3 - i` lies opposite
/// corner `i`.
pub open spec fn corner_square(i: int) -> (int, int) {
    if i == 0 {
        (0, 0)
    } else if i == 1 {
        (0, 2)
    } else if i == 2 {
        (2, 0)
    } else {
        (2, 2)
    }
}

impl Board {
    /// How many of the three squares of line `k` hold `piece`.
    pub open spec fn count_in_line(board: Grid, k: int, piece: BoardPiece) -> int {
        count_in(Board::line(board, k), piece)
    }

    /// Whether line `k` is one move from complete for `piece`: two of its squares hold
    /// the piece and the third is empty.
    pub open spec fn is_threat(board: Grid, k: int, piece: BoardPiece) -> bool {
        Board::count_in_line(board, k, piece) == 2 && Board::count_in_line(
            board,
            k,
            BoardPiece::Empty,
        ) == 1
    }

    /// The number of the first line at or after `k` that is one move from complete for
    /// `piece`; 8 if there is none.
    pub open spec fn first_threat_from(board: Grid, piece: BoardPiece, k: int) -> int
        decreases 8 - k,
    {
        if k >= 8 {
            8
        } else if Board::is_threat(board, k, piece) {
            k
        } else {
            Board::first_threat_from(board, piece, k + 1)
        }
    }

    /// The number of the first line, in the order of search, that is one move from
    /// complete for `piece`; 8 if there is none.
    pub open spec fn first_threat(board: Grid, piece: BoardPiece) -> int {
        Board::first_threat_from(board, piece, 0)
    }

    /// The first empty square of line `k`. It means something only where the line has an
    /// empty square.
    pub open spec fn gap(board: Grid, k: int) -> (int, int) {
        Board::line_square(k, first_empty(Board::line(board, k))->0)
    }

    /// The square that completes a line for `piece`: the empty square of the first line
    /// that is one move from complete. None where no line is.
    pub open spec fn completing_square(board: Grid, piece: BoardPiece) -> Option<
        (int, int),
    > {
        let k = Board::first_threat(board, piece);
        if k < 8 {
            Some(Board::gap(board, k))
        } else {
            None
        }
    }

    /// Whether `X` holds two corners that lie opposite each other.
    pub open spec fn has_opposite_corners(board: Grid) -> bool {
        ||| Board::at(board, 0, 0) == BoardPiece::X && Board::at(board, 2, 2) == BoardPiece::X
        ||| Board::at(board, 0, 2) == BoardPiece::X && Board::at(board, 2, 0) == BoardPiece::X
    }

    /// The number of the first empty edge square at or after number `i`; 4 if there is none.
    pub open spec fn first_open_side_from(board: Grid, i: int) -> int
        decreases 4 - i,
    {
        if i >= 4 {
            4
        } else if Board::is_open(board, side_square(i).0, side_square(i).1) {
            i
        } else {
            Board::first_open_side_from(board, i + 1)
        }
    }

    /// Whether corner `i` holds `X` while the corner opposite is empty.
    pub open spec fn corner_invites(board: Grid, i: int) -> bool {
        Board::at(board, corner_square(i).0, corner_square(i).1) == BoardPiece::X && Board::is_open(
            board,
            corner_square(3 - i).0,
            corner_square(3 - i).1,
        )
    }

    /// The number of the first corner at or after number `i` that holds `X` while the
    /// corner opposite is empty; 4 if there is none.
    pub open spec fn first_inviting_corner_from(board: Grid, i: int) -> int
        decreases 4 - i,
    {
        if i >= 4 {
            4
        } else if Board::corner_invites(board, i) {
            i
        } else {
            Board::first_inviting_corner_from(board, i + 1)
        }
    }

    /// The move by position: the centre if it is empty; else, where `X` holds two
    /// opposite corners, the first empty edge square; else the corner opposite the first
    /// corner of `X` whose opposite is empty. None where no rule applies.
    pub open spec fn positional_square(board: Grid) -> Option<(int, int)> {
        let side = Board::first_open_side_from(board, 0);
        let corner = Board::first_inviting_corner_from(board, 0);
        if Board::is_open(board, 1, 1) {
            Some((1, 1))
        } else if Board::has_opposite_corners(board) && side < 4 {
            Some(side_square(side))
        } else if corner < 4 {
            Some(corner_square(3 - corner))
        } else {
            None
        }
    }

    /// The random move: the empty square whose number among the empty squares is `pick`
    /// modulo their count. None on a full board.
    pub open spec fn random_square(board: Grid, pick: usize) -> Option<(int, int)> {
        let squares = Board::empty_squares(board);
        if squares.len() == 0 {
            None
        } else {
            Some(squares[pick as int % squares.len() as int])
        }
    }

    /// The `Hard` move after a look for a win and for a threat found neither: the move
    /// by position, or else the random move.
    pub open spec fn best_square(board: Grid, pick: usize) -> Option<(int, int)> {
        if Board::positional_square(board) is Some {
            Board::positional_square(board)
        } else {
            Board::random_square(board, pick)
        }
    }

    /// The part of the `Hard` move in which chance has no say: the first that exists of
    /// the square that wins, the square that blocks, and the move by position.
    pub open spec fn planned_square(board: Grid) -> Option<(int, int)> {
        if Board::completing_square(board, BoardPiece::O) is Some {
            Board::completing_square(board, BoardPiece::O)
        } else if Board::completing_square(board, BoardPiece::X) is Some {
            Board::completing_square(board, BoardPiece::X)
        } else {
            Board::positional_square(board)
        }
    }

    /// Whether `chosen` reports `square`: the position of that square where there is
    /// one, and `PolicyPrecondition` where there is none.
    pub open spec fn answers(chosen: Result<Position, GameError>, square: Option<(int, int)>) -> bool {
        match square {
            Some(square) => chosen is Ok && chosen->Ok_0@ == square,
            None => chosen == Err::<Position, GameError>(GameError::PolicyPrecondition),
        }
    }

    /// Whether `chosen` is the computer's move for what chance gave.
    pub open spec fn is_choice(
        board: Grid,
        difficulty: Difficulty,
        chance: Chance,
        chosen: Result<Position, GameError>,
    ) -> bool {
        Board::answers(chosen, Board::chosen_square(board, difficulty, chance))
    }

    /// The computer's move. `Easy` takes the random move. `Hard` takes the first that
    /// exists of: the square that wins, the square that blocks, the move by position,
    /// the random move. `Medium` looks for the win unless chance has it overlooked, then
    /// for the block unless chance has that overlooked, and takes the random move as
    /// soon as it overlooks one or when it finds neither. None on a full board.
    pub open spec fn chosen_square(
        board: Grid,
        difficulty: Difficulty,
        chance: Chance,
    ) -> Option<(int, int)> {
        let win = Board::completing_square(board, BoardPiece::O);
        let block = Board::completing_square(board, BoardPiece::X);
        let random = Board::random_square(board, chance.pick);
        match difficulty {
            Difficulty::Easy => random,
            Difficulty::Medium => {
                if chance.miss_win {
                    random
                } else if win is Some {
                    win
                } else if chance.miss_block {
                    random
                } else if block is Some {
                    block
                } else {
                    random
                }
            },
            Difficulty::Hard => {
                if win is Some {
                    win
                } else if block is Some {
                    block
                } else {
                    Board::best_square(board, chance.pick)
                }
            },
        }
    }
}

impl ComputerMove {
    pub fn new(valid_move: bool, position: Position) -> (found: ComputerMove)
        ensures
            found.valid_move == valid_move,
            found.position == position,
    {
        ComputerMove { valid_move, position }
    }

    pub fn set_valid_move(&mut self, valid_move: bool)
        ensures
            final(self).valid_move == valid_move,
            final(self).position == old(self).position,
    {
        self.valid_move = valid_move;
    }

    pub fn set_position(&mut self, position: Position)
        ensures
            final(self).position == position,
            final(self).valid_move == old(self).valid_move,
    {
        self.position = position;
    }

    pub fn is_valid(&self) -> (valid: bool)
        ensures
            valid == self.valid_move,
    {
        self.valid_move
    }

    pub fn get_position(&self) -> (position: Position)
        ensures
            position == self.position,
    {
        self.position
    }
}

/// The index of the first empty square of a line, if it has one.
pub fn get_empty_position_from_line(line: Line) -> (found: Option<i8>)
    ensures
        match found {
            Some(i) => first_empty(line@) == Some(i as int) && 0 <= i <= 2 && line@[i as int]
                == BoardPiece::Empty && forall|j: int|
                0 <= j < i ==> line@[j] != BoardPiece::Empty,
            None => first_empty(line@) is None && forall|j: int|
                0 <= j <= 2 ==> line@[j] != BoardPiece::Empty,
        },
{
    let mut index: usize = 0;
    while index < 3
        invariant
            index <= 3,
            forall|j: int| 0 <= j < index ==> line@[j] != BoardPiece::Empty,
        decreases 3 - index,
    {
        if line[index] == BoardPiece::Empty {
            return Some(index as i8);
        }
        index += 1;
    }

    None
}

/// How many of the three pieces of a line are `piece`.
fn count_pieces(line: &Line, piece: BoardPiece) -> (count: usize)
    ensures
        count == count_in(line@, piece),
{
    let mut count: usize = 0;
    if line[0] == piece {
        count += 1;
    }
    if line[1] == piece {
        count += 1;
    }
    if line[2] == piece {
        count += 1;
    }
    count
}

/// Looks for a line in which `win_player` has two pieces and the third square is empty,
/// and returns that empty square: the move that wins for `win_player`, or that stops
/// them if the other side takes it. The lines are searched in their order and the first
/// such line decides. `win_player` is `X` or `O`.
pub fn counter_player_win(game_board: &Grid, win_player: BoardPiece) -> (found:
    ComputerMove)
    requires
        win_player == BoardPiece::X || win_player == BoardPiece::O,
    ensures
        found.stands_for(Board::completing_square(*game_board, win_player)),
{
    let mut k: usize = 0;
    while k < 8
        invariant
            k <= 8,
            Board::first_threat(*game_board, win_player) == Board::first_threat_from(
                *game_board,
                win_player,
                k as int,
            ),
        decreases 8 - k,
    {
        let line = Board::line_at(game_board, k);

        let player_piece_count = count_pieces(&line, win_player);
        let empty_piece_count = count_pieces(&line, BoardPiece::Empty);

        if player_piece_count == 2 && empty_piece_count == 1 {
            let empty_position = get_empty_position_from_line(line);
            if empty_position.is_some() {
                let index = empty_position.unwrap();
                return ComputerMove::new(true, Board::line_position(k, index as usize));
            }
        }
        k += 1;
    }

    ComputerMove::new(false, Position::new(1, 1))
}

/// Corner number `i`, in the order in which the corners are tried.
fn corner(i: usize) -> (position: Position)
    requires
        i < 4,
    ensures
        position@ == corner_square(i as int),
        position.in_range(),
{
    if i == 0 {
        Position::new(0, 0)
    } else if i == 1 {
        Position::new(0, 2)
    } else if i == 2 {
        Position::new(2, 0)
    } else {
        Position::new(2, 2)
    }
}

/// Edge square number `i`, in the order in which the edge squares are tried.
fn side(i: usize) -> (position: Position)
    requires
        i < 4,
    ensures
        position@ == side_square(i as int),
        position.in_range(),
{
    if i == 0 {
        Position::new(0, 1)
    } else if i == 1 {
        Position::new(1, 0)
    } else if i == 2 {
        Position::new(1, 2)
    } else {
        Position::new(2, 1)
    }
}

/// Whether `X` holds two corners that lie opposite each other.
pub fn player_has_opposite_corners(game_board: &Grid) -> (held: bool)
    ensures
        held == Board::has_opposite_corners(*game_board),
{
    let top_left = Board::get_board_piece_at_position(game_board, BoardPosition::TopLeft);
    let top_right = Board::get_board_piece_at_position(game_board, BoardPosition::TopRight);
    let bottom_left = Board::get_board_piece_at_position(game_board, BoardPosition::BottomLeft);
    let bottom_right = Board::get_board_piece_at_position(game_board, BoardPosition::BottomRight);

    (top_left == BoardPiece::X && bottom_right == BoardPiece::X) || (top_right == BoardPiece::X
        && bottom_left == BoardPiece::X)
}

/// The square that lies opposite `corner` through the centre of the board. Both
/// coordinates of `corner` are at least -125, so that the result fits.
pub fn get_opposite_corner(corner: Position) -> (opposite: Position)
    requires
        corner.y >= -125,
        corner.x >= -125,
    ensures
        opposite@ == (2 - corner.y, 2 - corner.x),
        corner.in_range() ==> opposite.in_range(),
{
    Position::new(2 - corner.get_y(), 2 - corner.get_x())
}

/// The random move: of the empty squares, counted row by row from the top left, the
/// one whose number is `pick` modulo their count. `PolicyPrecondition` on a full board.
pub fn make_random_move(game_board: &Grid, pick: usize) -> (chosen: Result<
    Position,
    GameError,
>)
    ensures
        Board::answers(chosen, Board::random_square(*game_board, pick)),
{
    let empty = Board::empty_positions(game_board);
    if empty.len() == 0 {
        return Err(GameError::PolicyPrecondition);
    }
    Ok(empty[pick % empty.len()])
}

/// The `Hard` move where there is nothing to win and nothing to block: the centre if it
/// is empty; else, where `X` holds two opposite corners, the first empty edge square;
/// else the corner opposite a corner of `X`; else the random move for `pick`. Only a
/// full board leaves it without a move.
pub fn find_best_move_hard_mode(game_board: &Grid, pick: usize) -> (found:
    ComputerMove)
    ensures
        found.stands_for(Board::best_square(*game_board, pick)),
{
    // the centre, if it is free
    if valid_move(game_board, Position::new(1, 1)) {
        return ComputerMove::new(true, Position::new(1, 1));
    }

    // against two opposite corners, the first free edge square
    let mut i: usize = 0;
    if player_has_opposite_corners(game_board) {
        while i < 4
            invariant
                i <= 4,
                !Board::is_open(*game_board, 1, 1),
                Board::has_opposite_corners(*game_board),
                Board::first_open_side_from(*game_board, 0) == Board::first_open_side_from(
                    *game_board,
                    i as int,
                ),
            decreases 4 - i,
        {
            let pos = side(i);
            if valid_move(game_board, pos) {
                return ComputerMove::new(true, pos);
            }
            i += 1;
        }
    }

    // against a corner, the corner opposite
    i = 0;
    while i < 4
        invariant
            i <= 4,
            !Board::is_open(*game_board, 1, 1),
            !(Board::has_opposite_corners(*game_board) && Board::first_open_side_from(
                *game_board,
                0,
            ) < 4),
            Board::first_inviting_corner_from(*game_board, 0) == Board::first_inviting_corner_from(
                *game_board,
                i as int,
            ),
        decreases 4 - i,
    {
        let player_corner = corner(i);
        if game_board[player_corner.get_y() as usize][player_corner.get_x() as usize]
            == BoardPiece::X {
            let opposite_corner = get_opposite_corner(player_corner);
            if valid_move(game_board, opposite_corner) {
                return ComputerMove::new(true, opposite_corner);
            }
        }
        i += 1;
    }

    match make_random_move(game_board, pick) {
        Ok(position) => ComputerMove::new(true, position),
        Err(_) => ComputerMove::new(false, Position::new(1, 1)),
    }
}

/// The computer's move on `game_board` for what chance gave. See `Board::chosen_square`
/// for the rules. `PolicyPrecondition` on a full board, and only there.
pub fn choose_move(
    game_board: &Grid,
    difficulty: Difficulty,
    chance: Chance,
) -> (chosen: Result<Position, GameError>)
    ensures
        Board::is_choice(*game_board, difficulty, chance, chosen),
{
    if difficulty == Difficulty::Easy {
        return make_random_move(game_board, chance.pick);
    }
    if difficulty == Difficulty::Medium && chance.miss_win {
        return make_random_move(game_board, chance.pick);
    }
    let computer_win = counter_player_win(game_board, BoardPiece::O);
    if computer_win.is_valid() {
        return Ok(computer_win.get_position());
    }
    if difficulty == Difficulty::Medium && chance.miss_block {
        return make_random_move(game_board, chance.pick);
    }
    let player_win = counter_player_win(game_board, BoardPiece::X);
    if player_win.is_valid() {
        return Ok(player_win.get_position());
    }
    if difficulty == Difficulty::Medium {
        make_random_move(game_board, chance.pick)
    } else {
        let best = find_best_move_hard_mode(game_board, chance.pick);
        if best.is_valid() {
            Ok(best.get_position())
        } else {
            Err(GameError::PolicyPrecondition)
        }
    }
}

/// Draws a number below `bound` by `rand::Rng::gen_range` on the generator that
/// `rand::thread_rng` gives, with the range from 0 up to and without `bound`. The call
/// panics on an empty range, so `bound` is not 0. All that is claimed is that the number
/// lies in the range; that the generator could be seeded is taken for granted.
#[verifier::external_body]
fn random_below(bound: usize) -> (drawn: usize)
    requires
        bound > 0,
    ensures
        drawn < bound,
{
    rand::thread_rng().gen_range(0..bound)
}

/// Draws a yes or no by `rand::Rng::gen_ratio` on the generator that `rand::thread_rng`
/// gives: yes with a chance of `numerator` in `denominator`. The call panics where
/// `denominator` is 0 or `numerator` is above it. Claimed are the two certain cases
/// only: always yes where the two are equal, always no where `numerator` is 0.
#[verifier::external_body]
fn random_ratio(numerator: u32, denominator: u32) -> (hit: bool)
    requires
        denominator > 0,
        numerator <= denominator,
    ensures
        numerator == denominator ==> hit,
        numerator == 0 ==> !hit,
{
    rand::thread_rng().gen_ratio(numerator, denominator)
}

/// The computer's move on `game_board`, with chance drawn afresh: on `Medium` whether
/// the win and whether the threat is overlooked, each with a chance of
/// `MISS_CHANCE_NUMERATOR` in `MISS_CHANCE_DENOMINATOR`, and the number of the empty
/// square that a random move takes. The move is always an empty square of the board;
/// `PolicyPrecondition` comes on a full board, and only there. On `Hard`, where a win,
/// a block or a move by position exists, chance has no part in the result.
pub fn computer_move(game_board: &Grid, difficulty: Difficulty) -> (chosen: Result<
    Position,
    GameError,
>)
    ensures
        exists|chance: Chance| Board::is_choice(*game_board, difficulty, chance, chosen),
        Board::has_empty(*game_board) ==> chosen is Ok && Board::is_open(
            *game_board,
            chosen->Ok_0.y as int,
            chosen->Ok_0.x as int,
        ),
        !Board::has_empty(*game_board) ==> chosen == Err::<Position, GameError>(
            GameError::PolicyPrecondition,
        ),
        difficulty == Difficulty::Hard && Board::planned_square(*game_board) is Some
            ==> Board::answers(chosen, Board::planned_square(*game_board)),
{
    let turn = Board::get_turn(game_board);
    let pick = if turn < 9 {
        random_below(9 - turn)
    } else {
        0
    };
    let mut miss_win = false;
    let mut miss_block = false;
    if difficulty == Difficulty::Medium {
        miss_win = random_ratio(MISS_CHANCE_NUMERATOR, MISS_CHANCE_DENOMINATOR);
        miss_block = random_ratio(MISS_CHANCE_NUMERATOR, MISS_CHANCE_DENOMINATOR);
    }
    let chance = Chance { miss_win, miss_block, pick };
    let chosen = choose_move(game_board, difficulty, chance);
    proof {
        Board::lemma_choice_is_open(*game_board, difficulty, chance);
    }
    chosen
}

impl Board {
    /// What `first_threat_from` finds: below 8 it is a line one move from complete with
    /// no such line between `k` and it, and 8 means that there is none from `k` on.
    pub proof fn lemma_first_threat_from(board: Grid, piece: BoardPiece, k: int)
        requires
            0 <= k <= 8,
        ensures
            k <= Board::first_threat_from(board, piece, k) <= 8,
            Board::first_threat_from(board, piece, k) < 8 ==> Board::is_threat(
                board,
                Board::first_threat_from(board, piece, k),
                piece,
            ),
            forall|j: int|
                k <= j < Board::first_threat_from(board, piece, k) ==> !Board::is_threat(
                    board,
                    j,
                    piece,
                ),
        decreases 8 - k,
    {
        if k < 8 && !Board::is_threat(board, k, piece) {
            Board::lemma_first_threat_from(board, piece, k + 1);
        }
    }

    /// In a line with exactly one empty square, that square is the gap of the line, and
    /// a piece may be put there.
    pub proof fn lemma_gap(board: Grid, k: int, i: int)
        requires
            0 <= k < 8,
            0 <= i <= 2,
            Board::count_in_line(board, k, BoardPiece::Empty) == 1,
            Board::line_piece(board, k, i) == BoardPiece::Empty,
        ensures
            Board::gap(board, k) == Board::line_square(k, i),
            Board::is_open(board, Board::gap(board, k).0, Board::gap(board, k).1),
    {
    }

    /// A square that completes a line is an empty square of the board, and there is one
    /// exactly when some line is one move from complete.
    pub proof fn lemma_completing_square(board: Grid, piece: BoardPiece)
        ensures
            Board::completing_square(board, piece) is Some <==> exists|k: int|
                0 <= k < 8 && Board::is_threat(board, k, piece),
            Board::completing_square(board, piece) matches Some(square) ==> Board::is_open(
                board,
                square.0,
                square.1,
            ),
    {
        Board::lemma_first_threat_from(board, piece, 0);
        let k = Board::first_threat(board, piece);
        if k < 8 {
            let i = if Board::line_piece(board, k, 0) == BoardPiece::Empty {
                0int
            } else if Board::line_piece(board, k, 1) == BoardPiece::Empty {
                1int
            } else {
                2int
            };
            Board::lemma_gap(board, k, i);
        }
    }

    /// The move that completes a line wins: on a board without a complete line, a
    /// player's piece put on the square that completes a line for that player leaves
    /// the game won by that player.
    pub proof fn lemma_completing_square_wins(
        board: Grid,
        player: Player,
        after: Grid,
    )
        requires
            Board::first_complete(board) == 8,
            Board::completing_square(board, player.piece()) matches Some(square)
                && Board::is_placement(board, square.0, square.1, player.piece(), after),
        ensures
            Board::status(after) == GameState::Win(player),
    {
        let piece = player.piece();
        let square = Board::completing_square(board, piece)->0;
        Board::lemma_first_threat_from(board, piece, 0);
        Board::lemma_first_complete_from(board, 0);
        let k = Board::first_threat(board, piece);
        let i = if Board::line_piece(board, k, 0) == BoardPiece::Empty {
            0int
        } else if Board::line_piece(board, k, 1) == BoardPiece::Empty {
            1int
        } else {
            2int
        };
        Board::lemma_gap(board, k, i);
        assert forall|m: int| 0 <= m <= 2 implies Board::line_piece(after, k, m) == piece by {
            assert(on_board(Board::line_square(k, m).0, Board::line_square(k, m).1));
        }
        assert(Board::line_filled_by(after, k, piece));
        assert forall|j: int| 0 <= j < 8 implies !Board::line_filled_by(
            after,
            j,
            player.other().piece(),
        ) by {
            if Board::line_filled_by(after, j, player.other().piece()) {
                assert forall|m: int| 0 <= m <= 2 implies Board::line_piece(board, j, m)
                    == player.other().piece() by {
                    assert(on_board(Board::line_square(j, m).0, Board::line_square(j, m).1));
                    assert(Board::line_piece(after, j, m) == player.other().piece());
                }
                assert(Board::line_owner(board, j) == Some(player.other()));
            }
        }
        Board::lemma_complete_line_wins(after, k, player);
    }

    /// The move by position, where there is one, is an empty square of the board.
    pub proof fn lemma_positional_square(board: Grid)
        ensures
            Board::positional_square(board) matches Some(square) ==> Board::is_open(
                board,
                square.0,
                square.1,
            ),
    {
        reveal_with_fuel(Board::first_open_side_from, 5);
        reveal_with_fuel(Board::first_inviting_corner_from, 5);
    }

    /// The random move is an empty square of the board, and there is one exactly when
    /// the board has an empty square.
    pub proof fn lemma_random_square(board: Grid, pick: usize)
        ensures
            Board::random_square(board, pick) is Some <==> Board::has_empty(board),
            Board::random_square(board, pick) matches Some(square) ==> Board::is_open(
                board,
                square.0,
                square.1,
            ),
    {
        Board::lemma_empty_squares(board);
        let squares = Board::empty_squares(board);
        if squares.len() > 0 {
            let index = pick as int % squares.len() as int;
            assert(0 <= index < squares.len());
            assert(Board::is_open(board, squares[index].0, squares[index].1));
        }
    }

    /// The computer always moves to an empty square: on every board with an empty
    /// square, at every difficulty and whatever chance gives, the chosen square is
    /// on the board and empty. On a full board, and only there, no square is chosen.
    pub proof fn lemma_choice_is_open(
        board: Grid,
        difficulty: Difficulty,
        chance: Chance,
    )
        ensures
            Board::chosen_square(board, difficulty, chance) is Some <==> Board::has_empty(board),
            Board::chosen_square(board, difficulty, chance) matches Some(square)
                ==> Board::is_open(board, square.0, square.1),
    {
        Board::lemma_completing_square(board, BoardPiece::O);
        Board::lemma_completing_square(board, BoardPiece::X);
        Board::lemma_positional_square(board);
        Board::lemma_random_square(board, chance.pick);
    }

    /// A win comes before everything else: where line `k` holds two `O` and its square
    /// `i` is empty, `Hard` plays that square, whatever chance gives. Where more than
    /// one line is in that state the first in the order of search decides, so of the
    /// lines before `k` that are in it the gap is asked to be the same square.
    pub proof fn lemma_hard_takes_win(board: Grid, chance: Chance, k: int, i: int)
        requires
            0 <= k < 8,
            0 <= i <= 2,
            Board::is_threat(board, k, BoardPiece::O),
            Board::line_piece(board, k, i) == BoardPiece::Empty,
            forall|j: int|
                0 <= j < k && Board::is_threat(board, j, BoardPiece::O) ==> Board::gap(board, j)
                    == Board::line_square(k, i),
        ensures
            Board::chosen_square(board, Difficulty::Hard, chance) == Some(
                Board::line_square(k, i),
            ),
    {
        Board::lemma_first_threat_from(board, BoardPiece::O, 0);
        Board::lemma_gap(board, k, i);
    }

    /// A block comes next: where `O` has no line with two pieces and an empty square,
    /// and line `k` holds two `X` and its square `i` is empty, `Hard` plays that square,
    /// whatever chance gives. As for the win, the first such line decides.
    pub proof fn lemma_hard_blocks(board: Grid, chance: Chance, k: int, i: int)
        requires
            0 <= k < 8,
            0 <= i <= 2,
            forall|j: int| 0 <= j < 8 ==> !Board::is_threat(board, j, BoardPiece::O),
            Board::is_threat(board, k, BoardPiece::X),
            Board::line_piece(board, k, i) == BoardPiece::Empty,
            forall|j: int|
                0 <= j < k && Board::is_threat(board, j, BoardPiece::X) ==> Board::gap(board, j)
                    == Board::line_square(k, i),
        ensures
            Board::chosen_square(board, Difficulty::Hard, chance) == Some(
                Board::line_square(k, i),
            ),
    {
        Board::lemma_first_threat_from(board, BoardPiece::O, 0);
        Board::lemma_first_threat_from(board, BoardPiece::X, 0);
        Board::lemma_gap(board, k, i);
    }
}

} // verus!
