//! Squares of the board, the cursor that walks over them, and the names of the
//! rows, columns and diagonals.

use vstd::prelude::*;
use crate::error::GameError;

verus! {

/// A direction in which the cursor can move.
#[derive(Clone, Copy, PartialEq, Eq, Structural, Debug)]
pub enum Movement {
    Up,
    Down,
    Left,
    Right,
}

/// One of the two diagonals.
#[derive(Clone, Copy, PartialEq, Eq, Structural, Debug)]
pub enum Diagonal {
    TopLeftToBottomRight,
    TopRightToBottomLeft,
}

/// One of the three columns.
#[derive(Clone, Copy, PartialEq, Eq, Structural, Debug)]
pub enum Column {
    Left,
    Middle,
    Right,
}

/// One of the three rows.
#[derive(Clone, Copy, PartialEq, Eq, Structural, Debug)]
pub enum Row {
    Top,
    Middle,
    Bottom,
}

/// The nine squares by name.
#[derive(Clone, Copy, PartialEq, Eq, Structural, Debug)]
pub enum BoardPosition {
    TopLeft,
    TopMiddle,
    TopRight,
    MiddleLeft,
    MiddleMiddle,
    MiddleRight,
    BottomLeft,
    BottomMiddle,
    BottomRight,
}

/// A square given by its row `y` and its column `x`, counted from the top left.
/// A position on the board has both in `0..=2`; the type itself holds any pair.
#[derive(Clone, Copy, PartialEq, Eq, Structural, Debug)]
pub struct Position {
    pub y: i8,
    pub x: i8,
}

impl View for Position {
    type V = (int, int);

    /// The pair `(row, column)`.
    open spec fn view(&self) -> (int, int) {
        (self.y as int, self.x as int)
    }
}

/// Whether row `y` and column `x` name a square of the board.
pub open spec fn on_board(y: int, x: int) -> bool {
    0 <= y <= 2 && 0 <= x <= 2
}

/// The coordinate next to `c` in the direction that counts down, going round to 2 from 0.
pub open spec fn step_back(c: int) -> int {
    if c >= 1 {
        c - 1
    } else {
        2
    }
}

/// The coordinate next to `c` in the direction that counts up, going round to 0 from 2.
pub open spec fn step_forward(c: int) -> int {
    if c <= 1 {
        c + 1
    } else {
        0
    }
}

impl Row {
    /// The number of the row, from the top.
    pub open spec fn index(self) -> int {
        match self {
            Row::Top => 0,
            Row::Middle => 1,
            Row::Bottom => 2,
        }
    }

    /// The row with the given number; `OutOfRange` for a number above 2.
    pub fn from_index(index: usize) -> (row: Result<Row, GameError>)
        ensures
            index <= 2 ==> row is Ok && row->Ok_0.index() == index,
            index > 2 ==> row == Err::<Row, GameError>(GameError::OutOfRange),
    {
        if index == 0 {
            Ok(Row::Top)
        } else if index == 1 {
            Ok(Row::Middle)
        } else if index == 2 {
            Ok(Row::Bottom)
        } else {
            Err(GameError::OutOfRange)
        }
    }
}

impl Column {
    /// The number of the column, from the left.
    pub open spec fn index(self) -> int {
        match self {
            Column::Left => 0,
            Column::Middle => 1,
            Column::Right => 2,
        }
    }

    /// The column with the given number; `OutOfRange` for a number above 2.
    pub fn from_index(index: usize) -> (column: Result<Column, GameError>)
        ensures
            index <= 2 ==> column is Ok && column->Ok_0.index() == index,
            index > 2 ==> column == Err::<Column, GameError>(GameError::OutOfRange),
    {
        if index == 0 {
            Ok(Column::Left)
        } else if index == 1 {
            Ok(Column::Middle)
        } else if index == 2 {
            Ok(Column::Right)
        } else {
            Err(GameError::OutOfRange)
        }
    }
}

impl Diagonal {
    /// The number of the diagonal among the eight lines of the board.
    pub open spec fn line_number(self) -> int {
        match self {
            Diagonal::TopLeftToBottomRight => 6,
            Diagonal::TopRightToBottomLeft => 7,
        }
    }

    /// The column in which the diagonal crosses row `y`.
    pub open spec fn column_at(self, y: int) -> int {
        match self {
            Diagonal::TopLeftToBottomRight => y,
            Diagonal::TopRightToBottomLeft => 2 - y,
        }
    }
}

impl BoardPosition {
    /// The row and column of the named square.
    pub open spec fn coords(self) -> (int, int) {
        match self {
            BoardPosition::TopLeft => (0, 0),
            BoardPosition::TopMiddle => (0, 1),
            BoardPosition::TopRight => (0, 2),
            BoardPosition::MiddleLeft => (1, 0),
            BoardPosition::MiddleMiddle => (1, 1),
            BoardPosition::MiddleRight => (1, 2),
            BoardPosition::BottomLeft => (2, 0),
            BoardPosition::BottomMiddle => (2, 1),
            BoardPosition::BottomRight => (2, 2),
        }
    }
}

impl Position {
    /// Whether the position names a square of the board.
    pub open spec fn in_range(self) -> bool {
        on_board(self.y as int, self.x as int)
    }

    /// Where the cursor stands after one step from `self`: one square in the given
    /// direction, and round to the other edge where the board ends.
    pub open spec fn moved(self, direction: Movement) -> (int, int) {
        match direction {
            Movement::Up => (step_back(self.y as int), self.x as int),
            Movement::Down => (step_forward(self.y as int), self.x as int),
            Movement::Left => (self.y as int, step_back(self.x as int)),
            Movement::Right => (self.y as int, step_forward(self.x as int)),
        }
    }

    pub fn clone(&self) -> (copy: Position)
        ensures
            copy == *self,
    {
        Position { y: self.y, x: self.x }
    }

    pub fn new(y: i8, x: i8) -> (position: Position)
        ensures
            position.y == y,
            position.x == x,
    {
        Position { y, x }
    }

    pub fn set_y(&mut self, y: i8)
        ensures
            final(self).y == y,
            final(self).x == old(self).x,
    {
        self.y = y;
    }

    pub fn set_x(&mut self, x: i8)
        ensures
            final(self).x == x,
            final(self).y == old(self).y,
    {
        self.x = x;
    }

    pub fn get_y(&self) -> (y: i8)
        ensures
            y == self.y,
    {
        self.y
    }

    pub fn get_x(&self) -> (x: i8)
        ensures
            x == self.x,
    {
        self.x
    }

    /// Whether both coordinates lie in `0..=2`.
    pub fn is_on_board(&self) -> (inside: bool)
        ensures
            inside == self.in_range(),
    {
        0 <= self.y && self.y <= 2 && 0 <= self.x && self.x <= 2
    }
}

/// Moves the cursor one square in the given direction. At an edge of the board it
/// comes back in at the opposite edge, so a cursor on the board stays on it.
pub fn move_current_pos(current_pos: Position, movement_direction: Movement) -> (next: Position)
    ensures
        next@ == current_pos.moved(movement_direction),
        current_pos.in_range() ==> next.in_range(),
{
    let mut current_pos = current_pos;
    let y = current_pos.get_y();
    let x = current_pos.get_x();

    match movement_direction {
        Movement::Up => {
            if y >= 1 {
                current_pos.set_y(y - 1)
            } else {
                current_pos.set_y(2)
            }
        },
        Movement::Down => {
            if y <= 1 {
                current_pos.set_y(y + 1)
            } else {
                current_pos.set_y(0)
            }
        },
        Movement::Left => {
            if x >= 1 {
                current_pos.set_x(x - 1)
            } else {
                current_pos.set_x(2)
            }
        },
        Movement::Right => {
            if x <= 1 {
                current_pos.set_x(x + 1)
            } else {
                current_pos.set_x(0)
            }
        },
    }

    current_pos
}

} // verus!
