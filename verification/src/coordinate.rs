//! Row and column addresses of the nine squares, and their numbering from 1 to 9.

use vstd::prelude::*;

verus! {

/// Whether `position` numbers a square: the squares are numbered 1 to 9.
pub open spec fn valid_position(position: int) -> bool {
    1 <= position <= 9
}

/// The row, from 0 to 2, of the square numbered `position`.
pub open spec fn row_of_position(position: int) -> int {
    (position - 1) / 3
}

/// The column, from 0 to 2, of the square numbered `position`.
pub open spec fn col_of_position(position: int) -> int {
    (position - 1) % 3
}

/// The number of the square in `row` and `col`, counting row by row from 1.
pub open spec fn position_of(row: int, col: int) -> int {
    3 * row + col + 1
}

/// A square of the board by row and column, each from 0 to 2.
#[derive(Debug)]
pub struct Coordinate {
    row: usize,
    col: usize,
}

impl View for Coordinate {
    type V = (int, int);

    /// The row and the column.
    closed spec fn view(&self) -> (int, int) {
        (self.row as int, self.col as int)
    }
}

impl Coordinate {
    /// Both the row and the column are on the board.
    #[verifier::type_invariant]
    spec fn on_board(self) -> bool {
        self.row < 3 && self.col < 3
    }

    /// The square in `row` and `col`, if both are on the board.
    pub fn new(row: usize, col: usize) -> (coordinate: Option<Coordinate>)
        ensures
            coordinate is Some <==> row < 3 && col < 3,
            coordinate matches Some(c) ==> c@ == (row as int, col as int),
    {
        if row < 3 && col < 3 {
            Some(Coordinate { row, col })
        } else {
            None
        }
    }

    /// The square in the top row, left column.
    pub fn top_left() -> (coordinate: Coordinate)
        ensures
            coordinate@ == (0int, 0int),
    {
        Coordinate { row: 0, col: 0 }
    }

    /// The square in the top row, middle column.
    pub fn top_center() -> (coordinate: Coordinate)
        ensures
            coordinate@ == (0int, 1int),
    {
        Coordinate { row: 0, col: 1 }
    }

    /// The square in the top row, right column.
    pub fn top_right() -> (coordinate: Coordinate)
        ensures
            coordinate@ == (0int, 2int),
    {
        Coordinate { row: 0, col: 2 }
    }

    /// The square in the middle row, left column.
    pub fn middle_left() -> (coordinate: Coordinate)
        ensures
            coordinate@ == (1int, 0int),
    {
        Coordinate { row: 1, col: 0 }
    }

    /// The square in the centre.
    pub fn middle_center() -> (coordinate: Coordinate)
        ensures
            coordinate@ == (1int, 1int),
    {
        Coordinate { row: 1, col: 1 }
    }

    /// The square in the middle row, right column.
    pub fn middle_right() -> (coordinate: Coordinate)
        ensures
            coordinate@ == (1int, 2int),
    {
        Coordinate { row: 1, col: 2 }
    }

    /// The square in the bottom row, left column.
    pub fn bottom_left() -> (coordinate: Coordinate)
        ensures
            coordinate@ == (2int, 0int),
    {
        Coordinate { row: 2, col: 0 }
    }

    /// The square in the bottom row, middle column.
    pub fn bottom_center() -> (coordinate: Coordinate)
        ensures
            coordinate@ == (2int, 1int),
    {
        Coordinate { row: 2, col: 1 }
    }

    /// The square in the bottom row, right column.
    pub fn bottom_right() -> (coordinate: Coordinate)
        ensures
            coordinate@ == (2int, 2int),
    {
        Coordinate { row: 2, col: 2 }
    }

    /// The row, from 0 at the top to 2.
    pub fn row(&self) -> (row: usize)
        ensures
            row == self@.0,
            row < 3,
    {
        proof {
            use_type_invariant(self);
        }
        self.row
    }

    /// The column, from 0 at the left to 2.
    pub fn col(&self) -> (col: usize)
        ensures
            col == self@.1,
            col < 3,
    {
        proof {
            use_type_invariant(self);
        }
        self.col
    }

    /// The number, from 1 to 9, of this square.
    pub fn position(&self) -> (position: usize)
        ensures
            position == position_of(self@.0, self@.1),
            valid_position(position as int),
            row_of_position(position as int) == self@.0,
            col_of_position(position as int) == self@.1,
    {
        proof {
            use_type_invariant(self);
        }
        3 * self.row + self.col + 1
    }
}

} // verus!
