//! Plain-text renderings of a game, for front ends that show text.

use crate::game_model::{GameBoard, GameState};
use crate::model::{BoardModel, Standing};
use crate::pieces::{CellState, Player};
use vstd::prelude::*;

verus! {

/// How one square is shown: its piece's letter, or a blank, in square brackets and
/// followed by a space.
pub open spec fn cell_text(cell: CellState) -> Seq<char> {
    match cell {
        CellState::Empty => "[ ] "@,
        CellState::Occupied(piece) => "["@ + piece.name_spec() + "] "@,
    }
}

/// The first `count` squares of `row` as they are shown, from the left.
pub open spec fn cells_text(board: BoardModel, row: int, count: int) -> Seq<char>
    decreases count,
{
    if count <= 0 {
        Seq::empty()
    } else {
        cells_text(board, row, count - 1) + cell_text(board.cell_at(row, count - 1))
    }
}

/// The first `count` rows as they are shown, from the top: the three squares of each,
/// with a line break between one row and the next.
pub open spec fn rows_text(board: BoardModel, count: int) -> Seq<char>
    decreases count,
{
    if count <= 0 {
        Seq::empty()
    } else if count == 1 {
        cells_text(board, 0, 3)
    } else {
        rows_text(board, count - 1) + "\n"@ + cells_text(board, count - 1, 3)
    }
}

/// The board as it is shown: three rows of three squares.
pub open spec fn board_text(board: BoardModel) -> Seq<char> {
    rows_text(board, 3)
}

/// Whose turn it is, in words, with the piece that is to be played.
pub open spec fn turn_text(player: Player) -> Seq<char> {
    match player {
        Player::Human(piece) => "your turn to play "@ + piece.name_spec(),
        Player::Computer(piece) => "the computer's turn to play "@ + piece.name_spec(),
    }
}

/// How the game stands, in words.
pub open spec fn standing_text(board: BoardModel) -> Seq<char> {
    match board.standing() {
        Standing::Winner(Player::Human(piece)) => "You won!\n"@ + piece.name_spec(),
        Standing::Winner(Player::Computer(piece)) => "The computer won!\n"@ + piece.name_spec(),
        Standing::Draw => "\nThis game results in a draw."@,
        Standing::InProgress => "The game is still in progress.\n"@ + "It's "@ + turn_text(
            board.player(board.next_up),
        ) + "\n"@,
    }
}

impl GameBoard {
    /// The board as text: each square as its piece's letter or a blank in square
    /// brackets, three to a row, the rows on lines of their own.
    pub fn to_text(&self) -> (text: String)
        ensures
            text@ == board_text(self@),
    {
        let mut output = String::new();

        let mut row: usize = 0;
        while row < 3
            invariant
                row <= 3,
                output@ == rows_text(self@, row as int),
            decreases 3 - row,
        {
            if row > 0 {
                output.append("\n");
            }
            let ghost before = output@;
            let mut col: usize = 0;
            while col < 3
                invariant
                    row < 3,
                    col <= 3,
                    output@ == before + cells_text(self@, row as int, col as int),
                decreases 3 - col,
            {
                let ghost so_far = output@;
                if let Some(cell) = self.get_cell_at_position(3 * row + col + 1) {
                    match cell {
                        CellState::Empty => output.append("[ ] "),
                        CellState::Occupied(piece) => {
                            output.append("[");
                            output.append(piece.name());
                            output.append("] ");
                        },
                    }
                    assert(output@ =~= so_far + cell_text(*cell));
                }
                col += 1;
                assert(output@ =~= before + cells_text(self@, row as int, col as int));
            }
            proof {
                if row == 0 {
                    assert(output@ =~= rows_text(self@, 1));
                }
            }
            row += 1;
        }

        output
    }

    /// How the game stands, in words: who has won, that the game is drawn, or whose
    /// turn it is.
    pub fn end_of_game_text(&self) -> (text: String)
        ensures
            text@ == standing_text(self@),
    {
        match self.game_state() {
            GameState::Winner(player) => match player {
                Player::Human(piece) => {
                    let mut text = String::from_str("You won!\n");
                    text.append(piece.name());
                    text
                },
                Player::Computer(piece) => {
                    let mut text = String::from_str("The computer won!\n");
                    text.append(piece.name());
                    text
                },
            },
            GameState::Draw => String::from_str("\nThis game results in a draw."),
            GameState::InProgress => {
                let mut text = String::new();
                text.append("The game is still in progress.\n");
                text.append("It's ");
                let next_player = self.player_for_id(self.next_up());
                match next_player {
                    Player::Human(piece) => {
                        text.append("your turn to play ");
                        text.append(piece.name());
                    },
                    Player::Computer(piece) => {
                        text.append("the computer's turn to play ");
                        text.append(piece.name());
                    },
                };
                text.append("\n");
                assert(text@ =~= standing_text(self@));
                text
            },
        }
    }
}

} // verus!
