//! The mathematical model of a game: nine cells, two players and whose turn it is.
//!
//! Every contract of the engine is stated over [`BoardModel`].

use crate::coordinate::valid_position;
use crate::pieces::{CellState, Piece, Player, PlayerID};
use vstd::prelude::*;

verus! {

/// A game as a value: the cells row by row, the two players, and the slot that moves next.
pub struct BoardModel {
    pub player_1: Player,
    pub player_2: Player,
    pub next_up: PlayerID,
    /// The nine cells, row by row: the square numbered `p` is `cells[p - 1]`.
    pub cells: Seq<CellState>,
}

/// How a game stands.
pub enum Standing {
    /// A line is complete; the player whose piece fills it.
    Winner(Player),
    /// Every cell is taken and no line is complete.
    Draw,
    /// No line is complete and a cell is free.
    InProgress,
}

/// The number of lines on the board: three rows, three columns, two diagonals.
pub open spec fn line_count() -> int {
    8
}

/// The squares of line `i`, by their numbers. Lines are numbered in the order in which
/// they are examined: rows from the top, columns from the left, then the diagonal from
/// the top left and the diagonal from the top right.
pub open spec fn line_positions(i: int) -> Seq<int> {
    if 0 <= i < 3 {
        seq![3 * i + 1, 3 * i + 2, 3 * i + 3]
    } else if 3 <= i < 6 {
        seq![i - 2, i + 1, i + 4]
    } else if i == 6 {
        seq![1, 5, 9]
    } else {
        seq![3, 5, 7]
    }
}

/// The piece that fills all of `line`, if one does: the line is not empty, its first
/// cell is occupied, and every cell equals the first.
pub open spec fn line_owner(line: Seq<CellState>) -> Option<Piece> {
    if line.len() > 0 && line[0] is Occupied && (forall|k: int|
        0 <= k < line.len() ==> #[trigger] line[k] == line[0]) {
        Some(line[0]->Occupied_0)
    } else {
        None
    }
}

impl BoardModel {
    /// The game before any move: every cell empty.
    pub open spec fn start(player_1: Player, player_2: Player, next_up: PlayerID) -> BoardModel {
        BoardModel { player_1, player_2, next_up, cells: Seq::new(9, |i: int| CellState::Empty) }
    }

    /// The model has nine cells and its two players hold different pieces.
    pub open spec fn wf(self) -> bool {
        &&& self.cells.len() == 9
        &&& self.player_1.piece_spec() != self.player_2.piece_spec()
    }

    /// What the square numbered `position` holds.
    pub open spec fn cell(self, position: int) -> CellState {
        self.cells[position - 1]
    }

    /// What the square in `row` and `col` holds.
    pub open spec fn cell_at(self, row: int, col: int) -> CellState {
        self.cells[3 * row + col]
    }

    /// The player in slot `id`.
    pub open spec fn player(self, id: PlayerID) -> Player {
        match id {
            PlayerID::Player1 => self.player_1,
            PlayerID::Player2 => self.player_2,
        }
    }

    /// The piece that the next move places.
    pub open spec fn next_piece(self) -> Piece {
        self.player(self.next_up).piece_spec()
    }

    /// Whether a move to `position` is accepted: the square exists and is free.
    pub open spec fn can_place(self, position: int) -> bool {
        valid_position(position) && self.cell(position) is Empty
    }

    /// The game after the slot that is next up has moved to `position`: the square holds
    /// that slot's piece, the turn has passed to the other slot, all else is as before.
    pub open spec fn place(self, position: int) -> BoardModel {
        BoardModel {
            player_1: self.player_1,
            player_2: self.player_2,
            next_up: self.next_up.other(),
            cells: self.cells.update(position - 1, CellState::Occupied(self.next_piece())),
        }
    }

    /// The game after `moves` have been played in order, each by the slot that was next
    /// up when its turn came.
    pub open spec fn after_moves(self, moves: Seq<int>) -> BoardModel
        decreases moves.len(),
    {
        if moves.len() == 0 {
            self
        } else {
            self.after_moves(moves.drop_last()).place(moves.last())
        }
    }

    /// Whether every one of `moves` is accepted when they are played in order.
    pub open spec fn accepts(self, moves: Seq<int>) -> bool
        decreases moves.len(),
    {
        moves.len() == 0 || (self.accepts(moves.drop_last()) && self.after_moves(
            moves.drop_last(),
        ).can_place(moves.last()))
    }

    /// The slot that is next up after `count` accepted moves: the turn passes to the
    /// other slot with every move.
    pub open spec fn turn_after(self, count: int) -> PlayerID {
        if count % 2 == 0 {
            self.next_up
        } else {
            self.next_up.other()
        }
    }

    /// The number of occupied squares among those numbered 1 to `n`.
    pub open spec fn occupied_up_to(self, n: int) -> nat
        decreases n,
    {
        if n <= 0 {
            0
        } else if self.cell(n) is Occupied {
            self.occupied_up_to(n - 1) + 1
        } else {
            self.occupied_up_to(n - 1)
        }
    }

    /// The number of occupied squares, which is the number of moves made.
    pub open spec fn moves_made(self) -> nat {
        self.occupied_up_to(9)
    }

    /// Whether the squares numbered `a`, `b` and `c` all hold `piece`.
    pub open spec fn holds_all(self, piece: Piece, a: int, b: int, c: int) -> bool {
        &&& self.cell(a) == CellState::Occupied(piece)
        &&& self.cell(b) == CellState::Occupied(piece)
        &&& self.cell(c) == CellState::Occupied(piece)
    }

    /// Whether the three squares of line `i` all hold `piece`.
    pub open spec fn line_held_by(self, i: int, piece: Piece) -> bool {
        self.holds_all(piece, line_positions(i)[0], line_positions(i)[1], line_positions(i)[2])
    }

    /// The cells of line `i`, in the order of `line_positions(i)`.
    pub open spec fn line(self, i: int) -> Seq<CellState> {
        line_positions(i).map_values(|position: int| self.cell(position))
    }

    /// The owner of the first complete line among lines `i`, `i + 1`, ... in the order
    /// of examination, if any of them is complete.
    pub open spec fn first_owner_from(self, i: int) -> Option<Piece>
        decreases line_count() - i,
    {
        if i < 0 || i >= line_count() {
            None
        } else if line_owner(self.line(i)) is Some {
            line_owner(self.line(i))
        } else {
            self.first_owner_from(i + 1)
        }
    }

    /// Lines that no piece fills are passed over: if none of the lines `from`, ...,
    /// `to - 1` is complete, the search from `from` finds what the search from `to` finds.
    pub proof fn lemma_first_owner_skips(self, from: int, to: int)
        requires
            0 <= from <= to <= line_count(),
            forall|j: int| from <= j < to ==> line_owner(#[trigger] self.line(j)) is None,
        ensures
            self.first_owner_from(from) == self.first_owner_from(to),
        decreases to - from,
    {
        if from < to {
            self.lemma_first_owner_skips(from + 1, to);
        }
    }

    /// The piece that has won: the owner of the first complete line in the order of
    /// examination, or `None` when no line is complete.
    pub open spec fn winning_piece(self) -> Option<Piece> {
        self.first_owner_from(0)
    }

    /// The player who places `piece`: the first slot if its piece is `piece`, else the
    /// second.
    pub open spec fn player_with(self, piece: Piece) -> Player {
        if self.player_1.piece_spec() == piece {
            self.player_1
        } else {
            self.player_2
        }
    }

    /// The player who has won, if a line is complete.
    pub open spec fn winning_player(self) -> Option<Player> {
        match self.winning_piece() {
            Some(piece) => Some(self.player_with(piece)),
            None => None,
        }
    }

    /// The numbers of the free squares among those numbered 1 to `n`, ascending.
    pub open spec fn free_up_to(self, n: int) -> Seq<int>
        decreases n,
    {
        if n <= 0 {
            Seq::empty()
        } else if self.cell(n) is Empty {
            self.free_up_to(n - 1).push(n)
        } else {
            self.free_up_to(n - 1)
        }
    }

    /// The numbers of the free squares, ascending.
    pub open spec fn available(self) -> Seq<int> {
        self.free_up_to(9)
    }

    /// What `free_up_to(n)` holds: exactly the free squares numbered 1 to `n`, each once,
    /// in ascending order.
    pub proof fn lemma_free_up_to(self, n: int)
        requires
            0 <= n,
        ensures
            self.free_up_to(n).len() <= n,
            forall|k: int|
                0 <= k < self.free_up_to(n).len() ==> 1 <= #[trigger] self.free_up_to(n)[k] <= n
                    && self.cell(self.free_up_to(n)[k]) is Empty,
            forall|j: int, k: int|
                0 <= j < k < self.free_up_to(n).len() ==> #[trigger] self.free_up_to(n)[j]
                    < #[trigger] self.free_up_to(n)[k],
            forall|position: int|
                1 <= position <= n && self.cell(position) is Empty ==> self.free_up_to(
                    n,
                ).contains(position),
        decreases n,
    {
        if n > 0 {
            self.lemma_free_up_to(n - 1);
            let before = self.free_up_to(n - 1);
            let all = self.free_up_to(n);
            assert forall|position: int|
                1 <= position <= n && self.cell(position) is Empty implies all.contains(
                position,
            ) by {
                if position < n {
                    assert(before.contains(position));
                    let k = choose|k: int| 0 <= k < before.len() && before[k] == position;
                    assert(all[k] == position);
                } else {
                    assert(all[all.len() - 1] == position);
                }
            }
        }
    }

    /// No square is free.
    pub open spec fn is_full(self) -> bool {
        self.available().len() == 0
    }

    /// How the game stands: won if a line is complete, else drawn if the board is full,
    /// else in progress.
    pub open spec fn standing(self) -> Standing {
        match self.winning_player() {
            Some(player) => Standing::Winner(player),
            None => if self.is_full() {
                Standing::Draw
            } else {
                Standing::InProgress
            },
        }
    }

    /// The game is over: won or drawn.
    pub open spec fn is_over(self) -> bool {
        self.winning_piece() is Some || self.is_full()
    }
}

} // verus!
