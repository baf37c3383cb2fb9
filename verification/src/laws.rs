//! What holds of every game, proved over the model.

use crate::coordinate::{col_of_position, position_of, row_of_position, valid_position};
use crate::model::{line_count, line_owner, line_positions, BoardModel};
use crate::pieces::{CellState, Piece};
use vstd::prelude::*;

verus! {

/// The two ways of addressing a square agree: a square's number gives a row and a column
/// on the board, and they give the number back.
pub proof fn lemma_position_round_trip(position: int)
    requires
        valid_position(position),
    ensures
        0 <= row_of_position(position) < 3,
        0 <= col_of_position(position) < 3,
        position_of(row_of_position(position), col_of_position(position)) == position,
{
}

/// The two ways of addressing a square agree: a row and a column on the board give a
/// square's number, and the number gives them back.
pub proof fn lemma_coordinate_round_trip(row: int, col: int)
    requires
        0 <= row < 3,
        0 <= col < 3,
    ensures
        valid_position(position_of(row, col)),
        row_of_position(position_of(row, col)) == row,
        col_of_position(position_of(row, col)) == col,
{
}

/// A square holds the same by its number as by its row and column.
pub proof fn lemma_cell_addressing_agrees(board: BoardModel, position: int)
    requires
        valid_position(position),
    ensures
        board.cell(position) == board.cell_at(
            row_of_position(position),
            col_of_position(position),
        ),
{
}

/// A line is owned by a piece exactly when its three squares all hold that piece.
pub proof fn lemma_line_owner(board: BoardModel, i: int, piece: Piece)
    requires
        0 <= i < line_count(),
    ensures
        line_positions(i).len() == 3,
        forall|k: int| 0 <= k < 3 ==> valid_position(#[trigger] line_positions(i)[k]),
        line_owner(board.line(i)) == Some(piece) <==> board.line_held_by(i, piece),
{
    let line = board.line(i);
    let positions = line_positions(i);
    assert(line.len() == 3);
    assert(line[0] == board.cell(positions[0]));
    assert(line[1] == board.cell(positions[1]));
    assert(line[2] == board.cell(positions[2]));
}

/// The winner owns a line, and no line examined before that one is complete.
pub proof fn lemma_winner_owns_a_line(board: BoardModel)
    ensures
        board.winning_piece() matches Some(piece) ==> exists|i: int|
            0 <= i < line_count() && line_owner(#[trigger] board.line(i)) == Some(piece) && (
            forall|j: int| 0 <= j < i ==> line_owner(#[trigger] board.line(j)) is None),
{
    lemma_first_owner_found(board, 0);
}

/// There is no winner exactly when no line is complete.
pub proof fn lemma_no_winner_iff_no_line(board: BoardModel)
    ensures
        board.winning_piece() is None <==> (forall|i: int|
            0 <= i < line_count() ==> line_owner(#[trigger] board.line(i)) is None),
{
    lemma_first_owner_found(board, 0);
    if forall|i: int| 0 <= i < line_count() ==> line_owner(#[trigger] board.line(i)) is None {
        board.lemma_first_owner_skips(0, line_count());
    }
}

/// A board on which no line holds three of the same piece has no winner.
pub proof fn lemma_no_three_in_a_line_no_winner(board: BoardModel)
    requires
        forall|i: int, piece: Piece|
            0 <= i < line_count() ==> !#[trigger] board.line_held_by(i, piece),
    ensures
        board.winning_piece() is None,
{
    assert forall|i: int| 0 <= i < line_count() implies line_owner(
        #[trigger] board.line(i),
    ) is None by {
        if line_owner(board.line(i)) is Some {
            let piece = line_owner(board.line(i))->Some_0;
            lemma_line_owner(board, i, piece);
            assert(board.line_held_by(i, piece));
        }
    }
    lemma_no_winner_iff_no_line(board);
}

/// The winner holds all three squares of some line.
pub proof fn lemma_winner_holds_a_line(board: BoardModel)
    ensures
        board.winning_piece() matches Some(piece) ==> exists|i: int|
            0 <= i < line_count() && #[trigger] board.line_held_by(i, piece),
{
    lemma_winner_owns_a_line(board);
    if board.winning_piece() is Some {
        let piece = board.winning_piece()->Some_0;
        let i = choose|i: int|
            0 <= i < line_count() && line_owner(#[trigger] board.line(i)) == Some(piece) && (
            forall|j: int| 0 <= j < i ==> line_owner(#[trigger] board.line(j)) is None);
        lemma_line_owner(board, i, piece);
        assert(board.line_held_by(i, piece));
    }
}

/// A piece that owns a line has won, unless the other piece owns a line examined
/// earlier.
pub proof fn lemma_line_wins(board: BoardModel, i: int, piece: Piece)
    requires
        0 <= i < line_count(),
        line_owner(board.line(i)) == Some(piece),
        forall|j: int|
            0 <= j < i ==> line_owner(#[trigger] board.line(j)) != Some(piece.other()),
    ensures
        board.winning_piece() == Some(piece),
{
    lemma_first_owner_found(board, 0);
    let winner = board.winning_piece();
    let first = choose|k: int|
        0 <= k < line_count() && line_owner(#[trigger] board.line(k)) == winner && (forall|j: int|
            0 <= j < k ==> line_owner(#[trigger] board.line(j)) is None);
    if first > i {
        assert(line_owner(board.line(i)) is None);
    }
}

/// A piece on all of squares 1, 2, 3 (the top row), or 1, 4, 7 (the left column), or
/// 1, 5, 9, or 3, 5, 7 (the diagonals) has won, whatever the other squares hold.
pub proof fn lemma_win_symmetry(board: BoardModel, piece: Piece)
    requires
        board.holds_all(piece, 1, 2, 3) || board.holds_all(piece, 1, 4, 7) || board.holds_all(
            piece,
            1,
            5,
            9,
        ) || board.holds_all(piece, 3, 5, 7),
    ensures
        board.winning_piece() == Some(piece),
{
    let i: int = if board.holds_all(piece, 1, 2, 3) {
        0
    } else if board.holds_all(piece, 1, 4, 7) {
        3
    } else if board.holds_all(piece, 1, 5, 9) {
        6
    } else {
        7
    };
    lemma_line_owner(board, i, piece);
    assert forall|j: int| 0 <= j < i implies line_owner(#[trigger] board.line(j)) != Some(
        piece.other(),
    ) by {
        lemma_line_owner(board, j, piece.other());
        // Line `j` crosses line `i` in a square, which holds `piece`.
        let k: int = if i == 3 {
            0
        } else if i == 6 {
            if j < 3 {
                j
            } else {
                j - 3
            }
        } else if j < 3 {
            2 - j
        } else if j < 6 {
            5 - j
        } else {
            1
        };
        assert(board.cell(line_positions(j)[k]) == CellState::Occupied(piece));
    }
    lemma_line_wins(board, i, piece);
}

/// What one accepted move changes: the square holds the piece of the slot that moved,
/// every other square is as it was, the players are the same, the turn has passed to
/// the other slot, and one more square is occupied.
pub proof fn lemma_move(board: BoardModel, position: int)
    requires
        board.cells.len() == 9,
        board.can_place(position),
    ensures
        board.place(position).cell(position) == CellState::Occupied(board.next_piece()),
        forall|other: int|
            valid_position(other) && other != position ==> board.place(position).cell(other)
                == board.cell(other),
        board.place(position).player_1 == board.player_1,
        board.place(position).player_2 == board.player_2,
        board.place(position).next_up == board.next_up.other(),
        board.place(position).next_up != board.next_up,
        board.place(position).moves_made() == board.moves_made() + 1,
        board.place(position).cells.len() == 9,
        board.wf() ==> board.place(position).wf(),
{
    lemma_occupied_after_move(board, position, 9);
}

/// Over any run of accepted moves the turn alternates strictly, starting from the slot
/// that was next up: after the first `k` of the moves it is with that slot when `k` is
/// even and with the other when `k` is odd, so each move hands the turn over.
pub proof fn lemma_turns_alternate(board: BoardModel, moves: Seq<int>, k: int)
    requires
        board.accepts(moves),
        0 <= k <= moves.len(),
    ensures
        board.accepts(moves.take(k)),
        board.after_moves(moves.take(k)).next_up == board.turn_after(k),
        k < moves.len() ==> board.after_moves(moves.take(k + 1)).next_up != board.after_moves(
            moves.take(k),
        ).next_up,
{
    lemma_prefix_accepted(board, moves, k);
    lemma_turn_after_moves(board, moves.take(k));
    if k < moves.len() {
        lemma_prefix_accepted(board, moves, k + 1);
        lemma_turn_after_moves(board, moves.take(k + 1));
    }
}

/// After a run of accepted moves the turn is where the number of moves puts it.
proof fn lemma_turn_after_moves(board: BoardModel, moves: Seq<int>)
    requires
        board.accepts(moves),
    ensures
        board.after_moves(moves).next_up == board.turn_after(moves.len() as int),
    decreases moves.len(),
{
    if moves.len() > 0 {
        lemma_turn_after_moves(board, moves.drop_last());
    }
}

/// The first `k` of a run of accepted moves are a run of accepted moves.
proof fn lemma_prefix_accepted(board: BoardModel, moves: Seq<int>, k: int)
    requires
        board.accepts(moves),
        0 <= k <= moves.len(),
    ensures
        board.accepts(moves.take(k)),
    decreases moves.len(),
{
    if k == moves.len() {
        assert(moves.take(k) =~= moves);
    } else {
        lemma_prefix_accepted(board, moves.drop_last(), k);
        assert(moves.take(k) =~= moves.drop_last().take(k));
    }
}

/// Over any run of accepted moves the players stay the same, the number of occupied
/// squares grows by the number of moves, and a square that was occupied holds what it
/// held.
pub proof fn lemma_moves_accumulate(board: BoardModel, moves: Seq<int>)
    requires
        board.cells.len() == 9,
        board.accepts(moves),
    ensures
        board.after_moves(moves).cells.len() == 9,
        board.after_moves(moves).player_1 == board.player_1,
        board.after_moves(moves).player_2 == board.player_2,
        board.after_moves(moves).moves_made() == board.moves_made() + moves.len(),
        board.wf() ==> board.after_moves(moves).wf(),
        forall|position: int|
            valid_position(position) && board.cell(position) is Occupied
                ==> board.after_moves(moves).cell(position) == board.cell(position),
    decreases moves.len(),
{
    if moves.len() > 0 {
        lemma_moves_accumulate(board, moves.drop_last());
        lemma_move(board.after_moves(moves.drop_last()), moves.last());
    }
}

/// A free square and an occupied square are counted once each: together the free
/// squares and the moves made are nine.
pub proof fn lemma_free_and_taken(board: BoardModel)
    requires
        board.cells.len() == 9,
    ensures
        board.available().len() + board.moves_made() == 9,
        board.is_full() <==> board.moves_made() == 9,
        board.is_full() <==> (forall|position: int|
            valid_position(position) ==> board.cell(position) is Occupied),
{
    lemma_free_plus_occupied(board, 9);
    board.lemma_free_up_to(9);
    if board.is_full() {
        assert forall|position: int| valid_position(position) implies board.cell(
            position,
        ) is Occupied by {
            if board.cell(position) is Empty {
                assert(board.available().contains(position));
            }
        }
    }
    if forall|position: int| valid_position(position) ==> board.cell(position) is Occupied {
        if board.available().len() > 0 {
            assert(valid_position(board.available()[0]));
        }
    }
}

/// How a game stands is decided by its winner and the number of moves made: won when
/// a line is complete; otherwise drawn when all nine squares are taken and in progress
/// when fewer are. The three cases exclude one another.
pub proof fn lemma_standing(board: BoardModel)
    requires
        board.cells.len() == 9,
    ensures
        board.standing() is Winner <==> board.winning_piece() is Some,
        board.standing() is Draw <==> board.winning_piece() is None && board.moves_made() == 9,
        board.standing() is InProgress <==> board.winning_piece() is None && board.moves_made()
            < 9,
        board.is_over() <==> !(board.standing() is InProgress),
        board.wf() && board.standing() is Winner ==> board.winning_piece() == Some(
            board.standing()->Winner_0.piece_spec(),
        ),
{
    lemma_free_and_taken(board);
}

/// Among the squares numbered 1 to `n`, each is free or occupied.
proof fn lemma_free_plus_occupied(board: BoardModel, n: int)
    requires
        0 <= n,
    ensures
        board.free_up_to(n).len() + board.occupied_up_to(n) == n,
    decreases n,
{
    if n > 0 {
        lemma_free_plus_occupied(board, n - 1);
    }
}

/// A move to a free square adds one to the count of occupied squares from that square
/// on.
proof fn lemma_occupied_after_move(board: BoardModel, position: int, n: int)
    requires
        board.cells.len() == 9,
        board.can_place(position),
        0 <= n <= 9,
    ensures
        board.place(position).occupied_up_to(n) == board.occupied_up_to(n) + if position <= n {
            1nat
        } else {
            0nat
        },
    decreases n,
{
    if n > 0 {
        lemma_occupied_after_move(board, position, n - 1);
    }
}

/// What the search from line `from` finds: the owner of the first complete line at or
/// after `from`, or nothing when none of them is complete.
proof fn lemma_first_owner_found(board: BoardModel, from: int)
    requires
        0 <= from <= line_count(),
    ensures
        board.first_owner_from(from) is Some ==> exists|i: int|
            from <= i < line_count() && line_owner(#[trigger] board.line(i))
                == board.first_owner_from(from) && (forall|j: int|
                from <= j < i ==> line_owner(#[trigger] board.line(j)) is None),
        board.first_owner_from(from) is None ==> forall|i: int|
            from <= i < line_count() ==> line_owner(#[trigger] board.line(i)) is None,
    decreases line_count() - from,
{
    if from < line_count() {
        if line_owner(board.line(from)) is Some {
            assert(line_owner(board.line(from)) == board.first_owner_from(from));
        } else {
            lemma_first_owner_found(board, from + 1);
            if board.first_owner_from(from) is Some {
                let i = choose|i: int|
                    from + 1 <= i < line_count() && line_owner(#[trigger] board.line(i))
                        == board.first_owner_from(from + 1) && (forall|j: int|
                        from + 1 <= j < i ==> line_owner(#[trigger] board.line(j)) is None);
                assert(line_owner(board.line(i)) == board.first_owner_from(from));
                assert forall|j: int| from <= j < i implies line_owner(
                    #[trigger] board.line(j),
                ) is None by {}
            }
        }
    }
}

} // verus!
