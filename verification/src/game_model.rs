//! The game itself: the board, whose turn it is, and the one operation that plays a move.

use crate::chance::random_below;
use crate::coordinate::{
    col_of_position, position_of, row_of_position, valid_position, Coordinate,
};
use crate::laws::lemma_move;
use crate::model::{line_owner, BoardModel, Standing};
use crate::pieces::{CellState, Piece, Player, PlayerID};
use vstd::prelude::*;

verus! {

/// The cells that a line of borrowed cells refers to.
pub open spec fn cells_of(line: Seq<&CellState>) -> Seq<CellState> {
    line.map_values(|cell: &CellState| *cell)
}

/// Square numbers as mathematical integers.
pub open spec fn as_ints(positions: Seq<usize>) -> Seq<int> {
    positions.map_values(|position: usize| position as int)
}

/// How a game stands, with the winner borrowed from the game.
pub enum GameState<'a> {
    Winner(&'a Player),
    Draw,
    InProgress,
}

impl<'a> View for GameState<'a> {
    type V = Standing;

    open spec fn view(&self) -> Standing {
        match self {
            GameState::Winner(player) => Standing::Winner(**player),
            GameState::Draw => Standing::Draw,
            GameState::InProgress => Standing::InProgress,
        }
    }
}

/// The two faces of a coin.
#[derive(PartialEq, Eq, Structural)]
enum Coin {
    Heads,
    Tails,
}

/// Why a move was not played.
#[derive(Debug, PartialEq, Eq, Clone, Copy, Structural)]
pub enum MoveError {
    /// The position numbers no square of the board.
    InvalidPosition,
    /// The square already holds a piece.
    CellOccupied,
}

/// A game of tic-tac-toe: two players, the slot that moves next, and the 3x3 board.
#[derive(Debug, PartialEq, Eq)]
pub struct GameBoard {
    player_1: Player,
    player_2: Player,
    next_up: PlayerID,
    cells: [[CellState; 3]; 3],
}

impl View for GameBoard {
    type V = BoardModel;

    closed spec fn view(&self) -> BoardModel {
        BoardModel {
            player_1: self.player_1,
            player_2: self.player_2,
            next_up: self.next_up,
            cells: Seq::new(9, |i: int| self.cells[i / 3][i % 3]),
        }
    }
}

impl Clone for GameBoard {
    fn clone(&self) -> (copy: Self)
        ensures
            copy == *self,
    {
        proof {
            use_type_invariant(self);
        }
        GameBoard {
            player_1: self.player_1,
            player_2: self.player_2,
            next_up: self.next_up,
            cells: self.cells,
        }
    }
}

impl GameBoard {
    /// The two players hold different pieces.
    #[verifier::type_invariant]
    spec fn distinct_pieces(self) -> bool {
        self.player_1.piece_spec() != self.player_2.piece_spec()
    }

    /// The model of every game has nine cells.
    pub proof fn lemma_nine_cells(&self)
        ensures
            self@.cells.len() == 9,
    {
    }

    /// The numbers of the squares, from the first to the last.
    pub fn positions() -> (positions: std::ops::RangeInclusive<usize>)
        ensures
            positions@.start == 1,
            positions@.end == 9,
            !positions@.exhausted,
    {
        1..=9
    }

    /// A new game on an empty board: the first slot is the human, the second the
    /// computer; which of them has which piece, and which moves first, is left to two
    /// coin flips.
    pub fn new() -> (game: Self)
        ensures
            game@.wf(),
            game@.player_1 is Human,
            game@.player_2 is Computer,
            game@ == BoardModel::start(game@.player_1, game@.player_2, game@.next_up),
    {
        let random_piece = Self::random_piece();
        let human = Player::Human(random_piece);
        let computer = Player::Computer(Self::other_piece(random_piece));

        let game = Self {
            player_1: human,
            player_2: computer,
            next_up: Self::random_player_from(PlayerID::Player1, PlayerID::Player2),
            cells: [[CellState::default(); 3]; 3],
        };
        assert(game@.cells =~= BoardModel::start(human, computer, game.next_up).cells);
        game
    }

    /// A new game between `player_1` and `player_2` on an empty board, with `next_up` to
    /// move first; `None` if the two players hold the same piece.
    pub fn with_players(player_1: Player, player_2: Player, next_up: PlayerID) -> (game: Option<
        GameBoard,
    >)
        ensures
            game is Some <==> player_1.piece_spec() != player_2.piece_spec(),
            game matches Some(g) ==> g@ == BoardModel::start(player_1, player_2, next_up),
    {
        if *player_1.piece() == *player_2.piece() {
            return None;
        }
        let game = GameBoard {
            player_1,
            player_2,
            next_up,
            cells: [[CellState::Empty; 3]; 3],
        };
        assert(game@.cells =~= BoardModel::start(player_1, player_2, next_up).cells);
        Some(game)
    }

    /// The slot that moves next.
    pub fn next_up(&self) -> (id: PlayerID)
        ensures
            id == self@.next_up,
    {
        self.next_up
    }

    /// The player in slot `player_id`.
    pub fn player_for_id(&self, player_id: PlayerID) -> (player: &Player)
        ensures
            *player == self@.player(player_id),
    {
        if player_id == PlayerID::Player1 {
            &self.player_1
        } else {
            &self.player_2
        }
    }

    /// The player in the first slot.
    pub fn player_1(&self) -> (player: &Player)
        ensures
            *player == self@.player_1,
    {
        &self.player_1
    }

    /// The player in the second slot.
    pub fn player_2(&self) -> (player: &Player)
        ensures
            *player == self@.player_2,
    {
        &self.player_2
    }

    /// What the square at `coordinate` holds.
    pub fn get_cell_at_coordinate(&self, coordinate: &Coordinate) -> (cell: &CellState)
        ensures
            *cell == self@.cell_at(coordinate@.0, coordinate@.1),
            *cell == self@.cell(position_of(coordinate@.0, coordinate@.1)),
    {
        &self.cells[coordinate.row()][coordinate.col()]
    }

    /// The coordinate of the square numbered `position`, if there is one.
    pub fn coordinate_at_position(position: usize) -> (coordinate: Option<Coordinate>)
        ensures
            coordinate is Some <==> valid_position(position as int),
            coordinate matches Some(c) ==> c@ == (
                row_of_position(position as int),
                col_of_position(position as int),
            ),
    {
        match position {
            1 => Some(Coordinate::top_left()),
            3 => Some(Coordinate::top_right()),
            4 => Some(Coordinate::middle_left()),
            2 => Some(Coordinate::top_center()),
            5 => Some(Coordinate::middle_center()),
            6 => Some(Coordinate::middle_right()),
            7 => Some(Coordinate::bottom_left()),
            8 => Some(Coordinate::bottom_center()),
            9 => Some(Coordinate::bottom_right()),
            _ => None,
        }
    }

    /// What the square numbered `position` holds, or `None` if there is no such square.
    pub fn get_cell_at_position(&self, position: usize) -> (cell: Option<&CellState>)
        ensures
            cell is Some <==> valid_position(position as int),
            cell matches Some(c) ==> *c == self@.cell(position as int),
    {
        let coordinate = Self::coordinate_at_position(position)?;

        Some(&self.cells[coordinate.row()][coordinate.col()])
    }

    /// Puts `cell` in the square numbered `position`, whatever the square held.
    fn set_cell_at_position(&mut self, cell: CellState, position: usize) -> (result: Result<
        (),
        MoveError,
    >)
        ensures
            valid_position(position as int) ==> result is Ok && final(self)@ == (BoardModel {
                cells: old(self)@.cells.update(position - 1, cell),
                ..old(self)@
            }),
            !valid_position(position as int) ==> result == Err::<(), MoveError>(
                MoveError::InvalidPosition,
            ) && *final(self) == *old(self),
    {
        let Some(coordinate) = Self::coordinate_at_position(position) else {
            return Err(MoveError::InvalidPosition);
        };

        proof {
            use_type_invariant(&*self);
        }
        let row = coordinate.row();
        let col = coordinate.col();
        self.cells[row][col] = cell;
        proof {
            assert forall|i: int| 0 <= i < 9 implies #[trigger] self@.cells[i] == old(
                self,
            )@.cells.update(position - 1, cell)[i] by {
                if i / 3 != row {
                    assert(self.cells[i / 3] == old(self).cells[i / 3]);
                }
            }
            assert(self@.cells =~= old(self)@.cells.update(position - 1, cell));
        }

        Ok(())
    }

    /// Plays the move of the slot that is next up at the square numbered `position`.
    ///
    /// The move is played exactly when the square exists and is free: the square then
    /// holds that slot's piece and the turn passes to the other slot. A position that
    /// numbers no square is rejected as `InvalidPosition`, a taken square as
    /// `CellOccupied`, and a rejected move leaves the game as it was.
    pub fn play_next_up_at_position(&mut self, position: usize) -> (result: Result<(), MoveError>)
        ensures
            result is Ok <==> old(self)@.can_place(position as int),
            result is Ok ==> final(self)@ == old(self)@.place(position as int),
            result is Ok ==> final(self)@.moves_made() == old(self)@.moves_made() + 1,
            result is Err ==> *final(self) == *old(self),
            final(self)@.wf(),
            result == Err::<(), MoveError>(MoveError::InvalidPosition) <==> !valid_position(
                position as int,
            ),
            result == Err::<(), MoveError>(MoveError::CellOccupied) <==> valid_position(
                position as int,
            ) && old(self)@.cell(position as int) is Occupied,
    {
        proof {
            use_type_invariant(&*self);
        }
        let Some(cell) = self.get_cell_at_position(position) else {
            return Err(MoveError::InvalidPosition);
        };

        if matches!(cell, CellState::Occupied(_)) {
            return Err(MoveError::CellOccupied);
        }

        let next_piece = match self.next_up {
            PlayerID::Player1 => match self.player_1 {
                Player::Computer(piece) | Player::Human(piece) => piece,
            },
            PlayerID::Player2 => match self.player_2 {
                Player::Computer(piece) | Player::Human(piece) => piece,
            },
        };

        self.set_cell_at_position(CellState::Occupied(next_piece), position)?;

        self.next_up = match self.next_up {
            PlayerID::Player1 => PlayerID::Player2,
            PlayerID::Player2 => PlayerID::Player1,
        };

        proof {
            lemma_move(old(self)@, position as int);
        }
        Ok(())
    }

    /// The three rows, from the top, each from the left.
    fn get_rows(&self) -> (rows: [[&CellState; 3]; 3])
        ensures
            forall|r: int, c: int|
                0 <= r < 3 && 0 <= c < 3 ==> *(#[trigger] rows[r][c]) == self@.cell_at(r, c),
    {
        [
            [&self.cells[0][0], &self.cells[0][1], &self.cells[0][2]],
            [&self.cells[1][0], &self.cells[1][1], &self.cells[1][2]],
            [&self.cells[2][0], &self.cells[2][1], &self.cells[2][2]],
        ]
    }

    /// The three columns, from the left, each from the top.
    fn get_columns(&self) -> (columns: [[&CellState; 3]; 3])
        ensures
            forall|c: int, r: int|
                0 <= r < 3 && 0 <= c < 3 ==> *(#[trigger] columns[c][r]) == self@.cell_at(r, c),
    {
        [
            [&self.cells[0][0], &self.cells[1][0], &self.cells[2][0]],
            [&self.cells[0][1], &self.cells[1][1], &self.cells[2][1]],
            [&self.cells[0][2], &self.cells[1][2], &self.cells[2][2]],
        ]
    }

    /// The diagonal from the top left, then the diagonal from the top right, each from
    /// the top.
    fn get_diagonals(&self) -> (diagonals: [[&CellState; 3]; 2])
        ensures
            forall|i: int| 0 <= i < 3 ==> *(#[trigger] diagonals[0][i]) == self@.cell_at(i, i),
            forall|i: int|
                0 <= i < 3 ==> *(#[trigger] diagonals[1][i]) == self@.cell_at(i, 2 - i),
    {
        let main_diagonal = [&self.cells[0][0], &self.cells[1][1], &self.cells[2][2]];
        let anti_diagonal = [&self.cells[0][2], &self.cells[1][1], &self.cells[2][0]];

        [main_diagonal, anti_diagonal]
    }

    /// The piece that fills all of `line`, if one does.
    fn determine_winner_of_line<'a>(line: &[&'a CellState]) -> (winner: Option<&'a Piece>)
        requires
            line@.len() > 0,
        ensures
            match winner {
                Some(piece) => line_owner(cells_of(line@)) == Some(*piece),
                None => line_owner(cells_of(line@)) is None,
            },
    {
        let first_piece = match line[0] {
            CellState::Occupied(piece) => Some(piece),
            CellState::Empty => None,
        };

        let distinguished_piece = first_piece?;

        let mut count: usize = 0;
        let mut i: usize = 0;
        while i < line.len()
            invariant
                i <= line@.len(),
                count <= i,
                *line@[0] == CellState::Occupied(*distinguished_piece),
                count == i <==> forall|k: int| 0 <= k < i ==> *(#[trigger] line@[k]) == *line@[0],
            decreases line@.len() - i,
        {
            if let CellState::Occupied(piece) = line[i] {
                if *piece == *distinguished_piece {
                    count += 1;
                }
            }
            i += 1;
        }

        if count == line.len() {
            proof {
                let cells = cells_of(line@);
                assert forall|k: int| 0 <= k < cells.len() implies #[trigger] cells[k]
                    == cells[0] by {
                    assert(*line@[k] == *line@[0]);
                }
            }
            Some(distinguished_piece)
        } else {
            proof {
                let cells = cells_of(line@);
                if forall|k: int| 0 <= k < cells.len() ==> #[trigger] cells[k] == cells[0] {
                    assert forall|k: int| 0 <= k < line@.len() implies *(#[trigger] line@[k])
                        == *line@[0] by {
                        assert(cells[k] == cells[0]);
                    }
                }
            }
            None
        }
    }

    /// The piece that has won, if a line is complete: rows are examined first, then
    /// columns, then the two diagonals, and the first complete line decides.
    pub fn determine_winner(&self) -> (winner: Option<&Piece>)
        ensures
            match winner {
                Some(piece) => self@.winning_piece() == Some(*piece),
                None => self@.winning_piece() is None,
            },
    {
        let rows = self.get_rows();
        let mut i: usize = 0;
        while i < 3
            invariant
                i <= 3,
                forall|r: int, c: int|
                    0 <= r < 3 && 0 <= c < 3 ==> *(#[trigger] rows[r][c]) == self@.cell_at(r, c),
                forall|j: int| 0 <= j < i ==> line_owner(#[trigger] self@.line(j)) is None,
            decreases 3 - i,
        {
            let row = &rows[i];
            proof {
                assert(cells_of(row@) =~= self@.line(i as int));
            }
            if let Some(piece) = Self::determine_winner_of_line(row) {
                proof {
                    self@.lemma_first_owner_skips(0, i as int);
                }
                return Some(piece);
            }
            i += 1;
        }

        let columns = self.get_columns();
        let mut i: usize = 0;
        while i < 3
            invariant
                i <= 3,
                forall|c: int, r: int|
                    0 <= r < 3 && 0 <= c < 3 ==> *(#[trigger] columns[c][r]) == self@.cell_at(
                        r,
                        c,
                    ),
                forall|j: int| 0 <= j < 3 + i ==> line_owner(#[trigger] self@.line(j)) is None,
            decreases 3 - i,
        {
            let column = &columns[i];
            proof {
                assert(cells_of(column@) =~= self@.line(3 + i as int));
            }
            if let Some(piece) = Self::determine_winner_of_line(column) {
                proof {
                    self@.lemma_first_owner_skips(0, 3 + i as int);
                }
                return Some(piece);
            }
            i += 1;
        }

        let diagonals = self.get_diagonals();
        let mut i: usize = 0;
        while i < 2
            invariant
                i <= 2,
                forall|k: int|
                    0 <= k < 3 ==> *(#[trigger] diagonals[0][k]) == self@.cell_at(k, k),
                forall|k: int|
                    0 <= k < 3 ==> *(#[trigger] diagonals[1][k]) == self@.cell_at(k, 2 - k),
                forall|j: int| 0 <= j < 6 + i ==> line_owner(#[trigger] self@.line(j)) is None,
            decreases 2 - i,
        {
            let diagonal = &diagonals[i];
            proof {
                assert(cells_of(diagonal@) =~= self@.line(6 + i as int));
            }
            if let Some(piece) = Self::determine_winner_of_line(diagonal) {
                proof {
                    self@.lemma_first_owner_skips(0, 6 + i as int);
                }
                return Some(piece);
            }
            i += 1;
        }

        proof {
            self@.lemma_first_owner_skips(0, 8);
        }
        None
    }

    /// The player who has won, if a line is complete.
    pub fn determine_winning_player(&self) -> (winner: Option<&Player>)
        ensures
            match winner {
                Some(player) => self@.winning_player() == Some(*player),
                None => self@.winning_player() is None,
            },
            winner matches Some(player) ==> self@.winning_piece() == Some(player.piece_spec()),
            self@.wf(),
    {
        proof {
            use_type_invariant(self);
        }
        let winning_piece = self.determine_winner()?;

        if *self.player_1.piece() == *winning_piece {
            Some(&self.player_1)
        } else {
            Some(&self.player_2)
        }
    }

    /// The numbers of the free squares, ascending, read from the board as it is now.
    pub fn get_available_positions(&self) -> (positions: Vec<usize>)
        ensures
            as_ints(positions@) == self@.available(),
            forall|k: int|
                0 <= k < positions@.len() ==> self@.can_place(#[trigger] positions@[k] as int),
            forall|j: int, k: int|
                0 <= j < k < positions@.len() ==> positions@[j] < positions@[k],
            forall|position: int|
                self@.can_place(position) ==> as_ints(positions@).contains(position),
    {
        let mut available_positions: Vec<usize> = Vec::new();

        let mut position: usize = 1;
        while position <= 9
            invariant
                1 <= position <= 10,
                as_ints(available_positions@) == self@.free_up_to(position - 1),
            decreases 10 - position,
        {
            if let Some(cell) = self.get_cell_at_position(position) {
                if *cell == CellState::Empty {
                    available_positions.push(position);
                    assert(as_ints(available_positions@) =~= self@.free_up_to(position - 1).push(
                        position as int,
                    ));
                }
            }
            position += 1;
        }

        proof {
            self@.lemma_free_up_to(9);
            assert forall|k: int| 0 <= k < available_positions@.len() implies self@.can_place(
                #[trigger] available_positions@[k] as int,
            ) by {
                assert(as_ints(available_positions@)[k] == available_positions@[k]);
            }
            assert forall|j: int, k: int|
                0 <= j < k < available_positions@.len() implies available_positions@[j]
                < available_positions@[k] by {
                assert(as_ints(available_positions@)[j] == available_positions@[j]);
                assert(as_ints(available_positions@)[k] == available_positions@[k]);
            }
        }
        available_positions
    }

    /// Whether no square is free.
    pub fn is_board_full(&self) -> (full: bool)
        ensures
            full == self@.is_full(),
    {
        let positions = self.get_available_positions();
        assert(as_ints(positions@).len() == positions@.len());
        positions.is_empty()
    }

    /// How the game stands: won by a player if a line is complete, else drawn if no
    /// square is free, else in progress.
    pub fn game_state(&self) -> (state: GameState<'_>)
        ensures
            state@ == self@.standing(),
            self@.wf(),
    {
        proof {
            use_type_invariant(self);
        }
        match self.determine_winning_player() {
            Some(player) => GameState::Winner(player),
            None => {
                if self.is_board_full() {
                    GameState::Draw
                } else {
                    GameState::InProgress
                }
            },
        }
    }

    /// Whether the game is over: won or drawn.
    pub fn is_game_over(&self) -> (over: bool)
        ensures
            over == self@.is_over(),
    {
        self.determine_winning_player().is_some() || self.is_board_full()
    }

    /// The free square that stands at `index` when the free squares are counted from 0
    /// in ascending order, or `None` when there are not that many.
    pub fn available_position_at(&self, index: usize) -> (position: Option<usize>)
        ensures
            position is Some <==> index < self@.available().len(),
            position matches Some(p) ==> p == self@.available()[index as int],
    {
        let positions = self.get_available_positions();
        assert(as_ints(positions@).len() == positions@.len());
        if index < positions.len() {
            assert(as_ints(positions@)[index as int] == positions@[index as int]);
            Some(positions[index])
        } else {
            None
        }
    }

    /// A free square chosen at random, each with the same chance; `None` exactly when
    /// no square is free.
    pub fn get_random_available_position(&self) -> (position: Option<usize>)
        ensures
            position is None <==> self@.is_full(),
            position matches Some(p) ==> self@.can_place(p as int),
    {
        let available_positions = self.get_available_positions();
        assert(as_ints(available_positions@).len() == available_positions@.len());

        if available_positions.is_empty() {
            return None;
        };

        let index = random_below(available_positions.len());
        Some(available_positions[index])
    }

    /// One of the two slots, by a coin flip.
    fn random_player_from(player_1: PlayerID, player_2: PlayerID) -> (chosen: PlayerID)
        ensures
            chosen == player_1 || chosen == player_2,
    {
        Self::player_for_coin(Self::flip_coin(), player_1, player_2)
    }

    /// One of the two pieces, by a coin flip.
    fn random_piece() -> Piece {
        Self::piece_for_coin(Self::flip_coin())
    }

    /// The piece that is not `piece`.
    fn other_piece(piece: Piece) -> (other: Piece)
        ensures
            other == piece.other(),
    {
        if piece == Piece::O {
            Piece::X
        } else {
            Piece::O
        }
    }

    /// Flips a coin.
    fn flip_coin() -> Coin {
        let zero_or_one = random_below(2);

        Self::coin_for_draw(zero_or_one)
    }

    /// The face that a draw stands for: heads for 0, tails for any other number.
    fn coin_for_draw(zero_or_one: usize) -> (coin: Coin)
        ensures
            coin == if zero_or_one == 0 {
                Coin::Heads
            } else {
                Coin::Tails
            },
    {
        if zero_or_one == 0 {
            Coin::Heads
        } else {
            Coin::Tails
        }
    }

    /// The piece that a flipped coin gives: O for heads, X for tails.
    fn piece_for_coin(coin: Coin) -> (piece: Piece)
        ensures
            piece == if coin == Coin::Heads {
                Piece::O
            } else {
                Piece::X
            },
    {
        if coin == Coin::Heads {
            Piece::O
        } else {
            Piece::X
        }
    }

    /// The slot that a flipped coin gives: `player_1` for heads, `player_2` for tails.
    fn player_for_coin(coin: Coin, player_1: PlayerID, player_2: PlayerID) -> (chosen: PlayerID)
        ensures
            chosen == if coin == Coin::Heads {
                player_1
            } else {
                player_2
            },
    {
        if coin == Coin::Heads {
            player_1
        } else {
            player_2
        }
    }

    /// Plays the move of the slot that is next up at the square in `row` and `col`, each
    /// counted from 0: the move that `play_next_up_at_position` plays at the square's
    /// number. A row or column beyond the board is rejected as `InvalidPosition`.
    pub fn play_next_up_at_coordinate(&mut self, row: usize, col: usize) -> (result: Result<
        (),
        MoveError,
    >)
        ensures
            result is Ok <==> row < 3 && col < 3 && old(self)@.cell_at(row as int, col as int)
                is Empty,
            result is Ok ==> final(self)@ == old(self)@.place(position_of(row as int, col as int)),
            result is Ok ==> final(self)@.moves_made() == old(self)@.moves_made() + 1,
            result is Err ==> *final(self) == *old(self),
            final(self)@.wf(),
            result == Err::<(), MoveError>(MoveError::InvalidPosition) <==> row >= 3 || col >= 3,
            result == Err::<(), MoveError>(MoveError::CellOccupied) <==> row < 3 && col < 3
                && old(self)@.cell_at(row as int, col as int) is Occupied,
    {
        proof {
            use_type_invariant(&*self);
        }
        match Coordinate::new(row, col) {
            None => Err(MoveError::InvalidPosition),
            Some(coordinate) => self.play_next_up_at_position(coordinate.position()),
        }
    }

    /// Whether the slot that moves next is played by the computer.
    pub fn is_computers_turn(&self) -> (automated: bool)
        ensures
            automated == (self@.player(self@.next_up) is Computer),
    {
        let next_player = self.player_for_id(self.next_up);

        match next_player {
            Player::Computer(_) => true,
            Player::Human(_) => false,
        }
    }
}

/// Plays the computer's move: a free square chosen at random, taken for the slot that is
/// next up. Returns the square played, or `None`, with the game unchanged, when no
/// square is free.
pub fn execute_computer_turn(game_board: &mut GameBoard) -> (played: Option<usize>)
    ensures
        played is None <==> old(game_board)@.is_full(),
        played is None ==> *final(game_board) == *old(game_board),
        played matches Some(position) ==> old(game_board)@.can_place(position as int)
            && final(game_board)@ == old(game_board)@.place(position as int),
        final(game_board)@.wf(),
{
    proof {
        use_type_invariant(&*game_board);
    }
    match game_board.get_random_available_position() {
        None => None,
        Some(position) => {
            let result = game_board.play_next_up_at_position(position);
            assert(result is Ok);
            Some(position)
        },
    }
}

} // verus!
