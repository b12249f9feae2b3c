//! The board of a game: who moves, which moves it takes, and what each move
//! brings about.
//!
//! What the board does is stated over its view, a [`BoardState`], by the state
//! machine of [`crate::rules`].

use crate::rendering::square_glyph;
use crate::rules::{
    alike, has_line, lemma_eight_lines, lemma_occupied_bound, lemma_occupied_none,
    lemma_occupied_take, occupied, BoardState,
};
use crate::text::lemma_extend;
use vstd::prelude::*;

verus! {

/// One of the two players. `X` moves first.
#[derive(Copy, Clone, Debug, PartialEq, Eq, Structural)]
pub enum PlayerType {
    X,
    O,
}

impl PlayerType {
    /// The player who moves after this one.
    pub open spec fn successor(self) -> PlayerType {
        match self {
            PlayerType::X => PlayerType::O,
            PlayerType::O => PlayerType::X,
        }
    }

    /// The character that stands for this player on a rendered board.
    pub open spec fn glyph(self) -> char {
        match self {
            PlayerType::X => 'X',
            PlayerType::O => 'O',
        }
    }

    pub fn as_char(self) -> (c: char)
        ensures
            c == self.glyph(),
    {
        match self {
            PlayerType::X => 'X',
            PlayerType::O => 'O',
        }
    }

    #[verifier::when_used_as_spec(successor)]
    pub fn next(self) -> (p: PlayerType)
        ensures
            p == self.successor(),
    {
        match self {
            PlayerType::O => PlayerType::X,
            PlayerType::X => PlayerType::O,
        }
    }
}

/// What a successful move did.
#[derive(Copy, Clone, Debug, PartialEq, Eq)]
pub struct MoveOutcome {
    pub player: PlayerType,
    pub board_index: usize,
    pub square_index: usize,
    pub won_board: bool,
    pub won_game: bool,
    pub tied_game: bool,
}

/// Why a move was turned down.
#[derive(Copy, Clone, Debug, PartialEq, Eq, Structural)]
pub enum MoveError {
    BoardOutOfBounds,
    SquareOutOfBounds,
    BoardLockViolated,
    SquareAlreadyTaken,
}

/// A square is empty or holds the player who took it.
pub type Square = Option<PlayerType>;

/// One of the nine boards: its squares, the winner recorded for it, and the
/// number of squares taken.
#[derive(Copy, Clone)]
struct SimpleBoard {
    squares: [Square; 9],
    already_won: Square,
    num_squares_placed: u8,
}

impl SimpleBoard {
    /// The counter agrees with the squares.
    pub closed spec fn counted(self) -> bool {
        self.num_squares_placed == occupied(self.squares@)
    }

    /// No square is taken, no winner is recorded, and the counter is zero.
    pub closed spec fn blank(self) -> bool {
        &&& self.squares@ == Seq::new(9, |s: int| None::<PlayerType>)
        &&& self.already_won is None
        &&& self.num_squares_placed == 0
    }
}

impl Default for SimpleBoard {
    fn default() -> (board: SimpleBoard)
        ensures
            board.blank(),
    {
        let board = SimpleBoard { squares: [None; 9], already_won: None, num_squares_placed: 0 };
        assert(board.squares@ =~= Seq::new(9, |s: int| None::<PlayerType>));
        board
    }
}

/// The board of a game in progress.
pub struct UltimateBoard {
    simple_boards: [SimpleBoard; 9],
    lock_board_index: Option<usize>,
    next_to_move: PlayerType,
}

impl View for UltimateBoard {
    type V = BoardState;

    closed spec fn view(&self) -> BoardState {
        BoardState {
            squares: Seq::new(9, |b: int| self.simple_boards@[b].squares@),
            winners: Seq::new(9, |b: int| self.simple_boards@[b].already_won),
            locked: self.lock_board_index,
            next: self.next_to_move,
        }
    }
}

impl UltimateBoard {
    /// Each counter agrees with the squares of its board, and a lock names
    /// one of the nine boards.
    #[verifier::type_invariant]
    spec fn consistent(&self) -> bool {
        &&& forall|b: int| 0 <= b < 9 ==> (#[trigger] self.simple_boards@[b]).counted()
        &&& self.lock_board_index matches Some(b) ==> b < 9
    }

    /// An empty board, with `X` to move and any board open to play.
    pub fn new() -> (board: UltimateBoard)
        ensures
            board@ == BoardState::initial(),
            board@.well_formed(),
    {
        let blank = SimpleBoard::default();
        proof {
            lemma_occupied_none(blank.squares@);
        }
        let board = UltimateBoard {
            simple_boards: [blank; 9],
            lock_board_index: None,
            next_to_move: PlayerType::X,
        };
        assert(board@.squares =~= BoardState::initial().squares);
        assert(board@.winners =~= BoardState::initial().winners);
        board
    }

    /// Whether every board is full.
    fn is_full(&self) -> (full: bool)
        ensures
            full == BoardState::all_full(self@.squares),
    {
        proof {
            use_type_invariant(self);
        }
        let mut b: usize = 0;
        while b < 9
            invariant
                b <= 9,
                forall|k: int| 0 <= k < 9 ==> (#[trigger] self.simple_boards@[k]).counted(),
                forall|k: int| 0 <= k < b ==> occupied(#[trigger] self@.squares[k]) == 9,
            decreases 9 - b,
        {
            if self.simple_boards[b].num_squares_placed != 9 {
                assert(self.simple_boards@[b as int].counted());
                assert(occupied(self@.squares[b as int]) != 9);
                return false;
            }
            assert(self.simple_boards@[b as int].counted());
            b += 1;
        }
        true
    }

    /// The board the next move must be played in, if it is constrained. It is
    /// one of the nine boards.
    pub fn get_locked_board(&self) -> (locked: Option<usize>)
        ensures
            locked == self@.locked,
            locked matches Some(board_index) ==> board_index < 9,
            self@.well_formed(),
    {
        proof {
            use_type_invariant(self);
        }
        self.lock_board_index
    }

    /// The player who moves next.
    pub fn get_next_to_move(&self) -> (player: PlayerType)
        ensures
            player == self@.next,
    {
        self.next_to_move
    }

    /// Says why the move is turned down, or `None` if it is legal. The board
    /// is not changed.
    pub fn check_place_square(&self, board_index: usize, square_index: usize) -> (rejection: Option<
        MoveError,
    >)
        ensures
            rejection == self@.rejection(board_index, square_index),
            self@.well_formed(),
    {
        proof {
            use_type_invariant(self);
        }
        if square_index >= 9 {
            return Some(MoveError::SquareOutOfBounds);
        }
        if board_index >= 9 {
            return Some(MoveError::BoardOutOfBounds);
        }
        if let Some(index) = self.lock_board_index {
            if board_index != index {
                return Some(MoveError::BoardLockViolated);
            }
        }
        if self.simple_boards[board_index].squares[square_index].is_some() {
            return Some(MoveError::SquareAlreadyTaken);
        }
        None
    }

    /// The winner recorded for each board.
    fn winners(&self) -> (winners: [Square; 9])
        ensures
            winners@ == self@.winners,
    {
        let winners = [
            self.simple_boards[0].already_won,
            self.simple_boards[1].already_won,
            self.simple_boards[2].already_won,
            self.simple_boards[3].already_won,
            self.simple_boards[4].already_won,
            self.simple_boards[5].already_won,
            self.simple_boards[6].already_won,
            self.simple_boards[7].already_won,
            self.simple_boards[8].already_won,
        ];
        assert(winners@ =~= self@.winners);
        winners
    }

    /// Plays the move for the player whose turn it is. A move that is turned
    /// down leaves the board as it was.
    pub fn place_square(&mut self, board_index: usize, square_index: usize) -> (result: Result<
        MoveOutcome,
        MoveError,
    >)
        ensures
            match old(self)@.rejection(board_index, square_index) {
                Some(error) => result == Err::<MoveOutcome, MoveError>(error) && *final(self)
                    == *old(self),
                None => result == Ok::<MoveOutcome, MoveError>(
                    old(self)@.outcome(board_index, square_index),
                ) && final(self)@ == old(self)@.step(board_index, square_index),
            },
            final(self)@.well_formed(),
    {
        proof {
            use_type_invariant(&*self);
        }
        if let Some(e) = self.check_place_square(board_index, square_index) {
            return Err(e);
        }
        let ghost before = self@;
        let player = self.next_to_move;
        let mut simple_board = self.simple_boards[board_index];
        proof {
            assert(self.simple_boards@[board_index as int].counted());
            assert(simple_board.squares@ == before.squares[board_index as int]);
            lemma_occupied_take(simple_board.squares@, square_index as int, player);
            lemma_occupied_bound(simple_board.squares@.update(square_index as int, Some(player)));
        }

        // the next move is locked to the board this square names, unless
        // this move fills its own board
        if simple_board.num_squares_placed != 8 {
            self.lock_board_index = Some(square_index);
        } else {
            self.lock_board_index = None;
        }

        simple_board.squares[square_index] = Some(player);
        simple_board.num_squares_placed += 1;

        // a board that was won before raises no flag again
        if simple_board.already_won.is_some() {
            self.simple_boards[board_index] = simple_board;
            self.next_to_move = self.next_to_move.next();
            proof {
                assert(self@.squares =~= before.squares_after(board_index, square_index));
                assert(self@.winners =~= before.winners);
            }
            return Ok(
                MoveOutcome {
                    player,
                    board_index,
                    square_index,
                    won_board: false,
                    won_game: false,
                    tied_game: false,
                },
            );
        }
        let won_board = is_win(&simple_board.squares);
        if won_board {
            simple_board.already_won = Some(player);
        }
        self.simple_boards[board_index] = simple_board;
        proof {
            assert(self@.squares =~= before.squares_after(board_index, square_index));
            assert(self@.winners =~= before.winners_after(board_index, square_index));
        }

        let won_game = is_win(&self.winners());
        let tied_game = won_game == false && self.is_full();

        self.next_to_move = self.next_to_move.next();

        Ok(MoveOutcome { player, board_index, square_index, won_board, won_game, tied_game })
    }

    /// Appends the character that stands for the square.
    fn put_char(string: &mut String, square: Square)
        ensures
            final(string)@ == old(string)@.push(square_glyph(square)),
    {
        let c = match square {
            Some(player) => player.as_char(),
            None => ' ',
        };
        string.push(c);
    }

    /// Appends the band of the three boards from `board_index_start` on.
    fn put_small_board_row(&self, string: &mut String, board_index_start: usize)
        requires
            board_index_start <= 6,
        ensures
            final(string)@ == old(string)@ + self@.band(board_index_start as int),
    {
        let ghost head = string@;
        let ghost band = self@.band(board_index_start as int);
        proof {
            self@.lemma_band_len(board_index_start as int);
        }
        assert(string@ =~= head + band.subrange(0, 0));
        let mut row_index: usize = 0;
        while row_index < 3
            invariant
                row_index <= 3,
                board_index_start <= 6,
                band == self@.band(board_index_start as int),
                band.len() == 56,
                string@ == head + band.subrange(0, 14 * row_index),
            decreases 3 - row_index,
        {
            proof {
                self@.lemma_band_line_ends(board_index_start as int, row_index as int);
                lemma_extend(head, band, 14 * row_index);
            }
            string.push('#');
            let mut board_index: usize = board_index_start;
            while board_index <= board_index_start + 2
                invariant
                    row_index < 3,
                    board_index_start <= 6,
                    board_index_start <= board_index <= board_index_start + 3,
                    band == self@.band(board_index_start as int),
                    band.len() == 56,
                    string@ == head + band.subrange(
                        0,
                        14 * row_index + 1 + 4 * (board_index - board_index_start),
                    ),
                decreases board_index_start + 3 - board_index,
            {
                let ghost board = (board_index - board_index_start) as int;
                let ghost at = 14 * row_index + 1 + 4 * board;
                let square_index = row_index * 3;
                let simple_board = &self.simple_boards[board_index];
                proof {
                    self@.lemma_band_glyphs(board_index_start as int, row_index as int, board);
                    assert(self@.squares[board_index_start + board] == simple_board.squares@);
                }
                Self::put_char(string, simple_board.squares[square_index]);
                proof {
                    lemma_extend(head, band, at);
                }
                Self::put_char(string, simple_board.squares[square_index + 1]);
                proof {
                    lemma_extend(head, band, at + 1);
                }
                Self::put_char(string, simple_board.squares[square_index + 2]);
                proof {
                    lemma_extend(head, band, at + 2);
                }
                string.push('#');
                proof {
                    lemma_extend(head, band, at + 3);
                }
                board_index += 1;
            }
            proof {
                self@.lemma_band_line_ends(board_index_start as int, row_index as int);
                lemma_extend(head, band, 14 * row_index + 13);
            }
            string.push('\n');
            row_index += 1;
        }

        // the border below the band
        let mut column: usize = 0;
        while column < 13
            invariant
                column <= 13,
                band == self@.band(board_index_start as int),
                band.len() == 56,
                string@ == head + band.subrange(0, 42 + column),
            decreases 13 - column,
        {
            proof {
                self@.lemma_band_last_line(board_index_start as int, column as int);
                lemma_extend(head, band, 42 + column);
            }
            string.push('#');
            column += 1;
        }
        proof {
            self@.lemma_band_line_ends(board_index_start as int, 3);
            lemma_extend(head, band, 55);
            assert(band.subrange(0, 56) =~= band);
        }
        string.push('\n');
    }

    /// Renders the board as text: thirteen lines of thirteen characters, a
    /// space for an empty square and the player's character for a taken one,
    /// the boards set apart by borders of `#`.
    pub fn to_string(&self) -> (text: String)
        ensures
            text@ == self@.rendering(),
    {
        let mut buf = String::new();
        let ghost border = BoardState::border();
        assert(buf@ =~= border.subrange(0, 0));

        // the border above the first band
        let mut column: usize = 0;
        while column < 13
            invariant
                column <= 13,
                border == BoardState::border(),
                buf@ == border.subrange(0, column as int),
            decreases 13 - column,
        {
            buf.push('#');
            assert(buf@ =~= border.subrange(0, column + 1));
            column += 1;
        }
        buf.push('\n');
        assert(buf@ =~= border);

        self.put_small_board_row(&mut buf, 0);
        self.put_small_board_row(&mut buf, 3);
        self.put_small_board_row(&mut buf, 6);

        proof {
            self@.lemma_rendering_bands();
        }
        buf
    }
}

/// Whether squares `a`, `b` and `c` of the grid are taken, all by one player.
pub fn nonempty_same(a: usize, b: usize, c: usize, grid: &[Square; 9]) -> (same: bool)
    requires
        a < 9,
        b < 9,
        c < 9,
    ensures
        same == alike(grid@, a as int, b as int, c as int),
{
    let s = grid[a];
    s.is_some() && s == grid[b] && s == grid[c]
}

/// Whether a row, a column or a diagonal of the grid is held by one player.
pub fn is_win(grid: &[Square; 9]) -> (win: bool)
    ensures
        win == has_line(grid@),
{
    proof {
        lemma_eight_lines(grid@);
    }
    // rows
    nonempty_same(0, 1, 2, grid) || nonempty_same(3, 4, 5, grid) || nonempty_same(6, 7, 8, grid)
    // columns
     || nonempty_same(0, 3, 6, grid) || nonempty_same(1, 4, 7, grid) || nonempty_same(
        2,
        5,
        8,
        grid,
    )
    // diagonals
     || nonempty_same(0, 4, 8, grid) || nonempty_same(2, 4, 6, grid)
}

} // verus!
