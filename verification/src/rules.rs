//! The rules of the game as a mathematical state machine: the state of a
//! game, which moves are legal in it, and the state and the outcome that a
//! legal move leads to.

use crate::game::{MoveError, MoveOutcome, PlayerType, Square};
use vstd::prelude::*;

verus! {

/// The state of a game as a mathematical value.
pub struct BoardState {
    /// `squares[b][s]` is square `s` of board `b`, both counted row by row.
    pub squares: Seq<Seq<Square>>,
    /// `winners[b]` is the player recorded as having won board `b`.
    pub winners: Seq<Square>,
    /// The board the next move must be played in, if it is constrained.
    pub locked: Option<usize>,
    /// The player who moves next.
    pub next: PlayerType,
}

/// Whether squares `a`, `b`, `c` of a three-by-three grid, counted row by row,
/// form a row, a column or a diagonal, listed in increasing order.
pub open spec fn is_line(a: int, b: int, c: int) -> bool {
    ||| 0 <= a < 9 && a % 3 == 0 && b == a + 1 && c == a + 2
    ||| 0 <= a < 3 && b == a + 3 && c == a + 6
    ||| a == 0 && b == 4 && c == 8
    ||| a == 2 && b == 4 && c == 6
}

/// Whether the three given squares are taken, all by one player.
pub open spec fn alike(grid: Seq<Square>, a: int, b: int, c: int) -> bool {
    grid[a] is Some && grid[a] == grid[b] && grid[a] == grid[c]
}

/// Whether some line of the grid is held by a single player.
pub open spec fn has_line(grid: Seq<Square>) -> bool {
    exists|a: int, b: int, c: int| is_line(a, b, c) && #[trigger] alike(grid, a, b, c)
}

/// The number of taken squares in a grid.
pub open spec fn occupied(grid: Seq<Square>) -> nat
    decreases grid.len(),
{
    if grid.len() == 0 {
        0
    } else {
        occupied(grid.drop_last()) + if grid.last() is Some { 1nat } else { 0nat }
    }
}

/// The number of taken squares over all the given boards.
pub open spec fn occupied_total(boards: Seq<Seq<Square>>) -> nat
    decreases boards.len(),
{
    if boards.len() == 0 {
        0
    } else {
        occupied_total(boards.drop_last()) + occupied(boards.last())
    }
}

impl BoardState {
    /// The state before the first move.
    pub open spec fn initial() -> BoardState {
        BoardState {
            squares: Seq::new(9, |b: int| Seq::new(9, |s: int| None::<PlayerType>)),
            winners: Seq::new(9, |b: int| None::<PlayerType>),
            locked: None,
            next: PlayerType::X,
        }
    }

    /// Nine boards of nine squares, nine winner records, and a lock, if any,
    /// that names one of the nine boards.
    pub open spec fn well_formed(self) -> bool {
        &&& self.squares.len() == 9
        &&& forall|b: int| 0 <= b < 9 ==> (#[trigger] self.squares[b]).len() == 9
        &&& self.winners.len() == 9
        &&& self.locked matches Some(b) ==> b < 9
    }

    /// Why a move to square `square_index` of board `board_index` is turned
    /// down, or `None` if it is legal. The first ground that applies is given:
    /// a square index out of range, a board index out of range, a lock on
    /// another board, a square that is already taken.
    pub open spec fn rejection(self, board_index: usize, square_index: usize) -> Option<MoveError> {
        if square_index >= 9 {
            Some(MoveError::SquareOutOfBounds)
        } else if board_index >= 9 {
            Some(MoveError::BoardOutOfBounds)
        } else if self.locked is Some && self.locked != Some(board_index) {
            Some(MoveError::BoardLockViolated)
        } else if self.squares[board_index as int][square_index as int] is Some {
            Some(MoveError::SquareAlreadyTaken)
        } else {
            None
        }
    }

    /// Whether the move is legal.
    pub open spec fn legal(self, board_index: usize, square_index: usize) -> bool {
        self.rejection(board_index, square_index) is None
    }

    /// The squares after the player to move has taken the given square.
    pub open spec fn squares_after(self, board_index: usize, square_index: usize) -> Seq<
        Seq<Square>,
    > {
        self.squares.update(
            board_index as int,
            self.squares[board_index as int].update(square_index as int, Some(self.next)),
        )
    }

    /// Whether every board is full.
    pub open spec fn all_full(boards: Seq<Seq<Square>>) -> bool {
        forall|b: int| 0 <= b < boards.len() ==> occupied(#[trigger] boards[b]) == 9
    }

    /// Whether the move wins its board: the board had no recorded winner, and
    /// with the new square it holds a line.
    pub open spec fn wins_board(self, board_index: usize, square_index: usize) -> bool {
        &&& self.winners[board_index as int] is None
        &&& has_line(self.squares_after(board_index, square_index)[board_index as int])
    }

    /// The winner records after the move.
    pub open spec fn winners_after(self, board_index: usize, square_index: usize) -> Seq<Square> {
        if self.wins_board(board_index, square_index) {
            self.winners.update(board_index as int, Some(self.next))
        } else {
            self.winners
        }
    }

    /// The state after a legal move.
    pub open spec fn step(self, board_index: usize, square_index: usize) -> BoardState {
        let squares = self.squares_after(board_index, square_index);
        BoardState {
            squares,
            winners: self.winners_after(board_index, square_index),
            locked: if occupied(squares[board_index as int]) == 9 {
                None
            } else {
                Some(square_index)
            },
            next: self.next.successor(),
        }
    }

    /// What a legal move reports. A move into a board that already had a
    /// recorded winner raises no flag.
    pub open spec fn outcome(self, board_index: usize, square_index: usize) -> MoveOutcome {
        let fresh = self.winners[board_index as int] is None;
        let won_game = fresh && has_line(self.winners_after(board_index, square_index));
        MoveOutcome {
            player: self.next,
            board_index,
            square_index,
            won_board: self.wins_board(board_index, square_index),
            won_game,
            tied_game: fresh && !won_game && Self::all_full(
                self.squares_after(board_index, square_index),
            ),
        }
    }
}

/// A three-by-three grid has eight lines: three rows, three columns and two
/// diagonals.
pub proof fn lemma_eight_lines(grid: Seq<Square>)
    ensures
        has_line(grid) <==> {
            ||| alike(grid, 0, 1, 2)
            ||| alike(grid, 3, 4, 5)
            ||| alike(grid, 6, 7, 8)
            ||| alike(grid, 0, 3, 6)
            ||| alike(grid, 1, 4, 7)
            ||| alike(grid, 2, 5, 8)
            ||| alike(grid, 0, 4, 8)
            ||| alike(grid, 2, 4, 6)
        },
{
    assert(is_line(0, 1, 2) && is_line(3, 4, 5) && is_line(6, 7, 8));
    assert(is_line(0, 3, 6) && is_line(1, 4, 7) && is_line(2, 5, 8));
    assert(is_line(0, 4, 8) && is_line(2, 4, 6));
}

/// A grid without a taken square counts nothing.
pub proof fn lemma_occupied_none(grid: Seq<Square>)
    requires
        forall|i: int| 0 <= i < grid.len() ==> grid[i] is None,
    ensures
        occupied(grid) == 0,
    decreases grid.len(),
{
    if grid.len() > 0 {
        lemma_occupied_none(grid.drop_last());
    }
}

/// A grid holds no more taken squares than squares.
pub proof fn lemma_occupied_bound(grid: Seq<Square>)
    ensures
        occupied(grid) <= grid.len(),
    decreases grid.len(),
{
    if grid.len() > 0 {
        lemma_occupied_bound(grid.drop_last());
    }
}

/// A grid is counted full exactly when each of its squares is taken.
pub proof fn lemma_occupied_full(grid: Seq<Square>)
    ensures
        occupied(grid) == grid.len() <==> forall|i: int| 0 <= i < grid.len() ==> grid[i] is Some,
    decreases grid.len(),
{
    if grid.len() > 0 {
        let rest = grid.drop_last();
        lemma_occupied_full(rest);
        lemma_occupied_bound(rest);
        if occupied(grid) == grid.len() {
            assert forall|i: int| 0 <= i < grid.len() implies grid[i] is Some by {
                if i < rest.len() {
                    assert(rest[i] is Some);
                }
            }
        }
        if forall|i: int| 0 <= i < grid.len() ==> grid[i] is Some {
            assert forall|i: int| 0 <= i < rest.len() implies rest[i] is Some by {
                assert(grid[i] is Some);
            }
        }
    }
}

/// Taking an empty square raises the count of a grid by one.
pub proof fn lemma_occupied_take(grid: Seq<Square>, i: int, player: PlayerType)
    requires
        0 <= i < grid.len(),
        grid[i] is None,
    ensures
        occupied(grid.update(i, Some(player))) == occupied(grid) + 1,
    decreases grid.len(),
{
    let taken = grid.update(i, Some(player));
    if i == grid.len() - 1 {
        assert(taken.drop_last() =~= grid.drop_last());
    } else {
        lemma_occupied_take(grid.drop_last(), i, player);
        assert(taken.drop_last() =~= grid.drop_last().update(i, Some(player)));
    }
}

/// Replacing one board changes the total by the difference of the two counts.
pub proof fn lemma_total_replace(boards: Seq<Seq<Square>>, b: int, grid: Seq<Square>)
    requires
        0 <= b < boards.len(),
    ensures
        occupied_total(boards.update(b, grid)) + occupied(boards[b]) == occupied_total(boards)
            + occupied(grid),
    decreases boards.len(),
{
    let replaced = boards.update(b, grid);
    if b == boards.len() - 1 {
        assert(replaced.drop_last() =~= boards.drop_last());
    } else {
        lemma_total_replace(boards.drop_last(), b, grid);
        assert(replaced.drop_last() =~= boards.drop_last().update(b, grid));
    }
}

} // verus!
