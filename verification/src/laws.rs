//! What holds of every game, proved of the state machine in [`crate::rules`].

use crate::game::{PlayerType, Square};
use crate::rules::{
    alike, has_line, is_line, lemma_occupied_bound, lemma_occupied_full, lemma_occupied_none,
    lemma_occupied_take, lemma_total_replace, occupied, occupied_total, BoardState,
};
use vstd::prelude::*;

verus! {

impl BoardState {
    /// The state after an attempt at a move: a legal move is played, any
    /// other leaves the state as it was.
    pub open spec fn play(self, board_index: usize, square_index: usize) -> BoardState {
        if self.legal(board_index, square_index) {
            self.step(board_index, square_index)
        } else {
            self
        }
    }

    /// The state after the given attempts, made in order.
    pub open spec fn play_all(self, moves: Seq<(usize, usize)>) -> BoardState
        decreases moves.len(),
    {
        if moves.len() == 0 {
            self
        } else {
            self.play_all(moves.drop_last()).play(moves.last().0, moves.last().1)
        }
    }
}

/// Whether some line of the grid is held by the given player.
pub open spec fn holds_line(grid: Seq<Square>, player: PlayerType) -> bool {
    exists|a: int, b: int, c: int|
        is_line(a, b, c) && #[trigger] alike(grid, a, b, c) && grid[a] == Some(player)
}

impl BoardState {
    /// Whether the winner records agree with the boards: a recorded winner
    /// holds a line of its board, and a board without a recorded winner
    /// holds no line.
    pub open spec fn winners_earned(self) -> bool {
        forall|board: int|
            0 <= board < 9 ==> match #[trigger] self.winners[board] {
                Some(player) => holds_line(self.squares[board], player),
                None => !has_line(self.squares[board]),
            }
    }
}

/// The state before the first move is well formed, and no square is taken.
pub proof fn lemma_initial_well_formed()
    ensures
        BoardState::initial().well_formed(),
        occupied_total(BoardState::initial().squares) == 0,
{
    let squares = BoardState::initial().squares;
    assert forall|b: int| 0 <= b < 9 implies occupied(#[trigger] squares[b]) == 0 by {
        lemma_occupied_full(squares[b]);
        lemma_occupied_bound(squares[b]);
        lemma_occupied_none(squares[b]);
    }
    lemma_total_sums(squares);
}

/// A legal move leaves the state well formed.
pub proof fn lemma_step_well_formed(state: BoardState, board_index: usize, square_index: usize)
    requires
        state.well_formed(),
        state.legal(board_index, square_index),
    ensures
        state.step(board_index, square_index).well_formed(),
{
    let after = state.step(board_index, square_index);
    assert forall|b: int| 0 <= b < 9 implies (#[trigger] after.squares[b]).len() == 9 by {
        if b != board_index {
            assert(after.squares[b] == state.squares[b]);
        }
    }
}

/// A legal move takes exactly one square: the square it names was empty and
/// now holds the player who moved, every other square is as it was, and the
/// number of taken squares has grown by one.
pub proof fn lemma_move_takes_one_square(
    state: BoardState,
    board_index: usize,
    square_index: usize,
)
    requires
        state.well_formed(),
        state.legal(board_index, square_index),
    ensures
        state.squares[board_index as int][square_index as int] is None,
        state.step(board_index, square_index).squares[board_index as int][square_index as int]
            == Some(state.next),
        forall|b: int, s: int|
            0 <= b < 9 && 0 <= s < 9 && (b != board_index || s != square_index) ==> (
            #[trigger] state.step(board_index, square_index).squares[b][s]) == state.squares[b][s],
        occupied_total(state.step(board_index, square_index).squares) == occupied_total(
            state.squares,
        ) + 1,
{
    let grid = state.squares[board_index as int];
    let taken = grid.update(square_index as int, Some(state.next));
    lemma_occupied_take(grid, square_index as int, state.next);
    lemma_total_replace(state.squares, board_index as int, taken);
}

/// A legal move leaves every recorded winner as it was.
pub proof fn lemma_winner_kept(
    state: BoardState,
    board_index: usize,
    square_index: usize,
    board: int,
)
    requires
        state.well_formed(),
        state.legal(board_index, square_index),
        0 <= board < 9,
        state.winners[board] is Some,
    ensures
        state.step(board_index, square_index).winners[board] == state.winners[board],
{
}

/// Once a winner is recorded for a board, no later move, legal or not,
/// changes or clears it.
pub proof fn lemma_winner_is_final(state: BoardState, moves: Seq<(usize, usize)>, board: int)
    requires
        state.well_formed(),
        0 <= board < 9,
        state.winners[board] is Some,
    ensures
        state.play_all(moves).well_formed(),
        state.play_all(moves).winners[board] == state.winners[board],
    decreases moves.len(),
{
    if moves.len() > 0 {
        let earlier = state.play_all(moves.drop_last());
        let (board_index, square_index) = moves.last();
        lemma_winner_is_final(state, moves.drop_last(), board);
        if earlier.legal(board_index, square_index) {
            lemma_step_well_formed(earlier, board_index, square_index);
            lemma_winner_kept(earlier, board_index, square_index, board);
        }
    }
}

/// After a legal move the next move is locked to the board that the square
/// just taken names, unless the move filled its own board: then any board
/// may be played. Whether the named board can still be played in is not
/// looked at.
pub proof fn lemma_next_lock(state: BoardState, board_index: usize, square_index: usize)
    requires
        state.well_formed(),
        state.legal(board_index, square_index),
    ensures
        ({
            let after = state.step(board_index, square_index);
            let count = occupied(after.squares[board_index as int]);
            &&& count <= 9
            &&& count < 9 ==> after.locked == Some(square_index)
            &&& count == 9 ==> after.locked is None
        }),
{
    lemma_occupied_bound(state.step(board_index, square_index).squares[board_index as int]);
}

/// A legal move into a board without a recorded winner reports a tie exactly
/// when all eighty-one squares are taken and no line of the recorded winners
/// is held by one player.
pub proof fn lemma_tie(state: BoardState, board_index: usize, square_index: usize)
    requires
        state.well_formed(),
        state.legal(board_index, square_index),
        state.winners[board_index as int] is None,
    ensures
        ({
            let after = state.step(board_index, square_index);
            let tied = state.outcome(board_index, square_index).tied_game;
            &&& tied <==> occupied_total(after.squares) == 81 && !has_line(after.winners)
            &&& tied <==> (forall|b: int, s: int|
                0 <= b < 9 && 0 <= s < 9 ==> (#[trigger] after.squares[b][s]) is Some)
                && !has_line(after.winners)
        }),
{
    let after = state.step(board_index, square_index);
    lemma_step_well_formed(state, board_index, square_index);
    lemma_total_sums(after.squares);
    lemma_all_full(after.squares);
}

/// A legal move into a board that already has a recorded winner raises no
/// flag, whatever the squares hold afterwards.
pub proof fn lemma_no_flag_on_won_board(state: BoardState, board_index: usize, square_index: usize)
    requires
        state.well_formed(),
        state.legal(board_index, square_index),
        state.winners[board_index as int] is Some,
    ensures
        !state.outcome(board_index, square_index).won_board,
        !state.outcome(board_index, square_index).won_game,
        !state.outcome(board_index, square_index).tied_game,
        state.step(board_index, square_index).winners == state.winners,
{
}

/// A legal move keeps the winner records in agreement with the boards.
pub proof fn lemma_step_keeps_winners_earned(
    state: BoardState,
    board_index: usize,
    square_index: usize,
)
    requires
        state.well_formed(),
        state.legal(board_index, square_index),
        state.winners_earned(),
    ensures
        state.step(board_index, square_index).winners_earned(),
{
    let after = state.step(board_index, square_index);
    let old_grid = state.squares[board_index as int];
    let new_grid = after.squares[board_index as int];
    assert forall|board: int| 0 <= board < 9 implies match #[trigger] after.winners[board] {
        Some(player) => holds_line(after.squares[board], player),
        None => !has_line(after.squares[board]),
    } by {
        if board != board_index {
            assert(after.squares[board] == state.squares[board]);
            assert(after.winners[board] == state.winners[board]);
        } else {
            match state.winners[board] {
                Some(player) => {
                    let (a, b, c) = choose|a: int, b: int, c: int|
                        is_line(a, b, c) && #[trigger] alike(old_grid, a, b, c) && old_grid[a]
                            == Some(player);
                    assert(alike(new_grid, a, b, c));
                },
                None => {
                    if has_line(new_grid) {
                        let (a, b, c) = choose|a: int, b: int, c: int|
                            is_line(a, b, c) && #[trigger] alike(new_grid, a, b, c);
                        if a != square_index && b != square_index && c != square_index {
                            assert(alike(old_grid, a, b, c));
                        }
                        assert(new_grid[a] == Some(state.next));
                    }
                },
            }
        }
    }
}

/// In a game played from the start, whatever moves are tried, a board has a
/// recorded winner exactly when it holds a line, and the recorded winner
/// holds one.
pub proof fn lemma_winners_earned(moves: Seq<(usize, usize)>)
    ensures
        BoardState::initial().play_all(moves).well_formed(),
        BoardState::initial().play_all(moves).winners_earned(),
    decreases moves.len(),
{
    let start = BoardState::initial();
    if moves.len() == 0 {
        assert forall|board: int| 0 <= board < 9 implies !has_line(
            #[trigger] start.squares[board],
        ) by {}
    } else {
        let earlier = start.play_all(moves.drop_last());
        let (board_index, square_index) = moves.last();
        lemma_winners_earned(moves.drop_last());
        if earlier.legal(board_index, square_index) {
            lemma_step_well_formed(earlier, board_index, square_index);
            lemma_step_keeps_winners_earned(earlier, board_index, square_index);
        }
    }
}

/// Nine-square boards hold at most nine taken squares each, and all of their
/// squares are taken exactly when each board is full.
proof fn lemma_total_sums(boards: Seq<Seq<Square>>)
    requires
        forall|b: int| 0 <= b < boards.len() ==> (#[trigger] boards[b]).len() == 9,
    ensures
        occupied_total(boards) <= 9 * boards.len(),
        occupied_total(boards) == 9 * boards.len() <==> BoardState::all_full(boards),
        (forall|b: int| 0 <= b < boards.len() ==> occupied(#[trigger] boards[b]) == 0)
            ==> occupied_total(boards) == 0,
    decreases boards.len(),
{
    if boards.len() > 0 {
        let rest = boards.drop_last();
        lemma_total_sums(rest);
        lemma_occupied_bound(boards.last());
        if BoardState::all_full(boards) {
            assert forall|b: int| 0 <= b < rest.len() implies occupied(#[trigger] rest[b])
                == 9 by {
                assert(rest[b] == boards[b]);
            }
            assert(occupied(boards[boards.len() - 1]) == 9);
        }
        if occupied_total(boards) == 9 * boards.len() {
            assert forall|b: int| 0 <= b < boards.len() implies occupied(#[trigger] boards[b])
                == 9 by {
                if b < rest.len() {
                    assert(rest[b] == boards[b]);
                }
            }
        }
        if forall|b: int| 0 <= b < boards.len() ==> occupied(#[trigger] boards[b]) == 0 {
            assert forall|b: int| 0 <= b < rest.len() implies occupied(#[trigger] rest[b])
                == 0 by {
                assert(rest[b] == boards[b]);
            }
            assert(occupied(boards[boards.len() - 1]) == 0);
        }
    }
}

/// Every board is full exactly when every square is taken.
proof fn lemma_all_full(boards: Seq<Seq<Square>>)
    requires
        boards.len() == 9,
        forall|b: int| 0 <= b < 9 ==> (#[trigger] boards[b]).len() == 9,
    ensures
        BoardState::all_full(boards) <==> forall|b: int, s: int|
            0 <= b < 9 && 0 <= s < 9 ==> (#[trigger] boards[b][s]) is Some,
{
    assert forall|b: int| 0 <= b < 9 implies (occupied(#[trigger] boards[b]) == 9 <==> forall|
        s: int,
    |
        0 <= s < 9 ==> boards[b][s] is Some) by {
        lemma_occupied_full(boards[b]);
    }
    if BoardState::all_full(boards) {
        assert forall|b: int, s: int| 0 <= b < 9 && 0 <= s < 9 implies (
        #[trigger] boards[b][s]) is Some by {
            assert(occupied(boards[b]) == 9);
        }
    }
    if forall|b: int, s: int| 0 <= b < 9 && 0 <= s < 9 ==> (#[trigger] boards[b][s]) is Some {
        assert forall|b: int| 0 <= b < 9 implies occupied(#[trigger] boards[b]) == 9 by {
            assert forall|s: int| 0 <= s < 9 implies boards[b][s] is Some by {
                assert(boards[b][s] is Some);
            }
        }
    }
}

} // verus!
