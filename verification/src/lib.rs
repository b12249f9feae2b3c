//! Ultimate tic-tac-toe: a three-by-three grid of three-by-three boards, where
//! the square a player takes decides the board the other player must play in.
//!
//! The board lives in [`game`]. What it does is stated over the state machine
//! of [`rules`], and [`laws`] proves what holds of every game. [`rendering`]
//! says what a board looks like as text.
//!
//! An [`Opponent`] is whoever plays the other side: [`ai_opponent`] holds one
//! that picks its moves itself, and [`codec`] the wire format for one at the
//! other end of a connection. [`game_loop`] drives a session, turn by turn.
//!
//! Every executable function in this crate carries a contract that is checked
//! by Verus.

use crate::rules::BoardState;
use vstd::prelude::*;

pub mod ai_opponent;
pub mod codec;
pub mod game;
pub mod game_loop;
pub mod laws;
pub mod rendering;
pub mod rules;
pub mod text;

verus! {

/// A move: a square of a board, both counted from zero.
#[derive(Copy, Clone, Debug, PartialEq, Eq)]
pub struct UltimateTTTMove {
    pub square_index: usize,
    pub board_index: usize,
}

/// Whoever plays the other side of the game.
///
/// What an opponent asks and promises of a call is said by the predicates of
/// this trait. An opponent that leaves them as they are asks nothing and
/// promises nothing.
pub trait Opponent {
    /// The board on which the opponent follows the game, if it keeps one.
    open spec fn mirror(&self) -> Option<BoardState> {
        None
    }

    /// Whether the opponent can be told of the move. Any move, unless the
    /// opponent says otherwise.
    open spec fn takes(&self, ttt_move: UltimateTTTMove) -> bool {
        true
    }

    /// Whether the opponent can be asked for a move. At any time, unless the
    /// opponent says otherwise.
    open spec fn gives(&self) -> bool {
        true
    }

    /// What the opponent promises of being told the move: whether it may
    /// answer with `sent` and follow the game on `after` from then on.
    open spec fn sends(
        &self,
        ttt_move: UltimateTTTMove,
        sent: Result<(), ()>,
        after: Option<BoardState>,
    ) -> bool {
        true
    }

    /// What the opponent promises of being asked for a move: whether it may
    /// answer with `received` and follow the game on `after` from then on.
    open spec fn receives(
        &self,
        received: Result<UltimateTTTMove, ()>,
        after: Option<BoardState>,
    ) -> bool {
        true
    }

    /// Tells the opponent of a move made on this side.
    fn send_move(&mut self, ttt_move: UltimateTTTMove) -> (sent: Result<(), ()>)
        requires
            old(self).takes(ttt_move),
        ensures
            old(self).sends(ttt_move, sent, final(self).mirror()),
    ;

    /// Waits for the move of the opponent.
    fn receive_move(&mut self) -> (received: Result<UltimateTTTMove, ()>)
        requires
            old(self).gives(),
        ensures
            old(self).receives(received, final(self).mirror()),
    ;
}

} // verus!
