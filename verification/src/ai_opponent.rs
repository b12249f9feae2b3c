//! An opponent that needs nobody at the other end: it keeps a board of its
//! own and answers with the first legal move it finds.

use crate::game::UltimateBoard;
use crate::rules::BoardState;
use crate::{Opponent, UltimateTTTMove};
use vstd::prelude::*;

verus! {

/// Whether the first move comes before the second when boards are gone
/// through in order, and the squares of each board in order.
pub open spec fn scanned_before(first: UltimateTTTMove, second: UltimateTTTMove) -> bool {
    first.board_index < second.board_index || (first.board_index == second.board_index
        && first.square_index < second.square_index)
}

impl BoardState {
    /// Whether the move is legal and no legal move is scanned before it.
    pub open spec fn first_legal(self, ttt_move: UltimateTTTMove) -> bool {
        &&& self.legal(ttt_move.board_index, ttt_move.square_index)
        &&& forall|other: UltimateTTTMove| #[trigger]
            scanned_before(other, ttt_move) ==> !self.legal(
                other.board_index,
                other.square_index,
            )
    }

    /// Whether any move is legal.
    pub open spec fn has_legal_move(self) -> bool {
        exists|ttt_move: UltimateTTTMove| #[trigger]
            self.legal(ttt_move.board_index, ttt_move.square_index)
    }
}

/// The opponent that picks its moves itself.
pub struct AiOpponent {
    board: UltimateBoard,
}

impl View for AiOpponent {
    type V = BoardState;

    /// The game as this opponent has followed it.
    closed spec fn view(&self) -> BoardState {
        self.board@
    }
}

impl AiOpponent {
    /// An opponent that follows the game from the given board on.
    pub fn new(board: UltimateBoard) -> (opponent: AiOpponent)
        ensures
            opponent@ == board@,
    {
        AiOpponent { board }
    }

    /// Whether the move is legal on the board of this opponent.
    pub fn accepts(&self, ttt_move: UltimateTTTMove) -> (legal: bool)
        ensures
            legal == self@.legal(ttt_move.board_index, ttt_move.square_index),
    {
        self.board.check_place_square(ttt_move.board_index, ttt_move.square_index).is_none()
    }

    /// The move that this opponent would make: the first legal one, boards
    /// gone through in order and the squares of each board in order. `None`
    /// if no move is legal.
    pub fn choose_move(&self) -> (choice: Option<UltimateTTTMove>)
        ensures
            match choice {
                Some(ttt_move) => self@.first_legal(ttt_move),
                None => !self@.has_legal_move(),
            },
    {
        let mut i: usize = 0;
        while i < 9
            invariant
                i <= 9,
                forall|b: usize, s: usize| b < i ==> !self@.legal(b, s),
            decreases 9 - i,
        {
            let mut j: usize = 0;
            while j < 9
                invariant
                    i < 9,
                    j <= 9,
                    forall|b: usize, s: usize| b < i ==> !self@.legal(b, s),
                    forall|s: usize| s < j ==> !self@.legal(i, s),
                decreases 9 - j,
            {
                if self.board.check_place_square(i, j).is_none() {
                    return Some(UltimateTTTMove { board_index: i, square_index: j });
                }
                j += 1;
            }
            i += 1;
        }
        None
    }
}

/// A boxed opponent is an opponent: it hands every call on to what it holds,
/// and asks and promises what that opponent asks and promises.
impl<O: Opponent + ?Sized> Opponent for Box<O> {
    open spec fn mirror(&self) -> Option<BoardState> {
        (**self).mirror()
    }

    open spec fn takes(&self, ttt_move: UltimateTTTMove) -> bool {
        (**self).takes(ttt_move)
    }

    open spec fn gives(&self) -> bool {
        (**self).gives()
    }

    open spec fn sends(
        &self,
        ttt_move: UltimateTTTMove,
        sent: Result<(), ()>,
        after: Option<BoardState>,
    ) -> bool {
        (**self).sends(ttt_move, sent, after)
    }

    open spec fn receives(
        &self,
        received: Result<UltimateTTTMove, ()>,
        after: Option<BoardState>,
    ) -> bool {
        (**self).receives(received, after)
    }

    /// Tells the boxed opponent of the move. The answer, and the board that
    /// the boxed opponent follows the game on afterwards, are what that
    /// opponent promises of the call.
    fn send_move(&mut self, ttt_move: UltimateTTTMove) -> (sent: Result<(), ()>)
        ensures
            (**old(self)).sends(ttt_move, sent, (**final(self)).mirror()),
    {
        (**self).send_move(ttt_move)
    }

    /// Asks the boxed opponent for its move. The answer, and the board that
    /// the boxed opponent follows the game on afterwards, are what that
    /// opponent promises of the call.
    fn receive_move(&mut self) -> (received: Result<UltimateTTTMove, ()>)
        ensures
            (**old(self)).receives(received, (**final(self)).mirror()),
    {
        (**self).receive_move()
    }
}

impl Opponent for AiOpponent {
    /// The board of this opponent.
    open spec fn mirror(&self) -> Option<BoardState> {
        Some(self@)
    }

    /// The move is played on the board of this opponent, and that never
    /// fails.
    open spec fn sends(
        &self,
        ttt_move: UltimateTTTMove,
        sent: Result<(), ()>,
        after: Option<BoardState>,
    ) -> bool {
        sent is Ok && after == Some(self@.step(ttt_move.board_index, ttt_move.square_index))
    }

    /// The answer is the first legal move on the board of this opponent, and
    /// it is played there.
    open spec fn receives(
        &self,
        received: Result<UltimateTTTMove, ()>,
        after: Option<BoardState>,
    ) -> bool {
        received matches Ok(ttt_move) && self@.first_legal(ttt_move) && after == Some(
            self@.step(ttt_move.board_index, ttt_move.square_index),
        )
    }

    /// The move must be legal on the board of this opponent.
    open spec fn takes(&self, ttt_move: UltimateTTTMove) -> bool {
        self@.legal(ttt_move.board_index, ttt_move.square_index)
    }

    /// Some move must be legal on the board of this opponent.
    open spec fn gives(&self) -> bool {
        self@.has_legal_move()
    }

    /// Plays the move on the board of this opponent.
    fn send_move(&mut self, ttt_move: UltimateTTTMove) -> (sent: Result<(), ()>)
        ensures
            sent is Ok,
            final(self)@ == old(self)@.step(ttt_move.board_index, ttt_move.square_index),
    {
        let _ = self.board.place_square(ttt_move.board_index, ttt_move.square_index);
        Ok(())
    }

    /// Makes the first legal move on the board of this opponent and hands it
    /// out.
    fn receive_move(&mut self) -> (received: Result<UltimateTTTMove, ()>)
        ensures
            received matches Ok(ttt_move) && old(self)@.first_legal(ttt_move) && final(self)@
                == old(self)@.step(ttt_move.board_index, ttt_move.square_index),
    {
        match self.choose_move() {
            Some(ttt_move) => {
                let _ = self.board.place_square(ttt_move.board_index, ttt_move.square_index);
                Ok(ttt_move)
            },
            None => Err(()),
        }
    }
}

} // verus!
