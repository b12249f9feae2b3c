//! The turn driver: who acts next, what becomes of a move, and when the game
//! is over. The driver neither prints nor reads. It says what is to be done
//! next, and is told what came of it.

use crate::game::{MoveError, MoveOutcome, PlayerType, UltimateBoard};
use crate::rules::BoardState;
use crate::text::{decimal, put_decimal};
use crate::UltimateTTTMove;
use vstd::prelude::*;
use vstd::string::StringExecFns;

verus! {

/// Where a session stands.
#[derive(Copy, Clone, Debug, PartialEq, Eq)]
pub enum Phase {
    /// The local player is to choose a move. The first time no move has been
    /// turned down yet; after that, the reason why the last one was.
    Asking(Option<MoveError>),
    /// The local player's move was played with the given outcome and is to
    /// be sent to the opponent.
    Sending(UltimateTTTMove, MoveOutcome),
    /// The opponent is to move.
    Receiving,
    /// The game is over.
    Finished,
    /// The session broke off: the opponent could not be reached, or sent a
    /// move that is not legal.
    Aborted,
}

/// What the surroundings of a session are asked to do next.
#[derive(Copy, Clone, Debug, PartialEq, Eq)]
pub enum Action {
    /// Show the board and the message, and ask the local player for a move.
    Prompt,
    /// Tell the local player why the last move was turned down, and ask for
    /// another.
    Reprompt(MoveError),
    /// Send the move to the opponent.
    Send(UltimateTTTMove),
    /// Show the board and the message, and wait for the move of the opponent.
    Receive,
    /// Show the board and the message for the last time, and end the session.
    Finish,
    /// End the session as failed.
    Abort,
}

/// What came of an action.
#[derive(Copy, Clone, Debug, PartialEq, Eq)]
pub enum Event {
    /// The local player chose the move.
    Chosen(UltimateTTTMove),
    /// The move was sent to the opponent, or could not be.
    Sent(Result<(), ()>),
    /// The move of the opponent came in, or could not be had.
    Received(Result<UltimateTTTMove, ()>),
}

/// Whether a move with this outcome ends the game.
pub open spec fn is_final(outcome: MoveOutcome) -> bool {
    outcome.tied_game || outcome.won_game
}

/// The message that tells of an outcome: a tie goes before a won game, a
/// won game before a won board, and a move that did none of these leaves no
/// message.
pub open spec fn message_of(outcome: MoveOutcome) -> Option<Seq<char>> {
    if outcome.tied_game {
        Some("game is a tie"@)
    } else if outcome.won_game {
        Some("player "@.push(outcome.player.glyph()) + " won"@)
    } else if outcome.won_board {
        Some(
            "player "@.push(outcome.player.glyph()) + " won board "@ + decimal(
                outcome.board_index as nat,
            ),
        )
    } else {
        None
    }
}

/// What to tell the local player of a move that was turned down.
pub open spec fn rejection_message(error: MoveError) -> Seq<char> {
    match error {
        MoveError::SquareAlreadyTaken => "square is already taken"@,
        MoveError::BoardLockViolated => "board lock violated"@,
        MoveError::BoardOutOfBounds => "board not in the accepted range"@,
        MoveError::SquareOutOfBounds => "square not in the accepted range"@,
    }
}

/// The state of a session as a mathematical value.
pub struct LoopState {
    /// The board that both sides play on.
    pub board: BoardState,
    /// The side of the local player.
    pub player: PlayerType,
    /// What the last move brought about, if anything.
    pub message: Option<Seq<char>>,
    /// Where the session stands.
    pub phase: Phase,
}

impl LoopState {
    /// The phase in which the next move is waited for: the local player is
    /// asked when it is their turn, the opponent otherwise.
    pub open spec fn turn(board: BoardState, player: PlayerType) -> Phase {
        if player == board.next {
            Phase::Asking(None)
        } else {
            Phase::Receiving
        }
    }

    /// A session before the first move.
    pub open spec fn initial(player: PlayerType) -> LoopState {
        LoopState {
            board: BoardState::initial(),
            player,
            message: None,
            phase: Self::turn(BoardState::initial(), player),
        }
    }

    /// What the surroundings are asked to do in this state.
    pub open spec fn action(self) -> Action {
        match self.phase {
            Phase::Asking(None) => Action::Prompt,
            Phase::Asking(Some(error)) => Action::Reprompt(error),
            Phase::Sending(ttt_move, _) => Action::Send(ttt_move),
            Phase::Receiving => Action::Receive,
            Phase::Finished => Action::Finish,
            Phase::Aborted => Action::Abort,
        }
    }

    /// The state once a move with the given outcome stands on the board and
    /// both sides know of it: the message tells of the outcome, and the
    /// session is over or goes on with the next turn.
    pub open spec fn settled(self, outcome: MoveOutcome) -> LoopState {
        LoopState {
            message: message_of(outcome),
            phase: if is_final(outcome) {
                Phase::Finished
            } else {
                Self::turn(self.board, self.player)
            },
            ..self
        }
    }

    /// The state after an event.
    ///
    /// A move that the local player chose is played if it is legal, and is
    /// then to be sent; if not, the player is asked again. Once the move is
    /// sent it is settled. A move of the opponent is played and settled if it
    /// is legal. A move that could not be sent or received, or an illegal
    /// move of the opponent, breaks the session off. An event that does not
    /// answer the pending action changes nothing.
    pub open spec fn advance(self, event: Event) -> LoopState {
        match (self.phase, event) {
            (Phase::Asking(_), Event::Chosen(ttt_move)) => {
                match self.board.rejection(ttt_move.board_index, ttt_move.square_index) {
                    Some(error) => LoopState { phase: Phase::Asking(Some(error)), ..self },
                    None => LoopState {
                        board: self.board.step(ttt_move.board_index, ttt_move.square_index),
                        phase: Phase::Sending(
                            ttt_move,
                            self.board.outcome(ttt_move.board_index, ttt_move.square_index),
                        ),
                        ..self
                    },
                }
            },
            (Phase::Sending(_, outcome), Event::Sent(Ok(_))) => self.settled(outcome),
            (Phase::Sending(_, _), Event::Sent(Err(_))) => LoopState {
                phase: Phase::Aborted,
                ..self
            },
            (Phase::Receiving, Event::Received(Ok(ttt_move))) => {
                if self.board.legal(ttt_move.board_index, ttt_move.square_index) {
                    LoopState {
                        board: self.board.step(ttt_move.board_index, ttt_move.square_index),
                        ..self
                    }.settled(self.board.outcome(ttt_move.board_index, ttt_move.square_index))
                } else {
                    LoopState { phase: Phase::Aborted, ..self }
                }
            },
            (Phase::Receiving, Event::Received(Err(_))) => LoopState {
                phase: Phase::Aborted,
                ..self
            },
            _ => self,
        }
    }
}

/// Turns what the local player typed, counted from one, into an index
/// counted from zero. Zero names nothing, and becomes an index that no board
/// has.
pub fn index_from_input(raw: usize) -> (index: usize)
    ensures
        index == if raw > 0 {
            raw - 1
        } else {
            usize::MAX as int
        },
{
    if raw > 0 {
        raw - 1
    } else {
        usize::MAX
    }
}

/// What to tell the local player of a move that was turned down.
pub fn rejection_text(error: MoveError) -> (text: &'static str)
    ensures
        text@ == rejection_message(error),
{
    match error {
        MoveError::SquareAlreadyTaken => "square is already taken",
        MoveError::BoardLockViolated => "board lock violated",
        MoveError::BoardOutOfBounds => "board not in the accepted range",
        MoveError::SquareOutOfBounds => "square not in the accepted range",
    }
}

/// Whether a move with this outcome ends the game.
pub fn ends_game(outcome: &MoveOutcome) -> (over: bool)
    ensures
        over == is_final(*outcome),
{
    outcome.tied_game || outcome.won_game
}

/// The message that tells of an outcome, if it calls for one.
pub fn outcome_message(outcome: &MoveOutcome) -> (message: Option<String>)
    ensures
        message.deep_view() == message_of(*outcome),
{
    if outcome.tied_game {
        Some("game is a tie".to_owned())
    } else if outcome.won_game {
        let mut message = "player ".to_owned();
        message.push(outcome.player.as_char());
        message.append(" won");
        Some(message)
    } else if outcome.won_board {
        let mut message = "player ".to_owned();
        message.push(outcome.player.as_char());
        message.append(" won board ");
        put_decimal(&mut message, outcome.board_index);
        Some(message)
    } else {
        None
    }
}

/// A session: the board that both sides play on, the side of the local
/// player, the message that the last move left, and what is to be done next.
pub struct GameLoop {
    board: UltimateBoard,
    player: PlayerType,
    message: Option<String>,
    phase: Phase,
}

impl View for GameLoop {
    type V = LoopState;

    closed spec fn view(&self) -> LoopState {
        LoopState {
            board: self.board@,
            player: self.player,
            message: self.message.deep_view(),
            phase: self.phase,
        }
    }
}

impl GameLoop {
    /// A session before the first move, with the local player on the given
    /// side.
    pub fn new(player: PlayerType) -> (session: GameLoop)
        ensures
            session@ == LoopState::initial(player),
    {
        let board = UltimateBoard::new();
        let phase = Self::turn(&board, player);
        GameLoop { board, player, message: None, phase }
    }

    /// The phase in which the next move is waited for.
    fn turn(board: &UltimateBoard, player: PlayerType) -> (phase: Phase)
        ensures
            phase == LoopState::turn(board@, player),
    {
        if player == board.get_next_to_move() {
            Phase::Asking(None)
        } else {
            Phase::Receiving
        }
    }

    /// The board that both sides play on.
    pub fn board(&self) -> (board: &UltimateBoard)
        ensures
            board@ == self@.board,
    {
        &self.board
    }

    /// The side of the local player.
    pub fn player(&self) -> (player: PlayerType)
        ensures
            player == self@.player,
    {
        self.player
    }

    /// What the last move brought about, if anything.
    pub fn message(&self) -> (message: &Option<String>)
        ensures
            message.deep_view() == self@.message,
    {
        &self.message
    }

    /// What is to be done next.
    pub fn action(&self) -> (action: Action)
        ensures
            action == self@.action(),
    {
        match self.phase {
            Phase::Asking(None) => Action::Prompt,
            Phase::Asking(Some(error)) => Action::Reprompt(error),
            Phase::Sending(ttt_move, _) => Action::Send(ttt_move),
            Phase::Receiving => Action::Receive,
            Phase::Finished => Action::Finish,
            Phase::Aborted => Action::Abort,
        }
    }

    /// Takes note of a move that stands on the board and that both sides
    /// know of.
    fn settle(&mut self, outcome: MoveOutcome)
        ensures
            final(self)@ == old(self)@.settled(outcome),
    {
        self.message = outcome_message(&outcome);
        if ends_game(&outcome) {
            self.phase = Phase::Finished;
        } else {
            self.phase = Self::turn(&self.board, self.player);
        }
    }

    /// Takes in what came of the last action, and says what is to be done
    /// next.
    pub fn advance(&mut self, event: Event) -> (action: Action)
        ensures
            final(self)@ == old(self)@.advance(event),
            action == final(self)@.action(),
    {
        match (self.phase, event) {
            (Phase::Asking(_), Event::Chosen(ttt_move)) => {
                match self.board.place_square(ttt_move.board_index, ttt_move.square_index) {
                    Ok(outcome) => {
                        self.phase = Phase::Sending(ttt_move, outcome);
                    },
                    Err(error) => {
                        self.phase = Phase::Asking(Some(error));
                    },
                }
            },
            (Phase::Sending(_, outcome), Event::Sent(Ok(_))) => {
                self.settle(outcome);
            },
            (Phase::Sending(_, _), Event::Sent(Err(_))) => {
                self.phase = Phase::Aborted;
            },
            (Phase::Receiving, Event::Received(Ok(ttt_move))) => {
                match self.board.place_square(ttt_move.board_index, ttt_move.square_index) {
                    Ok(outcome) => {
                        self.settle(outcome);
                    },
                    Err(_) => {
                        self.phase = Phase::Aborted;
                    },
                }
            },
            (Phase::Receiving, Event::Received(Err(_))) => {
                self.phase = Phase::Aborted;
            },
            _ => {},
        }
        self.action()
    }
}

} // verus!
