use ultimate_ttt::ai_opponent::AiOpponent;
use ultimate_ttt::game::UltimateBoard;
use ultimate_ttt::{Opponent, UltimateTTTMove};

fn at(board_index: usize, square_index: usize) -> UltimateTTTMove {
    UltimateTTTMove { board_index, square_index }
}

#[test]
fn the_first_square_of_the_first_board_is_chosen_on_an_empty_board() {
    let mut opponent = AiOpponent::new(UltimateBoard::new());
    assert_eq!(opponent.choose_move(), Some(at(0, 0)));
    assert_eq!(opponent.receive_move(), Ok(at(0, 0)));
    // the move now stands on the board of the opponent
    assert!(!opponent.accepts(at(0, 0)));
    assert_eq!(opponent.choose_move(), Some(at(0, 1)));
}

#[test]
fn the_opponent_follows_the_moves_it_is_sent() {
    let mut opponent = AiOpponent::new(UltimateBoard::new());
    assert!(opponent.accepts(at(4, 7)));
    assert_eq!(opponent.send_move(at(4, 7)), Ok(()));
    // locked to board 7: the first free square there
    assert!(!opponent.accepts(at(0, 0)));
    assert!(opponent.accepts(at(7, 0)));
    assert_eq!(opponent.receive_move(), Ok(at(7, 0)));
    // locked to board 0
    assert_eq!(opponent.send_move(at(0, 7)), Ok(()));
    // board 7 again, where square 0 is taken
    assert_eq!(opponent.receive_move(), Ok(at(7, 1)));
}

#[test]
fn the_opponent_stays_in_step_with_the_board_of_the_game() {
    let mut board = UltimateBoard::new();
    let mut opponent = AiOpponent::new(UltimateBoard::new());
    let mine = [(4, 4), (0, 4), (1, 4), (2, 4), (3, 4)];
    for (board_index, square_index) in mine {
        board.place_square(board_index, square_index).unwrap();
        opponent.send_move(at(board_index, square_index)).unwrap();
        let reply = opponent.receive_move().unwrap();
        assert_eq!(board.check_place_square(reply.board_index, reply.square_index), None);
        board.place_square(reply.board_index, reply.square_index).unwrap();
    }
    // every reply was the first free square of board 4
    let text = board.to_string();
    let lines: Vec<&str> = text.lines().collect();
    assert_eq!(&lines[5][5..8], "OOO");
    assert_eq!(&lines[6][5..8], "OXO");
    assert_eq!(&lines[7][5..8], "   ");
}

#[test]
fn an_opponent_can_start_from_a_game_in_progress() {
    let mut board = UltimateBoard::new();
    board.place_square(2, 8).unwrap();
    let mut opponent = AiOpponent::new(board);
    assert_eq!(opponent.receive_move(), Ok(at(8, 0)));
}

#[test]
fn no_move_is_chosen_where_none_is_legal() {
    // fill board 4, then lock the next move to it
    let moves = [
        (4, 0), (0, 7), (7, 0), (0, 4), (4, 2), (2, 2), (2, 6), (6, 4), (4, 3), (3, 4),
        (4, 4), (4, 6), (6, 8), (8, 5), (5, 7), (7, 8), (8, 1), (1, 0), (0, 2), (2, 4),
        (4, 5), (5, 4), (4, 8), (8, 6), (6, 1), (1, 7), (7, 7), (7, 1), (1, 2), (2, 0),
        (0, 5), (5, 1), (1, 1), (1, 4), (4, 7), (7, 6), (6, 2), (2, 8), (8, 4), (4, 1),
    ];
    let mut opponent = AiOpponent::new(UltimateBoard::new());
    for (board_index, square_index) in moves {
        assert!(opponent.accepts(at(board_index, square_index)));
        opponent.send_move(at(board_index, square_index)).unwrap();
    }
    // all boards are open: the first free square of the first board
    assert_eq!(opponent.choose_move(), Some(at(0, 0)));
    opponent.send_move(at(7, 4)).unwrap();
    assert_eq!(opponent.choose_move(), None);
    assert!(!opponent.accepts(at(4, 0)));
    assert!(!opponent.accepts(at(0, 0)));
}

#[test]
fn a_boxed_opponent_is_an_opponent() {
    let mut opponent: Box<dyn Opponent> = Box::new(AiOpponent::new(UltimateBoard::new()));
    assert_eq!(opponent.send_move(at(3, 3)), Ok(()));
    assert_eq!(opponent.receive_move(), Ok(at(3, 0)));
}
