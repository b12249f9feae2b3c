use ultimate_ttt::game::{is_win, nonempty_same, MoveError, MoveOutcome, PlayerType, UltimateBoard};

/// A game in which O wins boards 0, 4 and 8, in that order.
const DIAGONAL_GAME: [(usize, usize); 20] = [
    (6, 4), (4, 7), (7, 4), (4, 3), (3, 8), (8, 2), (2, 0), (0, 5), (5, 4),
    (4, 4), (4, 0), (0, 4), (4, 8), (8, 8), (8, 0), (0, 3), (3, 4), (4, 5),
    (5, 8), (8, 5),
];

/// A game whose last move fills board 4.
const FILLING_GAME: [(usize, usize); 40] = [
    (4, 0), (0, 7), (7, 0), (0, 4), (4, 2), (2, 2), (2, 6), (6, 4), (4, 3),
    (3, 4), (4, 4), (4, 6), (6, 8), (8, 5), (5, 7), (7, 8), (8, 1), (1, 0),
    (0, 2), (2, 4), (4, 5), (5, 4), (4, 8), (8, 6), (6, 1), (1, 7), (7, 7),
    (7, 1), (1, 2), (2, 0), (0, 5), (5, 1), (1, 1), (1, 4), (4, 7), (7, 6),
    (6, 2), (2, 8), (8, 4), (4, 1),
];

/// A game that fills all boards and ends in a tie.
const TIED_GAME: [(usize, usize); 81] = [
    (5, 8), (8, 0), (0, 0), (0, 6), (6, 2), (2, 2), (2, 3), (3, 4), (4, 4),
    (4, 7), (7, 6), (6, 3), (3, 1), (1, 3), (3, 5), (5, 0), (0, 2), (2, 6),
    (6, 4), (4, 5), (5, 6), (6, 6), (6, 1), (1, 4), (4, 2), (2, 5), (5, 7),
    (7, 8), (8, 4), (4, 6), (6, 7), (7, 4), (4, 3), (3, 8), (8, 2), (2, 0),
    (0, 1), (1, 8), (8, 7), (7, 7), (7, 2), (2, 4), (4, 8), (8, 3), (3, 3),
    (3, 6), (6, 8), (8, 6), (6, 5), (5, 2), (2, 8), (8, 8), (8, 5), (5, 1),
    (1, 0), (0, 8), (8, 1), (1, 2), (2, 1), (1, 6), (6, 0), (1, 7), (7, 0),
    (0, 7), (7, 5), (5, 4), (4, 1), (1, 5), (5, 3), (3, 7), (7, 1), (1, 1),
    (3, 0), (0, 5), (5, 5), (2, 7), (0, 3), (3, 2), (7, 3), (0, 4), (4, 0),
];

/// A game that fills all boards without a line of won boards, and whose last
/// move goes into a board that was won before.
const FULL_UNTIED_GAME: [(usize, usize); 81] = [
    (3, 6), (6, 5), (5, 4), (4, 5), (5, 5), (5, 7), (7, 6), (6, 1), (1, 8),
    (8, 3), (3, 7), (7, 2), (2, 8), (8, 1), (1, 4), (4, 0), (0, 3), (3, 3),
    (3, 5), (5, 1), (1, 5), (5, 3), (3, 0), (0, 1), (1, 0), (0, 7), (7, 8),
    (8, 8), (8, 5), (5, 6), (6, 2), (2, 5), (5, 2), (2, 0), (0, 4), (4, 4),
    (4, 3), (3, 2), (2, 4), (4, 7), (7, 3), (3, 4), (4, 2), (2, 6), (6, 8),
    (8, 2), (2, 3), (3, 8), (8, 4), (4, 1), (1, 2), (2, 2), (2, 1), (1, 6),
    (6, 3), (3, 1), (0, 8), (8, 0), (0, 2), (2, 7), (7, 7), (7, 5), (5, 8),
    (8, 7), (7, 1), (1, 7), (7, 4), (4, 8), (8, 6), (5, 0), (6, 0), (0, 6),
    (6, 6), (6, 4), (4, 6), (6, 7), (1, 1), (1, 3), (0, 0), (0, 5), (7, 0),
];

fn play(board: &mut UltimateBoard, moves: &[(usize, usize)]) -> Vec<MoveOutcome> {
    let mut outcomes = Vec::new();
    for &(board_index, square_index) in moves {
        outcomes.push(board.place_square(board_index, square_index).expect("a legal move"));
    }
    outcomes
}

fn taken(board: &UltimateBoard) -> usize {
    board.to_string().chars().filter(|c| *c == 'X' || *c == 'O').count()
}

#[test]
fn players_alternate() {
    assert_eq!(PlayerType::X.next(), PlayerType::O);
    assert_eq!(PlayerType::O.next(), PlayerType::X);
    assert_eq!(PlayerType::X.next().next(), PlayerType::X);
}

#[test]
fn players_have_their_characters() {
    assert_eq!(PlayerType::X.as_char(), 'X');
    assert_eq!(PlayerType::O.as_char(), 'O');
}

#[test]
fn a_new_board_is_open_with_x_to_move() {
    let board = UltimateBoard::new();
    assert_eq!(board.get_locked_board(), None);
    assert_eq!(board.get_next_to_move(), PlayerType::X);
    assert_eq!(taken(&board), 0);
    for board_index in 0..9 {
        for square_index in 0..9 {
            assert_eq!(board.check_place_square(board_index, square_index), None);
        }
    }
}

#[test]
fn first_move_to_the_centre() {
    let mut board = UltimateBoard::new();
    let outcome = board.place_square(4, 4).unwrap();
    assert_eq!(
        outcome,
        MoveOutcome {
            player: PlayerType::X,
            board_index: 4,
            square_index: 4,
            won_board: false,
            won_game: false,
            tied_game: false,
        }
    );
    assert_eq!(board.get_locked_board(), Some(4));
    assert_eq!(board.get_next_to_move(), PlayerType::O);
}

#[test]
fn a_board_is_won_once() {
    let mut board = UltimateBoard::new();
    let moves = [(0, 0), (0, 4), (4, 1), (1, 0), (0, 1), (1, 2), (2, 3), (3, 0), (0, 2)];
    let outcomes = play(&mut board, &moves);
    for outcome in &outcomes[..8] {
        assert!(!outcome.won_board);
        assert!(!outcome.won_game);
        assert!(!outcome.tied_game);
    }
    let winning = outcomes[8];
    assert_eq!(winning.player, PlayerType::X);
    assert_eq!(winning.board_index, 0);
    assert_eq!(winning.square_index, 2);
    assert!(winning.won_board);
    assert!(!winning.won_game);
    assert!(!winning.tied_game);
    assert_eq!(board.get_locked_board(), Some(2));

    // later moves into the won board raise no flag, not even the one with
    // which the other player makes a line there
    let later = play(&mut board, &[(2, 2), (2, 0), (0, 5), (5, 0), (0, 3)]);
    for outcome in &later {
        assert!(!outcome.won_board);
        assert!(!outcome.won_game);
        assert!(!outcome.tied_game);
    }
    assert_eq!(later[4].player, PlayerType::O);
    let text = board.to_string();
    let lines: Vec<&str> = text.lines().collect();
    assert_eq!(&lines[1][1..4], "XXX");
    assert_eq!(&lines[2][1..4], "OOO");
    assert_eq!(&lines[3][1..4], "   ");
}

#[test]
fn three_boards_on_a_diagonal_win_the_game() {
    let mut board = UltimateBoard::new();
    let outcomes = play(&mut board, &DIAGONAL_GAME);
    let won: Vec<(usize, usize)> = outcomes
        .iter()
        .enumerate()
        .filter(|(_, outcome)| outcome.won_board)
        .map(|(at, outcome)| (at, outcome.board_index))
        .collect();
    assert_eq!(won, vec![(15, 0), (17, 4), (19, 8)]);
    for outcome in &outcomes[..19] {
        assert!(!outcome.won_game);
        assert!(!outcome.tied_game);
    }
    for at in [15, 17, 19] {
        assert_eq!(outcomes[at].player, PlayerType::O);
    }
    let last = outcomes[19];
    assert_eq!(
        last,
        MoveOutcome {
            player: PlayerType::O,
            board_index: 8,
            square_index: 5,
            won_board: true,
            won_game: true,
            tied_game: false,
        }
    );
}

#[test]
fn a_move_outside_the_locked_board_is_turned_down() {
    let mut board = UltimateBoard::new();
    play(&mut board, &[(0, 3)]);
    assert_eq!(board.get_locked_board(), Some(3));
    let before = board.to_string();

    assert_eq!(board.check_place_square(5, 0), Some(MoveError::BoardLockViolated));
    assert_eq!(board.place_square(5, 0), Err(MoveError::BoardLockViolated));

    assert_eq!(board.to_string(), before);
    assert_eq!(board.get_locked_board(), Some(3));
    assert_eq!(board.get_next_to_move(), PlayerType::O);
    assert_eq!(board.place_square(3, 0).unwrap().player, PlayerType::O);
}

#[test]
fn a_square_index_out_of_range_is_turned_down() {
    let mut board = UltimateBoard::new();
    assert_eq!(board.check_place_square(0, 9), Some(MoveError::SquareOutOfBounds));
    assert_eq!(board.place_square(0, 9), Err(MoveError::SquareOutOfBounds));
    assert_eq!(board.place_square(0, usize::MAX), Err(MoveError::SquareOutOfBounds));
    assert_eq!(taken(&board), 0);
    assert_eq!(board.get_next_to_move(), PlayerType::X);
}

#[test]
fn a_board_index_out_of_range_is_turned_down() {
    let mut board = UltimateBoard::new();
    assert_eq!(board.check_place_square(9, 0), Some(MoveError::BoardOutOfBounds));
    assert_eq!(board.place_square(9, 8), Err(MoveError::BoardOutOfBounds));
    assert_eq!(board.place_square(usize::MAX, 0), Err(MoveError::BoardOutOfBounds));
    assert_eq!(taken(&board), 0);
    assert_eq!(board.get_locked_board(), None);
}

#[test]
fn a_taken_square_is_turned_down() {
    let mut board = UltimateBoard::new();
    play(&mut board, &[(4, 4)]);
    let before = board.to_string();
    assert_eq!(board.check_place_square(4, 4), Some(MoveError::SquareAlreadyTaken));
    assert_eq!(board.place_square(4, 4), Err(MoveError::SquareAlreadyTaken));
    assert_eq!(board.to_string(), before);
    assert_eq!(board.get_next_to_move(), PlayerType::O);
}

#[test]
fn the_first_ground_to_turn_a_move_down_is_given() {
    let mut board = UltimateBoard::new();
    play(&mut board, &[(4, 4)]);
    // both indices out of range: the square is named
    assert_eq!(board.check_place_square(9, 9), Some(MoveError::SquareOutOfBounds));
    assert_eq!(board.check_place_square(usize::MAX, usize::MAX), Some(MoveError::SquareOutOfBounds));
    // an index out of range goes before the lock
    assert_eq!(board.check_place_square(9, 0), Some(MoveError::BoardOutOfBounds));
    assert_eq!(board.check_place_square(0, 9), Some(MoveError::SquareOutOfBounds));
    // the lock goes before a taken square
    play(&mut board, &[(4, 0), (0, 4)]);
    assert_eq!(board.get_locked_board(), Some(4));
    assert_eq!(board.check_place_square(0, 4), Some(MoveError::BoardLockViolated));
    assert_eq!(board.check_place_square(4, 4), Some(MoveError::SquareAlreadyTaken));
    assert_eq!(board.check_place_square(4, 1), None);
}

#[test]
fn checking_a_move_changes_nothing() {
    let mut board = UltimateBoard::new();
    play(&mut board, &[(4, 4), (4, 0)]);
    let before = board.to_string();
    for board_index in 0..11 {
        for square_index in 0..11 {
            board.check_place_square(board_index, square_index);
        }
    }
    assert_eq!(board.to_string(), before);
    assert_eq!(board.get_locked_board(), Some(0));
    assert_eq!(board.get_next_to_move(), PlayerType::X);
}

#[test]
fn each_move_takes_one_square() {
    let mut board = UltimateBoard::new();
    for (count, &(board_index, square_index)) in TIED_GAME.iter().enumerate() {
        let before = board.to_string();
        assert_eq!(taken(&board), count);
        let mover = board.get_next_to_move();
        board.place_square(board_index, square_index).unwrap();
        let after = board.to_string();
        assert_eq!(taken(&board), count + 1);
        let changed: Vec<(char, char)> =
            before.chars().zip(after.chars()).filter(|(old, new)| old != new).collect();
        assert_eq!(changed, vec![(' ', mover.as_char())]);
    }
}

#[test]
fn the_square_taken_names_the_next_board() {
    let mut board = UltimateBoard::new();
    for &(board_index, square_index) in &FILLING_GAME[..39] {
        board.place_square(board_index, square_index).unwrap();
        assert_eq!(board.get_locked_board(), Some(square_index));
    }
}

#[test]
fn filling_a_board_opens_all_boards() {
    let mut board = UltimateBoard::new();
    play(&mut board, &FILLING_GAME[..39]);
    assert_eq!(board.get_locked_board(), Some(4));
    let outcome = board.place_square(4, 1).unwrap();
    assert_eq!(outcome.player, PlayerType::O);
    assert_eq!(board.get_locked_board(), None);
    // board 4 is full: nothing more goes there, anything free elsewhere does
    assert_eq!(board.check_place_square(4, 1), Some(MoveError::SquareAlreadyTaken));
    assert_eq!(board.check_place_square(3, 0), None);
    assert_eq!(board.check_place_square(8, 8), None);
}

#[test]
fn the_lock_may_name_a_full_board() {
    let mut board = UltimateBoard::new();
    play(&mut board, &FILLING_GAME);
    // board 4 is full; a move to square 4 of another board locks the next
    // move to it all the same, and then no move is legal
    assert_eq!(board.get_locked_board(), None);
    let free: Vec<usize> = (0..9).filter(|b| board.check_place_square(*b, 4).is_none()).collect();
    assert!(!free.is_empty());
    board.place_square(free[0], 4).unwrap();
    assert_eq!(board.get_locked_board(), Some(4));
    for board_index in 0..9 {
        for square_index in 0..9 {
            assert!(board.check_place_square(board_index, square_index).is_some());
        }
    }
}

#[test]
fn a_full_board_without_a_line_is_a_tie() {
    let mut board = UltimateBoard::new();
    let outcomes = play(&mut board, &TIED_GAME);
    for outcome in &outcomes[..80] {
        assert!(!outcome.tied_game);
        assert!(!outcome.won_game);
    }
    assert_eq!(
        outcomes[80],
        MoveOutcome {
            player: PlayerType::X,
            board_index: 4,
            square_index: 0,
            won_board: true,
            won_game: false,
            tied_game: true,
        }
    );
    assert_eq!(taken(&board), 81);
    assert_eq!(board.get_locked_board(), None);
}

#[test]
fn a_last_move_into_a_won_board_raises_no_flag() {
    let mut board = UltimateBoard::new();
    let outcomes = play(&mut board, &FULL_UNTIED_GAME);
    for outcome in &outcomes {
        assert!(!outcome.tied_game);
        assert!(!outcome.won_game);
    }
    assert_eq!(
        outcomes[80],
        MoveOutcome {
            player: PlayerType::X,
            board_index: 7,
            square_index: 0,
            won_board: false,
            won_game: false,
            tied_game: false,
        }
    );
    assert_eq!(taken(&board), 81);
}

#[test]
fn lines_are_rows_columns_and_diagonals() {
    let x = Some(PlayerType::X);
    let o = Some(PlayerType::O);
    let n = None;
    assert!(!is_win(&[n; 9]));
    for line in [[0, 1, 2], [3, 4, 5], [6, 7, 8], [0, 3, 6], [1, 4, 7], [2, 5, 8], [0, 4, 8], [2, 4, 6]]
    {
        for player in [x, o] {
            let mut grid = [n; 9];
            for square in line {
                grid[square] = player;
            }
            assert!(is_win(&grid));
            assert!(nonempty_same(line[0], line[1], line[2], &grid));
            // two squares of a line are not enough
            grid[line[1]] = n;
            assert!(!is_win(&grid));
            // nor three squares of two players
            grid[line[1]] = if player == x { o } else { x };
            assert!(!is_win(&grid));
        }
    }
    // three squares that form no line
    assert!(!is_win(&[x, x, n, n, n, x, n, n, n]));
    assert!(!is_win(&[n, x, x, x, n, n, n, n, n]));
    // a full grid without a line
    assert!(!is_win(&[x, o, x, x, o, o, o, x, x]));
}

#[test]
fn three_alike_squares_must_be_taken() {
    let x = Some(PlayerType::X);
    let o = Some(PlayerType::O);
    let grid = [x, x, x, o, o, None, None, None, None];
    assert!(nonempty_same(0, 1, 2, &grid));
    assert!(nonempty_same(2, 0, 1, &grid));
    assert!(!nonempty_same(3, 4, 5, &grid));
    assert!(!nonempty_same(6, 7, 8, &grid));
    assert!(!nonempty_same(0, 1, 3, &grid));
    assert!(!nonempty_same(5, 3, 4, &grid));
}
