//! The wire format of a move: one line of JSON text, an object with the
//! members `board_index` and `square_index`, ended by a line feed.
//!
//! The JSON text itself is written and read by `serde_json`. What this module
//! adds is checked: which members are handed over, that a line is complete,
//! and which move the members of a line stand for.

use crate::UltimateTTTMove;
use std::collections::BTreeMap;
use vstd::prelude::*;

verus! {

/// The text that `serde_json::to_string` gives for a map with the two members
/// `first_key: first` and `second_key: second`, or `None` if it gives an
/// error.
pub uninterp spec fn json_object_text(
    first_key: Seq<char>,
    first: u64,
    second_key: Seq<char>,
    second: u64,
) -> Option<Seq<char>>;

/// The members that `serde_json::from_str` reads from the text as a map from
/// strings to unsigned integers, in the order of their keys, or `None` if it
/// gives an error.
pub uninterp spec fn json_members(text: Seq<char>) -> Option<Seq<(Seq<char>, u64)>>;

/// Calls `serde_json::to_string` on a map that holds the two members. The
/// result depends on the keys and the values alone; nothing more is claimed
/// of it.
#[verifier::external_body]
fn write_json_object(first_key: &str, first: u64, second_key: &str, second: u64) -> (text: Option<
    String,
>)
    ensures
        text.deep_view() == json_object_text(first_key@, first, second_key@, second),
{
    let members = BTreeMap::from([(first_key, first), (second_key, second)]);
    serde_json::to_string(&members).ok()
}

/// Calls `serde_json::from_str` to read the text as a map from strings to
/// unsigned integers, and hands out the members of the map in the order of
/// their keys. The result depends on the text alone; nothing more is claimed
/// of it.
#[verifier::external_body]
fn read_json_object(text: &str) -> (members: Option<Vec<(String, u64)>>)
    ensures
        members.deep_view() == json_members(text@),
{
    let parsed: Option<BTreeMap<String, u64>> = serde_json::from_str(text).ok();
    parsed.map(|members| members.into_iter().collect())
}

/// The name of the member that holds the board of a move.
pub open spec fn board_key() -> Seq<char> {
    "board_index"@
}

/// The name of the member that holds the square of a move.
pub open spec fn square_key() -> Seq<char> {
    "square_index"@
}

/// The value of the first member with the given name.
pub open spec fn member_value(members: Seq<(Seq<char>, u64)>, key: Seq<char>) -> Option<u64>
    decreases members.len(),
{
    if members.len() == 0 {
        None
    } else if members[0].0 == key {
        Some(members[0].1)
    } else {
        member_value(members.drop_first(), key)
    }
}

/// The move that the members of a line stand for: there must be a board and
/// a square, and both must fit the machine's index type.
pub open spec fn move_of_members(members: Option<Seq<(Seq<char>, u64)>>) -> Option<
    UltimateTTTMove,
> {
    match members {
        Some(members) => match (
            member_value(members, board_key()),
            member_value(members, square_key()),
        ) {
            (Some(board), Some(square)) => if board <= usize::MAX && square <= usize::MAX {
                Some(UltimateTTTMove { board_index: board as usize, square_index: square as usize })
            } else {
                None
            },
            _ => None,
        },
        None => None,
    }
}

/// The line that carries a move: its JSON text and a line feed.
pub open spec fn encoded(ttt_move: UltimateTTTMove) -> Option<Seq<char>> {
    match json_object_text(
        board_key(),
        ttt_move.board_index as u64,
        square_key(),
        ttt_move.square_index as u64,
    ) {
        Some(text) => Some(text.push('\n')),
        None => None,
    }
}

/// The move that a line carries. A line that does not end in a line feed is
/// not complete and carries none.
pub open spec fn decoded(line: Seq<char>) -> Option<UltimateTTTMove> {
    if line.len() > 0 && line.last() == '\n' {
        move_of_members(json_members(line))
    } else {
        None
    }
}

/// Ends the JSON text of a move with a line feed. Text that could not be
/// written gives an error.
pub fn frame_line(text: Option<String>) -> (line: Result<String, ()>)
    ensures
        match text {
            Some(text) => line matches Ok(framed) && framed@ == text@.push('\n'),
            None => line is Err,
        },
{
    match text {
        Some(mut text) => {
            text.push('\n');
            Ok(text)
        },
        None => Err(()),
    }
}

/// The line to send for a move.
pub fn encode_move(ttt_move: &UltimateTTTMove) -> (line: Result<String, ()>)
    ensures
        match line {
            Ok(line) => encoded(*ttt_move) == Some(line@),
            Err(_) => encoded(*ttt_move) is None,
        },
{
    frame_line(
        write_json_object(
            "board_index",
            ttt_move.board_index as u64,
            "square_index",
            ttt_move.square_index as u64,
        ),
    )
}

/// Looks up the first member with the given name.
fn find_member(members: &Vec<(String, u64)>, key: &str) -> (value: Option<u64>)
    ensures
        value == member_value(members.deep_view(), key@),
{
    let wanted = key.to_owned();
    let ghost all = members.deep_view();
    let mut i: usize = 0;
    assert(all.subrange(0, all.len() as int) =~= all);
    while i < members.len()
        invariant
            i <= members.len(),
            wanted@ == key@,
            all == members.deep_view(),
            member_value(all, key@) == member_value(all.subrange(i as int, all.len() as int), key@),
        decreases members.len() - i,
    {
        let ghost rest = all.subrange(i as int, all.len() as int);
        assert(rest.drop_first() =~= all.subrange(i + 1, all.len() as int));
        assert(rest[0] == all[i as int]);
        assert(all[i as int] == (members@[i as int].0@, members@[i as int].1));
        if members[i].0 == wanted {
            return Some(members[i].1);
        }
        i += 1;
    }
    None
}

/// The move that the members read from a line stand for. Members that could
/// not be read, that lack the board or the square, or that hold a number too
/// large for an index give an error.
pub fn move_from_members(members: Option<Vec<(String, u64)>>) -> (ttt_move: Result<
    UltimateTTTMove,
    (),
>)
    ensures
        match move_of_members(members.deep_view()) {
            Some(expected) => ttt_move == Ok::<UltimateTTTMove, ()>(expected),
            None => ttt_move is Err,
        },
{
    match members {
        Some(members) => {
            let board = find_member(&members, "board_index");
            let square = find_member(&members, "square_index");
            match (board, square) {
                (Some(board), Some(square)) => {
                    if board <= usize::MAX as u64 && square <= usize::MAX as u64 {
                        Ok(
                            UltimateTTTMove {
                                board_index: board as usize,
                                square_index: square as usize,
                            },
                        )
                    } else {
                        Err(())
                    }
                },
                _ => Err(()),
            }
        },
        None => Err(()),
    }
}

/// The move that a received line carries.
pub fn decode_move(line: &str) -> (ttt_move: Result<UltimateTTTMove, ()>)
    ensures
        match decoded(line@) {
            Some(expected) => ttt_move == Ok::<UltimateTTTMove, ()>(expected),
            None => ttt_move is Err,
        },
{
    let length = line.unicode_len();
    if length == 0 || line.get_char(length - 1) != '\n' {
        return Err(());
    }
    move_from_members(read_json_object(line))
}

/// The members that are written for a move stand for that move, whatever the
/// order they are read back in.
pub proof fn lemma_members_stand_for_move(ttt_move: UltimateTTTMove, board_first: bool)
    ensures
        ({
            let board = (board_key(), ttt_move.board_index as u64);
            let square = (square_key(), ttt_move.square_index as u64);
            let members = if board_first {
                seq![board, square]
            } else {
                seq![square, board]
            };
            move_of_members(Some(members)) == Some(ttt_move)
        }),
{
    reveal_strlit("board_index");
    reveal_strlit("square_index");
    let board = (board_key(), ttt_move.board_index as u64);
    let square = (square_key(), ttt_move.square_index as u64);
    assert(board_key().len() != square_key().len());
    assert(seq![board, square].drop_first() =~= seq![square]);
    assert(seq![square, board].drop_first() =~= seq![board]);
    reveal_with_fuel(member_value, 3);
}

} // verus!
