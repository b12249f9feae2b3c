//! Building text: what the standard library is taken to do, and numbers in
//! decimal.

use vstd::prelude::*;

verus! {

/// `String::push` of the standard library appends the character to the string.
pub assume_specification[ String::push ](string: &mut String, ch: char)
    ensures
        final(string)@ == old(string)@.push(ch),
;

/// Appending the next character of a text to a copy of its start gives the
/// start that is one character longer.
pub proof fn lemma_extend(head: Seq<char>, text: Seq<char>, n: int)
    requires
        0 <= n < text.len(),
    ensures
        (head + text.subrange(0, n)).push(text[n]) == head + text.subrange(0, n + 1),
{
    assert((head + text.subrange(0, n)).push(text[n]) =~= head + text.subrange(0, n + 1));
}

/// The decimal digits of a number.
pub open spec fn decimal(n: nat) -> Seq<char>
    decreases n,
{
    if n < 10 {
        seq![digit(n)]
    } else {
        decimal(n / 10).push(digit(n % 10))
    }
}

/// The character of a digit.
pub open spec fn digit(d: nat) -> char
    recommends
        d < 10,
{
    "0123456789"@[d as int]
}

/// The character of a digit.
fn digit_char(d: usize) -> (c: char)
    requires
        d < 10,
    ensures
        c == digit(d as nat),
{
    proof {
        reveal_strlit("0123456789");
    }
    match d {
        0 => '0',
        1 => '1',
        2 => '2',
        3 => '3',
        4 => '4',
        5 => '5',
        6 => '6',
        7 => '7',
        8 => '8',
        _ => '9',
    }
}

/// Appends the decimal digits of a number.
pub fn put_decimal(string: &mut String, n: usize)
    ensures
        final(string)@ == old(string)@ + decimal(n as nat),
    decreases n,
{
    if n >= 10 {
        put_decimal(string, n / 10);
    }
    string.push(digit_char(n % 10));
    assert(string@ =~= old(string)@ + decimal(n as nat));
}

} // verus!
