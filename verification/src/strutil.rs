//! Small verified string-building helpers: repeated spaces, single
//! characters, and decimal rendering of counters for the status bar.

use crate::unicode::push_char;
use vstd::prelude::*;

verus! {

/// The decimal digit `d` as a character.
pub open spec fn digit_char(d: int) -> char {
    if d == 0 {
        '0'
    } else if d == 1 {
        '1'
    } else if d == 2 {
        '2'
    } else if d == 3 {
        '3'
    } else if d == 4 {
        '4'
    } else if d == 5 {
        '5'
    } else if d == 6 {
        '6'
    } else if d == 7 {
        '7'
    } else if d == 8 {
        '8'
    } else {
        '9'
    }
}

/// The usual decimal rendering of `n`, most significant digit first,
/// without leading zeros (except for `n == 0` itself).
pub open spec fn decimal_of(n: nat) -> Seq<char>
    decreases n,
{
    if n < 10 {
        seq![digit_char(n as int)]
    } else {
        decimal_of(n / 10).push(digit_char((n % 10) as int))
    }
}

fn digit_to_char(d: usize) -> (r: char)
    requires
        d < 10,
    ensures
        r == digit_char(d as int),
{
    match d {
        0 => '0',
        1 => '1',
        2 => '2',
        3 => '3',
        4 => '4',
        5 => '5',
        6 => '6',
        7 => '7',
        8 => '8',
        _ => '9',
    }
}

/// Renders `n` in decimal.
pub fn to_decimal_string(n: usize) -> (r: String)
    ensures
        r@ == decimal_of(n as nat),
    decreases n,
{
    if n < 10 {
        let mut s = String::new();
        push_char(&mut s, digit_to_char(n));
        proof {
            assert(s@ =~= decimal_of(n as nat));
        }
        s
    } else {
        let mut s = to_decimal_string(n / 10);
        push_char(&mut s, digit_to_char(n % 10));
        s
    }
}

/// A run of `n` space characters.
pub fn spaces(n: usize) -> (r: String)
    ensures
        r@ == Seq::new(n as nat, |i: int| ' '),
{
    let mut s = String::new();
    let mut i: usize = 0;
    while i < n
        invariant
            i <= n,
            s@ =~= Seq::new(i as nat, |j: int| ' '),
        decreases n - i,
    {
        push_char(&mut s, ' ');
        i = i + 1;
        proof {
            assert(s@ =~= Seq::new(i as nat, |j: int| ' '));
        }
    }
    proof {
        assert(s@ =~= Seq::new(n as nat, |i: int| ' '));
    }
    s
}

/// A string holding exactly the one character `c`.
pub fn char_to_string(c: char) -> (r: String)
    ensures
        r@ == seq![c],
{
    let mut s = String::new();
    push_char(&mut s, c);
    proof {
        assert(s@ =~= seq![c]);
    }
    s
}

} // verus!
