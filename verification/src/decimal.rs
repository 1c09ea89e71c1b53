//! Decimal text of integers, used for positional field labels ("Field 0"),
//! tuple-index access paths in generated code, and numeric value display.

use vstd::prelude::*;

verus! {

/// The character for one decimal digit.
pub open spec fn dec_digit(d: nat) -> char {
    if d == 0 {
        '0'
    } else if d == 1 {
        '1'
    } else if d == 2 {
        '2'
    } else if d == 3 {
        '3'
    } else if d == 4 {
        '4'
    } else if d == 5 {
        '5'
    } else if d == 6 {
        '6'
    } else if d == 7 {
        '7'
    } else if d == 8 {
        '8'
    } else {
        '9'
    }
}

/// The usual decimal writing of `n`, most significant digit first and
/// without leading zeros (except for `n == 0` itself).
pub open spec fn dec_of(n: nat) -> Seq<char>
    decreases n,
{
    if n < 10 {
        seq![dec_digit(n)]
    } else {
        dec_of(n / 10).push(dec_digit(n % 10))
    }
}

/// The decimal writing of a possibly negative integer: a leading `-` and
/// the magnitude's digits.
pub open spec fn dec_of_int(i: int) -> Seq<char> {
    if i < 0 {
        seq!['-'] + dec_of((-i) as nat)
    } else {
        dec_of(i as nat)
    }
}

/// One decimal digit as a string slice.
fn dec_digit_str(d: u64) -> (s: &'static str)
    requires
        d < 10,
    ensures
        s@ == seq![dec_digit(d as nat)],
{
    let s: &'static str = match d {
        0 => "0",
        1 => "1",
        2 => "2",
        3 => "3",
        4 => "4",
        5 => "5",
        6 => "6",
        7 => "7",
        8 => "8",
        _ => "9",
    };
    proof {
        reveal_strlit("0");
        reveal_strlit("1");
        reveal_strlit("2");
        reveal_strlit("3");
        reveal_strlit("4");
        reveal_strlit("5");
        reveal_strlit("6");
        reveal_strlit("7");
        reveal_strlit("8");
        reveal_strlit("9");
    }
    assert(s@ =~= seq![dec_digit(d as nat)]);
    s
}

/// The decimal text of `n`.
pub fn u64_dec(n: u64) -> (s: String)
    ensures
        s@ == dec_of(n as nat),
    decreases n,
{
    if n < 10 {
        String::from_str(dec_digit_str(n))
    } else {
        assert(n / 10 < n);
        let mut s = u64_dec(n / 10);
        s.append(dec_digit_str(n % 10));
        assert(s@ =~= dec_of(n as nat));
        s
    }
}

/// The decimal text of an index.
pub fn usize_dec(n: usize) -> (s: String)
    ensures
        s@ == dec_of(n as nat),
{
    u64_dec(n as u64)
}

/// The decimal text of a signed value.
pub fn i64_dec(n: i64) -> (s: String)
    ensures
        s@ == dec_of_int(n as int),
{
    if n < 0 {
        let magnitude: u64 = (-(n as i128)) as u64;
        let mut s = String::from_str("-");
        s.append(u64_dec(magnitude).as_str());
        proof {
            reveal_strlit("-");
        }
        assert(s@ =~= dec_of_int(n as int));
        s
    } else {
        u64_dec(n as u64)
    }
}

} // verus!
