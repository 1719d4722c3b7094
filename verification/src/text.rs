//! Header texts: decimal numbers for rows, spreadsheet letters for columns.

use vstd::prelude::*;

verus! {

/// The decimal digit `d` (`0 <= d < 10`) as a character.
pub open spec fn digit_char(d: int) -> char {
    (48 + d) as char
}

/// The decimal representation of `n`, without leading zeros.
pub open spec fn decimal(n: nat) -> Seq<char>
    decreases n,
{
    if n < 10 {
        seq![digit_char(n as int)]
    } else {
        decimal(n / 10).push(digit_char((n % 10) as int))
    }
}

/// The capital letter with index `k` (`'A'` is 0, `'Z'` is 25).
pub open spec fn letter(k: int) -> char {
    (65 + k) as char
}

/// The name of column `i`: `A` to `Z` for the first 26 columns, `AA` to `ZZ`
/// for the next 676, and the column's own index written in decimal beyond.
pub open spec fn column_name(i: nat) -> Seq<char> {
    if i <= 25 {
        seq![letter(i as int)]
    } else if i / 26 > 26 {
        decimal(i)
    } else {
        seq![letter(i / 26 - 1), letter((i % 26) as int)]
    }
}

/// `String::push`: appends one character.
#[verifier::external_body]
fn push_char(s: &mut String, c: char)
    ensures
        final(s)@ == old(s)@.push(c),
{
    s.push(c);
}

/// The decimal digit `d` as a character.
fn digit(d: u32) -> (c: char)
    requires
        d < 10,
    ensures
        c == digit_char(d as int),
{
    ((48 + d) as u8) as char
}

/// The capital letter with index `k`.
fn capital(k: i32) -> (c: char)
    requires
        0 <= k < 26,
    ensures
        c == letter(k as int),
{
    ((65 + k) as u8) as char
}

/// `n` written in decimal.
pub fn decimal_string(n: u32) -> (s: String)
    ensures
        s@ == decimal(n as nat),
    decreases n,
{
    if n < 10 {
        let mut s = String::new();
        push_char(&mut s, digit(n));
        proof {
            assert(s@ =~= decimal(n as nat));
        }
        s
    } else {
        let mut s = decimal_string(n / 10);
        push_char(&mut s, digit(n % 10));
        s
    }
}

/// The name of column `i`.
pub fn column_name_string(i: i32) -> (s: String)
    requires
        i >= 0,
    ensures
        s@ == column_name(i as nat),
{
    let mut s = String::new();
    if i > 25 {
        let t: i32 = i / 26;
        if t > 26 {
            return decimal_string(i as u32);
        }
        push_char(&mut s, capital(t - 1));
        push_char(&mut s, capital(i - 26 * t));
    } else {
        push_char(&mut s, capital(i));
    }
    proof {
        assert(s@ =~= column_name(i as nat));
    }
    s
}

} // verus!
