//! Rendering of bytes as text: hexadecimal and decimal digits.
use vstd::prelude::*;

verus! {

/// The lower-case hexadecimal digit of a value below 16.
pub open spec fn hex_digit(d: u8) -> char {
    match d {
        0 => '0',
        1 => '1',
        2 => '2',
        3 => '3',
        4 => '4',
        5 => '5',
        6 => '6',
        7 => '7',
        8 => '8',
        9 => '9',
        10 => 'a',
        11 => 'b',
        12 => 'c',
        13 => 'd',
        14 => 'e',
        _ => 'f',
    }
}

/// A byte as `0x` and two lower-case hexadecimal digits.
pub open spec fn hex_byte_text(b: u8) -> Seq<char> {
    seq!['0', 'x', hex_digit(b / 16), hex_digit(b % 16)]
}

/// A byte in decimal, without leading zeros.
pub open spec fn decimal_text(b: u8) -> Seq<char> {
    if b < 10 {
        seq![hex_digit(b)]
    } else if b < 100 {
        seq![hex_digit(b / 10), hex_digit(b % 10)]
    } else {
        seq![hex_digit(b / 100), hex_digit((b / 10) % 10), hex_digit(b % 10)]
    }
}

/// The one-character text of a digit below 16.
fn digit_str(d: u8) -> (s: &'static str)
    requires
        d < 16,
    ensures
        s@ == seq![hex_digit(d)],
{
    if d == 0 {
        proof { reveal_strlit("0"); }
        "0"
    } else if d == 1 {
        proof { reveal_strlit("1"); }
        "1"
    } else if d == 2 {
        proof { reveal_strlit("2"); }
        "2"
    } else if d == 3 {
        proof { reveal_strlit("3"); }
        "3"
    } else if d == 4 {
        proof { reveal_strlit("4"); }
        "4"
    } else if d == 5 {
        proof { reveal_strlit("5"); }
        "5"
    } else if d == 6 {
        proof { reveal_strlit("6"); }
        "6"
    } else if d == 7 {
        proof { reveal_strlit("7"); }
        "7"
    } else if d == 8 {
        proof { reveal_strlit("8"); }
        "8"
    } else if d == 9 {
        proof { reveal_strlit("9"); }
        "9"
    } else if d == 10 {
        proof { reveal_strlit("a"); }
        "a"
    } else if d == 11 {
        proof { reveal_strlit("b"); }
        "b"
    } else if d == 12 {
        proof { reveal_strlit("c"); }
        "c"
    } else if d == 13 {
        proof { reveal_strlit("d"); }
        "d"
    } else if d == 14 {
        proof { reveal_strlit("e"); }
        "e"
    } else {
        proof { reveal_strlit("f"); }
        "f"
    }
}

/// Appends `0x` and the two hexadecimal digits of `b` to `out`.
pub fn push_hex_byte(out: &mut String, b: u8)
    ensures
        final(out)@ == old(out)@ + hex_byte_text(b),
{
    proof { reveal_strlit("0x"); }
    out.append("0x");
    out.append(digit_str(b / 16));
    out.append(digit_str(b % 16));
    assert(final(out)@ =~= old(out)@ + hex_byte_text(b));
}

/// Appends the decimal digits of `b` to `out`.
pub fn push_decimal(out: &mut String, b: u8)
    ensures
        final(out)@ == old(out)@ + decimal_text(b),
{
    if b < 10 {
        out.append(digit_str(b));
    } else if b < 100 {
        out.append(digit_str(b / 10));
        out.append(digit_str(b % 10));
    } else {
        out.append(digit_str(b / 100));
        out.append(digit_str((b / 10) % 10));
        out.append(digit_str(b % 10));
    }
    assert(final(out)@ =~= old(out)@ + decimal_text(b));
}

} // verus!
