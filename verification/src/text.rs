//! String building for the disassembler and the console log. vstd gives
//! `String` no appending operations, so the two appends used here are trusted
//! wrappers over std; everything layered on them — hexadecimal rendering in
//! both cases — is verified against the sequences of characters produced.

use vstd::prelude::*;

verus! {

/// Relies on std's `String::push`: appends the given character to the end of
/// the string.
#[verifier::external_body]
pub fn push_char(s: &mut String, c: char)
    ensures
        final(s)@ == old(s)@.push(c),
{
    s.push(c);
}

/// Relies on std's `String::push_str`: appends the given string slice to the
/// end of the string.
#[verifier::external_body]
pub fn push_str(s: &mut String, t: &str)
    ensures
        final(s)@ == old(s)@ + t@,
{
    s.push_str(t);
}

/// The lower-case hexadecimal digit for a value below 16; larger values all
/// land on the last digit.
pub open spec fn spec_hex_digit_lower(n: u16) -> char {
    if n == 0 {
        '0'
    } else if n == 1 {
        '1'
    } else if n == 2 {
        '2'
    } else if n == 3 {
        '3'
    } else if n == 4 {
        '4'
    } else if n == 5 {
        '5'
    } else if n == 6 {
        '6'
    } else if n == 7 {
        '7'
    } else if n == 8 {
        '8'
    } else if n == 9 {
        '9'
    } else if n == 10 {
        'a'
    } else if n == 11 {
        'b'
    } else if n == 12 {
        'c'
    } else if n == 13 {
        'd'
    } else if n == 14 {
        'e'
    } else {
        'f'
    }
}

/// The upper-case hexadecimal digit for a value below 16.
pub open spec fn spec_hex_digit_upper(n: u16) -> char {
    if n < 10 {
        spec_hex_digit_lower(n)
    } else if n == 10 {
        'A'
    } else if n == 11 {
        'B'
    } else if n == 12 {
        'C'
    } else if n == 13 {
        'D'
    } else if n == 14 {
        'E'
    } else {
        'F'
    }
}

/// A 16-bit value as four lower-case hexadecimal digits, most significant
/// first.
pub open spec fn spec_hex4_lower(v: u16) -> Seq<char> {
    seq![
        spec_hex_digit_lower((v >> 12) & 0xF),
        spec_hex_digit_lower((v >> 8) & 0xF),
        spec_hex_digit_lower((v >> 4) & 0xF),
        spec_hex_digit_lower(v & 0xF),
    ]
}

/// A 16-bit value as four upper-case hexadecimal digits, most significant
/// first.
pub open spec fn spec_hex4_upper(v: u16) -> Seq<char> {
    seq![
        spec_hex_digit_upper((v >> 12) & 0xF),
        spec_hex_digit_upper((v >> 8) & 0xF),
        spec_hex_digit_upper((v >> 4) & 0xF),
        spec_hex_digit_upper(v & 0xF),
    ]
}

fn hex_digit_lower(n: u16) -> (r: char)
    ensures
        r == spec_hex_digit_lower(n),
{
    if n == 0 {
        '0'
    } else if n == 1 {
        '1'
    } else if n == 2 {
        '2'
    } else if n == 3 {
        '3'
    } else if n == 4 {
        '4'
    } else if n == 5 {
        '5'
    } else if n == 6 {
        '6'
    } else if n == 7 {
        '7'
    } else if n == 8 {
        '8'
    } else if n == 9 {
        '9'
    } else if n == 10 {
        'a'
    } else if n == 11 {
        'b'
    } else if n == 12 {
        'c'
    } else if n == 13 {
        'd'
    } else if n == 14 {
        'e'
    } else {
        'f'
    }
}

fn hex_digit_upper(n: u16) -> (r: char)
    ensures
        r == spec_hex_digit_upper(n),
{
    if n < 10 {
        hex_digit_lower(n)
    } else if n == 10 {
        'A'
    } else if n == 11 {
        'B'
    } else if n == 12 {
        'C'
    } else if n == 13 {
        'D'
    } else if n == 14 {
        'E'
    } else {
        'F'
    }
}

/// Append the four lower-case hexadecimal digits of `v`.
pub fn push_hex4_lower(s: &mut String, v: u16)
    ensures
        final(s)@ =~= old(s)@ + spec_hex4_lower(v),
{
    push_char(s, hex_digit_lower((v >> 12) & 0xF));
    push_char(s, hex_digit_lower((v >> 8) & 0xF));
    push_char(s, hex_digit_lower((v >> 4) & 0xF));
    push_char(s, hex_digit_lower(v & 0xF));
}

/// Append the four upper-case hexadecimal digits of `v`.
pub fn push_hex4_upper(s: &mut String, v: u16)
    ensures
        final(s)@ =~= old(s)@ + spec_hex4_upper(v),
{
    push_char(s, hex_digit_upper((v >> 12) & 0xF));
    push_char(s, hex_digit_upper((v >> 8) & 0xF));
    push_char(s, hex_digit_upper((v >> 4) & 0xF));
    push_char(s, hex_digit_upper(v & 0xF));
}

} // verus!
