//! Small verified helpers for building output strings character by
//! character.

use vstd::prelude::*;

verus! {

/// Relies on std's `String::push`: appends exactly one character at the end.
#[verifier::external_body]
pub(crate) fn push_char(s: &mut String, c: char)
    ensures
        final(s)@ == old(s)@.push(c),
{
    s.push(c);
}

/// The lower-case hexadecimal digit for `d`; decimal digits are the first
/// ten of them.
pub open spec fn spec_digit(d: int) -> char {
    if d == 0 {
        '0'
    } else if d == 1 {
        '1'
    } else if d == 2 {
        '2'
    } else if d == 3 {
        '3'
    } else if d == 4 {
        '4'
    } else if d == 5 {
        '5'
    } else if d == 6 {
        '6'
    } else if d == 7 {
        '7'
    } else if d == 8 {
        '8'
    } else if d == 9 {
        '9'
    } else if d == 10 {
        'a'
    } else if d == 11 {
        'b'
    } else if d == 12 {
        'c'
    } else if d == 13 {
        'd'
    } else if d == 14 {
        'e'
    } else {
        'f'
    }
}

/// Returns the digit character for a value below sixteen.
pub(crate) fn digit_char(d: u8) -> (c: char)
    requires
        d < 16,
    ensures
        c == spec_digit(d as int),
{
    if d == 0 {
        '0'
    } else if d == 1 {
        '1'
    } else if d == 2 {
        '2'
    } else if d == 3 {
        '3'
    } else if d == 4 {
        '4'
    } else if d == 5 {
        '5'
    } else if d == 6 {
        '6'
    } else if d == 7 {
        '7'
    } else if d == 8 {
        '8'
    } else if d == 9 {
        '9'
    } else if d == 10 {
        'a'
    } else if d == 11 {
        'b'
    } else if d == 12 {
        'c'
    } else if d == 13 {
        'd'
    } else if d == 14 {
        'e'
    } else {
        'f'
    }
}

/// The decimal rendering of `v`, without padding, for values up to 999.
pub open spec fn spec_decimal(v: int) -> Seq<char> {
    if v >= 100 {
        seq![spec_digit(v / 100), spec_digit((v / 10) % 10), spec_digit(v % 10)]
    } else if v >= 10 {
        seq![spec_digit(v / 10), spec_digit(v % 10)]
    } else {
        seq![spec_digit(v)]
    }
}

/// Appends the decimal rendering of `v` to `s`.
pub(crate) fn append_decimal(s: &mut String, v: u8)
    ensures
        final(s)@ == old(s)@ + spec_decimal(v as int),
{
    if v >= 100 {
        push_char(s, digit_char(v / 100));
        push_char(s, digit_char((v / 10) % 10));
        push_char(s, digit_char(v % 10));
        assert(s@ =~= old(s)@ + spec_decimal(v as int));
    } else if v >= 10 {
        push_char(s, digit_char(v / 10));
        push_char(s, digit_char(v % 10));
        assert(s@ =~= old(s)@ + spec_decimal(v as int));
    } else {
        push_char(s, digit_char(v));
        assert(s@ =~= old(s)@ + spec_decimal(v as int));
    }
}

} // verus!
