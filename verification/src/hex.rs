//! Parsing of `RGB`/`RRGGBB` hex color notation, with an optional leading
//! `#`.

use vstd::prelude::*;

use crate::color::Color;

verus! {

/// Whether a character is a hexadecimal digit (either case).
pub open spec fn is_hex_digit(c: char) -> bool {
    c == '0' || c == '1' || c == '2' || c == '3' || c == '4' || c == '5' || c == '6' || c == '7'
        || c == '8' || c == '9' || c == 'a' || c == 'b' || c == 'c' || c == 'd' || c == 'e' || c
        == 'f' || c == 'A' || c == 'B' || c == 'C' || c == 'D' || c == 'E' || c == 'F'
}

/// The value of a hexadecimal digit.
pub open spec fn hex_val(c: char) -> u8 {
    if c == '0' {
        0u8
    } else if c == '1' {
        1u8
    } else if c == '2' {
        2u8
    } else if c == '3' {
        3u8
    } else if c == '4' {
        4u8
    } else if c == '5' {
        5u8
    } else if c == '6' {
        6u8
    } else if c == '7' {
        7u8
    } else if c == '8' {
        8u8
    } else if c == '9' {
        9u8
    } else if c == 'a' || c == 'A' {
        10u8
    } else if c == 'b' || c == 'B' {
        11u8
    } else if c == 'c' || c == 'C' {
        12u8
    } else if c == 'd' || c == 'D' {
        13u8
    } else if c == 'e' || c == 'E' {
        14u8
    } else {
        15u8
    }
}

/// The input with a single leading `#` removed, if one is there.
pub open spec fn strip_hash(s: Seq<char>) -> Seq<char> {
    if s.len() > 0 && s[0] == '#' {
        s.drop_first()
    } else {
        s
    }
}

/// What parsing a hex color returns: after the optional `#`, exactly six
/// hex digits give the three channels directly; exactly three give the
/// shorthand where each digit is duplicated (`f` stands for `ff`); any
/// other length, or any non-hex character, fails.
pub open spec fn spec_parse_hex(s: Seq<char>) -> Option<Color> {
    let t = strip_hash(s);
    if t.len() == 6 {
        if is_hex_digit(t[0]) && is_hex_digit(t[1]) && is_hex_digit(t[2]) && is_hex_digit(t[3])
            && is_hex_digit(t[4]) && is_hex_digit(t[5]) {
            Some(
                Color::TrueColor {
                    r: (16 * hex_val(t[0]) + hex_val(t[1])) as u8,
                    g: (16 * hex_val(t[2]) + hex_val(t[3])) as u8,
                    b: (16 * hex_val(t[4]) + hex_val(t[5])) as u8,
                },
            )
        } else {
            None
        }
    } else if t.len() == 3 {
        if is_hex_digit(t[0]) && is_hex_digit(t[1]) && is_hex_digit(t[2]) {
            Some(
                Color::TrueColor {
                    r: (17 * hex_val(t[0])) as u8,
                    g: (17 * hex_val(t[1])) as u8,
                    b: (17 * hex_val(t[2])) as u8,
                },
            )
        } else {
            None
        }
    } else {
        None
    }
}

fn hex_digit_val(c: char) -> (r: Option<u8>)
    ensures
        is_hex_digit(c) <==> (r matches Some(v) && v == hex_val(c)),
        !is_hex_digit(c) <==> r is None,
{
    match c {
        '0' => Some(0),
        '1' => Some(1),
        '2' => Some(2),
        '3' => Some(3),
        '4' => Some(4),
        '5' => Some(5),
        '6' => Some(6),
        '7' => Some(7),
        '8' => Some(8),
        '9' => Some(9),
        'a' => Some(10),
        'b' => Some(11),
        'c' => Some(12),
        'd' => Some(13),
        'e' => Some(14),
        'f' => Some(15),
        'A' => Some(10),
        'B' => Some(11),
        'C' => Some(12),
        'D' => Some(13),
        'E' => Some(14),
        'F' => Some(15),
        _ => None,
    }
}

/// Parses a 3- or 6-digit hex color, with an optional leading `#`;
/// `None` exactly on malformed input.
pub fn parse_hex(s: &str) -> (r: Option<Color>)
    ensures
        r == spec_parse_hex(s@),
{
    let n = s.unicode_len();
    let (t, tn): (&str, usize) = if n > 0 && s.get_char(0) == '#' {
        let t = s.substring_char(1, n);
        proof {
            assert(t@ =~= strip_hash(s@));
        }
        (t, n - 1)
    } else {
        proof {
            assert(s@ =~= strip_hash(s@));
        }
        (s, n)
    };
    if tn == 6 {
        let d0 = hex_digit_val(t.get_char(0));
        let d1 = hex_digit_val(t.get_char(1));
        let d2 = hex_digit_val(t.get_char(2));
        let d3 = hex_digit_val(t.get_char(3));
        let d4 = hex_digit_val(t.get_char(4));
        let d5 = hex_digit_val(t.get_char(5));
        match (d0, d1, d2, d3, d4, d5) {
            (Some(v0), Some(v1), Some(v2), Some(v3), Some(v4), Some(v5)) => Some(
                Color::TrueColor { r: 16 * v0 + v1, g: 16 * v2 + v3, b: 16 * v4 + v5 },
            ),
            _ => None,
        }
    } else if tn == 3 {
        let d0 = hex_digit_val(t.get_char(0));
        let d1 = hex_digit_val(t.get_char(1));
        let d2 = hex_digit_val(t.get_char(2));
        match (d0, d1, d2) {
            (Some(v0), Some(v1), Some(v2)) => Some(
                Color::TrueColor { r: 17 * v0, g: 17 * v1, b: 17 * v2 },
            ),
            _ => None,
        }
    } else {
        None
    }
}

} // verus!
