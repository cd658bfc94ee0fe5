//! The color model: the closed set of color variants, the fixed 256-entry
//! palette, and the nearest-color downgrade algorithms.

use vstd::prelude::*;

verus! {

/// How much color fidelity the output terminal supports.
#[derive(Clone, Copy, Debug, PartialEq, Eq, Structural)]
pub enum ColorLevel {
    /// No color output at all: rendering emits the plain text.
    Disabled,
    /// The 16 named ANSI colors only.
    Ansi16,
    /// The 256-entry indexed palette.
    Ansi256,
    /// Full 24-bit color.
    TrueColor,
}

/// A terminal color: one of the 16 named ANSI colors, an index into the
/// 256-entry palette, or a 24-bit RGB value.
#[derive(Clone, Copy, Debug, PartialEq, Eq, Structural)]
pub enum Color {
    Black,
    Red,
    Green,
    Yellow,
    Blue,
    Magenta,
    Cyan,
    White,
    BrightBlack,
    BrightRed,
    BrightGreen,
    BrightYellow,
    BrightBlue,
    BrightMagenta,
    BrightCyan,
    BrightWhite,
    Ansi256 { idx: u8 },
    TrueColor { r: u8, g: u8, b: u8 },
}

/// The canonical enumeration order of the 16 named colors: the 8 standard
/// colors, then the 8 bright ones, in the fixed table order used for
/// nearest-color search.
pub open spec fn color16(i: int) -> Color {
    if i == 0 {
        Color::Black
    } else if i == 1 {
        Color::Red
    } else if i == 2 {
        Color::Green
    } else if i == 3 {
        Color::Yellow
    } else if i == 4 {
        Color::Blue
    } else if i == 5 {
        Color::Magenta
    } else if i == 6 {
        Color::Cyan
    } else if i == 7 {
        Color::White
    } else if i == 8 {
        Color::BrightBlack
    } else if i == 9 {
        Color::BrightRed
    } else if i == 10 {
        Color::BrightGreen
    } else if i == 11 {
        Color::BrightYellow
    } else if i == 12 {
        Color::BrightBlue
    } else if i == 13 {
        Color::BrightMagenta
    } else if i == 14 {
        Color::BrightCyan
    } else {
        Color::BrightWhite
    }
}

/// The RGB value conventionally assigned to each of the 16 named colors,
/// by table position (same order as `color16`).
pub open spec fn rgb16(i: int) -> (u8, u8, u8) {
    if i == 0 {
        (0u8, 0u8, 0u8)
    } else if i == 1 {
        (128u8, 0u8, 0u8)
    } else if i == 2 {
        (0u8, 128u8, 0u8)
    } else if i == 3 {
        (128u8, 128u8, 0u8)
    } else if i == 4 {
        (0u8, 0u8, 128u8)
    } else if i == 5 {
        (128u8, 0u8, 128u8)
    } else if i == 6 {
        (0u8, 128u8, 128u8)
    } else if i == 7 {
        (192u8, 192u8, 192u8)
    } else if i == 8 {
        (128u8, 128u8, 128u8)
    } else if i == 9 {
        (255u8, 0u8, 0u8)
    } else if i == 10 {
        (0u8, 255u8, 0u8)
    } else if i == 11 {
        (255u8, 255u8, 0u8)
    } else if i == 12 {
        (0u8, 0u8, 255u8)
    } else if i == 13 {
        (255u8, 0u8, 255u8)
    } else if i == 14 {
        (0u8, 255u8, 255u8)
    } else {
        (255u8, 255u8, 255u8)
    }
}

/// One of the six channel values used by the 6x6x6 color cube of the
/// 256-entry palette.
pub open spec fn cube_value(d: int) -> u8 {
    if d == 0 {
        0u8
    } else if d == 1 {
        95u8
    } else if d == 2 {
        135u8
    } else if d == 3 {
        175u8
    } else if d == 4 {
        215u8
    } else {
        255u8
    }
}

/// The fixed expansion of a 256-palette index to RGB: entries 0-15 are the
/// named-color table, 16-231 form a 6x6x6 color cube, 232-255 are a
/// 24-step grayscale ramp.
pub open spec fn spec_ansi256_to_rgb(idx: u8) -> (u8, u8, u8) {
    if idx < 16 {
        rgb16(idx as int)
    } else if idx <= 231 {
        let j = idx - 16;
        (cube_value(j / 36), cube_value((j % 36) / 6), cube_value(j % 6))
    } else {
        let g = (8 + 10 * (idx - 232)) as u8;
        (g, g, g)
    }
}

/// Expands a 256-palette index to its RGB value, following the conventional
/// palette layout exactly.
pub fn ansi256_to_rgb(idx: u8) -> (rgb: (u8, u8, u8))
    ensures
        rgb == spec_ansi256_to_rgb(idx),
{
    if idx < 16 {
        match idx {
            0 => (0, 0, 0),
            1 => (128, 0, 0),
            2 => (0, 128, 0),
            3 => (128, 128, 0),
            4 => (0, 0, 128),
            5 => (128, 0, 128),
            6 => (0, 128, 128),
            7 => (192, 192, 192),
            8 => (128, 128, 128),
            9 => (255, 0, 0),
            10 => (0, 255, 0),
            11 => (255, 255, 0),
            12 => (0, 0, 255),
            13 => (255, 0, 255),
            14 => (0, 255, 255),
            _ => (255, 255, 255),
        }
    } else if idx <= 231 {
        let j = idx - 16;
        let r_val = cube_value_exec(j / 36);
        let g_val = cube_value_exec((j % 36) / 6);
        let b_val = cube_value_exec(j % 6);
        (r_val, g_val, b_val)
    } else {
        let gray_level = idx - 232;
        let gray_value = 8 + gray_level * 10;
        (gray_value, gray_value, gray_value)
    }
}

fn cube_value_exec(d: u8) -> (v: u8)
    ensures
        v == cube_value(d as int),
{
    match d {
        0 => 0,
        1 => 95,
        2 => 135,
        3 => 175,
        4 => 215,
        _ => 255,
    }
}

/// The character for one decimal digit.
pub open spec fn dec_digit(d: int) -> char {
    if d == 0 {
        '0'
    } else if d == 1 {
        '1'
    } else if d == 2 {
        '2'
    } else if d == 3 {
        '3'
    } else if d == 4 {
        '4'
    } else if d == 5 {
        '5'
    } else if d == 6 {
        '6'
    } else if d == 7 {
        '7'
    } else if d == 8 {
        '8'
    } else {
        '9'
    }
}

/// The decimal notation of a nonnegative number, without leading zeros
/// (a single `'0'` for zero).
pub open spec fn spec_dec(n: int) -> Seq<char>
    decreases n,
{
    if n < 10 {
        seq![dec_digit(n)]
    } else {
        spec_dec(n / 10).push(dec_digit(n % 10))
    }
}

fn dec_digit_str(d: u8) -> (s: &'static str)
    requires
        d < 10,
    ensures
        s@ == seq![dec_digit(d as int)],
{
    proof {
        reveal_strlit("0");
        reveal_strlit("1");
        reveal_strlit("2");
        reveal_strlit("3");
        reveal_strlit("4");
        reveal_strlit("5");
        reveal_strlit("6");
        reveal_strlit("7");
        reveal_strlit("8");
        reveal_strlit("9");
    }
    let s: &'static str = match d {
        0 => "0",
        1 => "1",
        2 => "2",
        3 => "3",
        4 => "4",
        5 => "5",
        6 => "6",
        7 => "7",
        8 => "8",
        _ => "9",
    };
    proof {
        assert(s@ =~= seq![dec_digit(d as int)]);
    }
    s
}

/// Appends the decimal notation of `n` to `out`.
fn append_dec_u8(out: &mut String, n: u8)
    ensures
        final(out)@ == old(out)@ + spec_dec(n as int),
{
    if n >= 100 {
        out.append(dec_digit_str(n / 100));
        out.append(dec_digit_str((n / 10) % 10));
        out.append(dec_digit_str(n % 10));
        proof {
            assert(n / 10 / 10 == n / 100) by (nonlinear_arith);
            assert(n / 10 >= 10);
            assert(spec_dec(n as int / 100) =~= seq![dec_digit(n as int / 100)]);
            assert(spec_dec(n as int / 10) =~= seq![
                dec_digit(n as int / 100),
                dec_digit((n as int / 10) % 10),
            ]);
            assert(spec_dec(n as int) =~= seq![
                dec_digit(n as int / 100),
                dec_digit((n as int / 10) % 10),
                dec_digit(n as int % 10),
            ]);
            assert(final(out)@ =~= old(out)@ + spec_dec(n as int));
        }
    } else if n >= 10 {
        out.append(dec_digit_str(n / 10));
        out.append(dec_digit_str(n % 10));
        proof {
            assert(spec_dec(n as int / 10) =~= seq![dec_digit(n as int / 10)]);
            assert(spec_dec(n as int) =~= seq![dec_digit(n as int / 10), dec_digit(n as int % 10)]);
            assert(final(out)@ =~= old(out)@ + spec_dec(n as int));
        }
    } else {
        out.append(dec_digit_str(n));
        proof {
            assert(final(out)@ =~= old(out)@ + spec_dec(n as int));
        }
    }
}

/// Whether a color is one of the 16 named colors (neither indexed nor RGB).
pub open spec fn is_named(c: Color) -> bool {
    match c {
        Color::Ansi256 { .. } => false,
        Color::TrueColor { .. } => false,
        _ => true,
    }
}

/// Squared Euclidean distance between two RGB values.
pub open spec fn dist_sq(a: (u8, u8, u8), b: (u8, u8, u8)) -> int {
    (a.0 - b.0) * (a.0 - b.0) + (a.1 - b.1) * (a.1 - b.1) + (a.2 - b.2) * (a.2 - b.2)
}

/// The position of the first minimum of `dist_sq(rgb, rgb16(_))` among the
/// named-color table entries `0 .. n`: later entries win only by a strictly
/// smaller distance.
pub open spec fn nearest16_upto(rgb: (u8, u8, u8), n: int) -> int
    decreases n,
{
    if n <= 1 {
        0
    } else {
        let best = nearest16_upto(rgb, n - 1);
        if dist_sq(rgb, rgb16(n - 1)) < dist_sq(rgb, rgb16(best)) {
            n - 1
        } else {
            best
        }
    }
}

/// The smallest palette index minimising `dist_sq(rgb, spec_ansi256_to_rgb(_))`
/// among the indices `0 .. n`.
pub open spec fn nearest256_upto(rgb: (u8, u8, u8), n: int) -> int
    decreases n,
{
    if n <= 1 {
        0
    } else {
        let best = nearest256_upto(rgb, n - 1);
        if dist_sq(rgb, spec_ansi256_to_rgb((n - 1) as u8)) < dist_sq(
            rgb,
            spec_ansi256_to_rgb(best as u8),
        ) {
            n - 1
        } else {
            best
        }
    }
}

/// The RGB value a color stands for, for the purpose of downgrading: named
/// colors use the fixed table, indexed colors the palette expansion.
pub open spec fn spec_rgb_of(c: Color) -> (u8, u8, u8) {
    match c {
        Color::Ansi256 { idx } => spec_ansi256_to_rgb(idx),
        Color::TrueColor { r, g, b } => (r, g, b),
        _ => rgb16(color16_index(c)),
    }
}

/// The table position of a named color (inverse of `color16`); 0 for the
/// non-named variants.
pub open spec fn color16_index(c: Color) -> int {
    match c {
        Color::Black => 0,
        Color::Red => 1,
        Color::Green => 2,
        Color::Yellow => 3,
        Color::Blue => 4,
        Color::Magenta => 5,
        Color::Cyan => 6,
        Color::White => 7,
        Color::BrightBlack => 8,
        Color::BrightRed => 9,
        Color::BrightGreen => 10,
        Color::BrightYellow => 11,
        Color::BrightBlue => 12,
        Color::BrightMagenta => 13,
        Color::BrightCyan => 14,
        Color::BrightWhite => 15,
        _ => 0,
    }
}

/// What `fallback_to_ansi16` returns: named colors are left unchanged,
/// indexed and RGB colors map to the named color nearest to their RGB value.
pub open spec fn spec_fallback_to_ansi16(c: Color) -> Color {
    if is_named(c) {
        c
    } else {
        color16(nearest16_upto(spec_rgb_of(c), 16))
    }
}

/// What `fallback_to_ansi256` returns: only RGB colors change, to the
/// nearest entry of the 256-color palette.
pub open spec fn spec_fallback_to_ansi256(c: Color) -> Color {
    match c {
        Color::TrueColor { r, g, b } => Color::Ansi256 {
            idx: nearest256_upto((r, g, b), 256) as u8,
        },
        _ => c,
    }
}

/// The nearest-color search over table entries `0 .. n` answers with a
/// position inside that range.
pub proof fn lemma_nearest16_upto_range(rgb: (u8, u8, u8), n: int)
    requires
        1 <= n,
    ensures
        0 <= nearest16_upto(rgb, n) < n,
    decreases n,
{
    if n > 1 {
        lemma_nearest16_upto_range(rgb, n - 1);
    }
}

/// The palette search over indices `0 .. n` answers with an index inside
/// that range.
pub proof fn lemma_nearest256_upto_range(rgb: (u8, u8, u8), n: int)
    requires
        1 <= n,
    ensures
        0 <= nearest256_upto(rgb, n) < n,
    decreases n,
{
    if n > 1 {
        lemma_nearest256_upto_range(rgb, n - 1);
    }
}

/// `nearest16_upto` picks the first minimum: no table entry is strictly
/// closer, and every entry before the winner is strictly farther.
pub proof fn lemma_nearest16_upto_first_min(rgb: (u8, u8, u8), n: int)
    requires
        1 <= n,
    ensures
        forall|j: int|
            0 <= j < n ==> #[trigger] dist_sq(rgb, rgb16(j)) >= dist_sq(
                rgb,
                rgb16(nearest16_upto(rgb, n)),
            ),
        forall|j: int|
            0 <= j < nearest16_upto(rgb, n) ==> #[trigger] dist_sq(rgb, rgb16(j)) > dist_sq(
                rgb,
                rgb16(nearest16_upto(rgb, n)),
            ),
    decreases n,
{
    if n > 1 {
        lemma_nearest16_upto_first_min(rgb, n - 1);
    }
}

/// `nearest256_upto` picks the first minimum: no palette index is strictly
/// closer, and every index before the winner is strictly farther.
pub proof fn lemma_nearest256_upto_first_min(rgb: (u8, u8, u8), n: int)
    requires
        1 <= n <= 256,
    ensures
        forall|j: int|
            0 <= j < n ==> #[trigger] dist_sq(rgb, spec_ansi256_to_rgb(j as u8)) >= dist_sq(
                rgb,
                spec_ansi256_to_rgb(nearest256_upto(rgb, n) as u8),
            ),
        forall|j: int|
            0 <= j < nearest256_upto(rgb, n) ==> #[trigger] dist_sq(
                rgb,
                spec_ansi256_to_rgb(j as u8),
            ) > dist_sq(rgb, spec_ansi256_to_rgb(nearest256_upto(rgb, n) as u8)),
    decreases n,
{
    if n > 1 {
        lemma_nearest256_upto_first_min(rgb, n - 1);
        lemma_nearest256_upto_range(rgb, n);
    }
}

/// Downgrading to the 16 named colors is idempotent: a second downgrade
/// leaves the first one's answer unchanged.
pub proof fn lemma_fallback_to_ansi16_idempotent(c: Color)
    ensures
        spec_fallback_to_ansi16(spec_fallback_to_ansi16(c)) == spec_fallback_to_ansi16(c),
{
    if !is_named(c) {
        lemma_nearest16_upto_range(spec_rgb_of(c), 16);
        assert(is_named(color16(nearest16_upto(spec_rgb_of(c), 16))));
    }
}

fn color16_exec(i: u8) -> (c: Color)
    requires
        i < 16,
    ensures
        c == color16(i as int),
{
    match i {
        0 => Color::Black,
        1 => Color::Red,
        2 => Color::Green,
        3 => Color::Yellow,
        4 => Color::Blue,
        5 => Color::Magenta,
        6 => Color::Cyan,
        7 => Color::White,
        8 => Color::BrightBlack,
        9 => Color::BrightRed,
        10 => Color::BrightGreen,
        11 => Color::BrightYellow,
        12 => Color::BrightBlue,
        13 => Color::BrightMagenta,
        14 => Color::BrightCyan,
        _ => Color::BrightWhite,
    }
}

/// Squared RGB distance, computed in machine integers.
fn dist_sq_exec(a: (u8, u8, u8), b: (u8, u8, u8)) -> (d: u32)
    ensures
        d == dist_sq(a, b),
{
    let dr: i32 = a.0 as i32 - b.0 as i32;
    let dg: i32 = a.1 as i32 - b.1 as i32;
    let db: i32 = a.2 as i32 - b.2 as i32;
    proof {
        assert(dr * dr + dg * dg + db * db <= 3 * 255 * 255 && dr * dr >= 0 && dg * dg >= 0
            && db * db >= 0) by (nonlinear_arith)
            requires
                -255 <= dr <= 255,
                -255 <= dg <= 255,
                -255 <= db <= 255,
        ;
    }
    (dr * dr + dg * dg + db * db) as u32
}

/// The numeric SGR code selecting a named color as foreground:
/// 30-37 for the standard colors, 90-97 for the bright ones.
pub open spec fn named_fg_num(c: Color) -> int {
    let i = color16_index(c);
    if i < 8 {
        30 + i
    } else {
        82 + i
    }
}

/// The numeric SGR code selecting a named color as background:
/// 40-47 for the standard colors, 100-107 for the bright ones.
pub open spec fn named_bg_num(c: Color) -> int {
    let i = color16_index(c);
    if i < 8 {
        40 + i
    } else {
        92 + i
    }
}

/// The SGR parameter fragment that selects a color as the foreground, under
/// a capability level: named colors always use their fixed code; an indexed
/// color downgrades to a named color on a 16-color terminal; an RGB color
/// downgrades to a named color or a palette index as the level demands.
pub open spec fn spec_to_fg_str(c: Color, level: ColorLevel) -> Seq<char> {
    match c {
        Color::Ansi256 { idx } => {
            if level == ColorLevel::Ansi16 {
                spec_dec(named_fg_num(spec_fallback_to_ansi16(c)))
            } else {
                seq!['3', '8', ';', '5', ';'] + spec_dec(idx as int)
            }
        },
        Color::TrueColor { r, g, b } => {
            if level == ColorLevel::Ansi16 {
                spec_dec(named_fg_num(spec_fallback_to_ansi16(c)))
            } else if level == ColorLevel::Ansi256 {
                seq!['3', '8', ';', '5', ';'] + spec_dec(nearest256_upto((r, g, b), 256))
            } else {
                seq!['3', '8', ';', '2', ';'] + spec_dec(r as int) + seq![';'] + spec_dec(g as int)
                    + seq![';'] + spec_dec(b as int)
            }
        },
        _ => spec_dec(named_fg_num(c)),
    }
}

/// The SGR parameter fragment that selects a color as the background, with
/// the same downgrade rules as `spec_to_fg_str`.
pub open spec fn spec_to_bg_str(c: Color, level: ColorLevel) -> Seq<char> {
    match c {
        Color::Ansi256 { idx } => {
            if level == ColorLevel::Ansi16 {
                spec_dec(named_bg_num(spec_fallback_to_ansi16(c)))
            } else {
                seq!['4', '8', ';', '5', ';'] + spec_dec(idx as int)
            }
        },
        Color::TrueColor { r, g, b } => {
            if level == ColorLevel::Ansi16 {
                spec_dec(named_bg_num(spec_fallback_to_ansi16(c)))
            } else if level == ColorLevel::Ansi256 {
                seq!['4', '8', ';', '5', ';'] + spec_dec(nearest256_upto((r, g, b), 256))
            } else {
                seq!['4', '8', ';', '2', ';'] + spec_dec(r as int) + seq![';'] + spec_dec(g as int)
                    + seq![';'] + spec_dec(b as int)
            }
        },
        _ => spec_dec(named_bg_num(c)),
    }
}

/// Decimal notation is never empty.
pub proof fn lemma_spec_dec_nonempty(n: int)
    ensures
        spec_dec(n).len() >= 1,
    decreases n,
{
    if n >= 10 {
        lemma_spec_dec_nonempty(n / 10);
    }
}

/// Every color yields a nonempty escape fragment, as foreground and as
/// background, at every capability level.
pub proof fn lemma_color_code_nonempty(c: Color, level: ColorLevel)
    ensures
        spec_to_fg_str(c, level).len() > 0,
        spec_to_bg_str(c, level).len() > 0,
{
    match c {
        Color::Ansi256 { idx } => {
            lemma_spec_dec_nonempty(named_fg_num(spec_fallback_to_ansi16(c)));
            lemma_spec_dec_nonempty(named_bg_num(spec_fallback_to_ansi16(c)));
            lemma_spec_dec_nonempty(idx as int);
        },
        Color::TrueColor { r, g, b } => {
            lemma_spec_dec_nonempty(named_fg_num(spec_fallback_to_ansi16(c)));
            lemma_spec_dec_nonempty(named_bg_num(spec_fallback_to_ansi16(c)));
            lemma_spec_dec_nonempty(nearest256_upto((r, g, b), 256));
            lemma_spec_dec_nonempty(r as int);
        },
        _ => {
            lemma_spec_dec_nonempty(named_fg_num(c));
            lemma_spec_dec_nonempty(named_bg_num(c));
        },
    }
}

/// The fixed codes of the 16 named colors do not depend on the capability
/// level, neither as foreground nor as background.
pub proof fn lemma_named_code_level_invariant(c: Color, l1: ColorLevel, l2: ColorLevel)
    requires
        is_named(c),
    ensures
        spec_to_fg_str(c, l1) == spec_to_fg_str(c, l2),
        spec_to_bg_str(c, l1) == spec_to_bg_str(c, l2),
{
}

fn named_fg_num_exec(c: Color) -> (n: u8)
    requires
        is_named(c),
    ensures
        n == named_fg_num(c),
{
    match c {
        Color::Black => 30,
        Color::Red => 31,
        Color::Green => 32,
        Color::Yellow => 33,
        Color::Blue => 34,
        Color::Magenta => 35,
        Color::Cyan => 36,
        Color::White => 37,
        Color::BrightBlack => 90,
        Color::BrightRed => 91,
        Color::BrightGreen => 92,
        Color::BrightYellow => 93,
        Color::BrightBlue => 94,
        Color::BrightMagenta => 95,
        Color::BrightCyan => 96,
        _ => 97,
    }
}

fn named_bg_num_exec(c: Color) -> (n: u8)
    requires
        is_named(c),
    ensures
        n == named_bg_num(c),
{
    match c {
        Color::Black => 40,
        Color::Red => 41,
        Color::Green => 42,
        Color::Yellow => 43,
        Color::Blue => 44,
        Color::Magenta => 45,
        Color::Cyan => 46,
        Color::White => 47,
        Color::BrightBlack => 100,
        Color::BrightRed => 101,
        Color::BrightGreen => 102,
        Color::BrightYellow => 103,
        Color::BrightBlue => 104,
        Color::BrightMagenta => 105,
        Color::BrightCyan => 106,
        _ => 107,
    }
}

fn dec_string(n: u8) -> (s: String)
    ensures
        s@ == spec_dec(n as int),
{
    let mut s = String::new();
    append_dec_u8(&mut s, n);
    proof {
        assert(s@ =~= spec_dec(n as int));
    }
    s
}

fn rgb_args_string(prefix: &'static str, r: u8, g: u8, b: u8) -> (s: String)
    ensures
        s@ == prefix@ + spec_dec(r as int) + seq![';'] + spec_dec(g as int) + seq![';'] + spec_dec(
            b as int,
        ),
{
    proof {
        reveal_strlit(";");
    }
    let mut s = String::from_str(prefix);
    append_dec_u8(&mut s, r);
    s.append(";");
    append_dec_u8(&mut s, g);
    s.append(";");
    append_dec_u8(&mut s, b);
    proof {
        assert(";"@ =~= seq![';']);
        assert(s@ =~= prefix@ + spec_dec(r as int) + seq![';'] + spec_dec(g as int) + seq![';']
            + spec_dec(b as int));
    }
    s
}

impl Color {
    /// Renders the SGR parameter fragment that selects this color as the
    /// foreground at the given capability level.
    pub fn to_fg_str(&self, level: ColorLevel) -> (s: String)
        ensures
            s@ == spec_to_fg_str(*self, level),
    {
        match *self {
            Color::Ansi256 { idx } => {
                if level == ColorLevel::Ansi16 {
                    let named = self.fallback_to_ansi16();
                    proof {
                        lemma_nearest16_upto_range(spec_rgb_of(*self), 16);
                    }
                    dec_string(named_fg_num_exec(named))
                } else {
                    let mut s = String::from_str("38;5;");
                    proof {
                        reveal_strlit("38;5;");
                        assert("38;5;"@ =~= seq!['3', '8', ';', '5', ';']);
                    }
                    append_dec_u8(&mut s, idx);
                    s
                }
            },
            Color::TrueColor { r, g, b } => {
                if level == ColorLevel::Ansi16 {
                    let named = self.fallback_to_ansi16();
                    proof {
                        lemma_nearest16_upto_range(spec_rgb_of(*self), 16);
                    }
                    dec_string(named_fg_num_exec(named))
                } else if level == ColorLevel::Ansi256 {
                    let downgraded = self.fallback_to_ansi256();
                    proof {
                        lemma_nearest256_upto_range((r, g, b), 256);
                    }
                    let idx: u8 = match downgraded {
                        Color::Ansi256 { idx } => idx,
                        _ => 0,
                    };
                    let mut s = String::from_str("38;5;");
                    proof {
                        reveal_strlit("38;5;");
                        assert("38;5;"@ =~= seq!['3', '8', ';', '5', ';']);
                    }
                    append_dec_u8(&mut s, idx);
                    s
                } else {
                    proof {
                        reveal_strlit("38;2;");
                        assert("38;2;"@ =~= seq!['3', '8', ';', '2', ';']);
                    }
                    rgb_args_string("38;2;", r, g, b)
                }
            },
            _ => dec_string(named_fg_num_exec(*self)),
        }
    }

    /// Renders the SGR parameter fragment that selects this color as the
    /// background at the given capability level.
    pub fn to_bg_str(&self, level: ColorLevel) -> (s: String)
        ensures
            s@ == spec_to_bg_str(*self, level),
    {
        match *self {
            Color::Ansi256 { idx } => {
                if level == ColorLevel::Ansi16 {
                    let named = self.fallback_to_ansi16();
                    proof {
                        lemma_nearest16_upto_range(spec_rgb_of(*self), 16);
                    }
                    dec_string(named_bg_num_exec(named))
                } else {
                    let mut s = String::from_str("48;5;");
                    proof {
                        reveal_strlit("48;5;");
                        assert("48;5;"@ =~= seq!['4', '8', ';', '5', ';']);
                    }
                    append_dec_u8(&mut s, idx);
                    s
                }
            },
            Color::TrueColor { r, g, b } => {
                if level == ColorLevel::Ansi16 {
                    let named = self.fallback_to_ansi16();
                    proof {
                        lemma_nearest16_upto_range(spec_rgb_of(*self), 16);
                    }
                    dec_string(named_bg_num_exec(named))
                } else if level == ColorLevel::Ansi256 {
                    let downgraded = self.fallback_to_ansi256();
                    proof {
                        lemma_nearest256_upto_range((r, g, b), 256);
                    }
                    let idx: u8 = match downgraded {
                        Color::Ansi256 { idx } => idx,
                        _ => 0,
                    };
                    let mut s = String::from_str("48;5;");
                    proof {
                        reveal_strlit("48;5;");
                        assert("48;5;"@ =~= seq!['4', '8', ';', '5', ';']);
                    }
                    append_dec_u8(&mut s, idx);
                    s
                } else {
                    proof {
                        reveal_strlit("48;2;");
                        assert("48;2;"@ =~= seq!['4', '8', ';', '2', ';']);
                    }
                    rgb_args_string("48;2;", r, g, b)
                }
            },
            _ => dec_string(named_bg_num_exec(*self)),
        }
    }

    /// Converts an indexed or RGB color to the closest of the 16 named
    /// colors by squared RGB distance; ties keep the earliest table entry.
    /// Named colors are returned unchanged.
    pub fn fallback_to_ansi16(self) -> (c: Color)
        ensures
            c == spec_fallback_to_ansi16(self),
    {
        let rgb: (u8, u8, u8) = match self {
            Color::Ansi256 { idx } => ansi256_to_rgb(idx),
            Color::TrueColor { r, g, b } => (r, g, b),
            _ => {
                return self;
            },
        };
        let mut min_distance_sq: u32 = dist_sq_exec(rgb, ansi256_to_rgb(0));
        let mut closest: u8 = 0;
        let mut j: u8 = 1;
        while j < 16
            invariant
                1 <= j <= 16,
                closest < j,
                closest == nearest16_upto(rgb, j as int),
                min_distance_sq == dist_sq(rgb, rgb16(closest as int)),
            decreases 16 - j,
        {
            let d = dist_sq_exec(rgb, ansi256_to_rgb(j));
            if d < min_distance_sq {
                min_distance_sq = d;
                closest = j;
            }
            j = j + 1;
        }
        color16_exec(closest)
    }

    /// Converts an RGB color to the closest entry of the 256-color palette
    /// by squared RGB distance; ties keep the smallest index. Other colors
    /// are returned unchanged.
    pub fn fallback_to_ansi256(self) -> (c: Color)
        ensures
            c == spec_fallback_to_ansi256(self),
    {
        let rgb: (u8, u8, u8) = match self {
            Color::TrueColor { r, g, b } => (r, g, b),
            _ => {
                return self;
            },
        };
        let mut min_distance_sq: u32 = dist_sq_exec(rgb, ansi256_to_rgb(0));
        let mut closest: u8 = 0;
        let mut j: u16 = 1;
        while j < 256
            invariant
                1 <= j <= 256,
                closest == nearest256_upto(rgb, j as int),
                min_distance_sq == dist_sq(rgb, spec_ansi256_to_rgb(closest)),
            decreases 256 - j,
        {
            let d = dist_sq_exec(rgb, ansi256_to_rgb(j as u8));
            if d < min_distance_sq {
                min_distance_sq = d;
                closest = j as u8;
            }
            j = j + 1;
        }
        Color::Ansi256 { idx: closest }
    }
}

} // verus!
