//! Colors: parsing of color tokens, palette quantization, and the computed
//! per-category background defaults that depend on display mode and
//! true-color support.

use vstd::prelude::*;
use crate::strutil::{all_digits, decimal_val, spec_parse_usize, parse_usize, chars_eq_str};

verus! {

/// A terminal color: an indexed palette entry or a 24-bit value.
#[derive(Clone, Copy, Debug, PartialEq, Eq, Structural)]
pub enum Color {
    Fixed(u8),
    Rgb(u8, u8, u8),
}

/// A hexadecimal digit.
pub open spec fn is_hex_digit(c: char) -> bool {
    (48 <= c as u32 && c as u32 <= 57) || (97 <= c as u32 && c as u32 <= 102) || (65 <= c as u32
        && c as u32 <= 70)
}

/// The numeric value of a hexadecimal digit.
pub open spec fn hex_val(c: char) -> int {
    if 48 <= c as u32 && c as u32 <= 57 {
        c as u32 - 48
    } else if 97 <= c as u32 && c as u32 <= 102 {
        c as u32 - 87
    } else {
        c as u32 - 55
    }
}

fn exec_hex_val(c: char) -> (r: Option<u8>)
    ensures
        r matches Some(v) <==> is_hex_digit(c),
        r matches Some(v) ==> v == hex_val(c),
{
    let cv = c as u32;
    if 48 <= cv && cv <= 57 {
        Some((cv - 48) as u8)
    } else if 97 <= cv && cv <= 102 {
        Some((cv - 87) as u8)
    } else if 65 <= cv && cv <= 70 {
        Some((cv - 55) as u8)
    } else {
        None
    }
}

/// A seven-character `#rrggbb` token.
pub open spec fn is_hex_color(t: Seq<char>) -> bool {
    &&& t.len() == 7
    &&& t[0] == '#'
    &&& is_hex_digit(t[1])
    &&& is_hex_digit(t[2])
    &&& is_hex_digit(t[3])
    &&& is_hex_digit(t[4])
    &&& is_hex_digit(t[5])
    &&& is_hex_digit(t[6])
}

pub open spec fn hex_color_val(t: Seq<char>) -> Color {
    Color::Rgb(
        (hex_val(t[1]) * 16 + hex_val(t[2])) as u8,
        (hex_val(t[3]) * 16 + hex_val(t[4])) as u8,
        (hex_val(t[5]) * 16 + hex_val(t[6])) as u8,
    )
}

/// The palette index that a named ANSI color token denotes, if any.
pub open spec fn spec_named_color_index(t: Seq<char>) -> Option<u8> {
    if t == "black"@ {
        Some(0u8)
    } else if t == "red"@ {
        Some(1u8)
    } else if t == "green"@ {
        Some(2u8)
    } else if t == "yellow"@ {
        Some(3u8)
    } else if t == "blue"@ {
        Some(4u8)
    } else if t == "magenta"@ || t == "purple"@ {
        Some(5u8)
    } else if t == "cyan"@ {
        Some(6u8)
    } else if t == "white"@ {
        Some(7u8)
    } else if t == "bright-black"@ {
        Some(8u8)
    } else if t == "bright-red"@ {
        Some(9u8)
    } else if t == "bright-green"@ {
        Some(10u8)
    } else if t == "bright-yellow"@ {
        Some(11u8)
    } else if t == "bright-blue"@ {
        Some(12u8)
    } else if t == "bright-magenta"@ || t == "bright-purple"@ {
        Some(13u8)
    } else if t == "bright-cyan"@ {
        Some(14u8)
    } else if t == "bright-white"@ {
        Some(15u8)
    } else {
        None
    }
}

/// What a color token denotes before quantization: a named ANSI color, a
/// decimal palette index up to 255, or a `#rrggbb` value.  Anything else is
/// not a color.
pub open spec fn spec_raw_color(t: Seq<char>) -> Option<Color> {
    match spec_named_color_index(t) {
        Some(ix) => Some(Color::Fixed(ix)),
        None => if t.len() > 0 && all_digits(t) && decimal_val(t) <= 255 {
            Some(Color::Fixed(decimal_val(t) as u8))
        } else if is_hex_color(t) {
            Some(hex_color_val(t))
        } else {
            None
        },
    }
}

/// Quantization of one 8-bit channel onto the 6-level color cube.
pub open spec fn spec_cube_level(v: u8) -> int {
    v * 6 / 256
}

/// Quantizes a color to the active palette: with true-color support every
/// color stands as given; without it a 24-bit value is mapped onto the
/// 256-color cube.
pub open spec fn spec_quantize(c: Color, true_color: bool) -> Color {
    match c {
        Color::Fixed(_) => c,
        Color::Rgb(r, g, b) => if true_color {
            c
        } else {
            Color::Fixed(
                (16 + 36 * spec_cube_level(r) + 6 * spec_cube_level(g) + spec_cube_level(
                    b,
                )) as u8,
            )
        },
    }
}

pub fn quantize(c: Color, true_color: bool) -> (r: Color)
    ensures
        r == spec_quantize(c, true_color),
{
    match c {
        Color::Fixed(v) => Color::Fixed(v),
        Color::Rgb(r, g, b) => {
            if true_color {
                Color::Rgb(r, g, b)
            } else {
                let rl = (r as usize) * 6 / 256;
                let gl = (g as usize) * 6 / 256;
                let bl = (b as usize) * 6 / 256;
                assert(rl <= 5 && gl <= 5 && bl <= 5);
                Color::Fixed((16 + 36 * rl + 6 * gl + bl) as u8)
            }
        },
    }
}

/// Parses one token as a color, before quantization.
#[verifier::rlimit(100)]
pub fn parse_raw_color(t: &Vec<char>) -> (r: Option<Color>)
    ensures
        r == spec_raw_color(t@),
{
    let named: Option<u8> = if chars_eq_str(t, "black") {
        Some(0u8)
    } else if chars_eq_str(t, "red") {
        Some(1u8)
    } else if chars_eq_str(t, "green") {
        Some(2u8)
    } else if chars_eq_str(t, "yellow") {
        Some(3u8)
    } else if chars_eq_str(t, "blue") {
        Some(4u8)
    } else if chars_eq_str(t, "magenta") || chars_eq_str(t, "purple") {
        Some(5u8)
    } else if chars_eq_str(t, "cyan") {
        Some(6u8)
    } else if chars_eq_str(t, "white") {
        Some(7u8)
    } else if chars_eq_str(t, "bright-black") {
        Some(8u8)
    } else if chars_eq_str(t, "bright-red") {
        Some(9u8)
    } else if chars_eq_str(t, "bright-green") {
        Some(10u8)
    } else if chars_eq_str(t, "bright-yellow") {
        Some(11u8)
    } else if chars_eq_str(t, "bright-blue") {
        Some(12u8)
    } else if chars_eq_str(t, "bright-magenta") || chars_eq_str(t, "bright-purple") {
        Some(13u8)
    } else if chars_eq_str(t, "bright-cyan") {
        Some(14u8)
    } else if chars_eq_str(t, "bright-white") {
        Some(15u8)
    } else {
        None
    };
    match named {
        Some(ix) => Some(Color::Fixed(ix)),
        None => {
            match parse_usize(t) {
                Some(v) => {
                    if v <= 255 {
                        proof {
                            crate::strutil::lemma_decimal_val_nonneg(t@);
                        }
                        Some(Color::Fixed(v as u8))
                    } else {
                        proof {
                            crate::strutil::lemma_decimal_val_nonneg(t@);
                        }
                        None
                    }
                },
                None => {
                    if t.len() == 7 && t[0] == '#' {
                        let h1 = exec_hex_val(t[1]);
                        let h2 = exec_hex_val(t[2]);
                        let h3 = exec_hex_val(t[3]);
                        let h4 = exec_hex_val(t[4]);
                        let h5 = exec_hex_val(t[5]);
                        let h6 = exec_hex_val(t[6]);
                        match (h1, h2, h3, h4, h5, h6) {
                            (
                                Some(a),
                                Some(b),
                                Some(c),
                                Some(d),
                                Some(e),
                                Some(f),
                            ) => Some(Color::Rgb(a * 16 + b, c * 16 + d, e * 16 + f)),
                            _ => None,
                        }
                    } else {
                        None
                    }
                },
            }
        },
    }
}

/// Parses one token as a color and quantizes it to the active palette.
pub fn parse_color(t: &Vec<char>, true_color: bool) -> (r: Option<Color>)
    ensures
        r == match spec_raw_color(t@) {
            Some(c) => Some(spec_quantize(c, true_color)),
            None => None::<Color>,
        },
{
    match parse_raw_color(t) {
        Some(c) => Some(quantize(c, true_color)),
        None => None,
    }
}

/// The built-in default background for removed-line content.
pub open spec fn spec_minus_background_default(is_light_mode: bool, true_color: bool) -> Color {
    if is_light_mode {
        if true_color {
            Color::Rgb(0xff, 0xe0, 0xe0)
        } else {
            Color::Fixed(224)
        }
    } else {
        if true_color {
            Color::Rgb(0x3f, 0x00, 0x01)
        } else {
            Color::Fixed(52)
        }
    }
}

/// The built-in default background for emphasized removed-line content.
pub open spec fn spec_minus_emph_background_default(is_light_mode: bool, true_color: bool) -> Color {
    if is_light_mode {
        if true_color {
            Color::Rgb(0xff, 0xc0, 0xc0)
        } else {
            Color::Fixed(217)
        }
    } else {
        if true_color {
            Color::Rgb(0x90, 0x10, 0x11)
        } else {
            Color::Fixed(124)
        }
    }
}

/// The built-in default background for added-line content.
pub open spec fn spec_plus_background_default(is_light_mode: bool, true_color: bool) -> Color {
    if is_light_mode {
        if true_color {
            Color::Rgb(0xd0, 0xff, 0xd0)
        } else {
            Color::Fixed(194)
        }
    } else {
        if true_color {
            Color::Rgb(0x00, 0x28, 0x00)
        } else {
            Color::Fixed(22)
        }
    }
}

/// The built-in default background for emphasized added-line content.
pub open spec fn spec_plus_emph_background_default(is_light_mode: bool, true_color: bool) -> Color {
    if is_light_mode {
        if true_color {
            Color::Rgb(0xa0, 0xef, 0xa0)
        } else {
            Color::Fixed(157)
        }
    } else {
        if true_color {
            Color::Rgb(0x00, 0x60, 0x00)
        } else {
            Color::Fixed(28)
        }
    }
}

pub fn get_minus_background_color_default(is_light_mode: bool, true_color: bool) -> (r: Color)
    ensures
        r == spec_minus_background_default(is_light_mode, true_color),
{
    if is_light_mode {
        if true_color {
            Color::Rgb(0xff, 0xe0, 0xe0)
        } else {
            Color::Fixed(224)
        }
    } else {
        if true_color {
            Color::Rgb(0x3f, 0x00, 0x01)
        } else {
            Color::Fixed(52)
        }
    }
}

pub fn get_minus_emph_background_color_default(is_light_mode: bool, true_color: bool) -> (r: Color)
    ensures
        r == spec_minus_emph_background_default(is_light_mode, true_color),
{
    if is_light_mode {
        if true_color {
            Color::Rgb(0xff, 0xc0, 0xc0)
        } else {
            Color::Fixed(217)
        }
    } else {
        if true_color {
            Color::Rgb(0x90, 0x10, 0x11)
        } else {
            Color::Fixed(124)
        }
    }
}

pub fn get_plus_background_color_default(is_light_mode: bool, true_color: bool) -> (r: Color)
    ensures
        r == spec_plus_background_default(is_light_mode, true_color),
{
    if is_light_mode {
        if true_color {
            Color::Rgb(0xd0, 0xff, 0xd0)
        } else {
            Color::Fixed(194)
        }
    } else {
        if true_color {
            Color::Rgb(0x00, 0x28, 0x00)
        } else {
            Color::Fixed(22)
        }
    }
}

pub fn get_plus_emph_background_color_default(is_light_mode: bool, true_color: bool) -> (r: Color)
    ensures
        r == spec_plus_emph_background_default(is_light_mode, true_color),
{
    if is_light_mode {
        if true_color {
            Color::Rgb(0xa0, 0xef, 0xa0)
        } else {
            Color::Fixed(157)
        }
    } else {
        if true_color {
            Color::Rgb(0x00, 0x60, 0x00)
        } else {
            Color::Fixed(28)
        }
    }
}

} // verus!
