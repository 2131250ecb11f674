//! Color values and their text parsing rules.
//!
//! A color is one of: the terminal's preset color, a base color at dark or
//! light intensity, a true 24-bit RGB color, or a low-resolution RGB color
//! whose channels range over 0..=5 (the 6x6x6 cube of the 256-color terminal
//! palette).

use vstd::prelude::*;
use vstd::string::StrSliceExecFns;

verus! {

/// One of the 8 base ANSI hues, ordinally numbered 0-7.
#[derive(Clone, Copy, Debug, PartialEq, Eq, Hash, Structural)]
pub enum BaseColor {
    /// Color 0
    Black,
    /// Color 1
    Red,
    /// Color 2
    Green,
    /// Color 3
    Yellow,
    /// Color 4
    Blue,
    /// Color 5
    Magenta,
    /// Color 6
    Cyan,
    /// Color 7
    White,
}

/// The base color whose ordinal is `n % 8`.
pub open spec fn spec_base_color_from(n: int) -> BaseColor {
    let r = n % 8;
    if r == 0 {
        BaseColor::Black
    } else if r == 1 {
        BaseColor::Red
    } else if r == 2 {
        BaseColor::Green
    } else if r == 3 {
        BaseColor::Yellow
    } else if r == 4 {
        BaseColor::Blue
    } else if r == 5 {
        BaseColor::Magenta
    } else if r == 6 {
        BaseColor::Cyan
    } else {
        BaseColor::White
    }
}

impl From<u8> for BaseColor {
    /// Convert an integer to a base color, modulo 8.
    fn from(n: u8) -> (r: Self) {
        match n % 8 {
            0 => BaseColor::Black,
            1 => BaseColor::Red,
            2 => BaseColor::Green,
            3 => BaseColor::Yellow,
            4 => BaseColor::Blue,
            5 => BaseColor::Magenta,
            6 => BaseColor::Cyan,
            _ => BaseColor::White,
        }
    }
}

impl vstd::std_specs::convert::FromSpecImpl<u8> for BaseColor {
    open spec fn obeys_from_spec() -> bool {
        true
    }

    open spec fn from_spec(n: u8) -> BaseColor {
        spec_base_color_from(n as int)
    }
}

/// One terminal color.
#[derive(Clone, Copy, Debug, PartialEq, Eq, Hash, Structural)]
pub enum Color {
    /// The color preset by the terminal.
    Default,
    /// A base color at normal intensity.
    Dark(BaseColor),
    /// A base color at bright intensity.
    Light(BaseColor),
    /// True color, 24-bit, one byte per channel.
    Rgb(u8, u8, u8),
    /// Low-resolution color; each channel should stay in 0..=5.
    RgbLowRes(u8, u8, u8),
}

/// A well-formed color keeps every low-resolution channel in 0..=5.
pub open spec fn color_wf(c: Color) -> bool {
    match c {
        Color::RgbLowRes(r, g, b) => r <= 5 && g <= 5 && b <= 5,
        _ => true,
    }
}

/// The value of one hexadecimal digit; characters outside `0-9a-fA-F` count
/// as 0.
pub open spec fn spec_hex_val(c: char) -> nat {
    let n = c as int;
    if '0' as int <= n && n <= '9' as int {
        (n - '0' as int) as nat
    } else if 'a' as int <= n && n <= 'f' as int {
        (n - 'a' as int + 10) as nat
    } else if 'A' as int <= n && n <= 'F' as int {
        (n - 'A' as int + 10) as nat
    } else {
        0
    }
}

/// The value of a string of hexadecimal digits, read left to right.
pub open spec fn spec_load_hex(s: Seq<char>) -> nat
    decreases s.len(),
{
    if s.len() == 0 {
        0
    } else {
        spec_load_hex(s.drop_last()) * 16 + spec_hex_val(s.last())
    }
}

proof fn lemma_hex_val_bound(c: char)
    ensures
        spec_hex_val(c) <= 15,
{
}

/// A hexadecimal string's value is bounded by 16 to the power of its length,
/// stated here for the lengths the color parser uses.
proof fn lemma_load_hex_bound(s: Seq<char>)
    requires
        s.len() <= 3,
    ensures
        s.len() <= 1 ==> spec_load_hex(s) <= 15,
        s.len() <= 2 ==> spec_load_hex(s) <= 255,
        spec_load_hex(s) <= 4095,
    decreases s.len(),
{
    if s.len() > 0 {
        lemma_load_hex_bound(s.drop_last());
        lemma_hex_val_bound(s.last());
    }
}

fn hex_val(c: char) -> (r: u8)
    ensures
        r as nat == spec_hex_val(c),
        r <= 15,
{
    let n = c as u32;
    if 48 <= n && n <= 57 {
        (n - 48) as u8
    } else if 97 <= n && n <= 102 {
        (n - 87) as u8
    } else if 65 <= n && n <= 70 {
        (n - 55) as u8
    } else {
        0
    }
}

/// Read a string of hexadecimal digits as a number; characters outside
/// `0-9a-fA-F` count as 0.
pub fn load_hex(s: &str) -> (r: u16)
    requires
        s@.len() <= 3,
    ensures
        r as nat == spec_load_hex(s@),
{
    proof {
        lemma_load_hex_bound(s@);
    }
    let len = s.unicode_len();
    let mut sum: u16 = 0;
    let mut i: usize = 0;
    while i < len
        invariant
            i <= len,
            len == s@.len(),
            len <= 3,
            sum as nat == spec_load_hex(s@.subrange(0, i as int)),
        decreases len - i,
    {
        proof {
            lemma_load_hex_bound(s@.subrange(0, i as int));
        }
        let c = s.get_char(i);
        sum = sum * 16 + hex_val(c) as u16;
        proof {
            assert(s@.subrange(0, i + 1).drop_last() =~= s@.subrange(0, i as int));
            assert(s@.subrange(0, i + 1).last() == s@[i as int]);
        }
        i = i + 1;
    }
    proof {
        assert(s@.subrange(0, len as int) =~= s@);
    }
    sum
}

/// Whether a character is an ASCII digit in `0`-`5`.
pub open spec fn is_low_res_digit(c: char) -> bool {
    '0' as int <= c as int && c as int <= '5' as int
}

/// The numeric value of a digit in `0`-`5`.
pub open spec fn low_res_digit_val(c: char) -> u8 {
    (c as int - '0' as int) as u8
}

/// Parsing of the special color forms: `#RRGGBB`, `#RGB`, or three digits in
/// `0`-`5` read as a low-resolution RGB triple.
pub open spec fn spec_parse_special(s: Seq<char>) -> Option<Color> {
    if s.len() > 0 && s[0] == '#' {
        if s.len() == 7 {
            Some(
                Color::Rgb(
                    spec_load_hex(s.subrange(1, 3)) as u8,
                    spec_load_hex(s.subrange(3, 5)) as u8,
                    spec_load_hex(s.subrange(5, 7)) as u8,
                ),
            )
        } else if s.len() == 4 {
            Some(
                Color::Rgb(
                    (spec_load_hex(s.subrange(1, 2)) * 17) as u8,
                    (spec_load_hex(s.subrange(2, 3)) * 17) as u8,
                    (spec_load_hex(s.subrange(3, 4)) * 17) as u8,
                ),
            )
        } else {
            None
        }
    } else if s.len() == 3 && is_low_res_digit(s[0]) && is_low_res_digit(s[1]) && is_low_res_digit(
        s[2],
    ) {
        Some(Color::RgbLowRes(low_res_digit_val(s[0]), low_res_digit_val(s[1]), low_res_digit_val(s[2])))
    } else {
        None
    }
}

/// The full color grammar: one of the 16 case-sensitive names, or a special
/// form.
pub open spec fn spec_parse_color(s: Seq<char>) -> Option<Color> {
    if s == "black"@ {
        Some(Color::Dark(BaseColor::Black))
    } else if s == "red"@ {
        Some(Color::Dark(BaseColor::Red))
    } else if s == "green"@ {
        Some(Color::Dark(BaseColor::Green))
    } else if s == "yellow"@ {
        Some(Color::Dark(BaseColor::Yellow))
    } else if s == "blue"@ {
        Some(Color::Dark(BaseColor::Blue))
    } else if s == "magenta"@ {
        Some(Color::Dark(BaseColor::Magenta))
    } else if s == "cyan"@ {
        Some(Color::Dark(BaseColor::Cyan))
    } else if s == "white"@ {
        Some(Color::Dark(BaseColor::White))
    } else if s == "light black"@ {
        Some(Color::Light(BaseColor::Black))
    } else if s == "light red"@ {
        Some(Color::Light(BaseColor::Red))
    } else if s == "light green"@ {
        Some(Color::Light(BaseColor::Green))
    } else if s == "light yellow"@ {
        Some(Color::Light(BaseColor::Yellow))
    } else if s == "light blue"@ {
        Some(Color::Light(BaseColor::Blue))
    } else if s == "light magenta"@ {
        Some(Color::Light(BaseColor::Magenta))
    } else if s == "light cyan"@ {
        Some(Color::Light(BaseColor::Cyan))
    } else if s == "light white"@ {
        Some(Color::Light(BaseColor::White))
    } else {
        spec_parse_special(s)
    }
}

/// Character-by-character string equality, with the view equality it implies.
pub(crate) fn str_eq(a: &str, b: &str) -> (r: bool)
    ensures
        r == (a@ == b@),
{
    let alen = a.unicode_len();
    let blen = b.unicode_len();
    if alen != blen {
        return false;
    }
    let mut i: usize = 0;
    while i < alen
        invariant
            i <= alen,
            alen == a@.len(),
            blen == b@.len(),
            alen == blen,
            forall|j: int| 0 <= j < i ==> a@[j] == b@[j],
        decreases alen - i,
    {
        if a.get_char(i) != b.get_char(i) {
            return false;
        }
        i = i + 1;
    }
    proof {
        assert(a@ =~= b@);
    }
    true
}

impl Color {
    /// The color at an index of the 256-color list: the dark base colors,
    /// then the light base colors, then the 6x6x6 color cube.
    pub open spec fn spec_from_256colors(n: u8) -> Color {
        if n < 8 {
            Color::Dark(spec_base_color_from(n as int))
        } else if n < 16 {
            Color::Light(spec_base_color_from(n as int))
        } else {
            let m = (n - 16) as u8;
            Color::RgbLowRes((m / 36) as u8, ((m % 36) / 6) as u8, (m % 6) as u8)
        }
    }

    /// Creates a color from its index in the 256-color list.
    ///
    /// * Indices 0-7 are the dark base colors.
    /// * Indices 8-15 are the light base colors.
    /// * Indices 16-255 are low-resolution RGB colors, 6 values per channel.
    pub fn from_256colors(n: u8) -> (r: Self)
        ensures
            r == Self::spec_from_256colors(n),
    {
        if n < 8 {
            Color::Dark(BaseColor::from(n))
        } else if n < 16 {
            Color::Light(BaseColor::from(n))
        } else {
            let m = n - 16;
            Color::RgbLowRes(m / 36, (m % 36) / 6, m % 6)
        }
    }

    /// Parse a color specification: one of the 16 case-sensitive color names,
    /// or a special form.
    pub fn parse(value: &str) -> (r: Option<Self>)
        ensures
            r == spec_parse_color(value@),
    {
        if str_eq(value, "black") {
            Some(Color::Dark(BaseColor::Black))
        } else if str_eq(value, "red") {
            Some(Color::Dark(BaseColor::Red))
        } else if str_eq(value, "green") {
            Some(Color::Dark(BaseColor::Green))
        } else if str_eq(value, "yellow") {
            Some(Color::Dark(BaseColor::Yellow))
        } else if str_eq(value, "blue") {
            Some(Color::Dark(BaseColor::Blue))
        } else if str_eq(value, "magenta") {
            Some(Color::Dark(BaseColor::Magenta))
        } else if str_eq(value, "cyan") {
            Some(Color::Dark(BaseColor::Cyan))
        } else if str_eq(value, "white") {
            Some(Color::Dark(BaseColor::White))
        } else if str_eq(value, "light black") {
            Some(Color::Light(BaseColor::Black))
        } else if str_eq(value, "light red") {
            Some(Color::Light(BaseColor::Red))
        } else if str_eq(value, "light green") {
            Some(Color::Light(BaseColor::Green))
        } else if str_eq(value, "light yellow") {
            Some(Color::Light(BaseColor::Yellow))
        } else if str_eq(value, "light blue") {
            Some(Color::Light(BaseColor::Blue))
        } else if str_eq(value, "light magenta") {
            Some(Color::Light(BaseColor::Magenta))
        } else if str_eq(value, "light cyan") {
            Some(Color::Light(BaseColor::Cyan))
        } else if str_eq(value, "light white") {
            Some(Color::Light(BaseColor::White))
        } else {
            Self::parse_special(value)
        }
    }

    /// Parse a special color form: `#RRGGBB` (each channel two hexadecimal
    /// digits), `#RGB` (one digit per channel, scaled by 17), or exactly
    /// three digits in `0`-`5` read as a low-resolution triple.  A `#` form
    /// of any other length matches nothing, as does anything else.
    pub fn parse_special(value: &str) -> (r: Option<Self>)
        ensures
            r == spec_parse_special(value@),
    {
        let len = value.unicode_len();
        if len > 0 && value.get_char(0) == '#' {
            if len == 7 {
                let sub_r = value.substring_char(1, 3);
                let sub_g = value.substring_char(3, 5);
                let sub_b = value.substring_char(5, 7);
                let r1 = load_hex(sub_r);
                let g1 = load_hex(sub_g);
                let b1 = load_hex(sub_b);
                Some(Color::Rgb(r1 as u8, g1 as u8, b1 as u8))
            } else if len == 4 {
                let sub_r = value.substring_char(1, 2);
                let sub_g = value.substring_char(2, 3);
                let sub_b = value.substring_char(3, 4);
                proof {
                    lemma_load_hex_bound(value@.subrange(1, 2));
                    lemma_load_hex_bound(value@.subrange(2, 3));
                    lemma_load_hex_bound(value@.subrange(3, 4));
                }
                let r1 = load_hex(sub_r) * 17;
                let g1 = load_hex(sub_g) * 17;
                let b1 = load_hex(sub_b) * 17;
                Some(Color::Rgb(r1 as u8, g1 as u8, b1 as u8))
            } else {
                None
            }
        } else if len == 3 {
            let c0 = value.get_char(0) as u32;
            let c1 = value.get_char(1) as u32;
            let c2 = value.get_char(2) as u32;
            if 48 <= c0 && c0 <= 53 && 48 <= c1 && c1 <= 53 && 48 <= c2 && c2 <= 53 {
                Some(
                    Color::RgbLowRes((c0 - 48) as u8, (c1 - 48) as u8, (c2 - 48) as u8),
                )
            } else {
                None
            }
        } else {
            None
        }
    }
}

/// Every color the parser accepts is well formed: a low-resolution triple is
/// only produced from digits in `0`-`5`.
pub proof fn lemma_parse_color_wf(s: Seq<char>)
    ensures
        spec_parse_color(s) matches Some(c) ==> color_wf(c),
{
}

/// The first 16 indices of the 256-color list are the base colors: 0-7 dark,
/// 8-15 light, each at its ordinal modulo 8.
pub proof fn lemma_from_256colors_base(n: u8)
    requires
        n < 16,
    ensures
        n < 8 ==> Color::spec_from_256colors(n) == Color::Dark(spec_base_color_from(n as int)),
        8 <= n ==> Color::spec_from_256colors(n) == Color::Light(
            spec_base_color_from(n as int - 8),
        ),
{
}

/// Indices 16-231 of the 256-color list land in the 6x6x6 cube: each channel
/// is in 0..=5 and the channels recombine to the index.
pub proof fn lemma_from_256colors_cube(n: u8)
    requires
        16 <= n <= 231,
    ensures
        ({
            let c = Color::spec_from_256colors(n);
            &&& c matches Color::RgbLowRes(r, g, b)
            &&& c matches Color::RgbLowRes(r, g, b) ==> r <= 5 && g <= 5 && b <= 5 && 16 + 36 * (
            r as int) + 6 * (g as int) + (b as int) == n
        }),
{
}

} // verus!
