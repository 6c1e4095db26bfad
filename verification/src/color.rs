//! The color structure, hex-string conversion, and the color-resolution
//! policy for base, blink and injected animations.

use vstd::prelude::*;
use vstd::string::*;

use crate::file_operations::Palette;
use crate::random::random_below;
use crate::text::u64_to_string;

verus! {

/// Failures of loading a color palette.
#[derive(Debug)]
pub enum ColorError {
    /// An IO error occurred; the payload is its message.
    Io(String),
    /// A JSON error occurred; the payload is its message.
    Json(String),
    /// Any other error, with a description.
    Other(String),
}

/// The structure that is used to store the color value of a pixel.
#[derive(Clone, Copy, PartialEq, Eq, Structural, Debug)]
pub struct Color {
    pub r: u8,
    pub g: u8,
    pub b: u8,
}

/// The color a grayscale animation is rendered with when no override
/// color is configured; also the sentinel meaning "no override".
pub open spec fn spec_white() -> Color {
    Color { r: 255, g: 255, b: 255 }
}

/// A color packed into a hex integer: `0xRRGGBB`.
pub open spec fn spec_to_hex(c: Color) -> u32 {
    (c.r * 0x10000 + c.g * 0x100 + c.b) as u32
}

/// The color encoded by the low 24 bits of a hex integer.
pub open spec fn spec_from_hex(hex: u32) -> Color {
    Color {
        r: ((hex / 0x10000) % 0x100) as u8,
        g: ((hex / 0x100) % 0x100) as u8,
        b: (hex % 0x100) as u8,
    }
}

impl Color {
    /// Convert the color to a hex integer of the form `0xRRGGBB`.
    pub fn to_hex(self) -> (h: u32)
        ensures
            h == spec_to_hex(self),
    {
        (self.r as u32) * 0x10000 + (self.g as u32) * 0x100 + (self.b as u32)
    }

    /// Get a color from a hex integer; bits above the low 24 are ignored.
    pub fn from_hex(hex: u32) -> (c: Self)
        ensures
            c == spec_from_hex(hex),
    {
        Color {
            r: ((hex / 0x10000) % 0x100) as u8,
            g: ((hex / 0x100) % 0x100) as u8,
            b: (hex % 0x100) as u8,
        }
    }

    /// Convert the color to the channel order the LED hardware takes:
    /// blue, green, red, and an unused zero byte.
    pub fn to_raw(self) -> (r: [u8; 4])
        ensures
            r@ == seq![self.b, self.g, self.r, 0u8],
    {
        let r = [self.b, self.g, self.r, 0];
        proof {
            assert(r@ =~= seq![self.b, self.g, self.r, 0u8]);
        }
        r
    }
}

/// Packing a color into a hex integer and unpacking it returns the
/// same color.
pub proof fn lemma_hex_round_trip(c: Color)
    ensures
        spec_from_hex(spec_to_hex(c)) == c,
{
    let h = (c.r * 0x10000 + c.g * 0x100 + c.b) as u32;
    assert((h / 0x10000) % 0x100 == c.r && (h / 0x100) % 0x100 == c.g && h % 0x100 == c.b)
        by (nonlinear_arith)
        requires h == c.r * 0x10000 + c.g * 0x100 + c.b && c.r < 0x100 && c.g < 0x100 && c.b
            < 0x100;
}

/// Unpacking a hex integer that uses only the low 24 bits and packing
/// the color again returns the same integer.
pub proof fn lemma_hex_round_trip_int(hex: u32)
    requires
        hex <= 0xFFFFFF,
    ensures
        spec_to_hex(spec_from_hex(hex)) == hex,
{
    assert(((hex / 0x10000) % 0x100) * 0x10000 + ((hex / 0x100) % 0x100) * 0x100 + hex % 0x100
        == hex) by (nonlinear_arith)
        requires hex <= 0xFFFFFF;
}

/// The value of a hexadecimal digit character, in either case.
pub open spec fn spec_hex_digit(c: char) -> Option<u32> {
    let v = c as u32;
    if 48 <= v && v <= 57 {
        Some((v - 48) as u32)
    } else if 97 <= v && v <= 102 {
        Some((v - 87) as u32)
    } else if 65 <= v && v <= 70 {
        Some((v - 55) as u32)
    } else {
        None
    }
}

/// Whether every character of a string is a hexadecimal digit.
pub open spec fn spec_all_hex(s: Seq<char>) -> bool {
    forall|i: int| 0 <= i < s.len() ==> (#[trigger] spec_hex_digit(s[i])) is Some
}

/// The value of a string of hexadecimal digits, most significant first.
pub open spec fn spec_hex_value(s: Seq<char>) -> nat
    decreases s.len(),
{
    if s.len() == 0 {
        0
    } else {
        (spec_hex_value(s.drop_last()) * 16 + spec_hex_digit(s.last()).unwrap_or(0)) as nat
    }
}

/// What parsing a string as a base-16 `u32` yields: an optional leading
/// `+`, then at least one hexadecimal digit, with a value that fits.
pub open spec fn spec_parse_hex_u32(s: Seq<char>) -> Option<u32> {
    let t = if s.len() > 0 && s[0] == '+' {
        s.skip(1)
    } else {
        s
    };
    if t.len() == 0 || !spec_all_hex(t) || spec_hex_value(t) > u32::MAX {
        None
    } else {
        Some(spec_hex_value(t) as u32)
    }
}

/// The value of a digit string never shrinks as digits are appended.
proof fn lemma_hex_value_take_le(s: Seq<char>, i: int, j: int)
    requires
        0 <= i <= j <= s.len(),
    ensures
        spec_hex_value(s.take(i)) <= spec_hex_value(s.take(j)),
    decreases j - i,
{
    if i < j {
        lemma_hex_value_take_le(s, i, j - 1);
        assert(s.take(j).drop_last() =~= s.take(j - 1));
        assert(spec_hex_value(s.take(j - 1)) * 16 >= spec_hex_value(s.take(j - 1)));
    }
}

/// The value of a decimal digit character, or `None`.
fn hex_digit(c: char) -> (r: Option<u32>)
    ensures
        r == spec_hex_digit(c),
{
    let v = c as u32;
    if 48 <= v && v <= 57 {
        Some(v - 48)
    } else if 97 <= v && v <= 102 {
        Some(v - 87)
    } else if 65 <= v && v <= 70 {
        Some(v - 55)
    } else {
        None
    }
}

/// Parse a string as a base-16 `u32`, accepting an optional leading `+`
/// and digits of either case, and rejecting the empty string, other
/// characters, and values that do not fit.
pub fn parse_hex_u32(s: &str) -> (r: Option<u32>)
    ensures
        r == spec_parse_hex_u32(s@),
{
    let len = s.unicode_len();
    let plus: bool = len > 0 && s.get_char(0) as u32 == 43;
    proof {
        assert(plus ==> s@[0] as u32 == '+' as u32 && s@[0] == '+');
        assert(!plus && s@.len() > 0 ==> s@[0] != '+');
    }
    let start: usize = if plus {
        1
    } else {
        0
    };
    let ghost t: Seq<char> = if plus {
        s@.skip(1)
    } else {
        s@
    };
    if len == start {
        return None;
    }
    let mut acc: u32 = 0;
    let mut i: usize = start;
    while i < len
        invariant
            start <= i <= len,
            len == s@.len(),
            plus == (s@.len() > 0 && s@[0] == '+'),
            start == if plus { 1int } else { 0int },
            t == if plus { s@.skip(1) } else { s@ },
            t.len() == len - start,
            forall|j: int| 0 <= j < i - start ==> (#[trigger] spec_hex_digit(t[j])) is Some,
            acc == spec_hex_value(t.take(i - start)),
        decreases len - i,
    {
        proof {
            assert(t[i - start] == s@[i as int]);
        }
        let d = match hex_digit(s.get_char(i)) {
            Some(d) => d,
            None => {
                proof {
                    assert(spec_hex_digit(t[i - start]) is None);
                    assert(!spec_all_hex(t));
                }
                return None;
            },
        };
        proof {
            let tj = t.take(i + 1 - start);
            assert(tj.drop_last() =~= t.take(i - start));
            assert(tj.last() == t[i - start]);
            assert(spec_hex_value(tj) == acc * 16 + d);
        }
        if acc > 0x0FFF_FFFF {
            // the value of the digits seen so far already exceeds u32::MAX
            proof {
                assert(spec_hex_value(t.take(i + 1 - start)) > u32::MAX);
                lemma_hex_value_take_le(t, i + 1 - start, t.len() as int);
                assert(t.take(t.len() as int) =~= t);
                assert(spec_hex_value(t) > u32::MAX);
            }
            return None;
        }
        acc = acc * 16 + d;
        i = i + 1;
    }
    proof {
        assert(t.take(len - start) =~= t);
        assert(spec_all_hex(t));
    }
    Some(acc)
}

/// What converting a hex color string yields: exactly six characters
/// that parse as a base-16 integer.
pub open spec fn spec_from_hex_string(s: Seq<char>) -> Option<Color> {
    if s.len() != 6 {
        None
    } else {
        match spec_parse_hex_u32(s) {
            Some(v) => Some(spec_from_hex(v)),
            None => None,
        }
    }
}

impl Color {
    /// Convert a given hex color string, such as `FF0080`, to a color.
    pub fn from_hex_string(hex_string: &str) -> (r: Result<Color, String>)
        ensures
            match r {
                Ok(c) => spec_from_hex_string(hex_string@) == Some(c),
                Err(_) => spec_from_hex_string(hex_string@) is None,
            },
    {
        let len = hex_string.unicode_len();
        if len != 6 {
            let mut msg = String::from_str("Hex string is to short! Must be 6 but is ");
            msg.append(u64_to_string(len as u64).as_str());
            return Err(msg);
        }
        match parse_hex_u32(hex_string) {
            Some(v) => Ok(Color::from_hex(v)),
            None => Err(String::from_str("Invalid hex string format")),
        }
    }
}

/// The default palette that random colors get chosen from when no
/// palette file is configured or the configured one cannot be used:
/// red, yellow, green, cyan, blue and purple.
pub open spec fn spec_default_palette() -> Seq<Color> {
    seq![
        Color { r: 255, g: 0, b: 0 },
        Color { r: 255, g: 255, b: 0 },
        Color { r: 0, g: 255, b: 0 },
        Color { r: 0, g: 255, b: 255 },
        Color { r: 0, g: 0, b: 255 },
        Color { r: 255, g: 0, b: 255 },
    ]
}

/// Build the default palette.
pub fn default_palette() -> (p: Vec<Color>)
    ensures
        p@ == spec_default_palette(),
{
    let mut p: Vec<Color> = Vec::new();
    p.push(Color { r: 255, g: 0, b: 0 });
    p.push(Color { r: 255, g: 255, b: 0 });
    p.push(Color { r: 0, g: 255, b: 0 });
    p.push(Color { r: 0, g: 255, b: 255 });
    p.push(Color { r: 0, g: 0, b: 255 });
    p.push(Color { r: 255, g: 0, b: 255 });
    proof {
        assert(p@ =~= spec_default_palette());
    }
    p
}

/// Get a random color from a given color palette; an empty palette
/// falls back to white.
pub fn get_random_color(colors: &Vec<Color>) -> (c: Color)
    ensures
        colors@.len() == 0 ==> c == spec_white(),
        colors@.len() > 0 ==> colors@.contains(c),
{
    if colors.len() == 0 {
        Color { r: 255, g: 255, b: 255 }
    } else {
        let i = random_below(colors.len());
        colors[i]
    }
}

/// Get a random color from the given palette; an empty palette
/// degrades to a draw from the built-in default palette.
pub fn get_random_color_from_palette(palette: &Vec<Color>) -> (c: Color)
    ensures
        palette@.len() > 0 ==> palette@.contains(c),
        palette@.len() == 0 ==> spec_default_palette().contains(c),
{
    if palette.len() == 0 {
        let def = default_palette();
        get_random_color(&def)
    } else {
        get_random_color(palette)
    }
}

/// The colors of the palette entries that convert: entries that are no
/// valid hex color strings are skipped.
pub open spec fn spec_palette_colors(entries: Seq<Seq<char>>) -> Seq<Color> {
    entries.filter_map(|e: Seq<char>| spec_from_hex_string(e))
}

/// Read a parsed color palette file into the list of its colors.
/// Entries that do not convert are skipped; a palette from which no
/// color could be read is an error.
pub fn read_color_palette(pal: &Palette) -> (r: Result<Vec<Color>, ColorError>)
    ensures
        match r {
            Ok(v) => {
                &&& v@ == spec_palette_colors(pal.colors.deep_view())
                &&& v@.len() > 0
            },
            Err(e) => {
                &&& spec_palette_colors(pal.colors.deep_view()).len() == 0
                &&& e matches ColorError::Other(m) && m@ == "No colors in file"@
            },
        },
{
    let ghost entries: Seq<Seq<char>> = pal.colors.deep_view();
    let ghost f = |e: Seq<char>| spec_from_hex_string(e);
    let mut palette: Vec<Color> = Vec::new();
    let mut i: usize = 0;
    while i < pal.colors.len()
        invariant
            0 <= i <= pal.colors.len(),
            entries == pal.colors.deep_view(),
            entries.len() == pal.colors.len(),
            f == (|e: Seq<char>| spec_from_hex_string(e)),
            palette@ == entries.take(i as int).filter_map(f),
        decreases pal.colors.len() - i,
    {
        proof {
            assert(entries[i as int] == pal.colors[i as int]@);
            assert(entries.take(i + 1).drop_last() =~= entries.take(i as int));
            assert(entries.take(i + 1).last() == entries[i as int]);
        }
        match Color::from_hex_string(pal.colors[i].as_str()) {
            Ok(c) => {
                palette.push(c);
                proof {
                    assert(palette@ =~= entries.take(i + 1).filter_map(f));
                }
            },
            Err(_) => {
                // a skipped entry leaves the converted colors unchanged
            },
        }
        i = i + 1;
    }
    proof {
        assert(entries.take(pal.colors.len() as int) =~= entries);
    }
    if palette.len() == 0 {
        Err(ColorError::Other(String::from_str("No colors in file")))
    } else {
        Ok(palette)
    }
}

/// Initialize the process-wide color palette from the parsed palette
/// file, if one was configured and could be read; otherwise, and when
/// no color could be taken from it, the default palette is used.
pub fn init_color_palette(parsed: Option<&Palette>) -> (p: Vec<Color>)
    ensures
        p@.len() > 0,
        match parsed {
            None => p@ == spec_default_palette(),
            Some(pal) => {
                let cs = spec_palette_colors(pal.colors.deep_view());
                if cs.len() > 0 {
                    p@ == cs
                } else {
                    p@ == spec_default_palette()
                }
            },
        },
{
    match parsed {
        None => default_palette(),
        Some(pal) => match read_color_palette(pal) {
            Ok(v) => v,
            Err(_) => default_palette(),
        },
    }
}

/// The override color that the configuration calls for: the configured
/// hex color, unless none is configured, it cannot be parsed, or it is
/// the white no-override sentinel.
pub open spec fn spec_override_color(oc: Option<Seq<char>>) -> Option<Color> {
    match oc {
        None => None,
        Some(s) => match spec_parse_hex_u32(s) {
            None => None,
            Some(v) => if v != 0xFFFFFF {
                Some(spec_from_hex(v))
            } else {
                None
            },
        },
    }
}

/// The colors the base-or-blink resolution may yield: with a random
/// draw requested, some color of the palette (or of the default
/// palette when the palette is empty); otherwise exactly the
/// configured override color, `None` meaning the animation's own
/// colors.
pub open spec fn spec_is_base_or_blink_color(
    c: Option<Color>,
    use_rand_color: bool,
    oc: Option<Seq<char>>,
    palette: Seq<Color>,
) -> bool {
    if use_rand_color {
        match c {
            Some(cc) => {
                &&& palette.len() > 0 ==> palette.contains(cc)
                &&& palette.len() == 0 ==> spec_default_palette().contains(cc)
            },
            None => false,
        }
    } else {
        c == spec_override_color(oc)
    }
}

/// Get the right color for the base and blink animations: a random
/// color from the palette when asked for one, else the configured
/// override color, else `None`, which means the animation's own colors.
pub fn get_base_or_blink_color(
    use_rand_color: bool,
    default_color: &Option<String>,
    palette: &Vec<Color>,
) -> (c: Option<Color>)
    ensures
        spec_is_base_or_blink_color(c, use_rand_color, default_color.deep_view(), palette@),
{
    // Convert the configured color; parse failures and the white
    // sentinel mean that no override is configured.
    let color: Option<Color> = match default_color {
        None => None,
        Some(s) => match parse_hex_u32(s.as_str()) {
            None => None,
            Some(v) => {
                if v != 0xFFFFFF {
                    Some(Color::from_hex(v))
                } else {
                    None
                }
            },
        },
    };
    // A random color, when asked for, wins over whatever was configured.
    if use_rand_color {
        Some(get_random_color_from_palette(palette))
    } else {
        color
    }
}

} // verus!
