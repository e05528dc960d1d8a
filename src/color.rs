//! The colour of each letter, its `#RRGGBB` notation, and the exact
//! conversion from red/green/blue to hue, saturation and brightness.

use vstd::prelude::*;
use crate::ratio::Ratio;

verus! {

/// A colour as three 8-bit channels.
#[derive(Clone, Copy, Debug, PartialEq, Eq, Structural)]
pub struct Rgb {
    pub red: u8,
    pub green: u8,
    pub blue: u8,
}

/// Hue, saturation and brightness, each as an exact fraction.
/// The hue is a fraction of the full colour circle (of 360 degrees).
#[derive(Clone, Copy, Debug, PartialEq, Eq, Structural)]
pub struct Hsb {
    pub hue: Ratio,
    pub saturation: Ratio,
    pub brightness: Ratio,
}

/// The colour shown for symbols outside the alphabet.
pub open spec fn white() -> Rgb {
    Rgb { red: 255, green: 255, blue: 255 }
}

pub open spec fn rgb(r: u8, g: u8, b: u8) -> Rgb {
    Rgb { red: r, green: g, blue: b }
}

/// The fixed colour of every letter; any other symbol is white.
pub open spec fn palette(c: char) -> Rgb {
    match c {
        'a' => rgb(0xFF, 0xA3, 0xE2),
        'b' => rgb(0x66, 0x99, 0xFF),
        'c' => rgb(0x00, 0xEB, 0xEB),
        'd' => rgb(0xFF, 0x66, 0x00),
        'e' => rgb(0xA9, 0xE5, 0xA9),
        'f' => rgb(0xFF, 0x24, 0xD3),
        'g' => rgb(0x33, 0xFF, 0x33),
        'h' => rgb(0xDD, 0x27, 0x82),
        'i' => rgb(0xBA, 0xA3, 0xFF),
        'j' => rgb(0x00, 0xCC, 0x66),
        'k' => rgb(0xCC, 0xB3, 0x00),
        'l' => rgb(0xFF, 0x6B, 0x6B),
        'm' => rgb(0x90, 0x05, 0xB3),
        'n' => rgb(0xA6, 0xF2, 0xF2),
        'o' => rgb(0xFF, 0xCB, 0x94),
        'p' => rgb(0xC9, 0x05, 0xFF),
        'q' => rgb(0x2B, 0xAB, 0x8B),
        'r' => rgb(0xFF, 0x00, 0x00),
        's' => rgb(0xDE, 0x89, 0x5E),
        't' => rgb(0x00, 0xFF, 0xCC),
        'u' => rgb(0x3F, 0x4D, 0xA6),
        'v' => rgb(0xD5, 0x57, 0xFF),
        'w' => rgb(0xFF, 0xCC, 0x33),
        'x' => rgb(0xB2, 0xDF, 0x2A),
        'y' => rgb(0xFF, 0xFF, 0x00),
        'z' => rgb(0x78, 0x98, 0xD9),
        _ => white(),
    }
}

/// Looks up the colour of a letter; symbols outside `a`..=`z` get white.
pub fn color_of(letter: char) -> (r: Rgb)
    ensures
        r == palette(letter),
{
    let (red, green, blue): (u8, u8, u8) = match letter {
        'a' => (0xFF, 0xA3, 0xE2),
        'b' => (0x66, 0x99, 0xFF),
        'c' => (0x00, 0xEB, 0xEB),
        'd' => (0xFF, 0x66, 0x00),
        'e' => (0xA9, 0xE5, 0xA9),
        'f' => (0xFF, 0x24, 0xD3),
        'g' => (0x33, 0xFF, 0x33),
        'h' => (0xDD, 0x27, 0x82),
        'i' => (0xBA, 0xA3, 0xFF),
        'j' => (0x00, 0xCC, 0x66),
        'k' => (0xCC, 0xB3, 0x00),
        'l' => (0xFF, 0x6B, 0x6B),
        'm' => (0x90, 0x05, 0xB3),
        'n' => (0xA6, 0xF2, 0xF2),
        'o' => (0xFF, 0xCB, 0x94),
        'p' => (0xC9, 0x05, 0xFF),
        'q' => (0x2B, 0xAB, 0x8B),
        'r' => (0xFF, 0x00, 0x00),
        's' => (0xDE, 0x89, 0x5E),
        't' => (0x00, 0xFF, 0xCC),
        'u' => (0x3F, 0x4D, 0xA6),
        'v' => (0xD5, 0x57, 0xFF),
        'w' => (0xFF, 0xCC, 0x33),
        'x' => (0xB2, 0xDF, 0x2A),
        'y' => (0xFF, 0xFF, 0x00),
        'z' => (0x78, 0x98, 0xD9),
        _ => (0xFF, 0xFF, 0xFF),
    };
    Rgb { red, green, blue }
}

// ---------------------------------------------------------------------------
// Hexadecimal notation

/// Whether a byte is an ASCII hexadecimal digit (either case).
pub open spec fn is_hex_digit(b: u8) -> bool {
    (48 <= b && b <= 57) || (65 <= b && b <= 70) || (97 <= b && b <= 102)
}

/// The value of a hexadecimal digit.
pub open spec fn hex_value(b: u8) -> int {
    if 48 <= b && b <= 57 {
        b - 48
    } else if 65 <= b && b <= 70 {
        b - 55
    } else {
        b - 87
    }
}

/// The uppercase digit for a value below 16.
pub open spec fn hex_digit_spec(v: int) -> u8 {
    if v < 10 {
        (v + 48) as u8
    } else {
        (v + 55) as u8
    }
}

/// `#RRGGBB` with uppercase digits.
pub open spec fn hex_spec(c: Rgb) -> Seq<u8> {
    seq![
        35u8,
        hex_digit_spec(c.red as int / 16),
        hex_digit_spec(c.red as int % 16),
        hex_digit_spec(c.green as int / 16),
        hex_digit_spec(c.green as int % 16),
        hex_digit_spec(c.blue as int / 16),
        hex_digit_spec(c.blue as int % 16),
    ]
}

/// A `#` followed by exactly six hexadecimal digits.
pub open spec fn well_formed_hex(s: Seq<u8>) -> bool {
    &&& s.len() == 7
    &&& s[0] == 35u8
    &&& forall|i: int| 1 <= i < 7 ==> is_hex_digit(#[trigger] s[i])
}

/// `s` without its leading `#` characters, however many there are.
pub open spec fn strip_hashes(s: Seq<u8>) -> Seq<u8>
    decreases s.len(),
{
    if s.len() > 0 && s[0] == 35u8 {
        strip_hashes(s.drop_first())
    } else {
        s
    }
}

/// The value of a two-character channel field. Two hex digits read as usual;
/// a `+` sign before one digit is accepted as well; anything else reads 255.
pub open spec fn field_value(hi: u8, lo: u8) -> u8 {
    if is_hex_digit(hi) && is_hex_digit(lo) {
        (16 * hex_value(hi) + hex_value(lo)) as u8
    } else if hi == 43u8 && is_hex_digit(lo) {
        hex_value(lo) as u8
    } else {
        255u8
    }
}

/// The colour written in `s`: after the leading `#`s come six characters,
/// two per channel; any other length denotes no colour.
pub open spec fn parse_spec(s: Seq<u8>) -> Option<Rgb> {
    let t = strip_hashes(s);
    if t.len() == 6 {
        Some(Rgb {
            red: field_value(t[0], t[1]),
            green: field_value(t[2], t[3]),
            blue: field_value(t[4], t[5]),
        })
    } else {
        None
    }
}

fn hex_digit(v: u8) -> (r: u8)
    requires
        v < 16,
    ensures
        r == hex_digit_spec(v as int),
        is_hex_digit(r),
        hex_value(r) == v,
{
    if v < 10 {
        v + 48
    } else {
        v + 55
    }
}

/// Writes a colour as `#RRGGBB` (ASCII, uppercase digits).
pub fn hex_of(c: Rgb) -> (r: Vec<u8>)
    ensures
        r@ == hex_spec(c),
        well_formed_hex(r@),
{
    let r = vec![
        35u8,
        hex_digit(c.red / 16),
        hex_digit(c.red % 16),
        hex_digit(c.green / 16),
        hex_digit(c.green % 16),
        hex_digit(c.blue / 16),
        hex_digit(c.blue % 16),
    ];
    assert(r@ =~= hex_spec(c));
    r
}

fn digit_value(b: u8) -> (r: Option<u8>)
    ensures
        r == (if is_hex_digit(b) { Some(hex_value(b) as u8) } else { None::<u8> }),
{
    if 48 <= b && b <= 57 {
        Some(b - 48)
    } else if 65 <= b && b <= 70 {
        Some(b - 55)
    } else if 97 <= b && b <= 102 {
        Some(b - 87)
    } else {
        None
    }
}

fn field(hi: u8, lo: u8) -> (r: u8)
    ensures
        r == field_value(hi, lo),
{
    match (digit_value(hi), digit_value(lo)) {
        (Some(h), Some(l)) => 16 * h + l,
        (None, Some(l)) => {
            if hi == 43u8 {
                l
            } else {
                255
            }
        },
        _ => 255,
    }
}

/// Reads a colour in `#RRGGBB` notation. Leading `#`s are skipped; `None`
/// unless exactly six characters follow. A field that is not a number reads 255.
pub fn parse_hex(s: &[u8]) -> (r: Option<Rgb>)
    ensures
        r == parse_spec(s@),
{
    let mut i: usize = 0;
    assert(s@.subrange(0, s@.len() as int) =~= s@);
    while i < s.len() && s[i] == 35u8
        invariant
            i <= s@.len(),
            strip_hashes(s@) == strip_hashes(s@.subrange(i as int, s@.len() as int)),
        decreases s@.len() - i,
    {
        let ghost rest = s@.subrange(i as int, s@.len() as int);
        assert(rest.drop_first() =~= s@.subrange(i + 1, s@.len() as int));
        i = i + 1;
    }
    proof {
        let rest = s@.subrange(i as int, s@.len() as int);
        assert(strip_hashes(rest) == rest);
    }
    if s.len() - i != 6 {
        return None;
    }
    Some(Rgb {
        red: field(s[i], s[i + 1]),
        green: field(s[i + 2], s[i + 3]),
        blue: field(s[i + 4], s[i + 5]),
    })
}

// ---------------------------------------------------------------------------
// Hue, saturation, brightness

pub open spec fn max3(a: int, b: int, c: int) -> int {
    if a >= b && a >= c {
        a
    } else if b >= c {
        b
    } else {
        c
    }
}

pub open spec fn min3(a: int, b: int, c: int) -> int {
    if a <= b && a <= c {
        a
    } else if b <= c {
        b
    } else {
        c
    }
}

/// The hue in units of one sixth of `max - min`: the usual six-sector
/// formula, with red taking precedence over green, and green over blue, when
/// several channels share the maximum. The result lies in `[0, 6 * delta)`.
pub open spec fn hue_sixths(c: Rgb) -> int {
    let (r, g, b) = (c.red as int, c.green as int, c.blue as int);
    let max = max3(r, g, b);
    let delta = max - min3(r, g, b);
    if delta == 0 {
        0
    } else if max == r {
        if g >= b {
            g - b
        } else {
            6 * delta + g - b
        }
    } else if max == g {
        2 * delta + b - r
    } else {
        4 * delta + r - g
    }
}

/// The exact hue, saturation and brightness of a colour. The hue is
/// `hue_sixths / (6 * delta)` of a full turn (0 for a grey); the saturation
/// is `delta / max` (0 for black); the brightness is `max / 255`.
pub open spec fn hsb_spec(c: Rgb) -> Hsb {
    let (r, g, b) = (c.red as int, c.green as int, c.blue as int);
    let max = max3(r, g, b);
    let delta = max - min3(r, g, b);
    Hsb {
        hue: if delta == 0 {
            Ratio { num: 0, den: 1 }
        } else {
            Ratio { num: hue_sixths(c) as u32, den: (6 * delta) as u32 }
        },
        saturation: if max == 0 {
            Ratio { num: 0, den: 1 }
        } else {
            Ratio { num: delta as u32, den: max as u32 }
        },
        brightness: Ratio { num: max as u32, den: 255 },
    }
}

/// What a malformed colour text converts to: hue 0, saturation 0, brightness 1.
pub open spec fn fallback_hsb() -> Hsb {
    Hsb {
        hue: Ratio { num: 0, den: 1 },
        saturation: Ratio { num: 0, den: 1 },
        brightness: Ratio { num: 1, den: 1 },
    }
}

/// Every component lies in its range: hue in [0, 1), the others in [0, 1].
pub open spec fn hsb_in_range(h: Hsb) -> bool {
    &&& h.hue.in_unit_open()
    &&& h.saturation.in_unit_closed()
    &&& h.brightness.in_unit_closed()
}

/// The conversion of a colour text: the fallback where it is malformed.
pub open spec fn hsb_of_text(s: Seq<u8>) -> Hsb {
    match parse_spec(s) {
        Some(c) => hsb_spec(c),
        None => fallback_hsb(),
    }
}

fn max3_u8(a: u8, b: u8, c: u8) -> (r: u8)
    ensures
        r == max3(a as int, b as int, c as int),
{
    if a >= b && a >= c {
        a
    } else if b >= c {
        b
    } else {
        c
    }
}

fn min3_u8(a: u8, b: u8, c: u8) -> (r: u8)
    ensures
        r == min3(a as int, b as int, c as int),
{
    if a <= b && a <= c {
        a
    } else if b <= c {
        b
    } else {
        c
    }
}

/// Converts a colour to hue, saturation and brightness, exactly.
pub fn hsb_of_rgb(c: Rgb) -> (h: Hsb)
    ensures
        h == hsb_spec(c),
        hsb_in_range(h),
{
    let (r, g, b) = (c.red as u32, c.green as u32, c.blue as u32);
    let max = max3_u8(c.red, c.green, c.blue) as u32;
    let min = min3_u8(c.red, c.green, c.blue) as u32;
    let delta = max - min;
    let hue = if delta == 0 {
        Ratio { num: 0, den: 1 }
    } else {
        let sixths = if max == r {
            if g >= b {
                g - b
            } else {
                6 * delta + g - b
            }
        } else if max == g {
            2 * delta + b - r
        } else {
            4 * delta + r - g
        };
        Ratio { num: sixths, den: 6 * delta }
    };
    let saturation = if max == 0 {
        Ratio { num: 0, den: 1 }
    } else {
        Ratio { num: delta, den: max }
    };
    Hsb { hue, saturation, brightness: Ratio { num: max, den: 255 } }
}

/// Converts a colour written as `#RRGGBB` to hue, saturation and brightness.
/// A text of the wrong length converts to hue 0, saturation 0, brightness 1.
pub fn hsb_of_hex(s: &[u8]) -> (h: Hsb)
    ensures
        h == hsb_of_text(s@),
        hsb_in_range(h),
{
    match parse_hex(s) {
        Some(c) => hsb_of_rgb(c),
        None => Hsb {
            hue: Ratio { num: 0, den: 1 },
            saturation: Ratio { num: 0, den: 1 },
            brightness: Ratio { num: 1, den: 1 },
        },
    }
}

// ---------------------------------------------------------------------------
// Laws

/// Writing a colour in hex notation and reading it back gives the same colour,
/// and so the same hue, saturation and brightness.
pub proof fn lemma_hex_round_trip(c: Rgb)
    ensures
        parse_spec(hex_spec(c)) == Some(c),
        hsb_of_text(hex_spec(c)) == hsb_spec(c),
{
    let s = hex_spec(c);
    assert(strip_hashes(s.drop_first()) == s.drop_first());
    assert(strip_hashes(s) == s.drop_first());
}

/// Every letter's colour is written as `#` and six hex digits, and its hue,
/// saturation and brightness each lie in their range.
pub proof fn lemma_palette_well_formed(letter: char)
    ensures
        well_formed_hex(hex_spec(palette(letter))),
        hsb_in_range(hsb_spec(palette(letter))),
        hsb_of_text(hex_spec(palette(letter))) == hsb_spec(palette(letter)),
{
    lemma_hex_well_formed(palette(letter));
    lemma_hsb_in_range(palette(letter));
    lemma_hex_round_trip(palette(letter));
}

/// The hex notation of any colour is well formed.
pub proof fn lemma_hex_well_formed(c: Rgb)
    ensures
        well_formed_hex(hex_spec(c)),
{
}

/// The hue, saturation and brightness of any colour lie in their ranges.
pub proof fn lemma_hsb_in_range(c: Rgb)
    ensures
        hsb_in_range(hsb_spec(c)),
{
}

} // verus!
