//! What a letter sounds like and where it is heard: pitch and loudness follow
//! from its colour, its direction from its place in the alphabet.
//!
//! The tone's frequency is `220 * 2^octaves` Hz, with `octaves` three times the
//! colour's brightness; its gain is the colour's saturation; its direction is
//! a fraction of a full turn around the listener.

use vstd::prelude::*;
use crate::color::{color_of, hex_of, hsb_of_rgb, hsb_spec, palette, hex_spec, Rgb};
use crate::letter::{index_of, letter_spec, tracked_letter, ALPHABET_LEN};
use crate::ratio::Ratio;

verus! {

/// Octaves spanned above the base pitch when the brightness is 1.
pub const OCTAVE_SPAN: u32 = 3;

/// Everything needed to show and sound one letter.
#[derive(Debug, PartialEq, Eq)]
pub struct Stimulus {
    pub letter: char,
    pub color: Rgb,
    /// The colour as `#RRGGBB`.
    pub hex: Vec<u8>,
    /// Octaves above the base pitch of 220 Hz.
    pub octaves: Ratio,
    /// Gain of the tone, in [0, 1].
    pub volume: Ratio,
    /// Direction of the sound, as a fraction of a full turn.
    pub azimuth: Ratio,
}

pub open spec fn brightness_spec(letter: char) -> Ratio {
    hsb_spec(palette(letter)).brightness
}

pub open spec fn saturation_spec(letter: char) -> Ratio {
    hsb_spec(palette(letter)).saturation
}

/// The pitch of a letter in octaves above the base: three times its brightness.
pub open spec fn octaves_spec(letter: char) -> Ratio {
    let b = brightness_spec(letter);
    Ratio { num: (OCTAVE_SPAN * b.num) as u32, den: b.den }
}

/// Letters of either case, which have a place in the alphabet.
pub open spec fn placed_letter(c: char) -> bool {
    ('a' <= c && c <= 'z') || ('A' <= c && c <= 'Z')
}

/// The lowercase form of an ASCII letter.
pub open spec fn lower(c: char) -> char {
    if 'A' <= c && c <= 'Z' {
        (c as int + 32) as char
    } else {
        c
    }
}

/// The direction of a letter: its place in the alphabet over 26, of a full turn.
pub open spec fn azimuth_spec(letter: char) -> Ratio {
    Ratio { num: index_of(lower(letter)) as u32, den: ALPHABET_LEN as u32 }
}

/// The brightness of a letter's colour.
pub fn brightness_of(letter: char) -> (r: Ratio)
    ensures
        r == brightness_spec(letter),
        r.in_unit_closed(),
{
    hsb_of_rgb(color_of(letter)).brightness
}

/// The saturation of a letter's colour.
pub fn saturation_of(letter: char) -> (r: Ratio)
    ensures
        r == saturation_spec(letter),
        r.in_unit_closed(),
{
    hsb_of_rgb(color_of(letter)).saturation
}

/// The gain of a letter's tone: the saturation of its colour.
pub fn volume_of(letter: char) -> (r: Ratio)
    ensures
        r == hsb_spec(palette(letter)).saturation,
        r.in_unit_closed(),
{
    saturation_of(letter)
}

/// The pitch of a letter's tone, in octaves above 220 Hz: three times the
/// brightness of its colour, so the frequency is `220 * 8^brightness` Hz.
pub fn octaves_of(letter: char) -> (r: Ratio)
    ensures
        r == octaves_spec(letter),
        r.valid(),
        r.num <= OCTAVE_SPAN * r.den,
{
    let b = brightness_of(letter);
    Ratio { num: OCTAVE_SPAN * b.num, den: b.den }
}

/// The direction of a letter's sound, as a fraction of a full turn: its place
/// in the alphabet over 26. Uppercase letters share the place of their
/// lowercase form.
pub fn azimuth_of(letter: char) -> (r: Ratio)
    requires
        placed_letter(letter),
    ensures
        r == azimuth_spec(letter),
        r.in_unit_open(),
{
    let c = if 'A' <= letter && letter <= 'Z' {
        ((letter as u32) + 32) as u8 as char
    } else {
        letter
    };
    Ratio { num: c as u32 - 'a' as u32, den: ALPHABET_LEN as u32 }
}

/// Everything that shows and sounds a letter.
pub fn stimulus_of(letter: char) -> (s: Stimulus)
    requires
        placed_letter(letter),
    ensures
        s.letter == letter,
        s.color == palette(letter),
        s.hex@ == hex_spec(palette(letter)),
        s.octaves == octaves_spec(letter),
        s.volume == saturation_spec(letter),
        s.azimuth == azimuth_spec(letter),
{
    let color = color_of(letter);
    Stimulus {
        letter,
        color,
        hex: hex_of(color),
        octaves: octaves_of(letter),
        volume: volume_of(letter),
        azimuth: azimuth_of(letter),
    }
}

// ---------------------------------------------------------------------------
// Laws

/// The pitch lies between 0 and 3 octaves above 220 Hz, that is between
/// 220 Hz and 1760 Hz.
pub proof fn lemma_pitch_range(letter: char)
    ensures
        octaves_spec(letter).valid(),
        (Ratio { num: 0, den: 1 }).le(octaves_spec(letter)),
        octaves_spec(letter).le((Ratio { num: OCTAVE_SPAN, den: 1 })),
{
    crate::color::lemma_hsb_in_range(palette(letter));
}

/// The pitch rises with the brightness: a brighter colour never sounds lower,
/// and a strictly brighter one sounds strictly higher.
pub proof fn lemma_pitch_monotone(a: char, b: char)
    ensures
        brightness_spec(a).le(brightness_spec(b)) ==> octaves_spec(a).le(octaves_spec(b)),
        brightness_spec(a).lt(brightness_spec(b)) ==> octaves_spec(a).lt(octaves_spec(b)),
{
    let (x, y) = (brightness_spec(a), brightness_spec(b));
    crate::color::lemma_hsb_in_range(palette(a));
    crate::color::lemma_hsb_in_range(palette(b));
    assert(x.le(y) ==> (3 * x.num) * y.den <= (3 * y.num) * x.den) by (nonlinear_arith);
    assert(x.lt(y) ==> (3 * x.num) * y.den < (3 * y.num) * x.den) by (nonlinear_arith);
}

/// Consecutive letters stand a 26th of a turn apart, and after `z` the circle
/// closes on `a`.
pub proof fn lemma_azimuth_spacing(i: int)
    requires
        0 <= i < ALPHABET_LEN - 1,
    ensures
        azimuth_spec(letter_spec(i + 1)).den == azimuth_spec(letter_spec(i)).den,
        azimuth_spec(letter_spec(i + 1)).num == azimuth_spec(letter_spec(i)).num + 1,
        azimuth_spec('a') == (Ratio { num: 0, den: 26 }),
        azimuth_spec('z') == (Ratio { num: 25, den: 26 }),
{
}

/// Distinct letters stand in distinct directions.
pub proof fn lemma_azimuth_injective(a: char, b: char)
    requires
        tracked_letter(a),
        tracked_letter(b),
        a != b,
    ensures
        !azimuth_spec(a).same(azimuth_spec(b)),
{
    assert(a as int != b as int);
    assert(lower(a) == a && lower(b) == b);
    let (x, y) = (azimuth_spec(a), azimuth_spec(b));
    assert(x.num != y.num && x.den == 26 && y.den == 26);
    assert(x.num * y.den != y.num * x.den) by (nonlinear_arith)
        requires
            x.num != y.num,
            x.den == 26,
            y.den == 26,
    ;
}

} // verus!
