//! The alphabet: the 26 lowercase Latin letters, each with a position 0..25.

use vstd::prelude::*;

verus! {

/// Number of letters the drill works with.
pub const ALPHABET_LEN: usize = 26;

/// True of the lowercase Latin letters `a` to `z`.
pub open spec fn tracked_letter(c: char) -> bool {
    'a' <= c && c <= 'z'
}

/// Position of a letter in alphabetical order (`a` is 0).
pub open spec fn index_of(c: char) -> int {
    c as int - 'a' as int
}

/// The letter at a position in alphabetical order.
pub open spec fn letter_spec(i: int) -> char {
    (i + 'a' as int) as char
}

/// Whether `c` is one of the 26 letters of the drill.
pub fn is_letter(c: char) -> (r: bool)
    ensures
        r == tracked_letter(c),
{
    'a' <= c && c <= 'z'
}

/// Position of `c` in the alphabet.
pub fn letter_index(c: char) -> (r: usize)
    requires
        tracked_letter(c),
    ensures
        r as int == index_of(c),
        r < ALPHABET_LEN,
{
    (c as u32 - 'a' as u32) as usize
}

/// The letter at position `i` of the alphabet.
pub fn letter_at(i: usize) -> (r: char)
    requires
        i < ALPHABET_LEN,
    ensures
        r == letter_spec(i as int),
        tracked_letter(r),
        index_of(r) == i,
{
    ((i as u8) + 97u8) as char
}

} // verus!
