//! A cross-modal alphabet drill: every letter carries a fixed colour, a pitch
//! and loudness derived from that colour, and a position on a circle around the
//! listener; a mastery table steers practice toward the least-seen letters.
//!
//! All quantities are exact: colour components are rational numbers and angles
//! are fractions of a full turn, so the laws stated in each module are proved rather than
//! approximated. Converting them to floating point is left to the caller.

pub mod color;
pub mod letter;
pub mod mastery;
pub mod ratio;
pub mod session;
pub mod stimulus;

pub use letter::{is_letter, letter_at, letter_index, ALPHABET_LEN};
pub use color::{color_of, hex_of, hsb_of_hex, hsb_of_rgb, parse_hex, Hsb, Rgb};
pub use ratio::Ratio;
pub use stimulus::{
    azimuth_of, brightness_of, octaves_of, saturation_of, stimulus_of, volume_of, Stimulus,
    OCTAVE_SPAN,
};
pub use mastery::MasteryTable;
pub use session::Session;
