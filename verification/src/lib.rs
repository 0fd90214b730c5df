//! Conversion between musical note names and MIDI note numbers.
//!
//! A `NoteName` is one of the 12 chromatic pitch classes, in bijection with
//! the indices 0..=11. A `Note` pairs a pitch class with an octave; it
//! converts to and from a MIDI note number (0..=127 under the convention
//! `midi = index + (octave + 1) * 12`) and to and from a textual name such
//! as `"C#4"`.

pub mod error;
pub mod note;
pub mod pitch;
pub mod text;

pub use error::NoteError;
pub use note::Note;
pub use pitch::NoteName;
