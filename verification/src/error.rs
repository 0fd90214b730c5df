//! Error values returned by the conversion functions.

use vstd::prelude::*;

verus! {

/// Everything that can go wrong when converting indices or parsing a note
/// name. The `String` payloads carry the offending piece of the input.
#[derive(Debug, Clone, PartialEq, Eq)]
pub enum NoteError {
    /// A chromatic index outside 0..=11 was given.
    InvalidIndex,
    /// The string to parse was empty.
    EmptyInput,
    /// Nothing followed the note-name segment.
    MissingOctave,
    /// The text after the note-name segment was not a valid octave number.
    InvalidOctave(String),
    /// The note-name segment was not one of the 12 canonical names.
    InvalidNoteName(String),
}

} // verus!
