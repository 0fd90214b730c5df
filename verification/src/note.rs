//! Notes as (pitch class, octave) pairs and their MIDI numbering.

use vstd::prelude::*;

use crate::pitch::{index_spec, lemma_index_round_trip, lemma_name_round_trip, name_of_index, NoteName};

verus! {

/// A pitch class together with an octave number. Valid MIDI note numbers
/// 0..=127 correspond to octaves -1..=9 under the convention
/// `midi = index + (octave + 1) * 12`.
#[derive(Debug, Clone, Copy, PartialEq, Eq, Structural)]
pub struct Note {
    pub name: NoteName,
    pub octave: i32,
}

/// The MIDI note number of a note, as unbounded arithmetic:
/// `index + (octave + 1) * 12`.
pub open spec fn midi_spec(note: Note) -> int {
    index_spec(note.name) + (note.octave + 1) * 12
}

/// The note a MIDI number denotes: pitch class from the remainder modulo
/// 12, octave from the quotient less one. Meaningful for 0..=127.
pub open spec fn note_of_midi(midi: int) -> Note
    recommends
        0 <= midi <= 127,
{
    Note { name: name_of_index(midi % 12), octave: (midi / 12 - 1) as i32 }
}

impl Note {
    /// The MIDI note number, `index + (octave + 1) * 12`. No MIDI-range
    /// validation happens here: any note whose number fits the return type
    /// is accepted, and callers wanting the 0..=127 range check it
    /// themselves.
    pub fn to_midi(&self) -> (midi: u8)
        requires
            0 <= midi_spec(*self) <= 255,
        ensures
            midi as int == midi_spec(*self),
    {
        let index = self.name.to_chromatic_index();
        let value: i32 = index as i32 + (self.octave + 1) * 12;
        value as u8
    }

    /// The note named by a MIDI number. Total over the whole 8-bit range;
    /// rejecting numbers above 127 is the caller's business.
    pub fn from_midi(midi: u8) -> (note: Note)
        ensures
            note == note_of_midi(midi as int),
            note.octave == midi as int / 12 - 1,
    {
        let index = midi % 12;
        let name = match NoteName::from_chromatic_index(index) {
            Ok(name) => name,
            Err(_) => vstd::pervasive::unreached(),
        };
        let octave: i32 = (midi / 12) as i32 - 1;
        Note { name, octave }
    }
}

/// Round trip through the note representation: every MIDI number in
/// 0..=127 is the MIDI number of the note it denotes.
pub proof fn lemma_midi_round_trip(midi: int)
    requires
        0 <= midi <= 127,
    ensures
        midi_spec(note_of_midi(midi)) == midi,
{
    lemma_index_round_trip(midi % 12);
}

/// Round trip through the MIDI numbering: every note whose MIDI number is
/// in 0..=127 is denoted by that number.
pub proof fn lemma_note_round_trip(note: Note)
    requires
        0 <= midi_spec(note) <= 127,
    ensures
        note_of_midi(midi_spec(note)) == note,
{
    lemma_name_round_trip(note.name);
    let midi = midi_spec(note);
    let index = index_spec(note.name);
    assert(midi == (note.octave + 1) * 12 + index);
    vstd::arithmetic::div_mod::lemma_fundamental_div_mod_converse(
        midi,
        12,
        note.octave + 1,
        index,
    );
}

} // verus!
