use midinote::{Note, NoteError, NoteName};

const ALL_NAMES: [NoteName; 12] = [
    NoteName::C,
    NoteName::CSharp,
    NoteName::D,
    NoteName::DSharp,
    NoteName::E,
    NoteName::F,
    NoteName::FSharp,
    NoteName::G,
    NoteName::GSharp,
    NoteName::A,
    NoteName::ASharp,
    NoteName::B,
];

#[test]
fn midi_round_trip_over_full_range() {
    for midi in 0u8..=127 {
        let note = Note::from_midi(midi);
        assert_eq!(note.to_midi(), midi);
    }
}

#[test]
fn note_round_trip_over_midi_range() {
    for name in ALL_NAMES {
        for octave in -1i32..=9 {
            let index = name.to_chromatic_index() as i32;
            let midi = index + (octave + 1) * 12;
            if (0..=127).contains(&midi) {
                let note = Note { name, octave };
                assert_eq!(Note::from_midi(note.to_midi()), note);
            }
        }
    }
}

#[test]
fn index_round_trip() {
    for index in 0u8..=11 {
        let name = NoteName::from_chromatic_index(index).unwrap();
        assert_eq!(name.to_chromatic_index(), index);
    }
}

#[test]
fn index_boundaries() {
    assert_eq!(NoteName::from_chromatic_index(12), Err(NoteError::InvalidIndex));
    assert_eq!(NoteName::from_chromatic_index(255), Err(NoteError::InvalidIndex));
    assert_eq!(NoteName::from_chromatic_index(11), Ok(NoteName::B));
    assert_eq!(NoteName::from_chromatic_index(0), Ok(NoteName::C));
}

#[test]
fn midi_boundaries() {
    assert_eq!(Note::from_midi(0), Note { name: NoteName::C, octave: -1 });
    assert_eq!(Note::from_midi(127), Note { name: NoteName::G, octave: 9 });
}

#[test]
fn midi_values_by_formula() {
    assert_eq!(Note { name: NoteName::CSharp, octave: 4 }.to_midi(), 61);
    assert_eq!(Note { name: NoteName::A, octave: 4 }.to_midi(), 69);
    assert_eq!(Note { name: NoteName::C, octave: -1 }.to_midi(), 0);
    assert_eq!(Note { name: NoteName::G, octave: 9 }.to_midi(), 127);
    // No MIDI-range validation in to_midi: anything that fits 8 bits goes.
    assert_eq!(Note { name: NoteName::B, octave: 9 }.to_midi(), 131);
}

#[test]
fn from_midi_uses_remainder_and_quotient() {
    assert_eq!(Note::from_midi(61), Note { name: NoteName::CSharp, octave: 4 });
    assert_eq!(Note::from_midi(69), Note { name: NoteName::A, octave: 4 });
    assert_eq!(Note::from_midi(11), Note { name: NoteName::B, octave: -1 });
    assert_eq!(Note::from_midi(12), Note { name: NoteName::C, octave: 0 });
    // Total over the whole 8-bit range, not just 0..=127.
    assert_eq!(Note::from_midi(255), Note { name: NoteName::DSharp, octave: 20 });
}

#[test]
fn display_names_are_sharp_spelled() {
    let expected = ["C", "C#", "D", "D#", "E", "F", "F#", "G", "G#", "A", "A#", "B"];
    for (name, text) in ALL_NAMES.iter().zip(expected) {
        assert_eq!(name.to_display_name(), text);
    }
}

#[test]
fn display_name_round_trip() {
    for name in ALL_NAMES {
        assert_eq!(NoteName::from_display_name(name.to_display_name()), Ok(name));
    }
}

#[test]
fn display_name_rejects_non_canonical() {
    assert_eq!(
        NoteName::from_display_name("Db"),
        Err(NoteError::InvalidNoteName("Db".to_string()))
    );
    assert_eq!(
        NoteName::from_display_name("c"),
        Err(NoteError::InvalidNoteName("c".to_string()))
    );
    assert_eq!(
        NoteName::from_display_name(""),
        Err(NoteError::InvalidNoteName("".to_string()))
    );
    assert_eq!(
        NoteName::from_display_name("H"),
        Err(NoteError::InvalidNoteName("H".to_string()))
    );
}
