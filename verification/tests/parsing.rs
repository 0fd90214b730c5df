use midinote::{Note, NoteError, NoteName};

const ALL_NAMES: [NoteName; 12] = [
    NoteName::C,
    NoteName::CSharp,
    NoteName::D,
    NoteName::DSharp,
    NoteName::E,
    NoteName::F,
    NoteName::FSharp,
    NoteName::G,
    NoteName::GSharp,
    NoteName::A,
    NoteName::ASharp,
    NoteName::B,
];

#[test]
fn format_examples() {
    assert_eq!(Note { name: NoteName::CSharp, octave: 4 }.to_string(), "C#4");
    assert_eq!(Note { name: NoteName::C, octave: 0 }.to_string(), "C0");
    assert_eq!(Note { name: NoteName::ASharp, octave: 10 }.to_string(), "A#10");
    assert_eq!(Note { name: NoteName::G, octave: 255 }.to_string(), "G255");
}

#[test]
fn format_negative_octave() {
    assert_eq!(Note::from_midi(0).to_string(), "C-1");
    assert_eq!(Note { name: NoteName::B, octave: -1 }.to_string(), "B-1");
}

#[test]
fn parse_examples() {
    assert_eq!(
        Note::from_string("C#4"),
        Ok(Note { name: NoteName::CSharp, octave: 4 })
    );
    assert_eq!(Note::from_string("C0"), Ok(Note { name: NoteName::C, octave: 0 }));
    assert_eq!(Note::from_string("B7"), Ok(Note { name: NoteName::B, octave: 7 }));
    assert_eq!(
        Note::from_string("A#10"),
        Ok(Note { name: NoteName::ASharp, octave: 10 })
    );
}

#[test]
fn parse_format_round_trip() {
    for name in ALL_NAMES {
        for octave in 0i32..=255 {
            let note = Note { name, octave };
            assert_eq!(Note::from_string(&note.to_string()), Ok(note));
        }
    }
}

#[test]
fn parse_empty_input() {
    assert_eq!(Note::from_string(""), Err(NoteError::EmptyInput));
}

#[test]
fn parse_missing_octave() {
    assert_eq!(Note::from_string("C"), Err(NoteError::MissingOctave));
    assert_eq!(Note::from_string("C#"), Err(NoteError::MissingOctave));
    assert_eq!(Note::from_string("Db"), Err(NoteError::MissingOctave));
    assert_eq!(Note::from_string("x"), Err(NoteError::MissingOctave));
}

#[test]
fn parse_invalid_note_name() {
    assert_eq!(
        Note::from_string("H4"),
        Err(NoteError::InvalidNoteName("H".to_string()))
    );
    // A 'b' suffix is treated as a two-character segment cue, but the
    // lookup table has no flat spellings, so flats are always rejected.
    assert_eq!(
        Note::from_string("Db4"),
        Err(NoteError::InvalidNoteName("Db".to_string()))
    );
    assert_eq!(
        Note::from_string("c4"),
        Err(NoteError::InvalidNoteName("c".to_string()))
    );
    assert_eq!(
        Note::from_string("#4"),
        Err(NoteError::InvalidNoteName("#".to_string()))
    );
}

#[test]
fn parse_invalid_octave() {
    assert_eq!(
        Note::from_string("C4x"),
        Err(NoteError::InvalidOctave("4x".to_string()))
    );
    assert_eq!(
        Note::from_string("C-1"),
        Err(NoteError::InvalidOctave("-1".to_string()))
    );
    assert_eq!(
        Note::from_string("C##"),
        Err(NoteError::InvalidOctave("#".to_string()))
    );
    // The octave is read as an 8-bit value, so 256 is out of range.
    assert_eq!(
        Note::from_string("C256"),
        Err(NoteError::InvalidOctave("256".to_string()))
    );
    assert_eq!(Note::from_string("C255"), Ok(Note { name: NoteName::C, octave: 255 }));
    // A bad octave is reported before a bad note name is.
    assert_eq!(
        Note::from_string("Hx"),
        Err(NoteError::InvalidOctave("x".to_string()))
    );
}

#[test]
fn parse_octave_with_plus_sign() {
    // An 8-bit decimal read accepts one leading '+'.
    assert_eq!(Note::from_string("C+4"), Ok(Note { name: NoteName::C, octave: 4 }));
    assert_eq!(Note::from_string("C+"), Err(NoteError::InvalidOctave("+".to_string())));
    assert_eq!(
        Note::from_string("C++4"),
        Err(NoteError::InvalidOctave("++4".to_string()))
    );
}

#[test]
fn parse_octave_leading_zeros() {
    assert_eq!(Note::from_string("C04"), Ok(Note { name: NoteName::C, octave: 4 }));
    assert_eq!(
        Note::from_string("C0000000000000000005"),
        Ok(Note { name: NoteName::C, octave: 5 })
    );
}

#[test]
fn note_to_midi_scenario() {
    let note = Note::from_string("C#4").unwrap();
    assert_eq!(note.to_string(), "C#4");
    assert_eq!(note.to_midi(), 61);
}

#[test]
fn midi_to_note_scenario() {
    let note = Note::from_midi(61);
    assert_eq!(note.to_string(), "C#4");
}
