//! The 12 chromatic pitch classes and their bijection with 0..=11.

use vstd::prelude::*;

use crate::error::NoteError;

verus! {

/// One of the 12 chromatic semitones within an octave, independent of the
/// octave number. Sharps only; flat spellings are not representable.
#[derive(Debug, Clone, Copy, PartialEq, Eq, Structural)]
pub enum NoteName {
    C,
    CSharp,
    D,
    DSharp,
    E,
    F,
    FSharp,
    G,
    GSharp,
    A,
    ASharp,
    B,
}

/// The chromatic index of a pitch class: the fixed bijection onto 0..=11.
pub open spec fn index_spec(name: NoteName) -> int {
    match name {
        NoteName::C => 0,
        NoteName::CSharp => 1,
        NoteName::D => 2,
        NoteName::DSharp => 3,
        NoteName::E => 4,
        NoteName::F => 5,
        NoteName::FSharp => 6,
        NoteName::G => 7,
        NoteName::GSharp => 8,
        NoteName::A => 9,
        NoteName::ASharp => 10,
        NoteName::B => 11,
    }
}

/// The pitch class with the given chromatic index; meaningful for 0..=11.
pub open spec fn name_of_index(index: int) -> NoteName
    recommends
        0 <= index <= 11,
{
    if index == 0 {
        NoteName::C
    } else if index == 1 {
        NoteName::CSharp
    } else if index == 2 {
        NoteName::D
    } else if index == 3 {
        NoteName::DSharp
    } else if index == 4 {
        NoteName::E
    } else if index == 5 {
        NoteName::F
    } else if index == 6 {
        NoteName::FSharp
    } else if index == 7 {
        NoteName::G
    } else if index == 8 {
        NoteName::GSharp
    } else if index == 9 {
        NoteName::A
    } else if index == 10 {
        NoteName::ASharp
    } else {
        NoteName::B
    }
}

impl NoteName {
    /// The chromatic index of this pitch class, in 0..=11.
    pub fn to_chromatic_index(&self) -> (index: u8)
        ensures
            index as int == index_spec(*self),
            index <= 11,
    {
        match self {
            NoteName::C => 0,
            NoteName::CSharp => 1,
            NoteName::D => 2,
            NoteName::DSharp => 3,
            NoteName::E => 4,
            NoteName::F => 5,
            NoteName::FSharp => 6,
            NoteName::G => 7,
            NoteName::GSharp => 8,
            NoteName::A => 9,
            NoteName::ASharp => 10,
            NoteName::B => 11,
        }
    }

    /// The pitch class with the given chromatic index, or `InvalidIndex`
    /// for any index outside 0..=11.
    pub fn from_chromatic_index(index: u8) -> (result: Result<NoteName, NoteError>)
        ensures
            index <= 11 ==> result == Ok::<NoteName, NoteError>(name_of_index(index as int)),
            index > 11 ==> result == Err::<NoteName, NoteError>(NoteError::InvalidIndex),
    {
        match index {
            0 => Ok(NoteName::C),
            1 => Ok(NoteName::CSharp),
            2 => Ok(NoteName::D),
            3 => Ok(NoteName::DSharp),
            4 => Ok(NoteName::E),
            5 => Ok(NoteName::F),
            6 => Ok(NoteName::FSharp),
            7 => Ok(NoteName::G),
            8 => Ok(NoteName::GSharp),
            9 => Ok(NoteName::A),
            10 => Ok(NoteName::ASharp),
            11 => Ok(NoteName::B),
            _ => Err(NoteError::InvalidIndex),
        }
    }
}

/// The canonical display name of a pitch class: sharps only, never flats.
pub open spec fn display_spec(name: NoteName) -> Seq<char> {
    match name {
        NoteName::C => seq!['C'],
        NoteName::CSharp => seq!['C', '#'],
        NoteName::D => seq!['D'],
        NoteName::DSharp => seq!['D', '#'],
        NoteName::E => seq!['E'],
        NoteName::F => seq!['F'],
        NoteName::FSharp => seq!['F', '#'],
        NoteName::G => seq!['G'],
        NoteName::GSharp => seq!['G', '#'],
        NoteName::A => seq!['A'],
        NoteName::ASharp => seq!['A', '#'],
        NoteName::B => seq!['B'],
    }
}

/// The pitch class whose canonical display name is exactly `s`, or `None`.
/// Case-sensitive, sharp spellings only: flat spellings such as "Db" are
/// not in the table.
pub open spec fn name_lookup(s: Seq<char>) -> Option<NoteName> {
    if s == display_spec(NoteName::C) {
        Some(NoteName::C)
    } else if s == display_spec(NoteName::CSharp) {
        Some(NoteName::CSharp)
    } else if s == display_spec(NoteName::D) {
        Some(NoteName::D)
    } else if s == display_spec(NoteName::DSharp) {
        Some(NoteName::DSharp)
    } else if s == display_spec(NoteName::E) {
        Some(NoteName::E)
    } else if s == display_spec(NoteName::F) {
        Some(NoteName::F)
    } else if s == display_spec(NoteName::FSharp) {
        Some(NoteName::FSharp)
    } else if s == display_spec(NoteName::G) {
        Some(NoteName::G)
    } else if s == display_spec(NoteName::GSharp) {
        Some(NoteName::GSharp)
    } else if s == display_spec(NoteName::A) {
        Some(NoteName::A)
    } else if s == display_spec(NoteName::ASharp) {
        Some(NoteName::ASharp)
    } else if s == display_spec(NoteName::B) {
        Some(NoteName::B)
    } else {
        None
    }
}

impl NoteName {
    /// The canonical textual name of this pitch class, one of
    /// "C", "C#", "D", "D#", "E", "F", "F#", "G", "G#", "A", "A#", "B".
    pub fn to_display_name(&self) -> (s: &'static str)
        ensures
            s@ == display_spec(*self),
    {
        proof {
            reveal_strlit("C");
            reveal_strlit("C#");
            reveal_strlit("D");
            reveal_strlit("D#");
            reveal_strlit("E");
            reveal_strlit("F");
            reveal_strlit("F#");
            reveal_strlit("G");
            reveal_strlit("G#");
            reveal_strlit("A");
            reveal_strlit("A#");
            reveal_strlit("B");
        }
        let s = match self {
            NoteName::C => "C",
            NoteName::CSharp => "C#",
            NoteName::D => "D",
            NoteName::DSharp => "D#",
            NoteName::E => "E",
            NoteName::F => "F",
            NoteName::FSharp => "F#",
            NoteName::G => "G",
            NoteName::GSharp => "G#",
            NoteName::A => "A",
            NoteName::ASharp => "A#",
            NoteName::B => "B",
        };
        proof {
            assert(s@ =~= display_spec(*self));
        }
        s
    }

    /// The pitch class with the given display name: an exact,
    /// case-sensitive match against the 12 canonical sharp-spelled names.
    /// Anything else — flat spellings included — is `InvalidNoteName`,
    /// carrying the rejected text.
    pub fn from_display_name(s: &str) -> (result: Result<NoteName, NoteError>)
        ensures
            (match name_lookup(s@) {
                Some(name) => result == Ok::<NoteName, NoteError>(name),
                None => (result matches Err(e)
                    && e matches NoteError::InvalidNoteName(t) && t@ == s@),
            }),
    {
        let len = s.unicode_len();
        let looked_up: Option<NoteName> = if len == 1 {
            match s.get_char(0) {
                'C' => Some(NoteName::C),
                'D' => Some(NoteName::D),
                'E' => Some(NoteName::E),
                'F' => Some(NoteName::F),
                'G' => Some(NoteName::G),
                'A' => Some(NoteName::A),
                'B' => Some(NoteName::B),
                _ => None,
            }
        } else if len == 2 && s.get_char(1) == '#' {
            match s.get_char(0) {
                'C' => Some(NoteName::CSharp),
                'D' => Some(NoteName::DSharp),
                'F' => Some(NoteName::FSharp),
                'G' => Some(NoteName::GSharp),
                'A' => Some(NoteName::ASharp),
                _ => None,
            }
        } else {
            None
        };
        match looked_up {
            Some(name) => {
                proof {
                    assert(s@ =~= display_spec(name));
                }
                Ok(name)
            },
            None => Err(NoteError::InvalidNoteName(String::from_str(s))),
        }
    }
}

/// Half of the bijection between pitch classes and 0..=11: looking up a
/// valid index and taking the index of the result gives the index back.
pub proof fn lemma_index_round_trip(index: int)
    requires
        0 <= index <= 11,
    ensures
        index_spec(name_of_index(index)) == index,
{
}

/// The other half of the bijection: taking a pitch class's index and
/// looking it up gives the pitch class back.
pub proof fn lemma_name_round_trip(name: NoteName)
    ensures
        name_of_index(index_spec(name)) == name,
{
}

} // verus!
