//! Textual note names: formatting a note as text and parsing text back.

use vstd::prelude::*;

use crate::error::NoteError;
use crate::note::Note;
use crate::pitch::{display_spec, name_lookup, NoteName};

verus! {

/// The decimal digit character for a value in 0..=9.
pub open spec fn digit_char(d: int) -> char
    recommends
        0 <= d <= 9,
{
    if d == 0 {
        '0'
    } else if d == 1 {
        '1'
    } else if d == 2 {
        '2'
    } else if d == 3 {
        '3'
    } else if d == 4 {
        '4'
    } else if d == 5 {
        '5'
    } else if d == 6 {
        '6'
    } else if d == 7 {
        '7'
    } else if d == 8 {
        '8'
    } else {
        '9'
    }
}

/// The decimal digits of a non-negative value, most significant first,
/// with no sign and no leading zero (except for the value 0 itself).
pub open spec fn decimal_digits(v: nat) -> Seq<char>
    decreases v,
{
    if v < 10 {
        seq![digit_char(v as int)]
    } else {
        decimal_digits(v / 10) + seq![digit_char((v % 10) as int)]
    }
}

/// The decimal text of an octave number: its digits, preceded by '-' when
/// it is negative.
pub open spec fn octave_chars(v: int) -> Seq<char> {
    if v < 0 {
        seq!['-'] + decimal_digits((-v) as nat)
    } else {
        decimal_digits(v as nat)
    }
}

/// The textual name of a note: its pitch class's canonical display name
/// followed directly by the decimal octave number, as in "C#4".
pub open spec fn format_spec(note: Note) -> Seq<char> {
    display_spec(note.name) + octave_chars(note.octave as int)
}

/// The one-character string for a decimal digit value.
fn digit_str(d: u8) -> (s: &'static str)
    requires
        d <= 9,
    ensures
        s@ == seq![digit_char(d as int)],
{
    proof {
        reveal_strlit("0");
        reveal_strlit("1");
        reveal_strlit("2");
        reveal_strlit("3");
        reveal_strlit("4");
        reveal_strlit("5");
        reveal_strlit("6");
        reveal_strlit("7");
        reveal_strlit("8");
        reveal_strlit("9");
    }
    let s = match d {
        0 => "0",
        1 => "1",
        2 => "2",
        3 => "3",
        4 => "4",
        5 => "5",
        6 => "6",
        7 => "7",
        8 => "8",
        _ => "9",
    };
    proof {
        assert(s@ =~= seq![digit_char(d as int)]);
    }
    s
}

/// Appends the decimal digits of `v` to `out`, most significant first.
fn push_decimal_digits(out: &mut String, v: u32)
    ensures
        final(out)@ == old(out)@ + decimal_digits(v as nat),
    decreases v,
{
    if v < 10 {
        out.append(digit_str(v as u8));
    } else {
        push_decimal_digits(out, v / 10);
        out.append(digit_str((v % 10) as u8));
        proof {
            assert(out@ =~= old(out)@ + decimal_digits(v as nat));
        }
    }
}

/// The decimal text of an octave number.
fn octave_string(octave: i32) -> (s: String)
    ensures
        s@ == octave_chars(octave as int),
{
    let mut s = String::new();
    if octave < 0 {
        proof {
            reveal_strlit("-");
        }
        s.append("-");
        let magnitude: u32 = (-(octave as i64)) as u32;
        push_decimal_digits(&mut s, magnitude);
        proof {
            assert(s@ =~= octave_chars(octave as int));
        }
    } else {
        push_decimal_digits(&mut s, octave as u32);
        proof {
            assert(s@ =~= octave_chars(octave as int));
        }
    }
    s
}

/// Whether `c` is a decimal digit.
pub open spec fn is_digit(c: char) -> bool {
    '0' as int <= c as int <= '9' as int
}

/// The value of a decimal digit character.
pub open spec fn digit_value(c: char) -> int
    recommends
        is_digit(c),
{
    c as int - '0' as int
}

/// Whether every character of `s` is a decimal digit.
pub open spec fn all_digits(s: Seq<char>) -> bool {
    forall|i: int| 0 <= i < s.len() ==> is_digit(#[trigger] s[i])
}

/// The number written by a sequence of decimal digit characters, most
/// significant first.
pub open spec fn decimal_value(s: Seq<char>) -> int
    recommends
        all_digits(s),
    decreases s.len(),
{
    if s.len() == 0 {
        0
    } else {
        decimal_value(s.drop_last()) * 10 + digit_value(s.last())
    }
}

/// The digits of an unsigned decimal numeral: the text with one optional
/// leading '+' sign removed.
pub open spec fn unsigned_digits(s: Seq<char>) -> Seq<char> {
    if s.len() > 0 && s[0] == '+' {
        s.skip(1)
    } else {
        s
    }
}

/// Whether `s` is a valid octave numeral: an optional '+' sign, then one
/// or more decimal digits, writing a value at most 255.
pub open spec fn is_octave_text(s: Seq<char>) -> bool {
    let d = unsigned_digits(s);
    d.len() > 0 && all_digits(d) && decimal_value(d) <= 255
}

/// The value of a valid octave numeral.
pub open spec fn octave_value(s: Seq<char>) -> int
    recommends
        is_octave_text(s),
{
    decimal_value(unsigned_digits(s))
}

/// Where the note-name segment of a textual note ends: after two
/// characters when the second is an accidental marker ('#' or 'b'),
/// otherwise after one.
pub open spec fn name_end(s: Seq<char>) -> int
    recommends
        s.len() > 0,
{
    if s.len() > 1 && (s[1] == '#' || s[1] == 'b') {
        2
    } else {
        1
    }
}

/// The note-name segment of a textual note.
pub open spec fn name_part(s: Seq<char>) -> Seq<char> {
    s.take(name_end(s))
}

/// What follows the note-name segment: the octave numeral.
pub open spec fn octave_part(s: Seq<char>) -> Seq<char> {
    s.skip(name_end(s))
}

/// The ways parsing a textual note can fail, in the order the checks run.
#[derive(Debug, Clone, Copy, PartialEq, Eq, Structural)]
pub enum ParseFailure {
    /// The text was empty.
    EmptyInput,
    /// Nothing followed the note-name segment.
    MissingOctave,
    /// What followed the note-name segment was not a valid octave numeral.
    InvalidOctave,
    /// The note-name segment was not one of the 12 canonical names.
    InvalidNoteName,
}

/// What parsing a textual note yields: a five-step pipeline where the
/// first failing step decides the error. The empty check comes first,
/// then segmentation, then the octave numeral, then the name lookup.
pub open spec fn parse_spec(s: Seq<char>) -> Result<Note, ParseFailure> {
    if s.len() == 0 {
        Err(ParseFailure::EmptyInput)
    } else if name_end(s) >= s.len() {
        Err(ParseFailure::MissingOctave)
    } else if !is_octave_text(octave_part(s)) {
        Err(ParseFailure::InvalidOctave)
    } else {
        match name_lookup(name_part(s)) {
            Some(name) => Ok(Note { name, octave: octave_value(octave_part(s)) as i32 }),
            None => Err(ParseFailure::InvalidNoteName),
        }
    }
}

/// Digit strings have non-negative value.
proof fn lemma_decimal_value_nonneg(s: Seq<char>)
    requires
        all_digits(s),
    ensures
        decimal_value(s) >= 0,
    decreases s.len(),
{
    if s.len() > 0 {
        assert(all_digits(s.drop_last()));
        lemma_decimal_value_nonneg(s.drop_last());
    }
}

/// A digit string is worth at least any of its prefixes.
proof fn lemma_decimal_prefix_bound(s: Seq<char>, k: int)
    requires
        0 <= k <= s.len(),
        all_digits(s),
    ensures
        decimal_value(s.take(k)) <= decimal_value(s),
    decreases s.len() - k,
{
    if k < s.len() {
        assert(s.take(k + 1).drop_last() =~= s.take(k));
        assert(all_digits(s.take(k)));
        lemma_decimal_value_nonneg(s.take(k));
        assert(decimal_value(s.take(k + 1)) >= decimal_value(s.take(k)));
        lemma_decimal_prefix_bound(s, k + 1);
    } else {
        assert(s.take(k) =~= s);
    }
}

/// The digits of a non-negative value really are digits, there is at
/// least one of them, and they write the value back.
proof fn lemma_decimal_digits(v: nat)
    ensures
        decimal_digits(v).len() >= 1,
        all_digits(decimal_digits(v)),
        decimal_value(decimal_digits(v)) == v,
    decreases v,
{
    if v < 10 {
        assert(decimal_digits(v).drop_last() =~= Seq::<char>::empty());
        assert(decimal_value(Seq::<char>::empty()) == 0);
    } else {
        lemma_decimal_digits(v / 10);
        let a = decimal_digits(v / 10);
        let c = digit_char((v % 10) as int);
        assert((a + seq![c]).drop_last() =~= a);
        assert((a + seq![c]).last() == c);
        vstd::arithmetic::div_mod::lemma_fundamental_div_mod(v as int, 10);
        assert forall|i: int| 0 <= i < (a + seq![c]).len() implies is_digit(
            #[trigger] (a + seq![c])[i],
        ) by {
            if i < a.len() {
                assert(is_digit(a[i]));
            }
        }
    }
}

/// Looking up a pitch class's own display name finds that pitch class:
/// the table of canonical names has no collisions.
proof fn lemma_display_lookup(name: NoteName)
    ensures
        name_lookup(display_spec(name)) == Some(name),
{
    assert(seq!['C'].len() == 1);
    assert(seq!['D'].len() == 1);
    assert(seq!['E'].len() == 1);
    assert(seq!['F'].len() == 1);
    assert(seq!['G'].len() == 1);
    assert(seq!['A'].len() == 1);
    assert(seq!['B'].len() == 1);
    assert(seq!['C', '#'].len() == 2);
    assert(seq!['D', '#'].len() == 2);
    assert(seq!['F', '#'].len() == 2);
    assert(seq!['G', '#'].len() == 2);
    assert(seq!['A', '#'].len() == 2);
    assert(seq!['C'][0] == 'C');
    assert(seq!['D'][0] == 'D');
    assert(seq!['E'][0] == 'E');
    assert(seq!['F'][0] == 'F');
    assert(seq!['G'][0] == 'G');
    assert(seq!['A'][0] == 'A');
    assert(seq!['B'][0] == 'B');
    assert(seq!['C', '#'][0] == 'C');
    assert(seq!['D', '#'][0] == 'D');
    assert(seq!['F', '#'][0] == 'F');
    assert(seq!['G', '#'][0] == 'G');
    assert(seq!['A', '#'][0] == 'A');
    match name {
        NoteName::C => assert(name_lookup(display_spec(NoteName::C)) == Some(NoteName::C)),
        NoteName::CSharp => assert(name_lookup(display_spec(NoteName::CSharp)) == Some(
            NoteName::CSharp,
        )),
        NoteName::D => assert(name_lookup(display_spec(NoteName::D)) == Some(NoteName::D)),
        NoteName::DSharp => assert(name_lookup(display_spec(NoteName::DSharp)) == Some(
            NoteName::DSharp,
        )),
        NoteName::E => assert(name_lookup(display_spec(NoteName::E)) == Some(NoteName::E)),
        NoteName::F => assert(name_lookup(display_spec(NoteName::F)) == Some(NoteName::F)),
        NoteName::FSharp => assert(name_lookup(display_spec(NoteName::FSharp)) == Some(
            NoteName::FSharp,
        )),
        NoteName::G => assert(name_lookup(display_spec(NoteName::G)) == Some(NoteName::G)),
        NoteName::GSharp => assert(name_lookup(display_spec(NoteName::GSharp)) == Some(
            NoteName::GSharp,
        )),
        NoteName::A => assert(name_lookup(display_spec(NoteName::A)) == Some(NoteName::A)),
        NoteName::ASharp => assert(name_lookup(display_spec(NoteName::ASharp)) == Some(
            NoteName::ASharp,
        )),
        NoteName::B => assert(name_lookup(display_spec(NoteName::B)) == Some(NoteName::B)),
    }
}

/// Formatting then parsing gives the note back, for every note whose
/// octave is a plain non-negative decimal numeral — that is, one the
/// octave parser can read back, so at most 255.
pub proof fn lemma_parse_format_inverse(note: Note)
    requires
        0 <= note.octave <= 255,
    ensures
        parse_spec(format_spec(note)) == Ok::<Note, ParseFailure>(note),
{
    let s = format_spec(note);
    let disp = display_spec(note.name);
    let digits = decimal_digits(note.octave as nat);
    lemma_decimal_digits(note.octave as nat);
    assert(s == disp + digits);
    assert(disp.len() == 1 || (disp.len() == 2 && disp[1] == '#'));
    assert(is_digit(digits[0]));
    assert(name_end(s) == disp.len());
    assert(name_part(s) =~= disp);
    assert(octave_part(s) =~= digits);
    assert(unsigned_digits(digits) == digits);
    assert(is_octave_text(digits));
    lemma_display_lookup(note.name);
}

/// Reads an octave numeral: an optional '+' sign, then decimal digits,
/// value at most 255. `None` on anything else.
fn parse_octave(s: &str) -> (result: Option<u8>)
    ensures
        result is Some <==> is_octave_text(s@),
        result is Some ==> result->0 as int == octave_value(s@),
{
    let n = s.unicode_len();
    if n == 0 {
        return None;
    }
    let start: usize = if s.get_char(0) == '+' {
        1
    } else {
        0
    };
    if start == n {
        return None;
    }
    let ghost d = unsigned_digits(s@);
    proof {
        assert(d =~= s@.skip(start as int));
    }
    let mut value: u32 = 0;
    let mut i: usize = start;
    while i < n
        invariant
            start <= i <= n,
            n == s@.len(),
            start == 1 <==> (s@.len() > 0 && s@[0] == '+'),
            d == unsigned_digits(s@),
            d == s@.skip(start as int),
            all_digits(d.take(i - start)),
            value <= 255,
            value as int == decimal_value(d.take(i - start)),
        decreases n - i,
    {
        let c = s.get_char(i);
        let code = c as u32;
        if code < 48 || code > 57 {
            proof {
                assert(d[i - start] == s@[i as int]);
                assert(!is_digit(d[i - start]));
            }
            return None;
        }
        let digit = code - 48;
        proof {
            assert(d.take(i + 1 - start).drop_last() =~= d.take(i - start));
            assert(d.take(i + 1 - start).last() == s@[i as int]);
            assert(is_digit(s@[i as int]));
            assert(digit_value(s@[i as int]) == digit as int);
        }
        value = value * 10 + digit;
        if value > 255 {
            proof {
                if all_digits(d) {
                    lemma_decimal_prefix_bound(d, i + 1 - start);
                }
            }
            return None;
        }
        i += 1;
    }
    proof {
        assert(d.take(n - start) =~= d);
    }
    Some(value as u8)
}

impl Note {
    /// Parses a textual note name such as "C#4": a note-name segment of
    /// one character — two when the second character is '#' or 'b' —
    /// followed by the decimal octave number. The first failing step
    /// decides the error, which carries the offending piece of the input.
    pub fn from_string(s: &str) -> (result: Result<Note, NoteError>)
        ensures
            (match parse_spec(s@) {
                Ok(note) => result == Ok::<Note, NoteError>(note),
                Err(ParseFailure::EmptyInput) => result == Err::<Note, NoteError>(
                    NoteError::EmptyInput,
                ),
                Err(ParseFailure::MissingOctave) => result == Err::<Note, NoteError>(
                    NoteError::MissingOctave,
                ),
                Err(ParseFailure::InvalidOctave) => (result matches Err(e)
                    && e matches NoteError::InvalidOctave(t) && t@ == octave_part(s@)),
                Err(ParseFailure::InvalidNoteName) => (result matches Err(e)
                    && e matches NoteError::InvalidNoteName(t) && t@ == name_part(s@)),
            }),
    {
        let n = s.unicode_len();
        if n == 0 {
            return Err(NoteError::EmptyInput);
        }
        let name_len: usize = if n > 1 && (s.get_char(1) == '#' || s.get_char(1) == 'b') {
            2
        } else {
            1
        };
        if name_len >= n {
            return Err(NoteError::MissingOctave);
        }
        let octave_text = s.substring_char(name_len, n);
        proof {
            assert(octave_text@ =~= octave_part(s@));
        }
        let octave = match parse_octave(octave_text) {
            Some(value) => value,
            None => {
                return Err(NoteError::InvalidOctave(String::from_str(octave_text)));
            },
        };
        let name_text = s.substring_char(0, name_len);
        proof {
            assert(name_text@ =~= name_part(s@));
        }
        let name = match NoteName::from_display_name(name_text) {
            Ok(name) => name,
            Err(e) => {
                return Err(e);
            },
        };
        Ok(Note { name, octave: octave as i32 })
    }

    /// The textual name of this note: the canonical sharp-spelled pitch
    /// class name followed by the decimal octave number, with no
    /// separator, as in "C#4".
    pub fn to_string(&self) -> (s: String)
        ensures
            s@ == format_spec(*self),
    {
        let mut s = String::from_str(self.name.to_display_name());
        let octave = octave_string(self.octave);
        s.append(octave.as_str());
        proof {
            assert(s@ =~= format_spec(*self));
        }
        s
    }
}

} // verus!
