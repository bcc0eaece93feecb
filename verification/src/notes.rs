//! Musical notes and melodies.
//!
//! The notes are the twelve semitones of the nine octaves from 0 to 8. A note
//! is known by its place in that row, from `C0` at 0 to `B8` at 107, by its
//! distance in semitones from the concert pitch `A4`, and by its name: the
//! letter, a `#` for a raised note, and the number of the octave.

use vstd::prelude::*;
use vstd::string::{StrSliceExecFns, StringExecFns};

verus! {

/// A note.
#[derive(Copy, Clone, Debug, PartialEq, Eq, Hash, Structural)]
pub enum MusicalNote {
    /// The note `C0`.
    C0,
    /// The note `C#0`.
    CSharp0,
    /// The note `D0`.
    D0,
    /// The note `D#0`.
    DSharp0,
    /// The note `E0`.
    E0,
    /// The note `F0`.
    F0,
    /// The note `F#0`.
    FSharp0,
    /// The note `G0`.
    G0,
    /// The note `G#0`.
    GSharp0,
    /// The note `A0`.
    A0,
    /// The note `A#0`.
    ASharp0,
    /// The note `B0`.
    B0,
    /// The note `C1`.
    C1,
    /// The note `C#1`.
    CSharp1,
    /// The note `D1`.
    D1,
    /// The note `D#1`.
    DSharp1,
    /// The note `E1`.
    E1,
    /// The note `F1`.
    F1,
    /// The note `F#1`.
    FSharp1,
    /// The note `G1`.
    G1,
    /// The note `G#1`.
    GSharp1,
    /// The note `A1`.
    A1,
    /// The note `A#1`.
    ASharp1,
    /// The note `B1`.
    B1,
    /// The note `C2`.
    C2,
    /// The note `C#2`.
    CSharp2,
    /// The note `D2`.
    D2,
    /// The note `D#2`.
    DSharp2,
    /// The note `E2`.
    E2,
    /// The note `F2`.
    F2,
    /// The note `F#2`.
    FSharp2,
    /// The note `G2`.
    G2,
    /// The note `G#2`.
    GSharp2,
    /// The note `A2`.
    A2,
    /// The note `A#2`.
    ASharp2,
    /// The note `B2`.
    B2,
    /// The note `C3`.
    C3,
    /// The note `C#3`.
    CSharp3,
    /// The note `D3`.
    D3,
    /// The note `D#3`.
    DSharp3,
    /// The note `E3`.
    E3,
    /// The note `F3`.
    F3,
    /// The note `F#3`.
    FSharp3,
    /// The note `G3`.
    G3,
    /// The note `G#3`.
    GSharp3,
    /// The note `A3`.
    A3,
    /// The note `A#3`.
    ASharp3,
    /// The note `B3`.
    B3,
    /// The note `C4`.
    C4,
    /// The note `C#4`.
    CSharp4,
    /// The note `D4`.
    D4,
    /// The note `D#4`.
    DSharp4,
    /// The note `E4`.
    E4,
    /// The note `F4`.
    F4,
    /// The note `F#4`.
    FSharp4,
    /// The note `G4`.
    G4,
    /// The note `G#4`.
    GSharp4,
    /// The note `A4`.
    A4,
    /// The note `A#4`.
    ASharp4,
    /// The note `B4`.
    B4,
    /// The note `C5`.
    C5,
    /// The note `C#5`.
    CSharp5,
    /// The note `D5`.
    D5,
    /// The note `D#5`.
    DSharp5,
    /// The note `E5`.
    E5,
    /// The note `F5`.
    F5,
    /// The note `F#5`.
    FSharp5,
    /// The note `G5`.
    G5,
    /// The note `G#5`.
    GSharp5,
    /// The note `A5`.
    A5,
    /// The note `A#5`.
    ASharp5,
    /// The note `B5`.
    B5,
    /// The note `C6`.
    C6,
    /// The note `C#6`.
    CSharp6,
    /// The note `D6`.
    D6,
    /// The note `D#6`.
    DSharp6,
    /// The note `E6`.
    E6,
    /// The note `F6`.
    F6,
    /// The note `F#6`.
    FSharp6,
    /// The note `G6`.
    G6,
    /// The note `G#6`.
    GSharp6,
    /// The note `A6`.
    A6,
    /// The note `A#6`.
    ASharp6,
    /// The note `B6`.
    B6,
    /// The note `C7`.
    C7,
    /// The note `C#7`.
    CSharp7,
    /// The note `D7`.
    D7,
    /// The note `D#7`.
    DSharp7,
    /// The note `E7`.
    E7,
    /// The note `F7`.
    F7,
    /// The note `F#7`.
    FSharp7,
    /// The note `G7`.
    G7,
    /// The note `G#7`.
    GSharp7,
    /// The note `A7`.
    A7,
    /// The note `A#7`.
    ASharp7,
    /// The note `B7`.
    B7,
    /// The note `C8`.
    C8,
    /// The note `C#8`.
    CSharp8,
    /// The note `D8`.
    D8,
    /// The note `D#8`.
    DSharp8,
    /// The note `E8`.
    E8,
    /// The note `F8`.
    F8,
    /// The note `F#8`.
    FSharp8,
    /// The note `G8`.
    G8,
    /// The note `G#8`.
    GSharp8,
    /// The note `A8`.
    A8,
    /// The note `A#8`.
    ASharp8,
    /// The note `B8`.
    B8,
}

/// The number of notes.
pub const NOTE_COUNT: u8 = 108;

/// The place of `A4` in the row of notes.
pub const A4_INDEX: u8 = 57;

/// The letter of a semitone of the octave.
pub open spec fn letter_of(semitone: int) -> char {
    if semitone == 0 || semitone == 1 {
        'C'
    } else if semitone == 2 || semitone == 3 {
        'D'
    } else if semitone == 4 {
        'E'
    } else if semitone == 5 || semitone == 6 {
        'F'
    } else if semitone == 7 || semitone == 8 {
        'G'
    } else if semitone == 9 || semitone == 10 {
        'A'
    } else {
        'B'
    }
}

/// Whether a semitone of the octave is a raised note.
pub open spec fn sharp_of(semitone: int) -> bool {
    semitone == 1 || semitone == 3 || semitone == 6 || semitone == 8 || semitone == 10
}

/// The digit of an octave.
pub open spec fn digit_of(octave: int) -> char {
    if octave == 0 {
        '0'
    } else if octave == 1 {
        '1'
    } else if octave == 2 {
        '2'
    } else if octave == 3 {
        '3'
    } else if octave == 4 {
        '4'
    } else if octave == 5 {
        '5'
    } else if octave == 6 {
        '6'
    } else if octave == 7 {
        '7'
    } else {
        '8'
    }
}

/// The semitone of the octave that a letter names, raised or not.
pub open spec fn semitone_named(letter: char, sharp: bool) -> Option<int> {
    if letter == 'C' {
        Some(if sharp { 1int } else { 0int })
    } else if letter == 'D' {
        Some(if sharp { 3int } else { 2int })
    } else if letter == 'E' && !sharp {
        Some(4int)
    } else if letter == 'F' {
        Some(if sharp { 6int } else { 5int })
    } else if letter == 'G' {
        Some(if sharp { 8int } else { 7int })
    } else if letter == 'A' {
        Some(if sharp { 10int } else { 9int })
    } else if letter == 'B' && !sharp {
        Some(11int)
    } else {
        None
    }
}

/// The octave that a digit names.
pub open spec fn octave_named(digit: char) -> Option<int> {
    if digit == '0' {
        Some(0int)
    } else if digit == '1' {
        Some(1int)
    } else if digit == '2' {
        Some(2int)
    } else if digit == '3' {
        Some(3int)
    } else if digit == '4' {
        Some(4int)
    } else if digit == '5' {
        Some(5int)
    } else if digit == '6' {
        Some(6int)
    } else if digit == '7' {
        Some(7int)
    } else if digit == '8' {
        Some(8int)
    } else {
        None
    }
}

impl MusicalNote {
    /// The place of the note in the row of notes.
    pub open spec fn index_of(self) -> int {
        match self {
            MusicalNote::C0 => 0,
            MusicalNote::CSharp0 => 1,
            MusicalNote::D0 => 2,
            MusicalNote::DSharp0 => 3,
            MusicalNote::E0 => 4,
            MusicalNote::F0 => 5,
            MusicalNote::FSharp0 => 6,
            MusicalNote::G0 => 7,
            MusicalNote::GSharp0 => 8,
            MusicalNote::A0 => 9,
            MusicalNote::ASharp0 => 10,
            MusicalNote::B0 => 11,
            MusicalNote::C1 => 12,
            MusicalNote::CSharp1 => 13,
            MusicalNote::D1 => 14,
            MusicalNote::DSharp1 => 15,
            MusicalNote::E1 => 16,
            MusicalNote::F1 => 17,
            MusicalNote::FSharp1 => 18,
            MusicalNote::G1 => 19,
            MusicalNote::GSharp1 => 20,
            MusicalNote::A1 => 21,
            MusicalNote::ASharp1 => 22,
            MusicalNote::B1 => 23,
            MusicalNote::C2 => 24,
            MusicalNote::CSharp2 => 25,
            MusicalNote::D2 => 26,
            MusicalNote::DSharp2 => 27,
            MusicalNote::E2 => 28,
            MusicalNote::F2 => 29,
            MusicalNote::FSharp2 => 30,
            MusicalNote::G2 => 31,
            MusicalNote::GSharp2 => 32,
            MusicalNote::A2 => 33,
            MusicalNote::ASharp2 => 34,
            MusicalNote::B2 => 35,
            MusicalNote::C3 => 36,
            MusicalNote::CSharp3 => 37,
            MusicalNote::D3 => 38,
            MusicalNote::DSharp3 => 39,
            MusicalNote::E3 => 40,
            MusicalNote::F3 => 41,
            MusicalNote::FSharp3 => 42,
            MusicalNote::G3 => 43,
            MusicalNote::GSharp3 => 44,
            MusicalNote::A3 => 45,
            MusicalNote::ASharp3 => 46,
            MusicalNote::B3 => 47,
            MusicalNote::C4 => 48,
            MusicalNote::CSharp4 => 49,
            MusicalNote::D4 => 50,
            MusicalNote::DSharp4 => 51,
            MusicalNote::E4 => 52,
            MusicalNote::F4 => 53,
            MusicalNote::FSharp4 => 54,
            MusicalNote::G4 => 55,
            MusicalNote::GSharp4 => 56,
            MusicalNote::A4 => 57,
            MusicalNote::ASharp4 => 58,
            MusicalNote::B4 => 59,
            MusicalNote::C5 => 60,
            MusicalNote::CSharp5 => 61,
            MusicalNote::D5 => 62,
            MusicalNote::DSharp5 => 63,
            MusicalNote::E5 => 64,
            MusicalNote::F5 => 65,
            MusicalNote::FSharp5 => 66,
            MusicalNote::G5 => 67,
            MusicalNote::GSharp5 => 68,
            MusicalNote::A5 => 69,
            MusicalNote::ASharp5 => 70,
            MusicalNote::B5 => 71,
            MusicalNote::C6 => 72,
            MusicalNote::CSharp6 => 73,
            MusicalNote::D6 => 74,
            MusicalNote::DSharp6 => 75,
            MusicalNote::E6 => 76,
            MusicalNote::F6 => 77,
            MusicalNote::FSharp6 => 78,
            MusicalNote::G6 => 79,
            MusicalNote::GSharp6 => 80,
            MusicalNote::A6 => 81,
            MusicalNote::ASharp6 => 82,
            MusicalNote::B6 => 83,
            MusicalNote::C7 => 84,
            MusicalNote::CSharp7 => 85,
            MusicalNote::D7 => 86,
            MusicalNote::DSharp7 => 87,
            MusicalNote::E7 => 88,
            MusicalNote::F7 => 89,
            MusicalNote::FSharp7 => 90,
            MusicalNote::G7 => 91,
            MusicalNote::GSharp7 => 92,
            MusicalNote::A7 => 93,
            MusicalNote::ASharp7 => 94,
            MusicalNote::B7 => 95,
            MusicalNote::C8 => 96,
            MusicalNote::CSharp8 => 97,
            MusicalNote::D8 => 98,
            MusicalNote::DSharp8 => 99,
            MusicalNote::E8 => 100,
            MusicalNote::F8 => 101,
            MusicalNote::FSharp8 => 102,
            MusicalNote::G8 => 103,
            MusicalNote::GSharp8 => 104,
            MusicalNote::A8 => 105,
            MusicalNote::ASharp8 => 106,
            MusicalNote::B8 => 107,
        }
    }

    /// The note at a place in the row of notes.
    pub open spec fn at(index: int) -> Option<MusicalNote> {
        if index == 0 {
            Some(MusicalNote::C0)
        } else if index == 1 {
            Some(MusicalNote::CSharp0)
        } else if index == 2 {
            Some(MusicalNote::D0)
        } else if index == 3 {
            Some(MusicalNote::DSharp0)
        } else if index == 4 {
            Some(MusicalNote::E0)
        } else if index == 5 {
            Some(MusicalNote::F0)
        } else if index == 6 {
            Some(MusicalNote::FSharp0)
        } else if index == 7 {
            Some(MusicalNote::G0)
        } else if index == 8 {
            Some(MusicalNote::GSharp0)
        } else if index == 9 {
            Some(MusicalNote::A0)
        } else if index == 10 {
            Some(MusicalNote::ASharp0)
        } else if index == 11 {
            Some(MusicalNote::B0)
        } else if index == 12 {
            Some(MusicalNote::C1)
        } else if index == 13 {
            Some(MusicalNote::CSharp1)
        } else if index == 14 {
            Some(MusicalNote::D1)
        } else if index == 15 {
            Some(MusicalNote::DSharp1)
        } else if index == 16 {
            Some(MusicalNote::E1)
        } else if index == 17 {
            Some(MusicalNote::F1)
        } else if index == 18 {
            Some(MusicalNote::FSharp1)
        } else if index == 19 {
            Some(MusicalNote::G1)
        } else if index == 20 {
            Some(MusicalNote::GSharp1)
        } else if index == 21 {
            Some(MusicalNote::A1)
        } else if index == 22 {
            Some(MusicalNote::ASharp1)
        } else if index == 23 {
            Some(MusicalNote::B1)
        } else if index == 24 {
            Some(MusicalNote::C2)
        } else if index == 25 {
            Some(MusicalNote::CSharp2)
        } else if index == 26 {
            Some(MusicalNote::D2)
        } else if index == 27 {
            Some(MusicalNote::DSharp2)
        } else if index == 28 {
            Some(MusicalNote::E2)
        } else if index == 29 {
            Some(MusicalNote::F2)
        } else if index == 30 {
            Some(MusicalNote::FSharp2)
        } else if index == 31 {
            Some(MusicalNote::G2)
        } else if index == 32 {
            Some(MusicalNote::GSharp2)
        } else if index == 33 {
            Some(MusicalNote::A2)
        } else if index == 34 {
            Some(MusicalNote::ASharp2)
        } else if index == 35 {
            Some(MusicalNote::B2)
        } else if index == 36 {
            Some(MusicalNote::C3)
        } else if index == 37 {
            Some(MusicalNote::CSharp3)
        } else if index == 38 {
            Some(MusicalNote::D3)
        } else if index == 39 {
            Some(MusicalNote::DSharp3)
        } else if index == 40 {
            Some(MusicalNote::E3)
        } else if index == 41 {
            Some(MusicalNote::F3)
        } else if index == 42 {
            Some(MusicalNote::FSharp3)
        } else if index == 43 {
            Some(MusicalNote::G3)
        } else if index == 44 {
            Some(MusicalNote::GSharp3)
        } else if index == 45 {
            Some(MusicalNote::A3)
        } else if index == 46 {
            Some(MusicalNote::ASharp3)
        } else if index == 47 {
            Some(MusicalNote::B3)
        } else if index == 48 {
            Some(MusicalNote::C4)
        } else if index == 49 {
            Some(MusicalNote::CSharp4)
        } else if index == 50 {
            Some(MusicalNote::D4)
        } else if index == 51 {
            Some(MusicalNote::DSharp4)
        } else if index == 52 {
            Some(MusicalNote::E4)
        } else if index == 53 {
            Some(MusicalNote::F4)
        } else if index == 54 {
            Some(MusicalNote::FSharp4)
        } else if index == 55 {
            Some(MusicalNote::G4)
        } else if index == 56 {
            Some(MusicalNote::GSharp4)
        } else if index == 57 {
            Some(MusicalNote::A4)
        } else if index == 58 {
            Some(MusicalNote::ASharp4)
        } else if index == 59 {
            Some(MusicalNote::B4)
        } else if index == 60 {
            Some(MusicalNote::C5)
        } else if index == 61 {
            Some(MusicalNote::CSharp5)
        } else if index == 62 {
            Some(MusicalNote::D5)
        } else if index == 63 {
            Some(MusicalNote::DSharp5)
        } else if index == 64 {
            Some(MusicalNote::E5)
        } else if index == 65 {
            Some(MusicalNote::F5)
        } else if index == 66 {
            Some(MusicalNote::FSharp5)
        } else if index == 67 {
            Some(MusicalNote::G5)
        } else if index == 68 {
            Some(MusicalNote::GSharp5)
        } else if index == 69 {
            Some(MusicalNote::A5)
        } else if index == 70 {
            Some(MusicalNote::ASharp5)
        } else if index == 71 {
            Some(MusicalNote::B5)
        } else if index == 72 {
            Some(MusicalNote::C6)
        } else if index == 73 {
            Some(MusicalNote::CSharp6)
        } else if index == 74 {
            Some(MusicalNote::D6)
        } else if index == 75 {
            Some(MusicalNote::DSharp6)
        } else if index == 76 {
            Some(MusicalNote::E6)
        } else if index == 77 {
            Some(MusicalNote::F6)
        } else if index == 78 {
            Some(MusicalNote::FSharp6)
        } else if index == 79 {
            Some(MusicalNote::G6)
        } else if index == 80 {
            Some(MusicalNote::GSharp6)
        } else if index == 81 {
            Some(MusicalNote::A6)
        } else if index == 82 {
            Some(MusicalNote::ASharp6)
        } else if index == 83 {
            Some(MusicalNote::B6)
        } else if index == 84 {
            Some(MusicalNote::C7)
        } else if index == 85 {
            Some(MusicalNote::CSharp7)
        } else if index == 86 {
            Some(MusicalNote::D7)
        } else if index == 87 {
            Some(MusicalNote::DSharp7)
        } else if index == 88 {
            Some(MusicalNote::E7)
        } else if index == 89 {
            Some(MusicalNote::F7)
        } else if index == 90 {
            Some(MusicalNote::FSharp7)
        } else if index == 91 {
            Some(MusicalNote::G7)
        } else if index == 92 {
            Some(MusicalNote::GSharp7)
        } else if index == 93 {
            Some(MusicalNote::A7)
        } else if index == 94 {
            Some(MusicalNote::ASharp7)
        } else if index == 95 {
            Some(MusicalNote::B7)
        } else if index == 96 {
            Some(MusicalNote::C8)
        } else if index == 97 {
            Some(MusicalNote::CSharp8)
        } else if index == 98 {
            Some(MusicalNote::D8)
        } else if index == 99 {
            Some(MusicalNote::DSharp8)
        } else if index == 100 {
            Some(MusicalNote::E8)
        } else if index == 101 {
            Some(MusicalNote::F8)
        } else if index == 102 {
            Some(MusicalNote::FSharp8)
        } else if index == 103 {
            Some(MusicalNote::G8)
        } else if index == 104 {
            Some(MusicalNote::GSharp8)
        } else if index == 105 {
            Some(MusicalNote::A8)
        } else if index == 106 {
            Some(MusicalNote::ASharp8)
        } else if index == 107 {
            Some(MusicalNote::B8)
        } else {
            None
        }
    }

    /// The octave of the note, from 0 to 8.
    pub open spec fn octave_of(self) -> int {
        self.index_of() / 12
    }

    /// The semitone of the note in its octave, from 0 for `C` to 11 for `B`.
    pub open spec fn semitone_of(self) -> int {
        self.index_of() % 12
    }

    /// The name of the note.
    pub open spec fn name_of(self) -> Seq<char> {
        if sharp_of(self.semitone_of()) {
            seq![letter_of(self.semitone_of()), '#', digit_of(self.octave_of())]
        } else {
            seq![letter_of(self.semitone_of()), digit_of(self.octave_of())]
        }
    }

    /// The note that a text names: a letter from `A` to `G`, a `#` where the
    /// note is raised, and the digit of an octave from 0 to 8. There is no
    /// raised `E` and no raised `B`.
    pub open spec fn named(text: Seq<char>) -> Option<MusicalNote> {
        if text.len() == 2 {
            match (semitone_named(text[0], false), octave_named(text[1])) {
                (Some(semitone), Some(octave)) => MusicalNote::at(12 * octave + semitone),
                _ => None,
            }
        } else if text.len() == 3 && text[1] == '#' {
            match (semitone_named(text[0], true), octave_named(text[2])) {
                (Some(semitone), Some(octave)) => MusicalNote::at(12 * octave + semitone),
                _ => None,
            }
        } else {
            None
        }
    }

    /// The place of the note in the row of notes.
    pub fn to_index(self) -> (index: u8)
        ensures
            index == self.index_of(),
            index < NOTE_COUNT,
    {
        match self {
            MusicalNote::C0 => 0,
            MusicalNote::CSharp0 => 1,
            MusicalNote::D0 => 2,
            MusicalNote::DSharp0 => 3,
            MusicalNote::E0 => 4,
            MusicalNote::F0 => 5,
            MusicalNote::FSharp0 => 6,
            MusicalNote::G0 => 7,
            MusicalNote::GSharp0 => 8,
            MusicalNote::A0 => 9,
            MusicalNote::ASharp0 => 10,
            MusicalNote::B0 => 11,
            MusicalNote::C1 => 12,
            MusicalNote::CSharp1 => 13,
            MusicalNote::D1 => 14,
            MusicalNote::DSharp1 => 15,
            MusicalNote::E1 => 16,
            MusicalNote::F1 => 17,
            MusicalNote::FSharp1 => 18,
            MusicalNote::G1 => 19,
            MusicalNote::GSharp1 => 20,
            MusicalNote::A1 => 21,
            MusicalNote::ASharp1 => 22,
            MusicalNote::B1 => 23,
            MusicalNote::C2 => 24,
            MusicalNote::CSharp2 => 25,
            MusicalNote::D2 => 26,
            MusicalNote::DSharp2 => 27,
            MusicalNote::E2 => 28,
            MusicalNote::F2 => 29,
            MusicalNote::FSharp2 => 30,
            MusicalNote::G2 => 31,
            MusicalNote::GSharp2 => 32,
            MusicalNote::A2 => 33,
            MusicalNote::ASharp2 => 34,
            MusicalNote::B2 => 35,
            MusicalNote::C3 => 36,
            MusicalNote::CSharp3 => 37,
            MusicalNote::D3 => 38,
            MusicalNote::DSharp3 => 39,
            MusicalNote::E3 => 40,
            MusicalNote::F3 => 41,
            MusicalNote::FSharp3 => 42,
            MusicalNote::G3 => 43,
            MusicalNote::GSharp3 => 44,
            MusicalNote::A3 => 45,
            MusicalNote::ASharp3 => 46,
            MusicalNote::B3 => 47,
            MusicalNote::C4 => 48,
            MusicalNote::CSharp4 => 49,
            MusicalNote::D4 => 50,
            MusicalNote::DSharp4 => 51,
            MusicalNote::E4 => 52,
            MusicalNote::F4 => 53,
            MusicalNote::FSharp4 => 54,
            MusicalNote::G4 => 55,
            MusicalNote::GSharp4 => 56,
            MusicalNote::A4 => 57,
            MusicalNote::ASharp4 => 58,
            MusicalNote::B4 => 59,
            MusicalNote::C5 => 60,
            MusicalNote::CSharp5 => 61,
            MusicalNote::D5 => 62,
            MusicalNote::DSharp5 => 63,
            MusicalNote::E5 => 64,
            MusicalNote::F5 => 65,
            MusicalNote::FSharp5 => 66,
            MusicalNote::G5 => 67,
            MusicalNote::GSharp5 => 68,
            MusicalNote::A5 => 69,
            MusicalNote::ASharp5 => 70,
            MusicalNote::B5 => 71,
            MusicalNote::C6 => 72,
            MusicalNote::CSharp6 => 73,
            MusicalNote::D6 => 74,
            MusicalNote::DSharp6 => 75,
            MusicalNote::E6 => 76,
            MusicalNote::F6 => 77,
            MusicalNote::FSharp6 => 78,
            MusicalNote::G6 => 79,
            MusicalNote::GSharp6 => 80,
            MusicalNote::A6 => 81,
            MusicalNote::ASharp6 => 82,
            MusicalNote::B6 => 83,
            MusicalNote::C7 => 84,
            MusicalNote::CSharp7 => 85,
            MusicalNote::D7 => 86,
            MusicalNote::DSharp7 => 87,
            MusicalNote::E7 => 88,
            MusicalNote::F7 => 89,
            MusicalNote::FSharp7 => 90,
            MusicalNote::G7 => 91,
            MusicalNote::GSharp7 => 92,
            MusicalNote::A7 => 93,
            MusicalNote::ASharp7 => 94,
            MusicalNote::B7 => 95,
            MusicalNote::C8 => 96,
            MusicalNote::CSharp8 => 97,
            MusicalNote::D8 => 98,
            MusicalNote::DSharp8 => 99,
            MusicalNote::E8 => 100,
            MusicalNote::F8 => 101,
            MusicalNote::FSharp8 => 102,
            MusicalNote::G8 => 103,
            MusicalNote::GSharp8 => 104,
            MusicalNote::A8 => 105,
            MusicalNote::ASharp8 => 106,
            MusicalNote::B8 => 107,
        }
    }

    /// The note at a place in the row of notes; `None` from 108 on.
    pub fn from_index(index: u8) -> (note: Option<MusicalNote>)
        ensures
            note == MusicalNote::at(index as int),
            note is Some <==> index < NOTE_COUNT,
            note matches Some(n) ==> n.index_of() == index,
    {
        match index {
            0 => Some(MusicalNote::C0),
            1 => Some(MusicalNote::CSharp0),
            2 => Some(MusicalNote::D0),
            3 => Some(MusicalNote::DSharp0),
            4 => Some(MusicalNote::E0),
            5 => Some(MusicalNote::F0),
            6 => Some(MusicalNote::FSharp0),
            7 => Some(MusicalNote::G0),
            8 => Some(MusicalNote::GSharp0),
            9 => Some(MusicalNote::A0),
            10 => Some(MusicalNote::ASharp0),
            11 => Some(MusicalNote::B0),
            12 => Some(MusicalNote::C1),
            13 => Some(MusicalNote::CSharp1),
            14 => Some(MusicalNote::D1),
            15 => Some(MusicalNote::DSharp1),
            16 => Some(MusicalNote::E1),
            17 => Some(MusicalNote::F1),
            18 => Some(MusicalNote::FSharp1),
            19 => Some(MusicalNote::G1),
            20 => Some(MusicalNote::GSharp1),
            21 => Some(MusicalNote::A1),
            22 => Some(MusicalNote::ASharp1),
            23 => Some(MusicalNote::B1),
            24 => Some(MusicalNote::C2),
            25 => Some(MusicalNote::CSharp2),
            26 => Some(MusicalNote::D2),
            27 => Some(MusicalNote::DSharp2),
            28 => Some(MusicalNote::E2),
            29 => Some(MusicalNote::F2),
            30 => Some(MusicalNote::FSharp2),
            31 => Some(MusicalNote::G2),
            32 => Some(MusicalNote::GSharp2),
            33 => Some(MusicalNote::A2),
            34 => Some(MusicalNote::ASharp2),
            35 => Some(MusicalNote::B2),
            36 => Some(MusicalNote::C3),
            37 => Some(MusicalNote::CSharp3),
            38 => Some(MusicalNote::D3),
            39 => Some(MusicalNote::DSharp3),
            40 => Some(MusicalNote::E3),
            41 => Some(MusicalNote::F3),
            42 => Some(MusicalNote::FSharp3),
            43 => Some(MusicalNote::G3),
            44 => Some(MusicalNote::GSharp3),
            45 => Some(MusicalNote::A3),
            46 => Some(MusicalNote::ASharp3),
            47 => Some(MusicalNote::B3),
            48 => Some(MusicalNote::C4),
            49 => Some(MusicalNote::CSharp4),
            50 => Some(MusicalNote::D4),
            51 => Some(MusicalNote::DSharp4),
            52 => Some(MusicalNote::E4),
            53 => Some(MusicalNote::F4),
            54 => Some(MusicalNote::FSharp4),
            55 => Some(MusicalNote::G4),
            56 => Some(MusicalNote::GSharp4),
            57 => Some(MusicalNote::A4),
            58 => Some(MusicalNote::ASharp4),
            59 => Some(MusicalNote::B4),
            60 => Some(MusicalNote::C5),
            61 => Some(MusicalNote::CSharp5),
            62 => Some(MusicalNote::D5),
            63 => Some(MusicalNote::DSharp5),
            64 => Some(MusicalNote::E5),
            65 => Some(MusicalNote::F5),
            66 => Some(MusicalNote::FSharp5),
            67 => Some(MusicalNote::G5),
            68 => Some(MusicalNote::GSharp5),
            69 => Some(MusicalNote::A5),
            70 => Some(MusicalNote::ASharp5),
            71 => Some(MusicalNote::B5),
            72 => Some(MusicalNote::C6),
            73 => Some(MusicalNote::CSharp6),
            74 => Some(MusicalNote::D6),
            75 => Some(MusicalNote::DSharp6),
            76 => Some(MusicalNote::E6),
            77 => Some(MusicalNote::F6),
            78 => Some(MusicalNote::FSharp6),
            79 => Some(MusicalNote::G6),
            80 => Some(MusicalNote::GSharp6),
            81 => Some(MusicalNote::A6),
            82 => Some(MusicalNote::ASharp6),
            83 => Some(MusicalNote::B6),
            84 => Some(MusicalNote::C7),
            85 => Some(MusicalNote::CSharp7),
            86 => Some(MusicalNote::D7),
            87 => Some(MusicalNote::DSharp7),
            88 => Some(MusicalNote::E7),
            89 => Some(MusicalNote::F7),
            90 => Some(MusicalNote::FSharp7),
            91 => Some(MusicalNote::G7),
            92 => Some(MusicalNote::GSharp7),
            93 => Some(MusicalNote::A7),
            94 => Some(MusicalNote::ASharp7),
            95 => Some(MusicalNote::B7),
            96 => Some(MusicalNote::C8),
            97 => Some(MusicalNote::CSharp8),
            98 => Some(MusicalNote::D8),
            99 => Some(MusicalNote::DSharp8),
            100 => Some(MusicalNote::E8),
            101 => Some(MusicalNote::F8),
            102 => Some(MusicalNote::FSharp8),
            103 => Some(MusicalNote::G8),
            104 => Some(MusicalNote::GSharp8),
            105 => Some(MusicalNote::A8),
            106 => Some(MusicalNote::ASharp8),
            107 => Some(MusicalNote::B8),
            _ => None,
        }
    }

    /// The octave of the note, from 0 to 8.
    pub fn octave(self) -> (octave: u8)
        ensures
            octave == self.octave_of(),
            octave <= 8,
    {
        self.to_index() / 12
    }

    /// The semitone of the note in its octave, from 0 for `C` to 11 for `B`.
    pub fn semitone(self) -> (semitone: u8)
        ensures
            semitone == self.semitone_of(),
            semitone < 12,
    {
        self.to_index() % 12
    }

    /// The distance of the note from `A4` in semitones, upwards positive. The
    /// frequency of the note is that of `A4` times two to the power of a
    /// twelfth of it.
    pub fn semitones_from_a4(self) -> (distance: i32)
        ensures
            distance == 12 * (self.octave_of() - 4) + (self.semitone_of() - 9),
            distance == self.index_of() - A4_INDEX,
            -57 <= distance <= 50,
    {
        self.to_index() as i32 - A4_INDEX as i32
    }

    /// The name of the note.
    pub fn name(self) -> (name: String)
        ensures
            name@ == self.name_of(),
    {
        proof {
            reveal_strlit("C");
            reveal_strlit("C#");
            reveal_strlit("D");
            reveal_strlit("D#");
            reveal_strlit("E");
            reveal_strlit("F");
            reveal_strlit("F#");
            reveal_strlit("G");
            reveal_strlit("G#");
            reveal_strlit("A");
            reveal_strlit("A#");
            reveal_strlit("B");
            reveal_strlit("0");
            reveal_strlit("1");
            reveal_strlit("2");
            reveal_strlit("3");
            reveal_strlit("4");
            reveal_strlit("5");
            reveal_strlit("6");
            reveal_strlit("7");
            reveal_strlit("8");
        }
        let letter: &str = match self.semitone() {
            0 => "C",
            1 => "C#",
            2 => "D",
            3 => "D#",
            4 => "E",
            5 => "F",
            6 => "F#",
            7 => "G",
            8 => "G#",
            9 => "A",
            10 => "A#",
            _ => "B",
        };
        let digit: &str = match self.octave() {
            0 => "0",
            1 => "1",
            2 => "2",
            3 => "3",
            4 => "4",
            5 => "5",
            6 => "6",
            7 => "7",
            _ => "8",
        };
        let name: String = String::from_str(letter).concat(digit);
        assert(name@ =~= self.name_of());
        name
    }

    /// The note that a text names, or `None` where it names none.
    pub fn from_name(text: &str) -> (note: Option<MusicalNote>)
        ensures
            note == MusicalNote::named(text@),
    {
        let length: usize = text.unicode_len();
        if length != 2 && length != 3 {
            return None;
        }
        let sharp: bool = length == 3;
        if sharp && text.get_char(1) != '#' {
            return None;
        }
        let semitone: u8 = match (text.get_char(0), sharp) {
            ('C', false) => 0,
            ('C', true) => 1,
            ('D', false) => 2,
            ('D', true) => 3,
            ('E', false) => 4,
            ('F', false) => 5,
            ('F', true) => 6,
            ('G', false) => 7,
            ('G', true) => 8,
            ('A', false) => 9,
            ('A', true) => 10,
            ('B', false) => 11,
            _ => {
                return None;
            },
        };
        let octave: u8 = match text.get_char(length - 1) {
            '0' => 0,
            '1' => 1,
            '2' => 2,
            '3' => 3,
            '4' => 4,
            '5' => 5,
            '6' => 6,
            '7' => 7,
            '8' => 8,
            _ => {
                return None;
            },
        };
        MusicalNote::from_index(12 * octave + semitone)
    }
}

/// A note is the note at its place, and the only one there.
pub proof fn law_note_index_round_trip(note: MusicalNote)
    ensures
        0 <= note.index_of() < NOTE_COUNT,
        MusicalNote::at(note.index_of()) == Some(note),
{
}

/// The name of a note names that note.
#[verifier::rlimit(50)]
pub proof fn law_note_name_round_trip(note: MusicalNote)
    ensures
        MusicalNote::named(note.name_of()) == Some(note),
{
    let semitone: int = note.semitone_of();
    let octave: int = note.octave_of();
    assert(0 <= semitone < 12 && 0 <= octave <= 8);
    assert(12 * octave + semitone == note.index_of());
    assert(semitone_named(letter_of(semitone), sharp_of(semitone)) == Some(semitone));
    assert(octave_named(digit_of(octave)) == Some(octave));
    law_note_index_round_trip(note);
}

/// A stretch of a melody: a note, or `None` for a pause, and how long it
/// lasts in milliseconds.
pub type Segment = (Option<MusicalNote>, i64);

/// A melody: its stretches, one after the other.
pub type Melody = Vec<Segment>;

/// The length in milliseconds of the first `count` stretches of a melody.
pub open spec fn elapsed_before(segments: Seq<Segment>, count: int) -> int
    decreases count,
{
    if count <= 0 {
        0
    } else {
        elapsed_before(segments, count - 1) + segments[count - 1].1
    }
}

/// The length of a melody in milliseconds.
pub open spec fn total_ms(segments: Seq<Segment>) -> int {
    elapsed_before(segments, segments.len() as int)
}

/// What the stretches from `from` on play at a time: the note, or the pause,
/// of the first of them that ends after it.
pub open spec fn playing_from(segments: Seq<Segment>, at: int, from: int) -> Option<MusicalNote>
    decreases segments.len() - from,
{
    if from < 0 || from >= segments.len() {
        None
    } else if elapsed_before(segments, from + 1) > at {
        segments[from].0
    } else {
        playing_from(segments, at, from + 1)
    }
}

/// What a melody plays at a time from its beginning: nothing before the
/// beginning and after the end, and else the note, or the pause, of the
/// first stretch that ends after that time.
pub open spec fn playing_at(segments: Seq<Segment>, at: int) -> Option<MusicalNote> {
    if at < 0 || at > total_ms(segments) {
        None
    } else {
        playing_from(segments, at, 0)
    }
}

/// The length of the first stretches of a melody is within the 64 bits of
/// each of them.
proof fn lemma_elapsed_bounded(segments: Seq<Segment>, count: int)
    requires
        0 <= count <= segments.len(),
    ensures
        -count * 0x8000_0000_0000_0000 <= elapsed_before(segments, count) <= count
            * 0x8000_0000_0000_0000,
    decreases count,
{
    if count > 0 {
        lemma_elapsed_bounded(segments, count - 1);
    }
}

/// What a melody can be asked.
pub trait MelodyExt {
    /// The stretches of the melody.
    spec fn segments(&self) -> Seq<Segment>;

    /// The length of the melody in milliseconds.
    fn duration(&self) -> (total: i128)
        ensures
            total == total_ms(self.segments()),
    ;

    /// What the melody plays at a time in milliseconds from its beginning:
    /// `None` for a pause, and before the beginning and after the end.
    fn get_note_at(&self, at: i64) -> (note: Option<MusicalNote>)
        ensures
            note == playing_at(self.segments(), at as int),
    ;
}

impl MelodyExt for Melody {
    open spec fn segments(&self) -> Seq<Segment> {
        self@
    }

    fn duration(&self) -> (total: i128) {
        let mut total: i128 = 0;
        let mut k: usize = 0;
        while k < self.len()
            invariant
                k <= self.len(),
                total == elapsed_before(self@, k as int),
            decreases self.len() - k,
        {
            proof {
                lemma_elapsed_bounded(self@, k as int);
                lemma_elapsed_bounded(self@, k as int + 1);
            }
            total = total + self[k].1 as i128;
            k += 1;
        }
        total
    }

    fn get_note_at(&self, at: i64) -> (note: Option<MusicalNote>) {
        if at < 0 || at as i128 > self.duration() {
            return None;
        }
        let mut elapsed: i128 = 0;
        let mut k: usize = 0;
        while k < self.len()
            invariant
                k <= self.len(),
                0 <= at <= total_ms(self@),
                elapsed == elapsed_before(self@, k as int),
                playing_from(self@, at as int, 0) == playing_from(self@, at as int, k as int),
            decreases self.len() - k,
        {
            proof {
                lemma_elapsed_bounded(self@, k as int);
                lemma_elapsed_bounded(self@, k as int + 1);
            }
            let segment: Segment = self[k];
            assert(elapsed_before(self@, k as int + 1) == elapsed + segment.1);
            if elapsed + segment.1 as i128 > at as i128 {
                assert(playing_from(self@, at as int, k as int) == segment.0);
                return segment.0;
            }
            assert(playing_from(self@, at as int, k as int) == playing_from(
                self@,
                at as int,
                k as int + 1,
            ));
            elapsed = elapsed + segment.1 as i128;
            k += 1;
        }
        None
    }
}

} // verus!
