//! Pitch classes and pitches.

use std::cmp::Ordering;
use vstd::prelude::*;
use vstd::std_specs::cmp::PartialOrdSpecImpl;

verus! {

/// One of the twelve pitch classes, in ascending chromatic order from `C`.
#[derive(Clone, Copy, Debug, PartialEq, Eq, Structural, PartialOrd, Ord, Hash)]
pub enum Note {
    C,
    CSharp,
    D,
    DSharp,
    E,
    F,
    FSharp,
    G,
    GSharp,
    A,
    ASharp,
    B,
}

impl Note {
    /// Position of the pitch class in the chromatic scale: `C` is 0, `B` is 11.
    pub open spec fn spec_chromatic_index(self) -> u8 {
        match self {
            Note::C => 0,
            Note::CSharp => 1,
            Note::D => 2,
            Note::DSharp => 3,
            Note::E => 4,
            Note::F => 5,
            Note::FSharp => 6,
            Note::G => 7,
            Note::GSharp => 8,
            Note::A => 9,
            Note::ASharp => 10,
            Note::B => 11,
        }
    }

    /// The pitch class at a chromatic position; positions are read modulo 12,
    /// so every integer names a pitch class.
    pub open spec fn at_index(index: int) -> Note {
        let i = index % 12;
        if i == 0 {
            Note::C
        } else if i == 1 {
            Note::CSharp
        } else if i == 2 {
            Note::D
        } else if i == 3 {
            Note::DSharp
        } else if i == 4 {
            Note::E
        } else if i == 5 {
            Note::F
        } else if i == 6 {
            Note::FSharp
        } else if i == 7 {
            Note::G
        } else if i == 8 {
            Note::GSharp
        } else if i == 9 {
            Note::A
        } else if i == 10 {
            Note::ASharp
        } else {
            Note::B
        }
    }

    /// Whether the pitch class is one of the five raised keys.
    pub open spec fn spec_is_black_key(self) -> bool {
        self == Note::CSharp || self == Note::DSharp || self == Note::FSharp
            || self == Note::GSharp || self == Note::ASharp
    }

    /// The pitch class `semitones` steps above `self` (below, when negative),
    /// wrapping around the octave.
    pub open spec fn spec_add_semitones(self, semitones: int) -> Note {
        Note::at_index(self.spec_chromatic_index() + semitones)
    }

    /// Position of the pitch class in the chromatic scale, from 0 for `C` to
    /// 11 for `B`.
    #[verifier::when_used_as_spec(spec_chromatic_index)]
    pub fn chromatic_index(self) -> (index: u8)
        ensures
            index == self.spec_chromatic_index(),
            index < 12,
    {
        match self {
            Note::C => 0,
            Note::CSharp => 1,
            Note::D => 2,
            Note::DSharp => 3,
            Note::E => 4,
            Note::F => 5,
            Note::FSharp => 6,
            Note::G => 7,
            Note::GSharp => 8,
            Note::A => 9,
            Note::ASharp => 10,
            Note::B => 11,
        }
    }

    /// The pitch class at chromatic position `index`, if `index` is below 12.
    pub fn from_chromatic_index(index: u8) -> (note: Option<Note>)
        ensures
            index < 12 ==> note == Some(Note::at_index(index as int)),
            index >= 12 ==> note is None,
    {
        match index {
            0 => Some(Note::C),
            1 => Some(Note::CSharp),
            2 => Some(Note::D),
            3 => Some(Note::DSharp),
            4 => Some(Note::E),
            5 => Some(Note::F),
            6 => Some(Note::FSharp),
            7 => Some(Note::G),
            8 => Some(Note::GSharp),
            9 => Some(Note::A),
            10 => Some(Note::ASharp),
            11 => Some(Note::B),
            _ => None,
        }
    }

    /// Whether the key of this pitch class is a black key.
    #[verifier::when_used_as_spec(spec_is_black_key)]
    pub fn is_black_key(self) -> (black: bool)
        ensures
            black == self.spec_is_black_key(),
    {
        match self {
            Note::CSharp | Note::DSharp | Note::FSharp | Note::GSharp | Note::ASharp => true,
            _ => false,
        }
    }

    /// Steps `semitones` semitones up the chromatic scale (down, when
    /// negative), wrapping around the octave.
    pub fn add_semitones(self, semitones: i32) -> (note: Note)
        ensures
            note == self.spec_add_semitones(semitones as int),
    {
        let start: i32 = self.chromatic_index() as i32;
        let step: i32 = if semitones >= 0 {
            semitones % 12
        } else {
            11 - (-(semitones + 1)) % 12
        };
        assert(step == semitones as int % 12);
        let index: u8 = ((start + step) % 12) as u8;
        assert(index as int == (start + semitones) % 12);
        match Note::from_chromatic_index(index) {
            Some(note) => note,
            None => self,
        }
    }

    /// A position and its pitch class determine each other.
    pub proof fn lemma_index_round_trip(self, index: int)
        ensures
            Note::at_index(self.spec_chromatic_index() as int) == self,
            0 <= index < 12 ==> Note::at_index(index).spec_chromatic_index() == index,
            Note::at_index(index).spec_chromatic_index() == index % 12,
    {
    }

    /// Stepping by semitones is an action of the integers modulo 12: no step
    /// and a whole octave both change nothing, and two steps in a row are
    /// one step by their sum.
    pub proof fn lemma_add_semitones_group_action(self, a: int, b: int)
        ensures
            self.spec_add_semitones(0) == self,
            self.spec_add_semitones(12) == self,
            self.spec_add_semitones(a).spec_add_semitones(b) == self.spec_add_semitones(a + b),
            self.spec_add_semitones(a + 12) == self.spec_add_semitones(a),
    {
    }
}

/// A pitch: an octave, a pitch class within it, and a fine-tune offset in
/// cents. Pitches are ordered by octave, then by chromatic position, then by
/// fine-tune.
#[derive(Clone, Copy, Debug, PartialEq, Eq, Structural, Ord, Hash)]
pub struct Pitch {
    pub octave: i32,
    pub note: Note,
    pub fine_tune: i32,
}

impl Pitch {
    /// The pitch one semitone higher. Passing `B` moves to `C` of the next
    /// octave; the octave number wraps at the end of its range, so that the
    /// step can always be undone.
    pub open spec fn spec_semitone_up(self) -> Pitch {
        Pitch {
            octave: if self.note != Note::B {
                self.octave
            } else if self.octave == i32::MAX {
                i32::MIN
            } else {
                (self.octave + 1) as i32
            },
            note: self.note.spec_add_semitones(1),
            fine_tune: self.fine_tune,
        }
    }

    /// The pitch one semitone lower. Passing `C` moves to `B` of the previous
    /// octave; the octave number wraps at the end of its range, so that the
    /// step can always be undone.
    pub open spec fn spec_semitone_down(self) -> Pitch {
        Pitch {
            octave: if self.note != Note::C {
                self.octave
            } else if self.octave == i32::MIN {
                i32::MAX
            } else {
                (self.octave - 1) as i32
            },
            note: self.note.spec_add_semitones(-1),
            fine_tune: self.fine_tune,
        }
    }

    /// Whether `self` is strictly lower than `other`: by octave first, then by
    /// chromatic position, then by fine-tune.
    pub open spec fn is_below(self, other: Pitch) -> bool {
        self.octave < other.octave || (self.octave == other.octave && (
            self.note.spec_chromatic_index() < other.note.spec_chromatic_index() || (
                self.note == other.note && self.fine_tune < other.fine_tune)))
    }

    /// The pitch of the given octave, pitch class and fine-tune in cents.
    pub fn new(octave: i32, note: Note, fine_tune: i32) -> (pitch: Pitch)
        ensures
            pitch == (Pitch { octave, note, fine_tune }),
    {
        Pitch { octave, note, fine_tune }
    }

    /// The octave.
    pub fn octave(&self) -> (octave: i32)
        ensures
            octave == self.octave,
    {
        self.octave
    }

    /// The pitch class.
    pub fn note(&self) -> (note: Note)
        ensures
            note == self.note,
    {
        self.note
    }

    /// The fine-tune offset in cents.
    pub fn fine_tune(&self) -> (fine_tune: i32)
        ensures
            fine_tune == self.fine_tune,
    {
        self.fine_tune
    }

    /// The pitch one semitone higher, with the fine-tune kept.
    #[verifier::when_used_as_spec(spec_semitone_up)]
    pub fn semitone_up(self) -> (pitch: Pitch)
        ensures
            pitch == self.spec_semitone_up(),
    {
        let octave: i32 = match self.note {
            Note::B => self.octave.wrapping_add(1),
            _ => self.octave,
        };
        Pitch { octave, note: self.note.add_semitones(1), fine_tune: self.fine_tune }
    }

    /// The pitch one semitone lower, with the fine-tune kept.
    #[verifier::when_used_as_spec(spec_semitone_down)]
    pub fn semitone_down(self) -> (pitch: Pitch)
        ensures
            pitch == self.spec_semitone_down(),
    {
        let octave: i32 = match self.note {
            Note::C => self.octave.wrapping_sub(1),
            _ => self.octave,
        };
        Pitch { octave, note: self.note.add_semitones(-1), fine_tune: self.fine_tune }
    }

    /// A semitone up and a semitone down undo each other, in either order and
    /// at every octave.
    pub proof fn lemma_semitone_round_trip(self)
        ensures
            self.spec_semitone_up().spec_semitone_down() == self,
            self.spec_semitone_down().spec_semitone_up() == self,
    {
    }

    /// A semitone up moves one place up the chromatic scale, and changes the
    /// octave exactly when it passes `B`. But for the one wrap at the end of
    /// the octave range, the pitch it gives is higher.
    pub proof fn lemma_semitone_up_steps(self)
        ensures
            self.note != Note::B ==> self.spec_semitone_up().note.spec_chromatic_index()
                == self.note.spec_chromatic_index() + 1,
            self.note != Note::B ==> self.spec_semitone_up().octave == self.octave,
            self.note == Note::B ==> self.spec_semitone_up().note == Note::C,
            self.note == Note::B && self.octave < i32::MAX ==> self.spec_semitone_up().octave
                == self.octave + 1,
            !(self.note == Note::B && self.octave == i32::MAX) ==> self.is_below(
                self.spec_semitone_up(),
            ),
    {
    }

    /// `is_below` is a strict total order on pitches.
    pub proof fn lemma_is_below_total_order(self, other: Pitch, third: Pitch)
        ensures
            !self.is_below(self),
            self.is_below(other) || other.is_below(self) || self == other,
            !(self.is_below(other) && other.is_below(self)),
            self.is_below(other) && other.is_below(third) ==> self.is_below(third),
    {
    }
}

impl PartialOrd for Pitch {
    fn partial_cmp(&self, other: &Pitch) -> (order: Option<Ordering>) {
        if self.octave < other.octave {
            Some(Ordering::Less)
        } else if self.octave > other.octave {
            Some(Ordering::Greater)
        } else if self.note.chromatic_index() < other.note.chromatic_index() {
            Some(Ordering::Less)
        } else if self.note.chromatic_index() > other.note.chromatic_index() {
            Some(Ordering::Greater)
        } else if self.fine_tune < other.fine_tune {
            Some(Ordering::Less)
        } else if self.fine_tune > other.fine_tune {
            Some(Ordering::Greater)
        } else {
            Some(Ordering::Equal)
        }
    }
}

impl PartialOrdSpecImpl for Pitch {
    open spec fn obeys_partial_cmp_spec() -> bool {
        true
    }

    open spec fn partial_cmp_spec(&self, other: &Pitch) -> Option<Ordering> {
        if self.is_below(*other) {
            Some(Ordering::Less)
        } else if other.is_below(*self) {
            Some(Ordering::Greater)
        } else {
            Some(Ordering::Equal)
        }
    }
}

} // verus!
