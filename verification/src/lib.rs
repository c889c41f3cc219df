//! A compact binary encoding for musical pitch data.
//!
//! A [`Note`] packs one pitch into a single byte:
//!
//! ```text
//! | letter | # | b | octave |
//! | x x x  | x | x | x x x  |
//! ```
//!
//! The 3-bit letter field encodes one of the seven letter names
//! (`001` = A through `111` = G; `000` is forbidden), the next bit marks a
//! sharp, the bit after it marks the value as the enharmonic (flat) spelling
//! of that letter's sharp, and the low 3 bits select one of eight octaves.
//!
//! A [`Chord`] packs a set of chromatic pitch classes into sixteen bits:
//!
//! ```text
//! | presence (A, A#, B, C, C#, D, D#, E, F, F#, G, G#) | octave | note flag |
//! | x  x   x  x  x   x  x   x  x  x   x  x             | x x x  | x         |
//! ```
//!
//! Bit 15 marks A as present, bit 14 marks A#, and so on down to bit 4 for
//! G#; bits 3..=1 hold the reference octave and bit 0 says whether the value
//! stands for a chord (`0`) or is reused as a single-pitch carrier (`1`).
//!
//! Both types are immutable scalar values. The validating constructors
//! ([`Note::try_from_raw`], [`Chord::try_from_raw`]) are the only checked way
//! in; every rejected bit pattern is reported with the exact rule it breaks.

use vstd::prelude::*;

pub mod validation;

verus! {

/// Letter code of E, the lower note of the E-F semitone boundary.
pub const PITCH_CLASS_E: u8 = 5;

/// Letter code of B, the lower note of the B-C semitone boundary.
pub const PITCH_CLASS_B: u8 = 2;

/// A single pitch packed into one byte.
///
/// See the crate documentation for the bit layout. A `Note` built through
/// [`Note::try_from_raw`] satisfies every validity rule; one built through
/// [`Note::try_from_raw_unchecked`] may not, and the decoding methods then
/// report the violated rule instead of producing output.
pub struct Note(u8);

/// A set of chromatic pitch classes with a reference octave, packed into
/// sixteen bits.
///
/// See the crate documentation for the bit layout. Any subset of the twelve
/// presence bits is a valid chord; only a value whose note flag is set is
/// constrained (it must carry exactly one presence bit).
pub struct Chord(u16);

/// A register index, 0 (lowest) through 7 (highest).
pub struct Octave(u8);

impl View for Note {
    type V = u8;

    closed spec fn view(&self) -> u8 {
        self.0
    }
}

impl View for Chord {
    type V = u16;

    closed spec fn view(&self) -> u16 {
        self.0
    }
}

/// The 3-bit letter field of a packed note: `001` = A through `111` = G.
pub open spec fn note_pitch_class(raw: u8) -> u8 {
    raw >> 5
}

/// The sharp flag of a packed note.
pub open spec fn note_sharp(raw: u8) -> bool {
    raw & 0x10 != 0
}

/// The flat flag of a packed note.
pub open spec fn note_flat(raw: u8) -> bool {
    raw & 0x08 != 0
}

/// The 3-bit octave field of a packed note.
pub open spec fn note_octave(raw: u8) -> u8 {
    raw & 0x07
}

/// Packs the four note fields back into a byte; inverse of the four field
/// readers above for every in-range field combination.
pub open spec fn note_encode(letter: u8, sharp: bool, flat: bool, octave: u8) -> u8
    recommends
        letter < 8,
        octave < 8,
{
    ((letter << 5) | (if sharp { 0x10u8 } else { 0u8 }) | (if flat { 0x08u8 } else { 0u8 })
        | octave) as u8
}

impl Note {
    /// Wraps a raw byte without validating it.
    ///
    /// The caller asserts that the validity rules already hold; nothing here
    /// checks them. A value built from an invalid byte is not repaired: every
    /// decoding method re-checks and reports the violated rule at use time.
    pub fn try_from_raw_unchecked(raw: u8) -> (note: Note)
        ensures
            note@ == raw,
    {
        Note(raw)
    }

    /// The raw packed byte; the canonical serialization of the note.
    pub fn raw(&self) -> (raw: u8)
        ensures
            raw == self@,
    {
        self.0
    }

    /// The 3-bit letter field, `001` = A through `111` = G.
    pub fn pitch_class(&self) -> (letter: u8)
        ensures
            letter == note_pitch_class(self@),
    {
        self.0 >> 5
    }

    /// Whether the sharp flag is set.
    pub fn sharp(&self) -> (sharp: bool)
        ensures
            sharp == note_sharp(self@),
    {
        self.0 & 0x10 != 0
    }

    /// Whether the flat flag is set.
    pub fn flat(&self) -> (flat: bool)
        ensures
            flat == note_flat(self@),
    {
        self.0 & 0x08 != 0
    }

    /// The 3-bit octave field, 0 (lowest) through 7 (highest).
    pub fn octave(&self) -> (octave: u8)
        ensures
            octave == note_octave(self@),
    {
        self.0 & 0x07
    }
}

/// Re-packing the four decoded fields of any byte reproduces that byte.
///
/// In particular every successfully validated note round-trips losslessly
/// through its (letter, sharp, flat, octave) fields.
pub proof fn lemma_note_round_trip(raw: u8)
    by (bit_vector)
    ensures
        note_encode(note_pitch_class(raw), note_sharp(raw), note_flat(raw), note_octave(raw))
            == raw,
{
}

/// The 12-bit presence field of a packed chord, A in the highest bit down to
/// G# in the lowest.
pub open spec fn chord_pitches(raw: u16) -> u16 {
    raw >> 4
}

/// The 3-bit octave field of a packed chord.
pub open spec fn chord_octave(raw: u16) -> u8 {
    ((raw >> 1) & 7) as u8
}

/// The note flag of a packed chord: set when the value is reused as a
/// single-pitch carrier rather than a chord.
pub open spec fn chord_is_note(raw: u16) -> bool {
    raw & 1 == 1
}

/// Whether the chromatic pitch class `index` (A = 0 through G# = 11) is
/// present in a packed chord.
pub open spec fn pitch_present(raw: u16, index: u16) -> bool
    recommends
        index < 12,
{
    (raw >> 4) & (0x800u16 >> index) != 0
}

/// Whether the chromatic pitch class `index` is the one and only pitch
/// present in a packed chord.
pub open spec fn only_pitch(raw: u16, index: u16) -> bool
    recommends
        index < 12,
{
    forall|j: u16| j < 12 ==> (pitch_present(raw, j) <==> j == index)
}

/// Whether exactly one of the twelve presence bits of a packed chord is set.
pub open spec fn single_pitch(raw: u16) -> bool {
    exists|i: u16| i < 12 && only_pitch(raw, i)
}

/// Packs the three chord fields back into sixteen bits; inverse of the three
/// field readers above for every in-range field combination.
pub open spec fn chord_encode(pitches: u16, octave: u8, is_note: bool) -> u16
    recommends
        pitches < 0x1000,
        octave < 8,
{
    ((pitches << 4) | ((octave as u16) << 1) | (if is_note {
        1u16
    } else {
        0u16
    })) as u16
}

/// Chromatic index (A = 0 through G# = 11) of a letter's natural pitch.
pub open spec fn letter_chromatic_index(letter: u8) -> u16
    recommends
        1 <= letter <= 7,
{
    if letter == 1 {
        0
    } else if letter == 2 {
        2
    } else if letter == 3 {
        3
    } else if letter == 4 {
        5
    } else if letter == 5 {
        7
    } else if letter == 6 {
        8
    } else {
        10
    }
}

/// Chromatic index of a validated note: the letter's natural index, raised a
/// semitone when the sharp flag or the flat flag is set (a flat spelling
/// names the same pitch as the letter's own sharp).
pub open spec fn note_chromatic_index(raw: u8) -> u16
    recommends
        validation::note_valid(raw),
{
    (letter_chromatic_index(note_pitch_class(raw)) + (if note_sharp(raw) || note_flat(raw) {
        1u16
    } else {
        0u16
    })) as u16
}

impl Chord {
    /// Wraps a raw 16-bit value without validating it.
    ///
    /// The caller asserts that a set note flag comes with exactly one
    /// presence bit; nothing here checks it.
    pub fn try_from_raw_unchecked(raw: u16) -> (chord: Chord)
        ensures
            chord@ == raw,
    {
        Chord(raw)
    }

    /// The raw packed value; the canonical serialization of the chord.
    pub fn raw(&self) -> (raw: u16)
        ensures
            raw == self@,
    {
        self.0
    }

    /// The 12-bit presence field, A in the highest bit down to G# in the
    /// lowest.
    pub fn pitch_presence(&self) -> (pitches: u16)
        ensures
            pitches == chord_pitches(self@),
    {
        self.0 >> 4
    }

    /// The 3-bit octave field, 0 (lowest) through 7 (highest).
    pub fn octave(&self) -> (octave: u8)
        ensures
            octave == chord_octave(self@),
    {
        ((self.0 >> 1) & 7) as u8
    }

    /// Whether the value is reused as a single-pitch carrier rather than a
    /// chord.
    pub fn is_note_flag(&self) -> (is_note: bool)
        ensures
            is_note == chord_is_note(self@),
    {
        self.0 & 1 == 1
    }

    /// Whether the chromatic pitch class `index` (A = 0 through G# = 11) is
    /// present; `false` for any index past the twelve presence bits.
    pub fn has_pitch(&self, index: u8) -> (present: bool)
        ensures
            present == (index < 12 && pitch_present(self@, index as u16)),
    {
        if index >= 12 {
            false
        } else {
            (self.0 >> 4) & (0x800u16 >> (index as u16)) != 0
        }
    }

    /// Returns a new chord on the given octave, with the presence bits and
    /// the note flag unchanged.
    ///
    /// Only 3 bits of octave are stored: a value above 7 is narrowed to its
    /// low 3 bits. The narrowing is defined behaviour, not an error.
    pub fn shift_octave(&self, octave: u8) -> (shifted: Chord)
        ensures
            chord_pitches(shifted@) == chord_pitches(self@),
            chord_is_note(shifted@) == chord_is_note(self@),
            chord_octave(shifted@) == octave & 7,
    {
        let mut bits: u16 = self.0;
        bits &= 0xFFF1;
        bits |= ((octave & 0b111) as u16) << 1;
        proof {
            let a: u16 = self@;
            let o: u8 = octave;
            assert(((a & 0xFFF1) | (((o & 7) as u16) << 1)) >> 4 == a >> 4) by (bit_vector);
            assert((((a & 0xFFF1) | (((o & 7) as u16) << 1)) & 1) == (a & 1)) by (bit_vector);
            assert(((((a & 0xFFF1) | (((o & 7) as u16) << 1)) >> 1) & 7) as u8 == (o & 7))
                by (bit_vector);
        }
        Chord(bits)
    }

    /// Whether the chord's presence set includes the pitch class of a
    /// validated note, ignoring octave.
    ///
    /// The note is mapped enharmonically: a flat spelling lands on the same
    /// chromatic index as the stored letter's sharp. An invalid note is
    /// never reported as contained.
    pub fn contains(&self, note: &Note) -> (present: bool)
        ensures
            present == (validation::note_valid(note@) && pitch_present(
                self@,
                note_chromatic_index(note@),
            )),
    {
        match note.validate() {
            Err(_) => false,
            Ok(()) => {
                let letter = note.pitch_class();
                proof {
                    let raw: u8 = note@;
                    assert(raw >> 5 < 8) by (bit_vector);
                }
                let base: u16 = match letter {
                    1 => 0,
                    2 => 2,
                    3 => 3,
                    4 => 5,
                    5 => 7,
                    6 => 8,
                    7 => 10,
                    _ => vstd::pervasive::unreached(),
                };
                let index: u16 = if note.sharp() || note.flat() {
                    base + 1
                } else {
                    base
                };
                (self.0 >> 4) & (0x800u16 >> index) != 0
            },
        }
    }
}

/// Re-packing the three decoded fields of any 16-bit value reproduces that
/// value: every chord round-trips losslessly through its (presence, octave,
/// note flag) fields.
pub proof fn lemma_chord_round_trip(raw: u16)
    by (bit_vector)
    ensures
        chord_encode(chord_pitches(raw), chord_octave(raw), chord_is_note(raw)) == raw,
{
}

} // verus!
