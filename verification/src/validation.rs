//! Validation rules for packed notes and chords.
//!
//! Every rule separates valid from invalid bit patterns; each forbidden
//! configuration has its own named error so callers can assert on the exact
//! rule a value breaks.

use vstd::prelude::*;

use crate::Chord;
use crate::PITCH_CLASS_B;
use crate::PITCH_CLASS_E;
use crate::Note;
use crate::chord_is_note;
use crate::note_flat;
use crate::note_pitch_class;
use crate::note_sharp;
use crate::only_pitch;
use crate::pitch_present;
use crate::single_pitch;
use vstd::string::StringExecFns;

verus! {

/// The rule a packed note byte breaks, one variant per forbidden
/// configuration.
#[derive(Debug, Clone, Copy, PartialEq, Eq, Hash)]
pub enum NoteValidationError {
    /// The 3-bit letter field is `000`, which names no letter.
    InvalidStart,
    /// The sharp and flat flags are both set.
    SharpAndFlat,
    /// The letter is E and the sharp flag is set: E# does not exist.
    ESharp,
    /// The letter is E and the flat flag is set: F-flat is disallowed.
    FFlat,
    /// The letter is B and the sharp flag is set: B# does not exist.
    BSharp,
    /// The letter is B and the flat flag is set: C-flat is disallowed.
    CFlat,
}

/// Whether a packed note byte satisfies every validity rule: the letter
/// field names a letter, at most one of sharp and flat is set, and neither
/// flag is set on E or B (the two letters whose upper neighbour sits only a
/// semitone away).
pub open spec fn note_valid(raw: u8) -> bool {
    &&& note_pitch_class(raw) != 0
    &&& !(note_sharp(raw) && note_flat(raw))
    &&& !(note_pitch_class(raw) == PITCH_CLASS_E && note_sharp(raw))
    &&& !(note_pitch_class(raw) == PITCH_CLASS_E && note_flat(raw))
    &&& !(note_pitch_class(raw) == PITCH_CLASS_B && note_sharp(raw))
    &&& !(note_pitch_class(raw) == PITCH_CLASS_B && note_flat(raw))
}

/// The outcome of validating a packed note byte: `Ok` exactly when
/// [`note_valid`] holds, and otherwise the first violated rule in the fixed
/// checking order (letter field, both flags, E-sharp, F-flat, B-sharp,
/// C-flat).
pub open spec fn note_check(raw: u8) -> Result<(), NoteValidationError> {
    if note_pitch_class(raw) == 0 {
        Err(NoteValidationError::InvalidStart)
    } else if note_sharp(raw) && note_flat(raw) {
        Err(NoteValidationError::SharpAndFlat)
    } else if note_pitch_class(raw) == PITCH_CLASS_E && note_sharp(raw) {
        Err(NoteValidationError::ESharp)
    } else if note_pitch_class(raw) == PITCH_CLASS_E && note_flat(raw) {
        Err(NoteValidationError::FFlat)
    } else if note_pitch_class(raw) == PITCH_CLASS_B && note_sharp(raw) {
        Err(NoteValidationError::BSharp)
    } else if note_pitch_class(raw) == PITCH_CLASS_B && note_flat(raw) {
        Err(NoteValidationError::CFlat)
    } else {
        Ok(())
    }
}

impl NoteValidationError {
    /// A human-readable statement of the violated rule.
    pub fn as_str(&self) -> (msg: &'static str)
        ensures
            msg@ == self.message(),
    {
        match self {
            Self::InvalidStart => "Invalid Internal Note Representation: Started with '000'. That is not allowed!",
            Self::SharpAndFlat => "Invalid Internal Note Representation: Sharp and Flat cannot both be true!",
            Self::ESharp => "Invalid Internal Note Representation: E# is not allowed!",
            Self::FFlat => "Invalid Internal Note Representation: F♭ is not allowed!",
            Self::BSharp => "Invalid Internal Note Representation: B# is not allowed!",
            Self::CFlat => "Invalid Internal Note Representation: C♭ is not allowed!",
        }
    }

    /// The message [`Self::as_str`] returns for each variant.
    pub open spec fn message(self) -> Seq<char> {
        match self {
            Self::InvalidStart => "Invalid Internal Note Representation: Started with '000'. That is not allowed!"@,
            Self::SharpAndFlat => "Invalid Internal Note Representation: Sharp and Flat cannot both be true!"@,
            Self::ESharp => "Invalid Internal Note Representation: E# is not allowed!"@,
            Self::FFlat => "Invalid Internal Note Representation: F♭ is not allowed!"@,
            Self::BSharp => "Invalid Internal Note Representation: B# is not allowed!"@,
            Self::CFlat => "Invalid Internal Note Representation: C♭ is not allowed!"@,
        }
    }
}

impl Note {
    /// Wraps a raw byte into a note after checking every validity rule.
    ///
    /// Returns the note unchanged on success (the bit pattern is the value;
    /// nothing is normalized). On failure returns the first violated rule in
    /// the fixed checking order of [`note_check`].
    pub fn try_from_raw(raw: u8) -> (result: Result<Note, NoteValidationError>)
        ensures
            result is Ok <==> note_valid(raw),
            result matches Ok(note) ==> note@ == raw,
            result matches Err(e) ==> note_check(raw) == Err::<(), NoteValidationError>(e),
    {
        let note = Note::try_from_raw_unchecked(raw);
        match note.validate() {
            Ok(()) => Ok(note),
            Err(e) => Err(e),
        }
    }

    /// Re-runs every validity rule on an existing note.
    pub fn validate(&self) -> (result: Result<(), NoteValidationError>)
        ensures
            result == note_check(self@),
            result is Ok <==> note_valid(self@),
    {
        match self.validate_inner() {
            Ok(_) => Ok(()),
            Err(e) => Err(e),
        }
    }

    /// Runs the validity rules in their fixed order and hands back the
    /// decoded letter field on success.
    fn validate_inner(&self) -> (result: Result<u8, NoteValidationError>)
        ensures
            result is Ok <==> note_valid(self@),
            result matches Ok(letter) ==> letter == note_pitch_class(self@),
            result matches Err(e) ==> note_check(self@) == Err::<(), NoteValidationError>(e),
    {
        let letter: u8 = self.pitch_class();
        let sharp: bool = self.sharp();
        let flat: bool = self.flat();
        if letter == 0 {
            return Err(NoteValidationError::InvalidStart);
        }
        if sharp && flat {
            return Err(NoteValidationError::SharpAndFlat);
        }
        if letter == PITCH_CLASS_E && sharp {
            return Err(NoteValidationError::ESharp);
        }
        if letter == PITCH_CLASS_E && flat {
            return Err(NoteValidationError::FFlat);
        }
        if letter == PITCH_CLASS_B && sharp {
            return Err(NoteValidationError::BSharp);
        }
        if letter == PITCH_CLASS_B && flat {
            return Err(NoteValidationError::CFlat);
        }
        Ok(letter)
    }

    /// Decodes the letter field of a validated note into its letter name.
    ///
    /// Re-checks every validity rule first and reports the violated one
    /// instead of decoding; the match over the seven letters is proved
    /// exhaustive for every byte that passes validation.
    pub fn get_name_validated(&self) -> (result: Result<&'static str, NoteValidationError>)
        ensures
            result is Ok <==> note_valid(self@),
            result matches Ok(name) ==> name@ == letter_name(note_pitch_class(self@)),
            result matches Err(e) ==> note_check(self@) == Err::<(), NoteValidationError>(e),
    {
        let letter = match self.validate_inner() {
            Err(e) => {
                return Err(e);
            },
            Ok(b) => b,
        };
        proof {
            let raw: u8 = self@;
            assert(raw >> 5 < 8) by (bit_vector);
        }
        match letter {
            1 => Ok("A"),
            2 => Ok("B"),
            3 => Ok("C"),
            4 => Ok("D"),
            5 => Ok("E"),
            6 => Ok("F"),
            7 => Ok("G"),
            _ => vstd::pervasive::unreached(),
        }
    }

    /// Renders a validated note as its letter name followed by `#` if the
    /// sharp flag is set, a flat glyph if the flat flag is set, and nothing
    /// otherwise.
    ///
    /// An invalid note is not rendered: the violated rule comes back instead,
    /// exactly as [`Note::validate`] reports it.
    pub fn name_string(&self) -> (result: Result<String, NoteValidationError>)
        ensures
            result is Ok <==> note_valid(self@),
            result matches Ok(rendered) ==> rendered@ == note_display(self@),
            result matches Err(e) ==> note_check(self@) == Err::<(), NoteValidationError>(e),
    {
        let name = match self.get_name_validated() {
            Err(e) => {
                return Err(e);
            },
            Ok(n) => n,
        };
        let base = String::from_str(name);
        if self.sharp() {
            Ok(base.concat("#"))
        } else if self.flat() {
            Ok(base.concat("♭"))
        } else {
            proof {
                assert(base@ + Seq::<char>::empty() =~= base@);
            }
            Ok(base)
        }
    }
}

/// The letter name that a 3-bit letter field decodes to.
pub open spec fn letter_name(letter: u8) -> Seq<char>
    recommends
        1 <= letter <= 7,
{
    if letter == 1 {
        "A"@
    } else if letter == 2 {
        "B"@
    } else if letter == 3 {
        "C"@
    } else if letter == 4 {
        "D"@
    } else if letter == 5 {
        "E"@
    } else if letter == 6 {
        "F"@
    } else {
        "G"@
    }
}

/// How a validated note is rendered: its letter name followed by `#` for a
/// sharp, a flat glyph for a flat, and nothing for a natural.
pub open spec fn note_display(raw: u8) -> Seq<char>
    recommends
        note_valid(raw),
{
    letter_name(note_pitch_class(raw)) + (if note_sharp(raw) {
        "#"@
    } else if note_flat(raw) {
        "♭"@
    } else {
        Seq::<char>::empty()
    })
}

/// The rule a packed chord value breaks.
#[derive(Debug, Clone, Copy, PartialEq, Eq, Hash)]
pub enum ChordError {
    /// The note flag is set but the presence field does not carry exactly
    /// one pitch.
    MultiplePitchesAsNote,
}

impl ChordError {
    /// A human-readable statement of the violated rule.
    pub fn as_str(&self) -> (msg: &'static str)
        ensures
            msg@ == self.message(),
    {
        match self {
            Self::MultiplePitchesAsNote => "Invalid Internal Chord Representation: A chord used as a note must carry exactly one pitch!",
        }
    }

    /// The message [`Self::as_str`] returns for each variant.
    pub open spec fn message(self) -> Seq<char> {
        match self {
            Self::MultiplePitchesAsNote => "Invalid Internal Chord Representation: A chord used as a note must carry exactly one pitch!"@,
        }
    }
}

/// Whether a packed chord value satisfies its one validity rule: a value
/// whose note flag is set carries exactly one presence bit. With the flag
/// clear, any subset of the twelve presence bits is valid, the empty set and
/// the full chromatic cluster included.
pub open spec fn chord_valid(raw: u16) -> bool {
    chord_is_note(raw) ==> single_pitch(raw)
}

/// When the presence field equals the single-bit mask of `index`, the bit
/// test at any position `j` answers whether `j` is that very index.
proof fn lemma_pitch_mask_point(raw: u16, index: u16, j: u16)
    by (bit_vector)
    requires
        index < 12,
        j < 12,
    ensures
        (raw >> 4 == 0x800u16 >> index) ==> (((raw >> 4) & (0x800u16 >> j) != 0) <==> j == index),
{
}

/// A 12-bit presence field holds exactly one set bit if and only if it is
/// one of the twelve single-bit masks.
proof fn lemma_only_pitch_mask(raw: u16, index: u16)
    requires
        index < 12,
    ensures
        (raw >> 4 == 0x800u16 >> index) <==> only_pitch(raw, index),
{
    if raw >> 4 == 0x800u16 >> index {
        assert forall|j: u16| j < 12 implies (pitch_present(raw, j) <==> j == index) by {
            lemma_pitch_mask_point(raw, index, j);
        }
    }
    if only_pitch(raw, index) {
        assert(raw >> 4 == 0x800u16 >> index) by (bit_vector)
            requires
                index < 12,
                pitch_present(raw, 0) <==> 0u16 == index,
                pitch_present(raw, 1) <==> 1u16 == index,
                pitch_present(raw, 2) <==> 2u16 == index,
                pitch_present(raw, 3) <==> 3u16 == index,
                pitch_present(raw, 4) <==> 4u16 == index,
                pitch_present(raw, 5) <==> 5u16 == index,
                pitch_present(raw, 6) <==> 6u16 == index,
                pitch_present(raw, 7) <==> 7u16 == index,
                pitch_present(raw, 8) <==> 8u16 == index,
                pitch_present(raw, 9) <==> 9u16 == index,
                pitch_present(raw, 10) <==> 10u16 == index,
                pitch_present(raw, 11) <==> 11u16 == index,
        ;
    }
}

/// The power-of-two test on the presence field decides [`single_pitch`]: the
/// field is nonzero and clearing its lowest set bit leaves zero if and only
/// if exactly one presence bit is set.
proof fn lemma_single_pitch_check(raw: u16)
    ensures
        (raw >> 4 != 0 && (raw >> 4) & (((raw >> 4) - 1) as u16) == 0) <==> single_pitch(raw),
{
    let p = raw >> 4;
    if p != 0 && p & (((p - 1) as u16)) == 0 {
        assert(p == 0x800u16 >> 0 || p == 0x800u16 >> 1 || p == 0x800u16 >> 2 || p == 0x800u16
            >> 3 || p == 0x800u16 >> 4 || p == 0x800u16 >> 5 || p == 0x800u16 >> 6 || p
            == 0x800u16 >> 7 || p == 0x800u16 >> 8 || p == 0x800u16 >> 9 || p == 0x800u16 >> 10
            || p == 0x800u16 >> 11) by (bit_vector)
            requires
                p == raw >> 4,
                p != 0,
                p & (((p - 1) as u16)) == 0,
        ;
        assert forall|i: u16| i < 12 && raw >> 4 == 0x800u16 >> i implies single_pitch(raw) by {
            lemma_only_pitch_mask(raw, i);
        }
    }
    if single_pitch(raw) {
        let i = choose|i: u16| i < 12 && only_pitch(raw, i);
        lemma_only_pitch_mask(raw, i);
        assert(p != 0 && p & (((p - 1) as u16)) == 0) by (bit_vector)
            requires
                p == raw >> 4,
                i < 12,
                p == 0x800u16 >> i,
        ;
    }
}

impl Chord {
    /// Wraps a raw 16-bit value into a chord after checking its one
    /// validity rule.
    ///
    /// Returns the chord unchanged on success. A value whose note flag is
    /// set is rejected unless exactly one presence bit is set; with the flag
    /// clear every value is accepted.
    pub fn try_from_raw(raw: u16) -> (result: Result<Chord, ChordError>)
        ensures
            result is Ok <==> chord_valid(raw),
            result matches Ok(chord) ==> chord@ == raw,
            result matches Err(e) ==> e == ChordError::MultiplePitchesAsNote && !chord_valid(raw),
    {
        if raw & 1 == 1 {
            let pitches: u16 = raw >> 4;
            proof {
                lemma_single_pitch_check(raw);
            }
            if pitches != 0 && (pitches & (pitches - 1)) == 0 {
                Ok(Chord::try_from_raw_unchecked(raw))
            } else {
                Err(ChordError::MultiplePitchesAsNote)
            }
        } else {
            Ok(Chord::try_from_raw_unchecked(raw))
        }
    }
}

/// A byte whose letter field is `000` is rejected as [`NoteValidationError::InvalidStart`]
/// whatever its other bits hold.
pub proof fn lemma_invalid_start(raw: u8)
    requires
        note_pitch_class(raw) == 0,
    ensures
        note_check(raw) == Err::<(), NoteValidationError>(NoteValidationError::InvalidStart),
{
}

/// The four boundary spellings E#, F-flat, B# and C-flat are each rejected
/// with their own named error, and no other letter-plus-flag combination is
/// rejected: every letter other than E and B admits both a sharp and a flat.
pub proof fn lemma_boundary_spellings(raw: u8)
    ensures
        note_pitch_class(raw) == PITCH_CLASS_E && note_sharp(raw) && !note_flat(raw) ==> note_check(
            raw,
        ) == Err::<(), NoteValidationError>(NoteValidationError::ESharp),
        note_pitch_class(raw) == PITCH_CLASS_E && note_flat(raw) && !note_sharp(raw) ==> note_check(
            raw,
        ) == Err::<(), NoteValidationError>(NoteValidationError::FFlat),
        note_pitch_class(raw) == PITCH_CLASS_B && note_sharp(raw) && !note_flat(raw) ==> note_check(
            raw,
        ) == Err::<(), NoteValidationError>(NoteValidationError::BSharp),
        note_pitch_class(raw) == PITCH_CLASS_B && note_flat(raw) && !note_sharp(raw) ==> note_check(
            raw,
        ) == Err::<(), NoteValidationError>(NoteValidationError::CFlat),
        note_pitch_class(raw) != 0 && note_pitch_class(raw) != PITCH_CLASS_E && note_pitch_class(raw)
            != PITCH_CLASS_B && !(note_sharp(raw) && note_flat(raw)) ==> note_check(raw) is Ok,
{
}

} // verus!
