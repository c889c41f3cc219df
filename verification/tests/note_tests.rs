use libmusic::Note;
use libmusic::validation::NoteValidationError;

/// Independent reference check of the six note validity rules, written
/// directly over the decoded fields.
fn reference_error(raw: u8) -> Option<NoteValidationError> {
    let letter = raw >> 5;
    let sharp = (raw >> 4) & 1 == 1;
    let flat = (raw >> 3) & 1 == 1;
    if letter == 0 {
        Some(NoteValidationError::InvalidStart)
    } else if sharp && flat {
        Some(NoteValidationError::SharpAndFlat)
    } else if letter == 5 && sharp {
        Some(NoteValidationError::ESharp)
    } else if letter == 5 && flat {
        Some(NoteValidationError::FFlat)
    } else if letter == 2 && sharp {
        Some(NoteValidationError::BSharp)
    } else if letter == 2 && flat {
        Some(NoteValidationError::CFlat)
    } else {
        None
    }
}

#[test]
fn try_from_raw_matches_reference_over_all_bytes() {
    for raw in 0..=u8::MAX {
        match (Note::try_from_raw(raw), reference_error(raw)) {
            (Ok(note), None) => assert_eq!(note.raw(), raw),
            (Err(e), Some(expected)) => assert_eq!(e, expected),
            (Ok(_), Some(e)) => panic!("raw {raw:#010b} accepted, expected {e:?}"),
            (Err(e), None) => panic!("raw {raw:#010b} rejected with {e:?}"),
        }
    }
}

#[test]
fn valid_note_round_trips_through_its_fields() {
    for raw in 0..=u8::MAX {
        if let Ok(note) = Note::try_from_raw(raw) {
            let sharp_bit = if note.sharp() { 1u8 } else { 0 };
            let flat_bit = if note.flat() { 1u8 } else { 0 };
            let reencoded =
                (note.pitch_class() << 5) | (sharp_bit << 4) | (flat_bit << 3) | note.octave();
            assert_eq!(reencoded, raw);
        }
    }
}

#[test]
fn sharp_and_flat_outranks_the_letter_rules() {
    // E with both flags set: the both-flags rule is checked before the
    // E-sharp and F-flat rules.
    let result = Note::try_from_raw(0b101_1_1_000);
    assert_eq!(result.err(), Some(NoteValidationError::SharpAndFlat));
    // Same for B with both flags set.
    let result = Note::try_from_raw(0b010_1_1_010);
    assert_eq!(result.err(), Some(NoteValidationError::SharpAndFlat));
}

#[test]
fn zero_letter_field_is_invalid_start_whatever_the_other_bits() {
    assert_eq!(
        Note::try_from_raw(0b000_0_0_000).err(),
        Some(NoteValidationError::InvalidStart)
    );
    assert_eq!(
        Note::try_from_raw(0b000_1_0_101).err(),
        Some(NoteValidationError::InvalidStart)
    );
    assert_eq!(
        Note::try_from_raw(0b000_1_1_111).err(),
        Some(NoteValidationError::InvalidStart)
    );
}

#[test]
fn boundary_spellings_are_each_rejected_by_name() {
    assert_eq!(
        Note::try_from_raw(0b101_1_0_000).err(),
        Some(NoteValidationError::ESharp)
    );
    assert_eq!(
        Note::try_from_raw(0b101_0_1_000).err(),
        Some(NoteValidationError::FFlat)
    );
    assert_eq!(
        Note::try_from_raw(0b010_1_0_000).err(),
        Some(NoteValidationError::BSharp)
    );
    assert_eq!(
        Note::try_from_raw(0b010_0_1_000).err(),
        Some(NoteValidationError::CFlat)
    );
}

#[test]
fn every_other_letter_admits_sharp_and_flat() {
    // Letters A (001), C (011), D (100), F (110), G (111).
    for letter in [0b001u8, 0b011, 0b100, 0b110, 0b111] {
        let natural = letter << 5;
        let sharped = (letter << 5) | 0b000_1_0_000;
        let flatted = (letter << 5) | 0b000_0_1_000;
        assert!(Note::try_from_raw(natural).is_ok());
        assert!(Note::try_from_raw(sharped).is_ok());
        assert!(Note::try_from_raw(flatted).is_ok());
    }
    // B (010) and E (101) admit neither flag.
    for letter in [0b010u8, 0b101] {
        assert!(Note::try_from_raw(letter << 5).is_ok());
        assert!(Note::try_from_raw((letter << 5) | 0b000_1_0_000).is_err());
        assert!(Note::try_from_raw((letter << 5) | 0b000_0_1_000).is_err());
    }
}

#[test]
fn validate_agrees_with_try_from_raw() {
    for raw in 0..=u8::MAX {
        let unchecked = Note::try_from_raw_unchecked(raw);
        assert_eq!(unchecked.raw(), raw);
        assert_eq!(unchecked.validate().err(), Note::try_from_raw(raw).err());
    }
}

#[test]
fn field_accessors_decode_the_packed_byte() {
    let note = Note::try_from_raw(0b100_1_0_110).unwrap();
    assert_eq!(note.pitch_class(), 0b100);
    assert!(note.sharp());
    assert!(!note.flat());
    assert_eq!(note.octave(), 6);
}

#[test]
fn get_name_validated_decodes_each_letter() {
    let names = ["A", "B", "C", "D", "E", "F", "G"];
    for letter in 1..=7u8 {
        let note = Note::try_from_raw(letter << 5).unwrap();
        assert_eq!(
            note.get_name_validated().ok(),
            Some(names[(letter - 1) as usize])
        );
    }
}

#[test]
fn get_name_validated_reports_the_violated_rule() {
    let invalid = Note::try_from_raw_unchecked(0b010_1_0_000);
    assert_eq!(
        invalid.get_name_validated().err(),
        Some(NoteValidationError::BSharp)
    );
    let invalid = Note::try_from_raw_unchecked(0b000_0_0_011);
    assert_eq!(
        invalid.get_name_validated().err(),
        Some(NoteValidationError::InvalidStart)
    );
}

#[test]
fn name_string_renders_letter_and_accidental() {
    let natural = Note::try_from_raw(0b011_0_0_011).unwrap();
    assert_eq!(natural.name_string().ok(), Some(String::from("C")));
    let sharped = Note::try_from_raw(0b011_1_0_011).unwrap();
    assert_eq!(sharped.name_string().ok(), Some(String::from("C#")));
    let flatted = Note::try_from_raw(0b011_0_1_011).unwrap();
    assert_eq!(flatted.name_string().ok(), Some(String::from("C♭")));
}

#[test]
fn name_string_reports_the_violated_rule() {
    let invalid = Note::try_from_raw_unchecked(0b101_1_1_000);
    assert_eq!(
        invalid.name_string().err(),
        Some(NoteValidationError::SharpAndFlat)
    );
}

#[test]
fn error_messages_name_each_rule() {
    assert_eq!(
        NoteValidationError::InvalidStart.as_str(),
        "Invalid Internal Note Representation: Started with '000'. That is not allowed!"
    );
    assert_eq!(
        NoteValidationError::SharpAndFlat.as_str(),
        "Invalid Internal Note Representation: Sharp and Flat cannot both be true!"
    );
    assert_eq!(
        NoteValidationError::ESharp.as_str(),
        "Invalid Internal Note Representation: E# is not allowed!"
    );
    assert_eq!(
        NoteValidationError::FFlat.as_str(),
        "Invalid Internal Note Representation: F♭ is not allowed!"
    );
    assert_eq!(
        NoteValidationError::BSharp.as_str(),
        "Invalid Internal Note Representation: B# is not allowed!"
    );
    assert_eq!(
        NoteValidationError::CFlat.as_str(),
        "Invalid Internal Note Representation: C♭ is not allowed!"
    );
}
