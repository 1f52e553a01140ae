use music_theory::{Accidental, Interval, Letter, MusicError, Note, Pitch};

fn table() -> Vec<Pitch> {
    let names = ["A", "Bb", "B", "C", "Db", "D", "Eb", "E", "F", "Gb", "G", "Ab"];
    names.iter().map(|n| Pitch::from_string(n.to_string()).unwrap()).collect()
}

#[test]
fn builds_pitch_from_string() {
    let pitch = Pitch::from_string("A".to_string()).unwrap();
    assert_eq!(pitch.letter, Letter::A);
    assert_eq!(pitch.accidental, None);

    let pitch = Pitch::from_string("Cb".to_string()).unwrap();
    assert_eq!(pitch.letter, Letter::C);
    assert_eq!(pitch.accidental, Some(Accidental::Flat));

    let pitch = Pitch::from_string("F#".to_string()).unwrap();
    assert_eq!(pitch.letter, Letter::F);
    assert_eq!(pitch.accidental, Some(Accidental::Sharp));
}

#[test]
fn builds_pitch_from_interval() {
    let pitch = Pitch::from_string("C".to_string()).unwrap();
    let interval = Interval::from_semitones(4).unwrap();
    let new_pitch = Pitch::from_interval(pitch, interval).unwrap();
    assert_eq!(new_pitch, Pitch::from_string("E".to_string()).unwrap());

    let pitch = Pitch::from_string("G".to_string()).unwrap();
    let interval = Interval::from_semitones(3).unwrap();
    let new_pitch = Pitch::from_interval(pitch, interval).unwrap();
    assert_eq!(new_pitch, Pitch::from_string("Bb".to_string()).unwrap());
}

#[test]
fn builds_pitch_from_semitones() {
    let pitch = Pitch::from_string("C".to_string()).unwrap();
    let new_pitch = Pitch::from_semitones(pitch, 4).unwrap();
    assert_eq!(new_pitch, Pitch::from_string("E".to_string()).unwrap());

    let pitch = Pitch::from_string("G".to_string()).unwrap();
    let new_pitch = Pitch::from_semitones(pitch, 3).unwrap();
    assert_eq!(new_pitch, Pitch::from_string("Bb".to_string()).unwrap());
}

#[test]
fn parses_unicode_accidentals() {
    let pitch = Pitch::from_string("A♭".to_string()).unwrap();
    assert_eq!(pitch.letter, Letter::A);
    assert_eq!(pitch.accidental, Some(Accidental::Flat));

    let pitch = Pitch::from_string("G♯".to_string()).unwrap();
    assert_eq!(pitch.letter, Letter::G);
    assert_eq!(pitch.accidental, Some(Accidental::Sharp));
}

#[test]
fn ignores_unknown_second_character() {
    let pitch = Pitch::from_string("D2".to_string()).unwrap();
    assert_eq!(pitch.letter, Letter::D);
    assert_eq!(pitch.accidental, None);
}

#[test]
fn rejects_invalid_letter() {
    assert_eq!(Pitch::from_string("H".to_string()), Err(MusicError::InvalidLetter));
    assert_eq!(Pitch::from_string("a".to_string()), Err(MusicError::InvalidLetter));
    assert_eq!(Pitch::from_string("".to_string()), Err(MusicError::InvalidLetter));
}

#[test]
fn transposition_cycles_through_the_table() {
    for pitch in table() {
        for n in 0..=24u8 {
            let direct = Pitch::from_semitones(pitch, n).unwrap();
            let reduced = Pitch::from_semitones(pitch, n % 12).unwrap();
            assert_eq!(direct, reduced);
        }
        assert_eq!(Pitch::from_semitones(pitch, 12).unwrap(), pitch);
        assert_eq!(Pitch::from_semitones(pitch, 0).unwrap(), pitch);
    }
}

#[test]
fn transposition_composes() {
    for pitch in table() {
        for a in 0..=12u8 {
            for b in 0..=12u8 {
                let two_steps =
                    Pitch::from_semitones(Pitch::from_semitones(pitch, a).unwrap(), b).unwrap();
                let one_step = Pitch::from_semitones(pitch, (a + b) % 12).unwrap();
                assert_eq!(two_steps, one_step);
            }
        }
    }
}

#[test]
fn transposition_lands_on_canonical_flat_spellings() {
    let g = Pitch::from_string("G".to_string()).unwrap();
    let third_up = Pitch::from_semitones(g, 3).unwrap();
    assert_eq!(third_up, Pitch::from_string("Bb".to_string()).unwrap());
    assert_ne!(third_up, Pitch::from_string("A#".to_string()).unwrap());
}

#[test]
fn rejects_pitch_outside_the_table() {
    let e_sharp = Pitch::from_string("E#".to_string()).unwrap();
    assert_eq!(e_sharp.letter, Letter::E);
    assert_eq!(e_sharp.accidental, Some(Accidental::Sharp));
    assert_eq!(Pitch::from_semitones(e_sharp, 1), Err(MusicError::PitchNotInTable));
    let interval = Interval::from_semitones(2).unwrap();
    assert_eq!(Pitch::from_interval(e_sharp, interval), Err(MusicError::PitchNotInTable));
}

#[test]
fn note_pairs_pitch_with_octave() {
    let pitch = Pitch::from_string("C".to_string()).unwrap();
    let middle = Note { pitch, octave: 4 };
    assert_eq!(middle, Note { pitch, octave: 4 });
    assert_ne!(middle, Note { pitch, octave: 5 });
}
