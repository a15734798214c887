use keysynth::pitch::{note, Note, PitchClass};
use std::cmp::Ordering;

#[test]
fn class_from_wraps_modulo_twelve() {
    assert_eq!(PitchClass::from(0u8), PitchClass::C);
    assert_eq!(PitchClass::from(9u8), PitchClass::A);
    assert_eq!(PitchClass::from(11u8), PitchClass::B);
    assert_eq!(PitchClass::from(12u8), PitchClass::C);
    assert_eq!(PitchClass::from(25u8), PitchClass::Db);
    assert_eq!(PitchClass::from(255u8), PitchClass::Eb);
}

#[test]
fn class_index_values() {
    assert_eq!(PitchClass::C.index(), 0);
    assert_eq!(PitchClass::A.index(), 9);
    assert_eq!(PitchClass::B.index(), 11);
}

#[test]
fn note_builds_fields() {
    let n = note(PitchClass::A, 4);
    assert_eq!(n, Note { octave: 4, class: PitchClass::A });
    assert_eq!(n.pitch_number(), 57);
}

#[test]
fn shift_carries_octave_up() {
    let n = note(PitchClass::B, 3);
    assert_eq!(n.shift(1), Some(note(PitchClass::C, 4)));
    assert_eq!(n.shift(13), Some(note(PitchClass::C, 5)));
    assert_eq!(note(PitchClass::A, 4).shift(12), Some(note(PitchClass::A, 5)));
}

#[test]
fn shift_carries_octave_down() {
    let n = note(PitchClass::C, 4);
    assert_eq!(n.shift(-1), Some(note(PitchClass::B, 3)));
    assert_eq!(n.shift(-25), Some(note(PitchClass::B, 1)));
}

#[test]
fn shift_below_octave_zero_fails() {
    assert_eq!(note(PitchClass::C, 0).shift(-1), None);
    assert_eq!(note(PitchClass::D, 0).sub_semitones(3), None);
    assert_eq!(note(PitchClass::D, 0).sub_semitones(2), Some(note(PitchClass::C, 0)));
}

#[test]
fn shift_above_octave_255_fails() {
    assert_eq!(note(PitchClass::B, 255).shift(1), None);
    assert_eq!(note(PitchClass::B, 255).add_semitones(1), None);
    assert_eq!(note(PitchClass::Bb, 255).add_semitones(1), Some(note(PitchClass::B, 255)));
}

#[test]
fn shift_round_trip() {
    let notes = [note(PitchClass::C, 0), note(PitchClass::A, 4), note(PitchClass::Gb, 7), note(PitchClass::B, 254)];
    for n in notes.iter() {
        for s in [-30i32, -12, -1, 0, 1, 5, 12, 30].iter() {
            if let Some(m) = n.shift(*s) {
                assert_eq!(m.shift(-*s), Some(*n));
            }
        }
    }
    assert_eq!(note(PitchClass::A, 4).shift(7).unwrap().shift(-7), Some(note(PitchClass::A, 4)));
}

#[test]
fn add_assign_moves_in_place() {
    let mut n = note(PitchClass::Bb, 2);
    assert!(n.add_assign_semitones(3));
    assert_eq!(n, note(PitchClass::Db, 3));
    let mut top = note(PitchClass::A, 255);
    assert!(!top.add_assign_semitones(5));
    assert_eq!(top, note(PitchClass::A, 255));
}

#[test]
fn distance_uses_both_classes() {
    assert_eq!(note(PitchClass::A, 4).distance(note(PitchClass::C, 4)), 9);
    assert_eq!(note(PitchClass::C, 4).distance(note(PitchClass::A, 4)), -9);
    assert_eq!(note(PitchClass::E, 5).distance(note(PitchClass::G, 3)), 21);
}

#[test]
fn order_follows_pitch() {
    assert_eq!(note(PitchClass::B, 3).compare(&note(PitchClass::C, 4)), Ordering::Less);
    assert_eq!(note(PitchClass::C, 4).compare(&note(PitchClass::C, 4)), Ordering::Equal);
    assert_eq!(note(PitchClass::Db, 5).compare(&note(PitchClass::B, 4)), Ordering::Greater);
    assert!(note(PitchClass::B, 3) < note(PitchClass::C, 4));
    assert!(note(PitchClass::A, 4) > note(PitchClass::Ab, 4));
    assert_eq!(note(PitchClass::G, 2).partial_cmp(&note(PitchClass::G, 2)), Some(Ordering::Equal));
}

#[test]
fn steps_between_counts_semitones() {
    let a = note(PitchClass::C, 2);
    let b = note(PitchClass::Ab, 6);
    assert_eq!(Note::steps_between(&a, &b), Some(56));
    assert_eq!(Note::steps_between(&b, &a), None);
    assert_eq!(Note::steps_between(&a, &a), None);
}

#[test]
fn forward_and_backward_checked() {
    let a = note(PitchClass::C, 2);
    assert_eq!(Note::forward_checked(a, 14), Some(note(PitchClass::D, 3)));
    assert_eq!(Note::backward_checked(a, 1), Some(note(PitchClass::B, 1)));
    assert_eq!(Note::backward_checked(a, 25), None);
    assert_eq!(Note::forward_checked(a, 100_000), None);
    assert_eq!(Note::backward_checked(a, 100_000), None);
}
