use music_math::interpolation::Method;
use music_math::midi::get_midi_note_name;
use music_math::midi::get_midinote_from_name;
use music_math::midi::note_name_to_octave_position;
use music_math::midi::octave_position_to_note_name;
use music_math::midi::pitch_class_position;
use music_math::midi::transpose;
use music_math::midi::MIDI_NOTE_NAMES;
use music_math::midi::NOTE_NAMES;
use music_math::text::same_text;

#[test]
fn every_note_name_is_pitch_class_then_octave() {
    for note in 0..128usize {
        let octave = (note / 12) as i32 - 1;
        let expected = format!("{}{}", NOTE_NAMES[note % 12], octave);
        assert_eq!(MIDI_NOTE_NAMES[note], expected);
    }
}

#[test]
fn name_lookup_covers_the_table_and_no_more() {
    for note in 0..128u8 {
        assert_eq!(get_midi_note_name(note), Some(MIDI_NOTE_NAMES[note as usize]));
    }
    for note in 128..=255u8 {
        assert_eq!(get_midi_note_name(note), None);
    }
}

#[test]
fn name_and_number_round_trip() {
    for note in 0..128u8 {
        let name = get_midi_note_name(note).unwrap();
        assert_eq!(get_midinote_from_name(name), Some(note));
    }
}

#[test]
fn number_lookup_at_the_ends_of_the_table() {
    assert_eq!(get_midinote_from_name("C-1"), Some(0));
    assert_eq!(get_midinote_from_name("B-1"), Some(11));
    assert_eq!(get_midinote_from_name("C0"), Some(12));
    assert_eq!(get_midinote_from_name("C4"), Some(60));
    assert_eq!(get_midinote_from_name("G9"), Some(127));
}

#[test]
fn number_lookup_matches_exactly() {
    assert_eq!(get_midinote_from_name(""), None);
    assert_eq!(get_midinote_from_name("a4"), None);
    assert_eq!(get_midinote_from_name("A4 "), None);
    assert_eq!(get_midinote_from_name("A"), None);
    assert_eq!(get_midinote_from_name("G#9"), None);
    assert_eq!(get_midinote_from_name("C-2"), None);
    assert_eq!(get_midinote_from_name("C10"), None);
    assert_eq!(get_midinote_from_name("Db4"), None);
    assert_eq!(get_midinote_from_name("\u{266f}4"), None);
}

#[test]
fn octave_position_of_every_pitch_class() {
    for position in 0..12u8 {
        let name = NOTE_NAMES[position as usize];
        assert_eq!(note_name_to_octave_position(name), Some(position));
        assert_eq!(pitch_class_position(name), Some(position));
    }
}

#[test]
fn octave_position_folds_case() {
    assert_eq!(note_name_to_octave_position("c"), Some(0));
    assert_eq!(note_name_to_octave_position("c#"), Some(1));
    assert_eq!(note_name_to_octave_position("f#"), Some(6));
    assert_eq!(note_name_to_octave_position("a"), Some(9));
    assert_eq!(note_name_to_octave_position("b"), Some(11));
}

#[test]
fn octave_position_of_what_is_no_pitch_class() {
    assert_eq!(note_name_to_octave_position(""), None);
    assert_eq!(note_name_to_octave_position("H"), None);
    assert_eq!(note_name_to_octave_position("E#"), None);
    assert_eq!(note_name_to_octave_position("C4"), None);
    assert_eq!(note_name_to_octave_position(" C"), None);
    assert_eq!(note_name_to_octave_position("Db"), None);
}

#[test]
fn pitch_class_position_does_not_fold_case() {
    assert_eq!(pitch_class_position("C"), Some(0));
    assert_eq!(pitch_class_position("c"), None);
    assert_eq!(pitch_class_position("A#"), Some(10));
    assert_eq!(pitch_class_position("a#"), None);
    assert_eq!(pitch_class_position(""), None);
}

#[test]
fn octave_position_has_a_name_for_every_number() {
    for note in 0..=255u8 {
        let name = octave_position_to_note_name(note);
        assert_eq!(name, Some(NOTE_NAMES[(note % 12) as usize]));
    }
    assert_eq!(octave_position_to_note_name(11), Some("B"));
    assert_eq!(octave_position_to_note_name(12), Some("C"));
    assert_eq!(octave_position_to_note_name(69), Some("A"));
    assert_eq!(octave_position_to_note_name(255), Some("D#"));
}

#[test]
fn transpose_within_the_midi_range() {
    assert_eq!(transpose(69, 12), Some(81));
    assert_eq!(transpose(69, -12), Some(57));
    assert_eq!(transpose(69, 0), Some(69));
    assert_eq!(transpose(0, 0), Some(0));
    assert_eq!(transpose(0, 127), Some(127));
    assert_eq!(transpose(127, -127), Some(0));
    assert_eq!(transpose(100, 27), Some(127));
    assert_eq!(transpose(-5, 10), Some(5));
    assert_eq!(transpose(200, -100), Some(100));
}

#[test]
fn transpose_out_of_the_midi_range() {
    assert_eq!(transpose(69, 100), None);
    assert_eq!(transpose(100, 28), None);
    assert_eq!(transpose(127, 1), None);
    assert_eq!(transpose(0, -1), None);
    assert_eq!(transpose(-1, 0), None);
    assert_eq!(transpose(128, 0), None);
}

#[test]
fn transpose_when_the_sum_overflows() {
    assert_eq!(transpose(i32::MAX, 1), None);
    assert_eq!(transpose(i32::MIN, -1), None);
    assert_eq!(transpose(i32::MAX, i32::MAX), None);
    assert_eq!(transpose(i32::MIN, i32::MIN), None);
    assert_eq!(transpose(i32::MAX, i32::MIN), None);
    assert_eq!(transpose(i32::MAX, -i32::MAX), Some(0));
}

#[test]
fn same_text_compares_characters() {
    assert!(same_text("", ""));
    assert!(same_text("A#4", "A#4"));
    assert!(!same_text("A#4", "A#5"));
    assert!(!same_text("A#4", "A#"));
    assert!(!same_text("A", "a"));
    assert!(same_text("\u{266f}\u{266d}", "\u{266f}\u{266d}"));
    assert!(!same_text("\u{266f}", "\u{266d}"));
}

#[test]
fn interpolation_methods_are_three() {
    let methods = [Method::Off, Method::Linear, Method::Cubic];
    let mut seen = [false; 3];
    for method in methods {
        match method {
            Method::Off => seen[0] = true,
            Method::Linear => seen[1] = true,
            Method::Cubic => seen[2] = true,
        }
    }
    assert_eq!(seen, [true, true, true]);
}
