use music_math::binaryops::clip;
use music_math::midi;

#[test]
fn note_names_array() {
    let note_names = midi::NOTE_NAMES;
    assert_eq!(note_names.len(), 12);
    assert_eq!(note_names[0], "C");
    assert_eq!(note_names[1], "C#");
    assert_eq!(note_names[2], "D");
    assert_eq!(note_names[3], "D#");
    assert_eq!(note_names[4], "E");
    assert_eq!(note_names[5], "F");
    assert_eq!(note_names[6], "F#");
    assert_eq!(note_names[7], "G");
    assert_eq!(note_names[8], "G#");
    assert_eq!(note_names[9], "A");
    assert_eq!(note_names[10], "A#");
    assert_eq!(note_names[11], "B");
}

#[test]
fn midi_note_names_array() {
    let midi_note_names = midi::MIDI_NOTE_NAMES;
    assert_eq!(midi_note_names.len(), 128);
    assert_eq!(midi_note_names[69], "A4");
    assert_eq!(midi_note_names[0], "C-1");
    assert_eq!(midi_note_names[127], "G9");
}

#[test]
fn get_midi_note_name() {
    let note = 69;
    let note_name = midi::get_midi_note_name(note).unwrap();
    assert_eq!(note_name, "A4");

    // Try an out of bounds note
    let note = 128;
    let note_name = midi::get_midi_note_name(note);
    assert_eq!(note_name, None);
}

#[test]
fn get_midi_note_num_from_name() {
    let note_name = "A4";
    let note = midi::get_midinote_from_name(note_name).unwrap();
    assert_eq!(note, 69);

    // Try an out of bounds note
    let note_name = "A#9";
    let note = midi::get_midinote_from_name(note_name);
    assert_eq!(note, None);
}

#[test]
fn test_note_name_to_oct_pos() {
    let note = "C";
    let position = midi::note_name_to_octave_position(note).unwrap();
    assert_eq!(position, 0);

    let note = "D";
    let position = midi::note_name_to_octave_position(note).unwrap();
    assert_eq!(position, 2);
}

#[test]
fn test_oct_pos_to_note_name() {
    let note = 0;
    let note_name = midi::octave_position_to_note_name(note).unwrap();
    assert_eq!(note_name, "C");

    let note = 2;
    let note_name = midi::octave_position_to_note_name(note).unwrap();
    assert_eq!(note_name, "D");
}

#[test]
fn test_clip() {
    assert_eq!(clip(5, 0, 10), 5);
    assert_eq!(clip(5, 10, 20), 10);
    assert_eq!(clip(5, 0, 4), 4);
    assert_eq!(clip(-10, 0, 4), 0);
    assert_eq!(clip(0.25, 0.1, 0.125), 0.125);
    assert_eq!(clip(-0.5, 0.1, 0.125), 0.1);
}

#[test]
fn test_transpose_midi() {
    assert_eq!(
        midi::transpose(69, 12).expect("Could not transpose midi"),
        81
    );
    assert_eq!(
        midi::transpose(69, -12).expect("Could not transpose midi"),
        57
    );
    assert_eq!(
        midi::transpose(69, 0).expect("Could not transpose midi"),
        69
    );
    assert_eq!(midi::transpose(69, 100).is_none(), true);
}
