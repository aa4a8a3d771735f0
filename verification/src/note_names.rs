use crate::midi::MIDI_NOTE_NAMES;
use crate::midi::NOTE_NAMES;
use vstd::prelude::*;

verus! {

/// The name of the pitch class at position `pc` of the octave, for `pc` from
/// 0 to 11: a letter, followed by `#` where the pitch is a raised one.
pub open spec fn pitch_class_name(pc: int) -> Seq<char> {
    if pc == 0 {
        seq!['C']
    } else if pc == 1 {
        seq!['C', '#']
    } else if pc == 2 {
        seq!['D']
    } else if pc == 3 {
        seq!['D', '#']
    } else if pc == 4 {
        seq!['E']
    } else if pc == 5 {
        seq!['F']
    } else if pc == 6 {
        seq!['F', '#']
    } else if pc == 7 {
        seq!['G']
    } else if pc == 8 {
        seq!['G', '#']
    } else if pc == 9 {
        seq!['A']
    } else if pc == 10 {
        seq!['A', '#']
    } else {
        seq!['B']
    }
}

/// The decimal digit that stands for `d`, for `d` from 0 to 9.
pub open spec fn digit_char(d: int) -> char {
    ('0' as int + d) as char
}

/// How an octave number from -1 to 9 is written in a note name.
pub open spec fn octave_label(octave: int) -> Seq<char> {
    if octave < 0 {
        seq!['-', digit_char(-octave)]
    } else {
        seq![digit_char(octave)]
    }
}

/// The name of MIDI note `note`, for `note` from 0 to 127: the name of its
/// pitch class followed by its octave number. Note 0 lies in octave -1.
pub open spec fn midi_note_name(note: int) -> Seq<char> {
    pitch_class_name(note % 12) + octave_label(note / 12 - 1)
}

/// The position in the octave of the pitch class called `name`, if there is
/// one.
pub open spec fn pitch_class_named(name: Seq<char>) -> Option<u8> {
    if exists|pc: int| 0 <= pc < 12 && #[trigger] pitch_class_name(pc) == name {
        Some((choose|pc: int| 0 <= pc < 12 && #[trigger] pitch_class_name(pc) == name) as u8)
    } else {
        None
    }
}

/// The number of the MIDI note called `name`, if there is one.
pub open spec fn midi_note_named(name: Seq<char>) -> Option<u8> {
    if exists|note: int| 0 <= note < 128 && #[trigger] midi_note_name(note) == name {
        Some((choose|note: int| 0 <= note < 128 && #[trigger] midi_note_name(note) == name) as u8)
    } else {
        None
    }
}

/// The position in the octave of an unraised pitch, by its letter.
pub open spec fn letter_position(letter: char) -> int {
    if letter == 'C' {
        0
    } else if letter == 'D' {
        2
    } else if letter == 'E' {
        4
    } else if letter == 'F' {
        5
    } else if letter == 'G' {
        7
    } else if letter == 'A' {
        9
    } else {
        11
    }
}

/// Reads a pitch class name back: the position of its letter, one more where
/// a `#` follows. Only meaningful on the twelve pitch class names.
pub open spec fn read_pitch_class(name: Seq<char>) -> int {
    letter_position(name[0]) + name.len() - 1
}

/// Reads a note name back: the octave from the digit at its end and the `-`
/// that may stand before it, the pitch class from what precedes them. Only
/// meaningful on the 128 note names.
pub open spec fn read_note_name(name: Seq<char>) -> int {
    let len = name.len() as int;
    let digit = name[len - 1] as int - '0' as int;
    if len >= 2 && name[len - 2] == '-' {
        12 * (1 - digit) + read_pitch_class(name.subrange(0, len - 2))
    } else {
        12 * (1 + digit) + read_pitch_class(name.subrange(0, len - 1))
    }
}

/// Reading the name of a pitch class back gives its position.
pub proof fn lemma_read_pitch_class(pc: int)
    requires
        0 <= pc < 12,
    ensures
        read_pitch_class(pitch_class_name(pc)) == pc,
{
}

/// Reading the name of a MIDI note back gives its number.
pub proof fn lemma_read_note_name(note: int)
    requires
        0 <= note < 128,
    ensures
        read_note_name(midi_note_name(note)) == note,
{
    let pitch = pitch_class_name(note % 12);
    let label = octave_label(note / 12 - 1);
    let name = midi_note_name(note);
    assert(name.subrange(0, name.len() - label.len()) =~= pitch);
}

/// No two pitch classes share a name.
pub proof fn lemma_pitch_class_names_distinct(a: int, b: int)
    requires
        0 <= a < 12,
        0 <= b < 12,
        pitch_class_name(a) == pitch_class_name(b),
    ensures
        a == b,
{
    lemma_read_pitch_class(a);
    lemma_read_pitch_class(b);
}

/// No two MIDI notes share a name.
pub proof fn lemma_midi_note_names_distinct(a: int, b: int)
    requires
        0 <= a < 128,
        0 <= b < 128,
        midi_note_name(a) == midi_note_name(b),
    ensures
        a == b,
{
    lemma_read_note_name(a);
    lemma_read_note_name(b);
}

/// Looking a pitch class up by its own name gives the pitch class back.
pub proof fn lemma_pitch_class_round_trip(pc: int)
    requires
        0 <= pc < 12,
    ensures
        pitch_class_named(pitch_class_name(pc)) == Some(pc as u8),
{
    let name = pitch_class_name(pc);
    let found = choose|k: int| 0 <= k < 12 && #[trigger] pitch_class_name(k) == name;
    lemma_pitch_class_names_distinct(found, pc);
}

/// Looking a MIDI note up by its own name gives the note back.
pub proof fn lemma_midi_note_round_trip(note: int)
    requires
        0 <= note < 128,
    ensures
        midi_note_named(midi_note_name(note)) == Some(note as u8),
{
    let name = midi_note_name(note);
    let found = choose|k: int| 0 <= k < 128 && #[trigger] midi_note_name(k) == name;
    lemma_midi_note_names_distinct(found, note);
}

/// Entry `pc` of `NOTE_NAMES` holds the name of pitch class `pc`.
pub proof fn lemma_note_names_entry(pc: int)
    requires
        0 <= pc < 12,
    ensures
        NOTE_NAMES[pc]@ == pitch_class_name(pc),
{
    reveal_strlit("C");
    reveal_strlit("C#");
    reveal_strlit("D");
    reveal_strlit("D#");
    reveal_strlit("E");
    reveal_strlit("F");
    reveal_strlit("F#");
    reveal_strlit("G");
    reveal_strlit("G#");
    reveal_strlit("A");
    reveal_strlit("A#");
    reveal_strlit("B");
    assert(NOTE_NAMES[pc]@ =~= pitch_class_name(pc));
}

proof fn lemma_octave_below_zero(note: int)
    requires
        0 <= note < 12,
    ensures
        MIDI_NOTE_NAMES[note]@ == midi_note_name(note),
{
    reveal_strlit("C-1");
    reveal_strlit("C#-1");
    reveal_strlit("D-1");
    reveal_strlit("D#-1");
    reveal_strlit("E-1");
    reveal_strlit("F-1");
    reveal_strlit("F#-1");
    reveal_strlit("G-1");
    reveal_strlit("G#-1");
    reveal_strlit("A-1");
    reveal_strlit("A#-1");
    reveal_strlit("B-1");
    assert(MIDI_NOTE_NAMES[note]@ =~= midi_note_name(note));
}

proof fn lemma_octave_0(note: int)
    requires
        12 <= note < 24,
    ensures
        MIDI_NOTE_NAMES[note]@ == midi_note_name(note),
{
    reveal_strlit("C0");
    reveal_strlit("C#0");
    reveal_strlit("D0");
    reveal_strlit("D#0");
    reveal_strlit("E0");
    reveal_strlit("F0");
    reveal_strlit("F#0");
    reveal_strlit("G0");
    reveal_strlit("G#0");
    reveal_strlit("A0");
    reveal_strlit("A#0");
    reveal_strlit("B0");
    assert(MIDI_NOTE_NAMES[note]@ =~= midi_note_name(note));
}

proof fn lemma_octave_1(note: int)
    requires
        24 <= note < 36,
    ensures
        MIDI_NOTE_NAMES[note]@ == midi_note_name(note),
{
    reveal_strlit("C1");
    reveal_strlit("C#1");
    reveal_strlit("D1");
    reveal_strlit("D#1");
    reveal_strlit("E1");
    reveal_strlit("F1");
    reveal_strlit("F#1");
    reveal_strlit("G1");
    reveal_strlit("G#1");
    reveal_strlit("A1");
    reveal_strlit("A#1");
    reveal_strlit("B1");
    assert(MIDI_NOTE_NAMES[note]@ =~= midi_note_name(note));
}

proof fn lemma_octave_2(note: int)
    requires
        36 <= note < 48,
    ensures
        MIDI_NOTE_NAMES[note]@ == midi_note_name(note),
{
    reveal_strlit("C2");
    reveal_strlit("C#2");
    reveal_strlit("D2");
    reveal_strlit("D#2");
    reveal_strlit("E2");
    reveal_strlit("F2");
    reveal_strlit("F#2");
    reveal_strlit("G2");
    reveal_strlit("G#2");
    reveal_strlit("A2");
    reveal_strlit("A#2");
    reveal_strlit("B2");
    assert(MIDI_NOTE_NAMES[note]@ =~= midi_note_name(note));
}

proof fn lemma_octave_3(note: int)
    requires
        48 <= note < 60,
    ensures
        MIDI_NOTE_NAMES[note]@ == midi_note_name(note),
{
    reveal_strlit("C3");
    reveal_strlit("C#3");
    reveal_strlit("D3");
    reveal_strlit("D#3");
    reveal_strlit("E3");
    reveal_strlit("F3");
    reveal_strlit("F#3");
    reveal_strlit("G3");
    reveal_strlit("G#3");
    reveal_strlit("A3");
    reveal_strlit("A#3");
    reveal_strlit("B3");
    assert(MIDI_NOTE_NAMES[note]@ =~= midi_note_name(note));
}

proof fn lemma_octave_4(note: int)
    requires
        60 <= note < 72,
    ensures
        MIDI_NOTE_NAMES[note]@ == midi_note_name(note),
{
    reveal_strlit("C4");
    reveal_strlit("C#4");
    reveal_strlit("D4");
    reveal_strlit("D#4");
    reveal_strlit("E4");
    reveal_strlit("F4");
    reveal_strlit("F#4");
    reveal_strlit("G4");
    reveal_strlit("G#4");
    reveal_strlit("A4");
    reveal_strlit("A#4");
    reveal_strlit("B4");
    assert(MIDI_NOTE_NAMES[note]@ =~= midi_note_name(note));
}

proof fn lemma_octave_5(note: int)
    requires
        72 <= note < 84,
    ensures
        MIDI_NOTE_NAMES[note]@ == midi_note_name(note),
{
    reveal_strlit("C5");
    reveal_strlit("C#5");
    reveal_strlit("D5");
    reveal_strlit("D#5");
    reveal_strlit("E5");
    reveal_strlit("F5");
    reveal_strlit("F#5");
    reveal_strlit("G5");
    reveal_strlit("G#5");
    reveal_strlit("A5");
    reveal_strlit("A#5");
    reveal_strlit("B5");
    assert(MIDI_NOTE_NAMES[note]@ =~= midi_note_name(note));
}

proof fn lemma_octave_6(note: int)
    requires
        84 <= note < 96,
    ensures
        MIDI_NOTE_NAMES[note]@ == midi_note_name(note),
{
    reveal_strlit("C6");
    reveal_strlit("C#6");
    reveal_strlit("D6");
    reveal_strlit("D#6");
    reveal_strlit("E6");
    reveal_strlit("F6");
    reveal_strlit("F#6");
    reveal_strlit("G6");
    reveal_strlit("G#6");
    reveal_strlit("A6");
    reveal_strlit("A#6");
    reveal_strlit("B6");
    assert(MIDI_NOTE_NAMES[note]@ =~= midi_note_name(note));
}

proof fn lemma_octave_7(note: int)
    requires
        96 <= note < 108,
    ensures
        MIDI_NOTE_NAMES[note]@ == midi_note_name(note),
{
    reveal_strlit("C7");
    reveal_strlit("C#7");
    reveal_strlit("D7");
    reveal_strlit("D#7");
    reveal_strlit("E7");
    reveal_strlit("F7");
    reveal_strlit("F#7");
    reveal_strlit("G7");
    reveal_strlit("G#7");
    reveal_strlit("A7");
    reveal_strlit("A#7");
    reveal_strlit("B7");
    assert(MIDI_NOTE_NAMES[note]@ =~= midi_note_name(note));
}

proof fn lemma_octave_8(note: int)
    requires
        108 <= note < 120,
    ensures
        MIDI_NOTE_NAMES[note]@ == midi_note_name(note),
{
    reveal_strlit("C8");
    reveal_strlit("C#8");
    reveal_strlit("D8");
    reveal_strlit("D#8");
    reveal_strlit("E8");
    reveal_strlit("F8");
    reveal_strlit("F#8");
    reveal_strlit("G8");
    reveal_strlit("G#8");
    reveal_strlit("A8");
    reveal_strlit("A#8");
    reveal_strlit("B8");
    assert(MIDI_NOTE_NAMES[note]@ =~= midi_note_name(note));
}

proof fn lemma_octave_9(note: int)
    requires
        120 <= note < 128,
    ensures
        MIDI_NOTE_NAMES[note]@ == midi_note_name(note),
{
    reveal_strlit("C9");
    reveal_strlit("C#9");
    reveal_strlit("D9");
    reveal_strlit("D#9");
    reveal_strlit("E9");
    reveal_strlit("F9");
    reveal_strlit("F#9");
    reveal_strlit("G9");
    assert(MIDI_NOTE_NAMES[note]@ =~= midi_note_name(note));
}

/// Entry `note` of `MIDI_NOTE_NAMES` holds the name of MIDI note `note`.
pub proof fn lemma_midi_note_names_entry(note: int)
    requires
        0 <= note < 128,
    ensures
        MIDI_NOTE_NAMES[note]@ == midi_note_name(note),
{
    if note < 12 {
        lemma_octave_below_zero(note);
    } else if note < 24 {
        lemma_octave_0(note);
    } else if note < 36 {
        lemma_octave_1(note);
    } else if note < 48 {
        lemma_octave_2(note);
    } else if note < 60 {
        lemma_octave_3(note);
    } else if note < 72 {
        lemma_octave_4(note);
    } else if note < 84 {
        lemma_octave_5(note);
    } else if note < 96 {
        lemma_octave_6(note);
    } else if note < 108 {
        lemma_octave_7(note);
    } else if note < 120 {
        lemma_octave_8(note);
    } else {
        lemma_octave_9(note);
    }
}

} // verus!
