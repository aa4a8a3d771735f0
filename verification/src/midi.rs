use crate::note_names::lemma_midi_note_names_distinct;
use crate::note_names::lemma_midi_note_names_entry;
use crate::note_names::lemma_midi_note_round_trip;
use crate::note_names::lemma_note_names_entry;
use crate::note_names::lemma_pitch_class_names_distinct;
use crate::note_names::lemma_pitch_class_round_trip;
use crate::note_names::midi_note_name;
use crate::note_names::midi_note_named;
use crate::note_names::pitch_class_name;
use crate::note_names::pitch_class_named;
use crate::text::same_text;
use crate::text::to_uppercase;
use crate::text::uppercase_of;
use vstd::prelude::*;

verus! {

/// The names of the twelve pitch classes, by their position in the octave.
pub const NOTE_NAMES: [&'static str; 12] = [
    "C", "C#", "D", "D#", "E", "F", "F#", "G", "G#", "A", "A#", "B",
];

/// The names of the 128 MIDI notes, by note number.
pub const MIDI_NOTE_NAMES: [&'static str; 128] = [
    "C-1", "C#-1", "D-1", "D#-1", "E-1", "F-1", "F#-1", "G-1", "G#-1", "A-1", "A#-1", "B-1", "C0",
    "C#0", "D0", "D#0", "E0", "F0", "F#0", "G0", "G#0", "A0", "A#0", "B0", "C1", "C#1", "D1",
    "D#1", "E1", "F1", "F#1", "G1", "G#1", "A1", "A#1", "B1", "C2", "C#2", "D2", "D#2", "E2", "F2",
    "F#2", "G2", "G#2", "A2", "A#2", "B2", "C3", "C#3", "D3", "D#3", "E3", "F3", "F#3", "G3",
    "G#3", "A3", "A#3", "B3", "C4", "C#4", "D4", "D#4", "E4", "F4", "F#4", "G4", "G#4", "A4",
    "A#4", "B4", "C5", "C#5", "D5", "D#5", "E5", "F5", "F#5", "G5", "G#5", "A5", "A#5", "B5", "C6",
    "C#6", "D6", "D#6", "E6", "F6", "F#6", "G6", "G#6", "A6", "A#6", "B6", "C7", "C#7", "D7",
    "D#7", "E7", "F7", "F#7", "G7", "G#7", "A7", "A#7", "B7", "C8", "C#8", "D8", "D#8", "E8", "F8",
    "F#8", "G8", "G#8", "A8", "A#8", "B8", "C9", "C#9", "D9", "D#9", "E9", "F9", "F#9", "G9",
];

/// Whether `note` is the number of a MIDI note.
pub open spec fn is_midi_note(note: int) -> bool {
    0 <= note <= 127
}

/// The name of MIDI note `note`, taken from `MIDI_NOTE_NAMES`; nothing where
/// `note` lies beyond the table.
#[must_use]
pub fn get_midi_note_name(note: u8) -> (name: Option<&'static str>)
    ensures
        name == (if note < 128 {
            Some(MIDI_NOTE_NAMES[note as int])
        } else {
            None
        }),
        note < 128 ==> name.unwrap()@ == midi_note_name(note as int),
        note < 128 ==> midi_note_named(name.unwrap()@) == Some(note),
{
    if note < 128 {
        proof {
            lemma_midi_note_names_entry(note as int);
            lemma_midi_note_round_trip(note as int);
        }
        Some(MIDI_NOTE_NAMES[note as usize])
    } else {
        None
    }
}

/// The number of the MIDI note whose name in `MIDI_NOTE_NAMES` is exactly
/// `note`; nothing where no entry matches.
#[must_use]
pub fn get_midinote_from_name(note: &str) -> (number: Option<u8>)
    ensures
        number == midi_note_named(note@),
{
    let mut i: usize = 0;
    while i < 128
        invariant
            i <= 128,
            forall|k: int| 0 <= k < i ==> midi_note_name(k) != note@,
        decreases 128 - i,
    {
        proof {
            lemma_midi_note_names_entry(i as int);
        }
        if same_text(MIDI_NOTE_NAMES[i], note) {
            proof {
                let found = choose|k: int| 0 <= k < 128 && #[trigger] midi_note_name(k) == note@;
                lemma_midi_note_names_distinct(found, i as int);
            }
            return Some(i as u8);
        }
        i += 1;
    }
    None
}

/// The position in the octave of the pitch class whose name in `NOTE_NAMES`
/// is exactly `name`; nothing where no entry matches.
#[must_use]
pub fn pitch_class_position(name: &str) -> (position: Option<u8>)
    ensures
        position == pitch_class_named(name@),
{
    let mut i: usize = 0;
    while i < 12
        invariant
            i <= 12,
            forall|k: int| 0 <= k < i ==> pitch_class_name(k) != name@,
        decreases 12 - i,
    {
        proof {
            lemma_note_names_entry(i as int);
        }
        if same_text(NOTE_NAMES[i], name) {
            proof {
                let found = choose|k: int| 0 <= k < 12 && #[trigger] pitch_class_name(k) == name@;
                lemma_pitch_class_names_distinct(found, i as int);
            }
            return Some(i as u8);
        }
        i += 1;
    }
    None
}

/// The position in the octave of the pitch class that `note` names, letters
/// in either case; nothing where its upper-case form is no pitch class name.
#[inline]
#[must_use]
pub fn note_name_to_octave_position(note: &str) -> (position: Option<u8>)
    ensures
        position == pitch_class_named(uppercase_of(note@)),
{
    let upper = to_uppercase(note);
    pitch_class_position(upper.as_str())
}

/// The name of the pitch class that `note` falls on, taken from `NOTE_NAMES`
/// at the remainder of `note` by twelve. There is one for every `note`.
#[inline]
#[must_use]
pub fn octave_position_to_note_name(note: u8) -> (name: Option<&'static str>)
    ensures
        name == Some(NOTE_NAMES[note as int % 12]),
        name.unwrap()@ == pitch_class_name(note as int % 12),
        pitch_class_named(name.unwrap()@) == Some((note % 12) as u8),
{
    let index: usize = (note % 12) as usize;
    proof {
        lemma_note_names_entry(index as int);
        lemma_pitch_class_round_trip(index as int);
    }
    Some(NOTE_NAMES[index])
}

/// Calls `num_traits::NumCast::from` to bring an `i32` into the type of the
/// notes. Both are `i32` here, so the crate hands the value back whole.
#[verifier::external_body]
fn cast_to_note(n: i32) -> (cast: Option<i32>)
    ensures
        cast == Some(n),
{
    num_traits::NumCast::from(n)
}

/// Calls `num_traits::Zero::zero`, which for `i32` is the number 0.
#[verifier::external_body]
fn zero_note() -> (zero: i32)
    ensures
        zero == 0,
{
    num_traits::Zero::zero()
}

/// Calls `num_traits::CheckedAdd::checked_add`, which for `i32` is the
/// checked addition of the standard library: the sum where it fits in an
/// `i32`, nothing where it does not.
#[verifier::external_body]
fn checked_sum(a: i32, b: i32) -> (sum: Option<i32>)
    ensures
        sum == (if i32::MIN <= a + b <= i32::MAX {
            Some((a + b) as i32)
        } else {
            None
        }),
{
    num_traits::CheckedAdd::checked_add(&a, &b)
}

/// Moves `note` by `semitones`, up or down. Gives the new note where it is a
/// MIDI note, nothing where the sum leaves the MIDI range or the `i32`.
pub fn transpose(note: i32, semitones: i32) -> (moved: Option<i32>)
    ensures
        moved == (if is_midi_note(note + semitones) {
            Some((note + semitones) as i32)
        } else {
            None
        }),
{
    match cast_to_note(127) {
        Some(ok_max) => {
            match checked_sum(note, semitones) {
                Some(transposed) => {
                    if transposed >= zero_note() && transposed <= ok_max {
                        Some(transposed)
                    } else {
                        None
                    }
                },
                None => None,
            }
        },
        None => None,
    }
}

} // verus!
