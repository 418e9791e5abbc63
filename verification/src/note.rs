//! Names of the notes of the chromatic scale, by MIDI note number.
//!
//! Note 69 is A4. The twelve names repeat every twelve notes, and the octave
//! number goes up at every C; note 0 is C-1.

use crate::text::{push_signed_decimal, signed_decimal};
use vstd::prelude::*;
use vstd::string::*;

verus! {

/// Place of a note within its octave, counted from C.
pub open spec fn pitch_class(nearest: int) -> int {
    nearest % 12
}

/// Octave number of a note: the whole number of octaves above note 0, less one.
pub open spec fn octave(nearest: int) -> int {
    nearest / 12 - 1
}

/// Name of a pitch class.
pub open spec fn class_name(class: int) -> Seq<char> {
    if class == 0 {
        seq!['C']
    } else if class == 1 {
        seq!['C', '#']
    } else if class == 2 {
        seq!['D']
    } else if class == 3 {
        seq!['D', '#']
    } else if class == 4 {
        seq!['E']
    } else if class == 5 {
        seq!['F']
    } else if class == 6 {
        seq!['F', '#']
    } else if class == 7 {
        seq!['G']
    } else if class == 8 {
        seq!['G', '#']
    } else if class == 9 {
        seq!['A']
    } else if class == 10 {
        seq!['A', '#']
    } else {
        seq!['B']
    }
}

/// Full name of a note: the name of its pitch class, then its octave number.
pub open spec fn note_label(nearest: int) -> Seq<char> {
    class_name(pitch_class(nearest)) + signed_decimal(octave(nearest))
}

/// Notes twelve apart share their class name, one octave apart.
pub proof fn lemma_octave_step(nearest: int)
    ensures
        pitch_class(nearest + 12) == pitch_class(nearest),
        octave(nearest + 12) == octave(nearest) + 1,
        0 <= pitch_class(nearest) < 12,
{
}

fn class_text(class: i64) -> (t: &'static str)
    requires
        0 <= class < 12,
    ensures
        t@ == class_name(class as int),
{
    proof {
        reveal_strlit("C");
        reveal_strlit("C#");
        reveal_strlit("D");
        reveal_strlit("D#");
        reveal_strlit("E");
        reveal_strlit("F");
        reveal_strlit("F#");
        reveal_strlit("G");
        reveal_strlit("G#");
        reveal_strlit("A");
        reveal_strlit("A#");
        reveal_strlit("B");
    }
    if class == 0 {
        "C"
    } else if class == 1 {
        "C#"
    } else if class == 2 {
        "D"
    } else if class == 3 {
        "D#"
    } else if class == 4 {
        "E"
    } else if class == 5 {
        "F"
    } else if class == 6 {
        "F#"
    } else if class == 7 {
        "G"
    } else if class == 8 {
        "G#"
    } else if class == 9 {
        "A"
    } else if class == 10 {
        "A#"
    } else {
        "B"
    }
}

/// The name of the note with MIDI number `nearest`, such as `A4` for 69.
pub fn note_name(nearest: i32) -> (name: String)
    ensures
        name@ == note_label(nearest as int),
{
    // 2147483652 is twelve times 178956971 and lifts every note number above zero.
    let lifted: i64 = nearest as i64 + 2147483652;
    let class: i64 = lifted % 12;
    let octave_number: i64 = lifted / 12 - 178956971 - 1;
    let mut name = String::new();
    name.append(class_text(class));
    push_signed_decimal(&mut name, octave_number);
    name
}

} // verus!
