use vstd::prelude::*;
use vstd::string::StringExecFns;

verus! {

/// Number of notes in the chromatic scale of twelve-tone equal temperament.
pub const NUM_NOTES: i32 = 12;

/// Semitone position of A4 counted from C0, chosen so that octave numbers
/// follow scientific pitch notation (A4 lies in octave 4).
pub const A4_SEMITONE_OFFSET: i32 = 57;

/// Index into the chromatic table of the note `semitone` semitones above A4,
/// as a Euclidean remainder, so the result lies in [0, 12) for every input.
pub open spec fn note_index_spec(semitone: int) -> int {
    semitone % 12
}

/// Octave, in scientific pitch notation, of the note `semitone` semitones
/// above A4 (floor division; the two agree on the admitted range).
pub open spec fn octave_spec(semitone: int) -> int {
    (57 + semitone) / 12
}

/// The chromatic note literals, anchored at A (index 0). Notes between two
/// naturals carry both enharmonic spellings.
pub open spec fn note_literal_spec(index: int) -> Seq<char> {
    if index == 0 {
        "A"@
    } else if index == 1 {
        "A♯/B♭"@
    } else if index == 2 {
        "B"@
    } else if index == 3 {
        "C"@
    } else if index == 4 {
        "C♯/D♭"@
    } else if index == 5 {
        "D"@
    } else if index == 6 {
        "D♯/E♭"@
    } else if index == 7 {
        "E"@
    } else if index == 8 {
        "F"@
    } else if index == 9 {
        "F♯/G♭"@
    } else if index == 10 {
        "G"@
    } else {
        "G♯/A♭"@
    }
}

/// Chromatic-table index of the note `semitone` semitones above A4.
pub fn get_index_based_on_semitone(semitone: i32) -> (index: usize)
    ensures
        index as int == note_index_spec(semitone as int),
        index < 12,
{
    if semitone >= 0 {
        (semitone % NUM_NOTES) as usize
    } else {
        let r: i64 = (-(semitone as i64)) % (NUM_NOTES as i64);
        if r == 0 {
            0
        } else {
            (NUM_NOTES as i64 - r) as usize
        }
    }
}

/// Octave of the note `semitone` semitones above A4. The bounds keep the
/// octave inside `u8`.
pub fn get_octave_based_on_semitone(semitone: i32) -> (octave: u8)
    requires
        -57 <= semitone <= 3014,
    ensures
        octave as int == octave_spec(semitone as int),
{
    ((A4_SEMITONE_OFFSET + semitone) / NUM_NOTES) as u8
}

/// The note literal at `index` of the chromatic table.
pub fn get_note_literal(index: usize) -> (literal: &'static str)
    requires
        index < 12,
    ensures
        literal@ == note_literal_spec(index as int),
{
    if index == 0 {
        "A"
    } else if index == 1 {
        "A♯/B♭"
    } else if index == 2 {
        "B"
    } else if index == 3 {
        "C"
    } else if index == 4 {
        "C♯/D♭"
    } else if index == 5 {
        "D"
    } else if index == 6 {
        "D♯/E♭"
    } else if index == 7 {
        "E"
    } else if index == 8 {
        "F"
    } else if index == 9 {
        "F♯/G♭"
    } else if index == 10 {
        "G"
    } else {
        "G♯/A♭"
    }
}

/// A note of the chromatic scale together with its octave in scientific
/// pitch notation.
#[derive(Debug, Clone)]
pub struct Note {
    pub literal: String,
    pub octave: u8,
}

impl Note {
    /// The note `semitone` semitones above A4.
    pub fn from_semitone(semitone: i32) -> (note: Note)
        requires
            -57 <= semitone <= 3014,
        ensures
            note.literal@ == note_literal_spec(note_index_spec(semitone as int)),
            note.octave as int == octave_spec(semitone as int),
    {
        let index = get_index_based_on_semitone(semitone);
        Note {
            literal: String::from_str(get_note_literal(index)),
            octave: get_octave_based_on_semitone(semitone),
        }
    }
}

/// The nearest whole semitone to a deviation measured in thousandths of a
/// semitone, rounding ties away from zero (the convention of this library;
/// it matches rounding the real-valued semitone measure half away from zero).
pub open spec fn nearest_semitone_spec(semitones_milli: int) -> int {
    if semitones_milli >= 0 {
        (semitones_milli + 500) / 1000
    } else {
        -((500 - semitones_milli) / 1000)
    }
}

/// Signed deviation, in thousandths of a semitone, of a pitch from the
/// nearest whole semitone.
pub open spec fn cent_milli_spec(semitones_milli: int) -> int {
    semitones_milli - 1000 * nearest_semitone_spec(semitones_milli)
}

/// The deviation from the nearest semitone never exceeds half a semitone in
/// magnitude. Under the tie rule, exactly +0.5 arises only on the negative
/// side and exactly -0.5 only on the non-negative side.
pub proof fn lemma_cent_bounds(semitones_milli: int)
    ensures
        -500 <= cent_milli_spec(semitones_milli) <= 500,
{
}

/// The nearest whole semitone to `semitones_milli` thousandths of a semitone
/// above A4, rounding ties away from zero.
pub fn nearest_semitone(semitones_milli: i64) -> (semitone: i64)
    requires
        i64::MIN + 500 < semitones_milli < i64::MAX - 500,
    ensures
        semitone as int == nearest_semitone_spec(semitones_milli as int),
{
    if semitones_milli >= 0 {
        (semitones_milli + 500) / 1000
    } else {
        -((500 - semitones_milli) / 1000)
    }
}

/// A note together with the signed deviation of the heard pitch from it, in
/// thousandths of a semitone.
#[derive(Debug, Clone)]
pub struct PitchInfo {
    pub note: Note,
    pub cent_milli: i64,
}

impl PitchInfo {
    /// Maps a pitch measured in thousandths of a semitone above A4 to the
    /// nearest note and the remaining deviation. The bounds keep the octave
    /// of the nearest note inside `u8`.
    pub fn from_semitones(semitones_milli: i64) -> (info: PitchInfo)
        requires
            -57_499 <= semitones_milli <= 3_014_499,
        ensures
            info.note.literal@ == note_literal_spec(
                note_index_spec(nearest_semitone_spec(semitones_milli as int)),
            ),
            info.note.octave as int == octave_spec(nearest_semitone_spec(semitones_milli as int)),
            info.cent_milli as int == cent_milli_spec(semitones_milli as int),
            -500 <= info.cent_milli <= 500,
    {
        let semitone = nearest_semitone(semitones_milli);
        let note = Note::from_semitone(semitone as i32);
        PitchInfo { note, cent_milli: semitones_milli - 1000 * semitone }
    }
}

/// Maps a pitch measured in thousandths of a semitone above A4 (the measure
/// of a frequency f is 12 * log2(f / 440), scaled by 1000) to the nearest
/// note of the chromatic scale and the signed deviation from it.
pub fn get_pitch_info(semitones_milli: i64) -> (info: PitchInfo)
    requires
        -57_499 <= semitones_milli <= 3_014_499,
    ensures
        info.note.literal@ == note_literal_spec(
            note_index_spec(nearest_semitone_spec(semitones_milli as int)),
        ),
        info.note.octave as int == octave_spec(nearest_semitone_spec(semitones_milli as int)),
        info.cent_milli as int == cent_milli_spec(semitones_milli as int),
        -500 <= info.cent_milli <= 500,
{
    PitchInfo::from_semitones(semitones_milli)
}

/// The note mapping is periodic in the octave: raising a pitch by exactly
/// twelve semitones (doubling its frequency) keeps the note literal, raises
/// the octave by one, and keeps the deviation. The precondition leaves out
/// the exact half-semitone ties whose rounding direction flips when the
/// twelve-semitone shift crosses zero.
pub proof fn lemma_note_mapping_periodic(semitones_milli: int)
    requires
        semitones_milli % 1000 != 500 || semitones_milli >= 0 || semitones_milli + 12_000 < 0,
    ensures
        nearest_semitone_spec(semitones_milli + 12_000) == nearest_semitone_spec(semitones_milli)
            + 12,
        note_index_spec(nearest_semitone_spec(semitones_milli + 12_000)) == note_index_spec(
            nearest_semitone_spec(semitones_milli),
        ),
        octave_spec(nearest_semitone_spec(semitones_milli + 12_000)) == octave_spec(
            nearest_semitone_spec(semitones_milli),
        ) + 1,
        cent_milli_spec(semitones_milli + 12_000) == cent_milli_spec(semitones_milli),
{
}

} // verus!

