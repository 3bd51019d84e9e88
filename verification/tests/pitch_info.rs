use tuner::info::get_pitch_info;

/// The pitch measure the capture loop hands to the library: thousandths of a
/// semitone above A4, rounded to the nearest integer.
fn milli_semitones(frequency: f64) -> i64 {
    (12.0 * (frequency / 440.0).log2() * 1000.0).round() as i64
}

#[test]
fn pitch_info_test() {
    let pitch = get_pitch_info(milli_semitones(440.0));
    assert_eq!(pitch.note.literal, "A");
    assert_eq!(pitch.note.octave, 4);

    let pitch = get_pitch_info(milli_semitones(880.0));
    assert_eq!(pitch.note.literal, "A");
    assert_eq!(pitch.note.octave, 5);

    let pitch = get_pitch_info(milli_semitones(660.0));
    assert_eq!(pitch.note.literal, "E");
    assert_eq!(pitch.note.octave, 5);

    let pitch = get_pitch_info(milli_semitones(1320.0));
    assert_eq!(pitch.note.literal, "E");
    assert_eq!(pitch.note.octave, 6);

    let pitch = get_pitch_info(milli_semitones(830.0));
    assert_eq!(pitch.note.literal, "G♯/A♭");
    assert_eq!(pitch.note.octave, 5);

    let pitch = get_pitch_info(milli_semitones(460.0));
    assert_eq!(pitch.note.literal, "A♯/B♭");
    assert_eq!(pitch.note.octave, 4);
}

#[test]
fn reference_points_are_in_tune() {
    assert_eq!(get_pitch_info(milli_semitones(440.0)).cent_milli, 0);
    assert_eq!(get_pitch_info(milli_semitones(880.0)).cent_milli, 0);
}

#[test]
fn octave_periodicity_on_concrete_pitches() {
    // Doubling a frequency raises its measure by exactly twelve semitones.
    for &frequency in &[330.0, 440.0, 466.16, 622.25, 987.77] {
        let s = milli_semitones(frequency);
        let low = get_pitch_info(s);
        let high = get_pitch_info(s + 12_000);
        assert_eq!(low.note.literal, high.note.literal);
        assert_eq!(low.note.octave + 1, high.note.octave);
        assert_eq!(low.cent_milli, high.cent_milli);
    }
}

#[test]
fn cents_stay_within_half_a_semitone() {
    for s in -12_000..=12_000 {
        let info = get_pitch_info(s);
        assert!(-500 <= info.cent_milli && info.cent_milli <= 500);
    }
}

#[test]
fn half_semitone_ties_round_away_from_zero() {
    // Exactly halfway between A4 and A♯4: the tie rounds up to A♯4.
    let sharp_tie = get_pitch_info(500);
    assert_eq!(sharp_tie.note.literal, "A♯/B♭");
    assert_eq!(sharp_tie.note.octave, 4);
    assert_eq!(sharp_tie.cent_milli, -500);

    // Exactly halfway between A4 and G♯4: the tie rounds down to G♯4.
    let flat_tie = get_pitch_info(-500);
    assert_eq!(flat_tie.note.literal, "G♯/A♭");
    assert_eq!(flat_tie.note.octave, 4);
    assert_eq!(flat_tie.cent_milli, 500);
}

#[test]
fn negative_semitones_map_to_low_octaves() {
    // C0 sits 57 semitones below A4.
    let info = get_pitch_info(-57_000);
    assert_eq!(info.note.literal, "C");
    assert_eq!(info.note.octave, 0);
    assert_eq!(info.cent_milli, 0);
}
