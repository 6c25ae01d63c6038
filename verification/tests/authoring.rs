use uta_studio_desktop::authoring::{format_lrc_centiseconds, shift_key_name};

#[test]
fn key_shift_moves_major_and_minor_keys_around_the_octave() {
    assert_eq!(shift_key_name("C", 2), "D");
    assert_eq!(shift_key_name("Am", 3), "Cm");
    assert_eq!(shift_key_name("B", 1), "C");
    assert_eq!(shift_key_name("C", -1), "B");
    assert_eq!(shift_key_name("F#m", -13), "Fm");
    assert_eq!(shift_key_name("G#", 24), "G#");
}

#[test]
fn unknown_keys_are_kept() {
    assert_eq!(shift_key_name("Bb", 2), "Bb");
    assert_eq!(shift_key_name("m", 5), "m");
    assert_eq!(shift_key_name("", 5), "");
    assert_eq!(shift_key_name("Cmaj7", 1), "Cmaj7");
}

#[test]
fn shifts_compose_and_octaves_cancel() {
    for key in ["C", "C#m", "Em", "B", "x"] {
        for a in -14..14 {
            assert_eq!(shift_key_name(key, 12 * a), shift_key_name(key, 0));
            for b in -3..3 {
                assert_eq!(
                    shift_key_name(&shift_key_name(key, a), b),
                    shift_key_name(key, a + b)
                );
            }
        }
    }
}

#[test]
fn lrc_timestamps_are_minutes_seconds_and_hundredths() {
    assert_eq!(format_lrc_centiseconds(0), "00:00.00");
    assert_eq!(format_lrc_centiseconds(6_543), "01:05.43");
    assert_eq!(format_lrc_centiseconds(59_999), "09:59.99");
    assert_eq!(format_lrc_centiseconds(600_000), "100:00.00");
}
