use tune_in::note::freq_to_note_id;

#[test]
fn note_of_concert_pitch() {
    assert_eq!(freq_to_note_id(440_000), 69);
    assert_eq!(freq_to_note_id(880_000), 81);
    assert_eq!(freq_to_note_id(220_000), 57);
}

#[test]
fn note_of_middle_c() {
    assert_eq!(freq_to_note_id(261_630), 60);
    assert_eq!(freq_to_note_id(523_260), 72);
}

#[test]
fn note_rounds_at_half_semitone() {
    // 440 Hz * 2^(1/24) lies between 452.892 and 452.893 Hz.
    assert_eq!(freq_to_note_id(452_892), 69);
    assert_eq!(freq_to_note_id(452_893), 70);
}

#[test]
fn note_clamped_to_byte_range() {
    assert_eq!(freq_to_note_id(0), 0);
    assert_eq!(freq_to_note_id(1), 0);
    assert_eq!(freq_to_note_id(8_415), 0);
    assert_eq!(freq_to_note_id(8_416), 1);
    assert_eq!(freq_to_note_id(12_186_754), 126);
    assert_eq!(freq_to_note_id(12_186_755), 127);
    assert_eq!(freq_to_note_id(u32::MAX), 127);
}

#[test]
fn note_matches_float_formula() {
    let mut f: u32 = 8_000;
    while f < 13_000_000 {
        let hz = f as f64 / 1000.0;
        let x = (12.0 * (hz / 440.0).log2() + 69.0).round();
        let expected = x.clamp(0.0, 127.0) as u8;
        assert_eq!(freq_to_note_id(f), expected, "at {} mHz", f);
        f += 7_919;
    }
}
