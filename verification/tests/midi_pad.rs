use rustsynth::midi_pad::pad_to_voice;

#[test]
fn test_bottom_left_pad_is_voice_zero() {
    assert_eq!(pad_to_voice(11), Some(0));
}

#[test]
fn test_second_half_starts_at_voice_eight() {
    // row 1, col 5 -> half 1, local_col 0 -> voice 8
    assert_eq!(pad_to_voice(15), Some(8));
}

#[test]
fn test_top_row_of_voice_grid() {
    // row 4, col 4 -> overall_row 3, local_col 3 -> voice 15
    assert_eq!(pad_to_voice(44), Some(15));
}

#[test]
fn test_rows_above_voice_grid_ignored() {
    assert_eq!(pad_to_voice(58), None);
    assert_eq!(pad_to_voice(81), None);
}

#[test]
fn test_non_grid_note_ignored() {
    assert_eq!(pad_to_voice(0), None);
    assert_eq!(pad_to_voice(99), None);
}

#[test]
fn pad_second_row_of_right_half() {
    // row 2, col 8 -> half 1, overall_row 1, local_col 3 -> voice 15
    assert_eq!(pad_to_voice(28), Some(15));
}

#[test]
fn pads_with_column_zero_or_nine_are_not_grid_pads() {
    assert_eq!(pad_to_voice(10), None);
    assert_eq!(pad_to_voice(19), None);
    assert_eq!(pad_to_voice(40), None);
}

#[test]
fn upper_right_pads_of_the_voice_rows_are_ignored() {
    // row 3, col 5 and row 4, col 8 would name voices 16 and 23
    assert_eq!(pad_to_voice(35), None);
    assert_eq!(pad_to_voice(48), None);
    // row 3, col 1 and row 1, col 5 share voice 8
    assert_eq!(pad_to_voice(31), Some(8));
}

#[test]
fn every_pad_maps_below_sixteen() {
    for note in 0..=255u8 {
        if let Some(v) = pad_to_voice(note) {
            assert!(v < 16);
        }
    }
}

#[test]
fn bottom_two_rows_cover_every_voice_once() {
    let mut seen = [false; 16];
    for row in 1..=2u8 {
        for col in 1..=8u8 {
            let v = pad_to_voice(row * 10 + col).unwrap();
            assert!(v < 16);
            assert!(!seen[v]);
            seen[v] = true;
        }
    }
    assert!(seen.iter().all(|&s| s));
}
