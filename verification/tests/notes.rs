use mypitch::note::note_name;

#[test]
fn concert_pitch_is_a4() {
    assert_eq!(note_name(69), "A4");
}

#[test]
fn octaves_of_a() {
    assert_eq!(note_name(57), "A3");
    assert_eq!(note_name(81), "A5");
}

#[test]
fn lowest_note_is_c_minus_one() {
    assert_eq!(note_name(0), "C-1");
    assert_eq!(note_name(11), "B-1");
    assert_eq!(note_name(12), "C0");
}

#[test]
fn sharps_are_named() {
    assert_eq!(note_name(61), "C#4");
    assert_eq!(note_name(70), "A#4");
}

#[test]
fn notes_below_zero_count_octaves_down() {
    assert_eq!(note_name(-1), "B-2");
    assert_eq!(note_name(-12), "C-2");
    assert_eq!(note_name(-13), "B-3");
}

#[test]
fn extreme_note_numbers() {
    assert_eq!(note_name(i32::MAX), "G178956969");
    assert_eq!(note_name(i32::MIN), "E-178956972");
}
