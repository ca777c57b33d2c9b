use justi::cell::cell_text;
use justi::song::Note;

#[test]
fn zero_exponents_show_as_double_zero() {
    for f in 0..4 {
        assert_eq!(cell_text(Note::On([0, 0, 0, 0]), f), "00");
    }
}

#[test]
fn octave_up_shows_as_01_00_00_00() {
    let n = Note::On([1, 0, 0, 0]);
    let texts: Vec<String> = (0..4).map(|f| cell_text(n, f)).collect();
    assert_eq!(texts, vec!["01", "00", "00", "00"]);
}

#[test]
fn octave_down_fifth_up_shows_as_minus01_01_00_00() {
    let n = Note::On([-1, 1, 0, 0]);
    let texts: Vec<String> = (0..4).map(|f| cell_text(n, f)).collect();
    assert_eq!(texts, vec!["-01", "01", "00", "00"]);
}

#[test]
fn exponents_of_two_or_more_digits() {
    let n = Note::On([12, -12, 123, -123]);
    assert_eq!(cell_text(n, 0), "12");
    assert_eq!(cell_text(n, 1), "-12");
    assert_eq!(cell_text(n, 2), "123");
    assert_eq!(cell_text(n, 3), "-123");
}

#[test]
fn extreme_exponents() {
    let n = Note::On([i32::MAX, i32::MIN, 9, -9]);
    assert_eq!(cell_text(n, 0), "2147483647");
    assert_eq!(cell_text(n, 1), "-2147483648");
    assert_eq!(cell_text(n, 2), "09");
    assert_eq!(cell_text(n, 3), "-09");
}

#[test]
fn note_off_and_empty_cells() {
    for f in 0..4 {
        assert_eq!(cell_text(Note::Off, f), "--");
        assert_eq!(cell_text(Note::Empty, f), ". .");
    }
}
