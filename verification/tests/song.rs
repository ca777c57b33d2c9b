use justi::song::{Note, Song, LENGTH, TRACKS};

fn with_notes(cells: &[(usize, usize, Note)]) -> Song {
    let mut song = Song::default();
    for &(t, r, n) in cells {
        song.set_note(t, r, n);
    }
    song
}

#[test]
fn default_song_is_eight_by_eight_and_empty() {
    let song = Song::default();
    assert_eq!(song.tracks(), 8);
    assert_eq!(song.length(), 8);
    assert_eq!(TRACKS, 8);
    assert_eq!(LENGTH, 8);
    for t in 0..TRACKS {
        for r in 0..LENGTH {
            assert!(matches!(song.note(t, r), Note::Empty));
        }
    }
}

#[test]
fn set_note_changes_one_cell() {
    let song = with_notes(&[(2, 5, Note::On([1, -1, 0, 3]))]);
    assert!(matches!(song.note(2, 5), Note::On([1, -1, 0, 3])));
    assert!(matches!(song.note(5, 2), Note::Empty));
    assert!(matches!(song.note(2, 4), Note::Empty));
    assert!(matches!(song.note(3, 5), Note::Empty));
}

#[test]
fn empty_track_sounds_nothing() {
    let song = Song::default();
    for r in 0..LENGTH {
        assert!(song.sounding(0, r).is_none());
    }
}

#[test]
fn note_keeps_sounding_over_empty_rows() {
    let song = with_notes(&[(1, 2, Note::On([0, 1, 0, 0]))]);
    assert!(song.sounding(1, 0).is_none());
    assert!(song.sounding(1, 1).is_none());
    assert_eq!(song.sounding(1, 2), Some(([0, 1, 0, 0], 0)));
    assert_eq!(song.sounding(1, 5), Some(([0, 1, 0, 0], 3)));
    assert_eq!(song.sounding(1, 7), Some(([0, 1, 0, 0], 5)));
    assert!(song.sounding(0, 5).is_none());
}

#[test]
fn note_off_silences_until_next_note() {
    let song = with_notes(&[
        (0, 0, Note::On([1, 0, 0, 0])),
        (0, 3, Note::Off),
        (0, 6, Note::On([0, 0, 1, 0])),
    ]);
    assert_eq!(song.sounding(0, 0), Some(([1, 0, 0, 0], 0)));
    assert_eq!(song.sounding(0, 2), Some(([1, 0, 0, 0], 2)));
    assert!(song.sounding(0, 3).is_none());
    assert!(song.sounding(0, 5).is_none());
    assert_eq!(song.sounding(0, 6), Some(([0, 0, 1, 0], 0)));
    assert_eq!(song.sounding(0, 7), Some(([0, 0, 1, 0], 1)));
}

#[test]
fn note_on_first_row_reaches_last_row() {
    let song = with_notes(&[(7, 0, Note::On([0, 0, 0, 1]))]);
    assert_eq!(song.sounding(7, 7), Some(([0, 0, 0, 1], 7)));
}

#[test]
fn tracks_do_not_share_notes() {
    let song = with_notes(&[(3, 7, Note::On([2, 0, 0, 0]))]);
    assert!(song.sounding(4, 0).is_none());
    assert!(song.sounding(2, 7).is_none());
    assert_eq!(song.sounding(3, 7), Some(([2, 0, 0, 0], 0)));
}

#[test]
fn clone_keeps_the_notes() {
    let song = with_notes(&[(6, 3, Note::Off), (1, 1, Note::On([0, 0, 2, 0]))]);
    let copy = song.clone();
    assert!(matches!(copy.note(6, 3), Note::Off));
    assert!(matches!(copy.note(1, 1), Note::On([0, 0, 2, 0])));
    assert!(matches!(copy.note(0, 0), Note::Empty));
}
