use justi::cell::cell_text;
use justi::editor::{Editor, Effect, Key};
use justi::song::Note;
use justi::widgets::TextEvent;

fn texts(e: &Editor) -> Vec<String> {
    let (t, r) = e.cursor();
    let n = e.song().note(t, r);
    (0..4).map(|f| cell_text(n, f)).collect()
}

#[test]
fn starts_on_first_cell_stopped() {
    let e = Editor::default();
    assert_eq!(e.cursor(), (0, 0));
    assert!(!e.playing());
    assert!(matches!(e.song().note(0, 0), Note::Empty));
    assert_eq!(e.textbox().text(), "text");
    assert!(!e.textbox().focused());
}

#[test]
fn arrows_move_and_stop_at_edges() {
    let mut e = Editor::default();
    assert_eq!(e.handle_key(Key::Left, false), Effect::Nothing);
    assert_eq!(e.cursor(), (0, 0));
    assert_eq!(e.handle_key(Key::Up, false), Effect::Nothing);
    assert_eq!(e.cursor(), (0, 0));
    for _ in 0..20 {
        e.handle_key(Key::Right, false);
        e.handle_key(Key::Down, false);
    }
    assert_eq!(e.cursor(), (7, 7));
    e.handle_key(Key::Left, false);
    assert_eq!(e.cursor(), (6, 7));
    e.handle_key(Key::Up, true);
    assert_eq!(e.cursor(), (6, 6));
}

#[test]
fn key1_on_empty_cell_makes_octave_up() {
    let mut e = Editor::default();
    assert_eq!(e.handle_key(Key::Key1, false), Effect::SendSong);
    assert!(matches!(e.song().note(0, 0), Note::On([1, 0, 0, 0])));
    assert_eq!(texts(&e), vec!["01", "00", "00", "00"]);
}

#[test]
fn down_an_octave_and_up_a_fifth() {
    let mut e = Editor::default();
    e.handle_key(Key::Right, false);
    e.handle_key(Key::Down, false);
    assert_eq!(e.handle_key(Key::Key1, true), Effect::SendSong);
    assert_eq!(e.handle_key(Key::Key2, false), Effect::SendSong);
    assert!(matches!(e.song().note(1, 1), Note::On([-1, 1, 0, 0])));
    assert_eq!(texts(&e), vec!["-01", "01", "00", "00"]);
    assert!(matches!(e.song().note(0, 0), Note::Empty));
}

#[test]
fn third_and_seventh_keys() {
    let mut e = Editor::default();
    e.handle_key(Key::Key3, false);
    e.handle_key(Key::Key4, true);
    e.handle_key(Key::Key4, true);
    assert!(matches!(e.song().note(0, 0), Note::On([0, 0, 1, -2])));
}

#[test]
fn factor_key_on_note_off_starts_from_zero() {
    let mut e = Editor::default();
    assert_eq!(e.handle_key(Key::GraveAccent, false), Effect::SendSong);
    assert!(matches!(e.song().note(0, 0), Note::Off));
    e.handle_key(Key::Key2, false);
    assert!(matches!(e.song().note(0, 0), Note::On([0, 1, 0, 0])));
}

#[test]
fn up_then_down_restores_the_note() {
    let mut e = Editor::default();
    e.handle_key(Key::Key1, false);
    e.handle_key(Key::Key3, false);
    e.handle_key(Key::Key2, false);
    e.handle_key(Key::Key2, true);
    assert!(matches!(e.song().note(0, 0), Note::On([1, 0, 1, 0])));
    e.handle_key(Key::Key1, true);
    e.handle_key(Key::Key1, false);
    assert!(matches!(e.song().note(0, 0), Note::On([1, 0, 1, 0])));
}

#[test]
fn delete_and_backspace_clear_the_cell() {
    let mut e = Editor::default();
    e.handle_key(Key::Key1, false);
    assert_eq!(e.handle_key(Key::Delete, false), Effect::SendSong);
    assert!(matches!(e.song().note(0, 0), Note::Empty));
    e.handle_key(Key::GraveAccent, false);
    assert_eq!(e.handle_key(Key::Backspace, false), Effect::SendSong);
    assert!(matches!(e.song().note(0, 0), Note::Empty));
    assert_eq!(texts(&e), vec![". .", ". .", ". .", ". ."]);
}

#[test]
fn backtick_inserts_note_off() {
    let mut e = Editor::default();
    e.handle_key(Key::Key1, false);
    e.handle_key(Key::GraveAccent, false);
    assert!(matches!(e.song().note(0, 0), Note::Off));
    assert_eq!(texts(&e), vec!["--", "--", "--", "--"]);
}

#[test]
fn space_plays_and_stops() {
    let mut e = Editor::default();
    assert_eq!(e.handle_key(Key::Space, false), Effect::Play);
    assert!(e.playing());
    assert_eq!(e.handle_key(Key::Space, false), Effect::Stop);
    assert!(!e.playing());
}

#[test]
fn play_button_plays_and_stops_like_space() {
    let mut e = Editor::default();
    assert_eq!(e.press_play(), Effect::Play);
    assert!(e.playing());
    assert_eq!(e.press_play(), Effect::Stop);
    assert!(!e.playing());
    assert_eq!(e.handle_key(Key::Space, false), Effect::Play);
    assert_eq!(e.press_play(), Effect::Stop);
    assert!(!e.playing());
}

#[test]
fn escape_quits_and_changes_nothing() {
    let mut e = Editor::default();
    e.handle_key(Key::Right, false);
    e.handle_key(Key::Key1, false);
    assert_eq!(e.handle_key(Key::Escape, false), Effect::Quit);
    assert_eq!(e.cursor(), (1, 0));
    assert!(!e.playing());
    assert!(matches!(e.song().note(1, 0), Note::On([1, 0, 0, 0])));
}

#[test]
fn i_asks_for_a_sample_for_the_cursor_track() {
    let mut e = Editor::default();
    e.handle_key(Key::Right, false);
    e.handle_key(Key::Right, false);
    e.handle_key(Key::Down, false);
    assert_eq!(e.handle_key(Key::I, false), Effect::LoadSample(2));
    assert_eq!(e.cursor(), (2, 1));
}

#[test]
fn other_keys_do_nothing() {
    let mut e = Editor::default();
    assert_eq!(e.handle_key(Key::Other, true), Effect::Nothing);
    assert_eq!(e.cursor(), (0, 0));
    assert!(matches!(e.song().note(0, 0), Note::Empty));
}

#[test]
fn overflow_is_detected_before_it_happens() {
    let e = Editor::default();
    assert!(!e.key_overflows(Key::Key1, false));
    assert!(!e.key_overflows(Key::Key1, true));
    assert!(!e.key_overflows(Key::Space, false));
}

#[test]
fn clearing_twice_is_clearing_once() {
    let mut e = Editor::default();
    e.handle_key(Key::Key1, false);
    e.handle_key(Key::Delete, false);
    e.handle_key(Key::Delete, false);
    assert!(matches!(e.song().note(0, 0), Note::Empty));
    e.handle_key(Key::GraveAccent, false);
    e.handle_key(Key::GraveAccent, false);
    assert!(matches!(e.song().note(0, 0), Note::Off));
}

#[test]
fn opposite_arrows_cancel_away_from_edges() {
    let mut e = Editor::default();
    e.handle_key(Key::Right, false);
    e.handle_key(Key::Down, false);
    e.handle_key(Key::Left, false);
    e.handle_key(Key::Right, false);
    e.handle_key(Key::Up, false);
    e.handle_key(Key::Down, false);
    assert_eq!(e.cursor(), (1, 1));
}

#[test]
fn typed_characters_go_to_the_text_box_only() {
    let mut e = Editor::default();
    e.handle_key(Key::Down, false);
    assert!(!e.text_event(TextEvent::Char('!')));
    assert!(!e.text_event(TextEvent::Other));
    assert_eq!(e.textbox().text(), "text!");
    assert_eq!(e.cursor(), (0, 1));
    assert!(matches!(e.song().note(0, 1), Note::Empty));
    e.handle_key(Key::Key1, false);
    assert_eq!(e.textbox().text(), "text!");
}
