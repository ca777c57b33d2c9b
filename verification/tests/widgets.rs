use justi::widgets::{Button, MouseEvent, TextEvent, Textbox};

#[test]
fn press_and_release_inside_is_a_click() {
    let mut b = Button::new();
    let mut captured = false;
    assert!(!b.event(MouseEvent::Press, true, &mut captured));
    assert!(b.is_down());
    assert!(captured);
    assert!(b.event(MouseEvent::Release, true, &mut captured));
    assert!(!b.is_down());
    assert!(!captured);
}

#[test]
fn release_outside_is_no_click_but_frees_the_mouse() {
    let mut b = Button::new();
    let mut captured = false;
    b.event(MouseEvent::Press, true, &mut captured);
    assert!(!b.event(MouseEvent::Release, false, &mut captured));
    assert!(!b.is_down());
    assert!(!captured);
}

#[test]
fn press_outside_or_when_captured_does_nothing() {
    let mut b = Button::new();
    let mut captured = false;
    assert!(!b.event(MouseEvent::Press, false, &mut captured));
    assert!(!b.is_down());
    assert!(!captured);
    let mut captured = true;
    assert!(!b.event(MouseEvent::Press, true, &mut captured));
    assert!(!b.is_down());
    assert!(captured);
    assert!(!b.event(MouseEvent::Release, true, &mut captured));
    assert!(captured);
}

#[test]
fn other_mouse_input_is_ignored() {
    let mut b = Button::new();
    let mut captured = false;
    b.event(MouseEvent::Press, true, &mut captured);
    assert!(!b.event(MouseEvent::Other, true, &mut captured));
    assert!(b.is_down());
    assert!(captured);
}

#[test]
fn typed_characters_are_appended() {
    let mut t = Textbox::new();
    assert_eq!(t.text(), "");
    assert!(!t.event(TextEvent::Char('a')));
    assert!(!t.event(TextEvent::Char('é')));
    assert!(!t.event(TextEvent::Other));
    assert_eq!(t.text(), "aé");
}

#[test]
fn text_can_be_replaced_in_place() {
    let mut t = Textbox::new();
    *t.text_mut() = String::from("text");
    assert_eq!(t.text(), "text");
    t.event(TextEvent::Char('!'));
    assert_eq!(t.text(), "text!");
}
