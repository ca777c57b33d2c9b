//! The state of the two widgets: a push button and a text box. Where the
//! pointer is, and whether it lies inside a widget, is worked out by the
//! caller from the widget's rectangle.

use vstd::prelude::*;

use crate::cell::push_char;

verus! {

/// A mouse input, as far as a button cares.
#[derive(Clone, Copy, Debug, PartialEq, Eq)]
pub enum MouseEvent {
    /// The first mouse button went down.
    Press,
    /// The first mouse button went up.
    Release,
    /// Anything else.
    Other,
}

/// What a mouse input does to a button that is `down` while the mouse is
/// `captured`, the pointer being `inside` the button or not: the new
/// `down`, the new `captured`, and whether the button was clicked.
pub open spec fn button_step(down: bool, captured: bool, input: MouseEvent, inside: bool) -> (bool, bool, bool) {
    match input {
        MouseEvent::Press => if !captured && inside {
            (true, true, false)
        } else {
            (down, captured, false)
        },
        MouseEvent::Release => if down {
            (false, false, inside)
        } else {
            (down, captured, false)
        },
        MouseEvent::Other => (down, captured, false),
    }
}

/// Pressing inside a button while no widget holds the mouse and then
/// releasing inside it is one click, and leaves the button up and the mouse free.
pub proof fn lemma_click(down: bool, captured: bool)
    requires
        !captured,
    ensures
        ({
            let (d1, c1, k1) = button_step(down, captured, MouseEvent::Press, true);
            let (d2, c2, k2) = button_step(d1, c1, MouseEvent::Release, true);
            d1 && c1 && !k1 && !d2 && !c2 && k2
        }),
{
}

/// A button reports a click only on a release, and only if it was down; and
/// a button that is up ignores a press while another widget holds the mouse.
pub proof fn lemma_click_needs_press(down: bool, captured: bool, input: MouseEvent, inside: bool)
    ensures
        button_step(down, captured, input, inside).2 ==> down && input == MouseEvent::Release && inside,
        !down && captured ==> button_step(down, captured, input, inside) == (down, captured, false),
{
}

/// A push button: it takes the mouse when pressed inside it, and reports a
/// click when released inside it.
pub struct Button {
    down: bool,
}

impl View for Button {
    type V = bool;

    /// Whether the button is held down.
    closed spec fn view(&self) -> bool {
        self.down
    }
}

impl Button {
    /// A button that is not held down.
    pub fn new() -> (b: Button)
        ensures
            !b@,
    {
        Button { down: false }
    }

    /// Whether the button is held down.
    pub fn is_down(&self) -> (d: bool)
        ensures
            d == self@,
    {
        self.down
    }

    /// Handles a mouse input; `inside` tells whether the pointer lies inside
    /// the button, `mouse_captured` whether some widget holds the mouse.
    /// Returns whether the button was clicked.
    pub fn event(&mut self, input: MouseEvent, inside: bool, mouse_captured: &mut bool) -> (clicked: bool)
        ensures
            (final(self)@, *final(mouse_captured), clicked)
                == button_step(old(self)@, *old(mouse_captured), input, inside),
    {
        match input {
            MouseEvent::Press => {
                if !*mouse_captured && inside {
                    self.down = true;
                    *mouse_captured = true;
                }
            },
            MouseEvent::Release => {
                if self.down {
                    *mouse_captured = false;
                    self.down = false;
                    if inside {
                        return true;
                    }
                }
            },
            MouseEvent::Other => {},
        }
        false
    }
}

/// A text input, as far as a text box cares.
#[derive(Clone, Copy, Debug, PartialEq, Eq)]
pub enum TextEvent {
    /// A character was typed.
    Char(char),
    /// Anything else.
    Other,
}

/// A text box: typed characters are appended to its text.
pub struct Textbox {
    focus: bool,
    text: String,
}

impl View for Textbox {
    type V = Seq<char>;

    /// The text.
    closed spec fn view(&self) -> Seq<char> {
        self.text@
    }
}

impl Textbox {
    /// Whether the text box has the focus.
    pub closed spec fn has_focus(&self) -> bool {
        self.focus
    }

    /// Whether the text box has the focus.
    pub fn focused(&self) -> (b: bool)
        ensures
            b == self.has_focus(),
    {
        self.focus
    }

    /// An empty text box without the focus.
    pub fn new() -> (t: Textbox)
        ensures
            t@ == Seq::<char>::empty(),
            !t.has_focus(),
    {
        Textbox { focus: false, text: String::new() }
    }

    /// The text.
    pub fn text(&self) -> (s: &str)
        ensures
            s@ == self@,
    {
        self.text.as_str()
    }

    /// The text, to be changed in place.
    pub fn text_mut(&mut self) -> (s: &mut String)
        ensures
            (*s)@ == old(self)@,
            final(self)@ == (*final(s))@,
            final(self).has_focus() == old(self).has_focus(),
    {
        &mut self.text
    }

    /// Handles a text input: a typed character is appended.
    pub fn event(&mut self, input: TextEvent) -> (handled: bool)
        ensures
            input matches TextEvent::Char(c) ==> final(self)@ == old(self)@.push(c),
            input is Other ==> final(self)@ == old(self)@,
            final(self).has_focus() == old(self).has_focus(),
            !handled,
    {
        match input {
            TextEvent::Char(c) => {
                push_char(&mut self.text, c);
            },
            TextEvent::Other => {},
        }
        false
    }
}

} // verus!
