//! The editing rules: what each key does to the song, the cursor and the
//! transport, and what the caller must then do.

use vstd::prelude::*;

use crate::song::{cell_index, Note, Song, CELLS, LENGTH, TRACKS};
use crate::widgets::{TextEvent, Textbox};

verus! {

/// The keys that the editor responds to.
#[derive(Clone, Copy, Debug, PartialEq, Eq)]
pub enum Key {
    Left,
    Right,
    Up,
    Down,
    Key1,
    Key2,
    Key3,
    Key4,
    GraveAccent,
    Backspace,
    Delete,
    I,
    Space,
    Escape,
    /// Any other key: ignored.
    Other,
}

/// What the caller must do after the editor has handled an input.
#[derive(Clone, Copy, Debug, PartialEq, Eq)]
pub enum Effect {
    /// Nothing.
    Nothing,
    /// Hand the edited song to the audio side.
    SendSong,
    /// Start playback from the first row.
    Play,
    /// Stop playback.
    Stop,
    /// Ask for a sample file for this track, and on success hand the song
    /// with its new sample to the audio side.
    LoadSample(usize),
    /// Quit the program.
    Quit,
}

/// The abstract state of the editor.
pub struct EditorView {
    pub notes: Seq<Note>,
    /// The selected cell: (track, row).
    pub cursor: (usize, usize),
    pub playing: bool,
    /// The text of the text box in the toolbar.
    pub text: Seq<char>,
    /// Whether the text box has the focus.
    pub text_focus: bool,
}

/// A state that the editor can be in: a full grid and a cursor on it.
pub open spec fn valid(v: EditorView) -> bool {
    &&& v.notes.len() == CELLS
    &&& v.cursor.0 < TRACKS
    &&& v.cursor.1 < LENGTH
}

/// The exponent that a key changes, if it is one of the four factor keys.
pub open spec fn factor_of(key: Key) -> Option<int> {
    match key {
        Key::Key1 => Some(0),
        Key::Key2 => Some(1),
        Key::Key3 => Some(2),
        Key::Key4 => Some(3),
        _ => None,
    }
}

/// A factor key moves the note up, or down with shift held.
pub open spec fn factor_step(shift: bool) -> int {
    if shift { -1 } else { 1 }
}

/// The exponents that a factor key starts from: those of the note, or all
/// zero for an empty cell or a note-off.
pub open spec fn base_factors(n: Note) -> [i32; 4] {
    match n {
        Note::On(f) => f,
        _ => [0i32, 0i32, 0i32, 0i32],
    }
}

/// The cell under the cursor.
pub open spec fn cursor_cell(v: EditorView) -> Note {
    v.notes[cell_index(v.cursor.0 as int, v.cursor.1 as int)]
}

/// A factor key does not take the exponent it changes out of the range of `i32`.
pub open spec fn key_in_range(v: EditorView, key: Key, shift: bool) -> bool {
    match factor_of(key) {
        Some(i) => {
            let x = base_factors(cursor_cell(v))[i] + factor_step(shift);
            i32::MIN <= x <= i32::MAX
        },
        None => true,
    }
}

/// The note that factor key `i` makes of `n`: exponent `i` moved by one step.
pub open spec fn raised(n: Note, i: int, shift: bool) -> Note {
    let f = base_factors(n);
    Note::On(vstd::array::spec_array_update(f, i, (f[i] + factor_step(shift)) as i32))
}

/// The grid with the cell under the cursor replaced.
pub open spec fn put_at_cursor(v: EditorView, n: Note) -> EditorView {
    EditorView {
        notes: v.notes.update(cell_index(v.cursor.0 as int, v.cursor.1 as int), n),
        ..v
    }
}

/// What a key does: the next state, and what the caller must do.
pub open spec fn key_step(v: EditorView, key: Key, shift: bool) -> (EditorView, Effect) {
    let (track, row) = v.cursor;
    match factor_of(key) {
        Some(i) => (put_at_cursor(v, raised(cursor_cell(v), i, shift)), Effect::SendSong),
        None => match key {
            Key::Left => (EditorView { cursor: (if track == 0 { 0 } else { (track - 1) as usize }, row), ..v }, Effect::Nothing),
            Key::Right => (EditorView { cursor: (if track + 1 < TRACKS { (track + 1) as usize } else { (TRACKS - 1) as usize }, row), ..v }, Effect::Nothing),
            Key::Up => (EditorView { cursor: (track, if row == 0 { 0 } else { (row - 1) as usize }), ..v }, Effect::Nothing),
            Key::Down => (EditorView { cursor: (track, if row + 1 < LENGTH { (row + 1) as usize } else { (LENGTH - 1) as usize }), ..v }, Effect::Nothing),
            Key::GraveAccent => (put_at_cursor(v, Note::Off), Effect::SendSong),
            Key::Backspace | Key::Delete => (put_at_cursor(v, Note::Empty), Effect::SendSong),
            Key::I => (v, Effect::LoadSample(track)),
            Key::Escape => (v, Effect::Quit),
            Key::Space => if v.playing {
                (EditorView { playing: false, ..v }, Effect::Stop)
            } else {
                (EditorView { playing: true, ..v }, Effect::Play)
            },
            _ => (v, Effect::Nothing),
        },
    }
}

/// Every key keeps the editor on the grid, and changes no cell but the one
/// under the cursor.
pub proof fn lemma_key_keeps_grid(v: EditorView, key: Key, shift: bool)
    requires
        valid(v),
    ensures
        valid(key_step(v, key, shift).0),
        forall|i: int|
            0 <= i < CELLS && i != cell_index(v.cursor.0 as int, v.cursor.1 as int)
                ==> #[trigger] key_step(v, key, shift).0.notes[i] == v.notes[i],
{
}

/// A factor key and the same key with shift undo each other on a note:
/// 1 then shift+1 (or shift+1 then 1) leaves the editor as it was.
pub proof fn lemma_factor_key_undone(v: EditorView, key: Key, shift: bool)
    requires
        valid(v),
        factor_of(key) is Some,
        cursor_cell(v) is On,
        key_in_range(v, key, shift),
    ensures
        key_in_range(key_step(v, key, shift).0, key, !shift),
        key_step(key_step(v, key, shift).0, key, !shift).0 == v,
{
    let i = factor_of(key)->0;
    let f = base_factors(cursor_cell(v));
    let w = key_step(v, key, shift).0;
    let g = vstd::array::spec_array_update(f, i, (f[i] + factor_step(shift)) as i32);
    assert(cursor_cell(w) == Note::On(g));
    let h = vstd::array::spec_array_update(g, i, (g[i] + factor_step(!shift)) as i32);
    assert(h@ =~= f@);
    assert(h == f);
    assert(key_step(w, key, !shift).0.notes =~= v.notes);
}

/// Space twice leaves the editor as it was: it starts and then stops
/// playback, or stops and then starts it.
pub proof fn lemma_space_twice(v: EditorView, s1: bool, s2: bool)
    ensures
        key_step(key_step(v, Key::Space, s1).0, Key::Space, s2).0 == v,
        key_step(v, Key::Space, s1).1 == (if v.playing { Effect::Stop } else { Effect::Play }),
        key_step(key_step(v, Key::Space, s1).0, Key::Space, s2).1 == (if v.playing { Effect::Play } else { Effect::Stop }),
{
}

/// Away from the edges, an arrow key and the opposite one bring the cursor back.
pub proof fn lemma_arrows_undone(v: EditorView, shift: bool)
    requires
        valid(v),
    ensures
        v.cursor.0 > 0 ==> key_step(key_step(v, Key::Left, shift).0, Key::Right, shift).0 == v,
        v.cursor.0 + 1 < TRACKS ==> key_step(key_step(v, Key::Right, shift).0, Key::Left, shift).0 == v,
        v.cursor.1 > 0 ==> key_step(key_step(v, Key::Up, shift).0, Key::Down, shift).0 == v,
        v.cursor.1 + 1 < LENGTH ==> key_step(key_step(v, Key::Down, shift).0, Key::Up, shift).0 == v,
{
}

/// Delete, backspace and the backtick replace the cell under the cursor
/// whatever it held, and pressing them again changes nothing more.
pub proof fn lemma_clear_idempotent(v: EditorView, key: Key, shift: bool)
    requires
        valid(v),
        key == Key::Delete || key == Key::Backspace || key == Key::GraveAccent,
    ensures
        key_step(key_step(v, key, shift).0, key, shift).0 == key_step(v, key, shift).0,
        cursor_cell(key_step(v, key, shift).0) == (if key == Key::GraveAccent { Note::Off } else { Note::Empty }),
{
    let w = key_step(v, key, shift).0;
    assert(key_step(w, key, shift).0.notes =~= w.notes);
}

/// The arrow keys only move the cursor, one cell at a time, and stop at the
/// edges: Left and Right never change the row, Up and Down never change the
/// track; no other key moves the cursor.
pub proof fn lemma_arrows_move_cursor(v: EditorView, key: Key, shift: bool)
    requires
        valid(v),
    ensures
        ({
            let (w, e) = key_step(v, key, shift);
            let (t, r) = v.cursor;
            &&& key == Key::Left ==> w.cursor == (if t == 0 { t } else { (t - 1) as usize }, r)
            &&& key == Key::Right ==> w.cursor == (if t + 1 == TRACKS { t } else { (t + 1) as usize }, r)
            &&& key == Key::Up ==> w.cursor == (t, if r == 0 { r } else { (r - 1) as usize })
            &&& key == Key::Down ==> w.cursor == (t, if r + 1 == LENGTH { r } else { (r + 1) as usize })
            &&& (key == Key::Left || key == Key::Right || key == Key::Up || key == Key::Down) ==> {
                &&& w.notes == v.notes
                &&& w.playing == v.playing
                &&& e == Effect::Nothing
            }
            &&& !(key == Key::Left || key == Key::Right || key == Key::Up || key == Key::Down) ==> w.cursor == v.cursor
        }),
{
}

/// A key asks for the song to be sent exactly when it edits the cell under
/// the cursor: the four factor keys, with or without shift, Delete,
/// Backspace and the backtick. Every key that changes a note sends the song.
pub proof fn lemma_edits_send_song(v: EditorView, key: Key, shift: bool)
    requires
        valid(v),
    ensures
        ({
            let (w, e) = key_step(v, key, shift);
            let edits = key == Key::Key1 || key == Key::Key2 || key == Key::Key3 || key == Key::Key4
                || key == Key::Delete || key == Key::Backspace || key == Key::GraveAccent;
            &&& (e == Effect::SendSong) == edits
            &&& w.notes != v.notes ==> e == Effect::SendSong
            &&& !edits ==> w.notes == v.notes
            &&& edits ==> w.playing == v.playing && w.cursor == v.cursor
        }),
{
}

/// Factor key `k` (1 to 4) moves exponent `k - 1` of the note under the
/// cursor up by one, or down by one with shift, and leaves the other three;
/// on an empty cell or a note-off it starts from all zero exponents.
pub proof fn lemma_factor_key_moves_one_exponent(v: EditorView, key: Key, shift: bool)
    requires
        valid(v),
        factor_of(key) is Some,
        key_in_range(v, key, shift),
    ensures
        ({
            let i = factor_of(key)->0;
            let w = key_step(v, key, shift).0;
            let d: int = if shift { -1 } else { 1 };
            &&& cursor_cell(w) is On
            &&& forall|j: int| 0 <= j < 4 && j != i ==> (#[trigger] cursor_cell(w)->0[j]) == (
                match cursor_cell(v) { Note::On(f) => f[j], _ => 0i32 })
            &&& cursor_cell(w)->0[i] == (match cursor_cell(v) { Note::On(f) => f[i], _ => 0i32 }) + d
        }),
{
    let i = factor_of(key)->0;
    let w = key_step(v, key, shift).0;
    assert(cursor_cell(w) == raised(cursor_cell(v), i, shift));
}

/// Space toggles playback and changes nothing else; `i` asks for a sample
/// for the cursor's track, Escape asks to quit, and any other key asks for
/// nothing; none of those three changes the editor.
pub proof fn lemma_keys_without_edit(v: EditorView, shift: bool)
    requires
        valid(v),
    ensures
        key_step(v, Key::Space, shift).0.playing == !v.playing,
        key_step(v, Key::Space, shift).0.notes == v.notes,
        key_step(v, Key::Space, shift).0.cursor == v.cursor,
        key_step(v, Key::Space, shift).0.text == v.text,
        key_step(v, Key::I, shift) == (v, Effect::LoadSample(v.cursor.0)),
        key_step(v, Key::Escape, shift) == (v, Effect::Quit),
        key_step(v, Key::Other, shift) == (v, Effect::Nothing),
{
}

/// The editing state: the song, the selected cell and whether playback runs.
pub struct Editor {
    song: Song,
    cursor: (usize, usize),
    playing: bool,
    textbox: Textbox,
}

impl View for Editor {
    type V = EditorView;

    closed spec fn view(&self) -> EditorView {
        EditorView {
            notes: self.song@,
            cursor: self.cursor,
            playing: self.playing,
            text: self.textbox@,
            text_focus: self.textbox.has_focus(),
        }
    }
}

impl Default for Editor {
    /// An empty song, the cursor on the first cell, playback stopped, and
    /// the text box holding `text`, without the focus.
    fn default() -> (e: Editor)
        ensures
            e.wf(),
            e@.notes == Seq::new(CELLS as nat, |i: int| Note::Empty),
            e@.cursor == (0usize, 0usize),
            !e@.playing,
            e@.text == seq!['t', 'e', 'x', 't'],
            !e@.text_focus,
    {
        let mut textbox = Textbox::new();
        let initial = String::from_str("text");
        proof {
            reveal_strlit("text");
        }
        *textbox.text_mut() = initial;
        Editor { song: Song::default(), cursor: (0, 0), playing: false, textbox }
    }
}

impl Editor {
    /// The cursor lies on the grid.
    pub open spec fn wf(&self) -> bool {
        valid(self@)
    }

    /// The song being edited.
    pub fn song(&self) -> (s: &Song)
        ensures
            s.wf(),
            s@ == self@.notes,
    {
        proof {
            use_type_invariant(&self.song);
        }
        &self.song
    }

    /// The text box in the toolbar.
    pub fn textbox(&self) -> (t: &Textbox)
        ensures
            t@ == self@.text,
            t.has_focus() == self@.text_focus,
    {
        &self.textbox
    }

    /// Hands a text input to the text box; nothing else changes.
    pub fn text_event(&mut self, input: TextEvent) -> (handled: bool)
        requires
            old(self).wf(),
        ensures
            final(self).wf(),
            input matches TextEvent::Char(c) ==> final(self)@ == (EditorView { text: old(self)@.text.push(c), ..old(self)@ }),
            input is Other ==> final(self)@ == old(self)@,
            !handled,
    {
        self.textbox.event(input)
    }

    /// The selected cell: (track, row).
    pub fn cursor(&self) -> (c: (usize, usize))
        ensures
            c == self@.cursor,
    {
        self.cursor
    }

    /// Whether playback runs.
    pub fn playing(&self) -> (p: bool)
        ensures
            p == self@.playing,
    {
        self.playing
    }

    /// Whether a factor key would take the exponent it changes out of the
    /// range of `i32`.
    pub fn key_overflows(&self, key: Key, shift: bool) -> (b: bool)
        requires
            self.wf(),
        ensures
            b == !key_in_range(self@, key, shift),
    {
        let i: usize = match key {
            Key::Key1 => 0,
            Key::Key2 => 1,
            Key::Key3 => 2,
            Key::Key4 => 3,
            _ => { return false; },
        };
        let f = match self.song.note(self.cursor.0, self.cursor.1) {
            Note::On(f) => f,
            _ => [0i32, 0i32, 0i32, 0i32],
        };
        if shift {
            f[i] == i32::MIN
        } else {
            f[i] == i32::MAX
        }
    }

    /// Handles a key press; `shift` tells whether shift is held.
    pub fn handle_key(&mut self, key: Key, shift: bool) -> (e: Effect)
        requires
            old(self).wf(),
            key_in_range(old(self)@, key, shift),
        ensures
            final(self).wf(),
            (final(self)@, e) == key_step(old(self)@, key, shift),
    {
        let (track, row) = self.cursor;
        match key {
            Key::Left => {
                self.cursor.0 = self.cursor.0.saturating_sub(1);
                Effect::Nothing
            },
            Key::Right => {
                let t = self.cursor.0 + 1;
                self.cursor.0 = if t < self.song.tracks() - 1 { t } else { self.song.tracks() - 1 };
                Effect::Nothing
            },
            Key::Up => {
                self.cursor.1 = self.cursor.1.saturating_sub(1);
                Effect::Nothing
            },
            Key::Down => {
                let r = self.cursor.1 + 1;
                self.cursor.1 = if r < self.song.length() - 1 { r } else { self.song.length() - 1 };
                Effect::Nothing
            },
            Key::Key1 | Key::Key2 | Key::Key3 | Key::Key4 => {
                let mut value = match self.song.note(track, row) {
                    Note::On(value) => value,
                    _ => [0i32, 0i32, 0i32, 0i32],
                };
                let inc: i32 = if shift { -1 } else { 1 };
                let idx: usize = match key {
                    Key::Key1 => 0,
                    Key::Key2 => 1,
                    Key::Key3 => 2,
                    _ => 3,
                };
                value[idx] = value[idx] + inc;
                proof {
                    let ghost f = base_factors(cursor_cell(old(self)@));
                    assert(value@ =~= vstd::array::spec_array_update(f, idx as int, (f[idx as int] + factor_step(shift)) as i32)@);
                }
                self.song.set_note(track, row, Note::On(value));
                Effect::SendSong
            },
            Key::GraveAccent => {
                self.song.set_note(track, row, Note::Off);
                Effect::SendSong
            },
            Key::Backspace | Key::Delete => {
                self.song.set_note(track, row, Note::Empty);
                Effect::SendSong
            },
            Key::I => Effect::LoadSample(track),
            Key::Escape => Effect::Quit,
            Key::Space => {
                if self.playing {
                    self.playing = false;
                    Effect::Stop
                } else {
                    self.playing = true;
                    Effect::Play
                }
            },
            Key::Other => Effect::Nothing,
        }
    }

    /// The play button was clicked: like Space, it starts playback when
    /// stopped and stops it when playing.
    pub fn press_play(&mut self) -> (e: Effect)
        requires
            old(self).wf(),
        ensures
            final(self).wf(),
            (final(self)@, e) == key_step(old(self)@, Key::Space, false),
    {
        if self.playing {
            self.playing = false;
            Effect::Stop
        } else {
            self.playing = true;
            Effect::Play
        }
    }
}

} // verus!
