//! The song: a grid of notes, one column per track and one row per step.

use vstd::prelude::*;

verus! {

/// Number of tracks (columns) of a song.
pub const TRACKS: usize = 8;

/// Number of steps (rows) of a song.
pub const LENGTH: usize = 8;

/// Number of cells of a song.
pub const CELLS: usize = TRACKS * LENGTH;

/// The tuning of one step of one track.
///
/// `On(f)` plays the track's sample shifted by `f[0]` octaves (factor 2),
/// `f[1]` fifths (3/2), `f[2]` major thirds (5/4) and `f[3]` minor sevenths (7/4).
#[derive(Clone, Copy, Debug)]
pub enum Note {
    /// Play the track's sample, tuned by the four exponents.
    On([i32; 4]),
    /// Silence the track.
    Off,
    /// Nothing new on this step: the previous note keeps sounding.
    Empty,
}

/// The notes of a song, stored track by track: the cell of track `t` and
/// row `r` is `notes[t * LENGTH + r]`.
pub struct Song {
    tracks: usize,
    length: usize,
    notes: Vec<Note>,
}

/// Index of the cell of `track` and `row` in a song's notes.
pub open spec fn cell_index(track: int, row: int) -> int {
    track * LENGTH + row
}

/// The last row at or before `row` whose cell of `track` holds a note or a
/// note-off, or -1 when every such cell is empty.
pub open spec fn last_set_row(notes: Seq<Note>, track: int, row: int) -> int
    decreases row + 1,
{
    if row < 0 {
        -1
    } else if !(notes[cell_index(track, row)] is Empty) {
        row
    } else {
        last_set_row(notes, track, row - 1)
    }
}

/// The last non-empty row lies between -1 and `row`; when it is a row, its
/// cell is not empty and every later cell up to `row` is.
pub proof fn lemma_last_set_row(notes: Seq<Note>, track: int, row: int)
    requires
        row >= -1,
    ensures
        -1 <= last_set_row(notes, track, row) <= row,
        last_set_row(notes, track, row) >= 0 ==> !(notes[cell_index(track, last_set_row(notes, track, row))] is Empty),
        forall|r: int| last_set_row(notes, track, row) < r <= row ==> #[trigger] notes[cell_index(track, r)] is Empty,
    decreases row + 1,
{
    if row >= 0 && notes[cell_index(track, row)] is Empty {
        lemma_last_set_row(notes, track, row - 1);
    }
}

/// What sounds on a row follows from its cell and the row before: a note
/// sounds from its own row with a count of 0; a note-off silences; an empty
/// cell carries on what sounded on the row before, one row further, or
/// nothing on the first row.
pub proof fn lemma_sounding_rows(notes: Seq<Note>, track: int, row: int)
    requires
        0 <= row,
    ensures
        notes[cell_index(track, row)] matches Note::On(f) ==> sounding_at(notes, track, row) == Some((f, 0usize)),
        notes[cell_index(track, row)] is Off ==> sounding_at(notes, track, row) is None,
        notes[cell_index(track, row)] is Empty && row == 0 ==> sounding_at(notes, track, row) is None,
        notes[cell_index(track, row)] is Empty && row > 0 && row < LENGTH ==> sounding_at(notes, track, row) == (
            match sounding_at(notes, track, row - 1) {
                Some((f, n)) => Some((f, (n + 1) as usize)),
                None => None,
            }),
{
    if row > 0 {
        lemma_last_set_row(notes, track, row - 1);
    }
    assert(last_set_row(notes, track, -1) == -1);
}

/// What sounds on `track` at `row`: the exponents of the last note at or
/// before `row`, with the number of rows since it started, unless the last
/// non-empty cell is a note-off or there is none.
pub open spec fn sounding_at(notes: Seq<Note>, track: int, row: int) -> Option<([i32; 4], usize)> {
    let r = last_set_row(notes, track, row);
    if r >= 0 {
        match notes[cell_index(track, r)] {
            Note::On(f) => Some((f, (row - r) as usize)),
            _ => None,
        }
    } else {
        None
    }
}

impl View for Song {
    type V = Seq<Note>;

    closed spec fn view(&self) -> Seq<Note> {
        self.notes@
    }
}

impl Song {
    /// The two dimensions that the song was made with.
    pub closed spec fn dims(&self) -> (usize, usize) {
        (self.tracks, self.length)
    }

    /// A song has `TRACKS` tracks of `LENGTH` rows, and a note for each cell.
    pub open spec fn wf(&self) -> bool {
        &&& self.dims() == (TRACKS, LENGTH)
        &&& self@.len() == CELLS
    }

    /// Every song is well formed: made so by `default`, kept so by `set_note`.
    #[verifier::type_invariant]
    pub open spec fn inv(&self) -> bool {
        self.wf()
    }

    /// The number of tracks.
    pub fn tracks(&self) -> (n: usize)
        ensures
            n == TRACKS,
    {
        proof {
            use_type_invariant(self);
        }
        self.tracks
    }

    /// The number of rows.
    pub fn length(&self) -> (n: usize)
        ensures
            n == LENGTH,
    {
        proof {
            use_type_invariant(self);
        }
        self.length
    }

    /// The note in the cell of `track` and `row`.
    pub fn note(&self, track: usize, row: usize) -> (n: Note)
        requires
            track < TRACKS,
            row < LENGTH,
        ensures
            self.wf(),
            n == self@[cell_index(track as int, row as int)],
    {
        proof {
            use_type_invariant(self);
        }
        self.notes[track * self.length + row]
    }

    /// Replaces the note in the cell of `track` and `row`.
    pub fn set_note(&mut self, track: usize, row: usize, note: Note)
        requires
            track < TRACKS,
            row < LENGTH,
        ensures
            final(self).wf(),
            final(self)@ == old(self)@.update(cell_index(track as int, row as int), note),
        no_unwind
    {
        proof {
            use_type_invariant(&*self);
        }
        let idx = track * self.length + row;
        self.notes[idx] = note;
    }
    /// What sounds on `track` at `row`: walks back from `row` over empty
    /// cells to the last note or note-off of the track.
    pub fn sounding(&self, track: usize, row: usize) -> (res: Option<([i32; 4], usize)>)
        requires
            track < TRACKS,
            row < LENGTH,
        ensures
            self.wf(),
            res == sounding_at(self@, track as int, row as int),
    {
        proof {
            use_type_invariant(self);
        }
        let base = track * self.length;
        let mut previous = row;
        let mut length: usize = 0;
        loop
            invariant_except_break
                self.wf(),
                base == track * LENGTH,
                track < TRACKS,
                row < LENGTH,
                previous <= row,
                length == row - previous,
                forall|r: int| previous < r <= row ==> #[trigger] self@[cell_index(track as int, r)] is Empty,
                last_set_row(self@, track as int, row as int) == last_set_row(self@, track as int, previous as int),
            ensures
                self.wf(),
                base == track * LENGTH,
                previous <= row,
                !(self@[cell_index(track as int, previous as int)] is Empty) ==> (
                    last_set_row(self@, track as int, row as int) == previous
                    && length == row - previous),
                self@[cell_index(track as int, previous as int)] is Empty ==> (
                    previous == 0 && last_set_row(self@, track as int, row as int) == -1),
            decreases previous,
        {
            match self.notes[base + previous] {
                Note::Empty => {},
                _ => break,
            }
            let old_previous = previous;
            previous = previous.saturating_sub(1);
            length += 1;
            if previous == 0 {
                proof {
                    if old_previous > 0 {
                        assert(last_set_row(self@, track as int, old_previous as int)
                            == last_set_row(self@, track as int, 0));
                    }
                    assert(last_set_row(self@, track as int, -1) == -1);
                    assert(self@[cell_index(track as int, 0)] is Empty ==>
                        last_set_row(self@, track as int, 0) == -1);
                }
                break;
            }
        }
        match self.notes[base + previous] {
            Note::On(factors) => Some((factors, length)),
            _ => None,
        }
    }
}

impl Clone for Song {
    /// A song with the same notes.
    fn clone(&self) -> (s: Song)
        ensures
            s.wf(),
            s@ == self@,
    {
        proof {
            use_type_invariant(self);
        }
        let mut notes: Vec<Note> = Vec::new();
        let mut i: usize = 0;
        while i < self.notes.len()
            invariant
                self.wf(),
                i <= self@.len(),
                notes@ == self@.subrange(0, i as int),
            decreases self@.len() - i,
        {
            notes.push(self.notes[i]);
            i = i + 1;
        }
        Song { tracks: self.tracks, length: self.length, notes }
    }
}

impl Default for Song {
    /// An empty song of `TRACKS` tracks and `LENGTH` rows.
    fn default() -> (s: Song)
        ensures
            s.wf(),
            s@ == Seq::new(CELLS as nat, |i: int| Note::Empty),
    {
        let mut notes: Vec<Note> = Vec::new();
        let mut i: usize = 0;
        while i < CELLS
            invariant
                i <= CELLS,
                notes@ == Seq::new(i as nat, |j: int| Note::Empty),
            decreases CELLS - i,
        {
            notes.push(Note::Empty);
            i = i + 1;
        }
        Song { tracks: TRACKS, length: LENGTH, notes }
    }
}

} // verus!
