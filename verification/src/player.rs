//! The playback sequencer: which row plays, how far into it, and what each
//! track sounds, sample by sample. A sample here is one value of the output
//! buffer; where the stream interleaves channels, each channel of a frame
//! counts. The mixing of the samples themselves is floating point and is done
//! by the caller.

use vstd::prelude::*;

use crate::song::{sounding_at, Note, Song, CELLS, LENGTH, TRACKS};

verus! {

/// A message to the player.
pub enum Msg {
    /// Start from the first row.
    Play,
    /// Stop.
    Stop,
    /// Replace the song.
    Song(Song),
}

/// What one track sounds for one sample: the exponents of its note, and the
/// number of samples since that note started.
#[derive(Clone, Copy, Debug)]
pub struct Voice {
    pub factors: [i32; 4],
    pub elapsed: usize,
}

/// The abstract state of the player.
pub struct PlayerView {
    pub notes: Seq<Note>,
    pub playing: bool,
    /// Samples played of the current row.
    pub t: usize,
    /// The current row.
    pub row: usize,
    /// Samples per row.
    pub note_length: usize,
}

/// A state the player can be in.
pub open spec fn valid(v: PlayerView) -> bool {
    &&& v.notes.len() == CELLS
    &&& 0 < v.note_length
    &&& v.note_length * LENGTH <= usize::MAX
    &&& v.t < v.note_length
    &&& v.row < LENGTH
}

/// What a message does to the player.
pub open spec fn receive_step(v: PlayerView, msg: Msg) -> PlayerView {
    match msg {
        Msg::Play => PlayerView { playing: true, t: 0, row: 0, ..v },
        Msg::Stop => PlayerView { playing: false, ..v },
        Msg::Song(s) => PlayerView { notes: s@, ..v },
    }
}

/// One sample later: the count within the row goes up, and after
/// `note_length` samples the next row starts, wrapping after the last.
pub open spec fn advance_step(v: PlayerView) -> PlayerView {
    if v.t + 1 == v.note_length {
        PlayerView { t: 0, row: ((v.row + 1) % (LENGTH as int)) as usize, ..v }
    } else {
        PlayerView { t: (v.t + 1) as usize, ..v }
    }
}

/// `n` samples later.
pub open spec fn advance_by(v: PlayerView, n: nat) -> PlayerView
    decreases n,
{
    if n == 0 {
        v
    } else {
        advance_step(advance_by(v, (n - 1) as nat))
    }
}

/// What `track` sounds in state `v`.
pub open spec fn voice_of(v: PlayerView, track: int) -> Option<Voice> {
    match sounding_at(v.notes, track, v.row as int) {
        Some((f, rows)) => Some(Voice { factors: f, elapsed: (rows * v.note_length + v.t) as usize }),
        None => None,
    }
}

/// What every track sounds in state `v`, track by track.
pub open spec fn voices_of(v: PlayerView) -> Seq<Option<Voice>> {
    Seq::new(TRACKS as nat, |k: int| voice_of(v, k))
}

/// Play starts playback at the very start of the song, wherever the player
/// was: row 0, no sample played of it; the song and the row length stay.
/// Stop only stops: the position and the song stay.
pub proof fn lemma_play_restarts_stop_keeps(v: PlayerView)
    ensures
        receive_step(v, Msg::Play).playing,
        receive_step(v, Msg::Play).row == 0,
        receive_step(v, Msg::Play).t == 0,
        receive_step(v, Msg::Play).notes == v.notes,
        receive_step(v, Msg::Play).note_length == v.note_length,
        !receive_step(v, Msg::Stop).playing,
        receive_step(v, Msg::Stop).row == v.row,
        receive_step(v, Msg::Stop).t == v.t,
        receive_step(v, Msg::Stop).notes == v.notes,
        receive_step(v, Msg::Stop).note_length == v.note_length,
{
}

/// A new song replaces only the notes: the player keeps playing (or stays
/// stopped) at the same row and sample, so edits are heard in place.
pub proof fn lemma_song_keeps_position(v: PlayerView, s: Song)
    ensures
        receive_step(v, Msg::Song(s)).notes == s@,
        receive_step(v, Msg::Song(s)).playing == v.playing,
        receive_step(v, Msg::Song(s)).row == v.row,
        receive_step(v, Msg::Song(s)).t == v.t,
        receive_step(v, Msg::Song(s)).note_length == v.note_length,
{
}

/// At the first sample of a row, a track whose cell on that row holds a note
/// sounds that note from its start; a note-off is silent.
pub proof fn lemma_voice_at_row_start(v: PlayerView, track: int)
    requires
        valid(v),
        0 <= track < TRACKS,
        v.t == 0,
    ensures
        v.notes[crate::song::cell_index(track, v.row as int)] matches Note::On(f)
            ==> voice_of(v, track) == Some(Voice { factors: f, elapsed: 0 }),
        v.notes[crate::song::cell_index(track, v.row as int)] is Off ==> voice_of(v, track) is None,
{
    crate::song::lemma_sounding_rows(v.notes, track, v.row as int);
}

/// Within a row the count goes up by one a sample, and `note_length`
/// samples after a row starts, the next row starts (after the last row, the
/// first); nothing else changes.
pub proof fn lemma_row_lasts_note_length(v: PlayerView)
    requires
        valid(v),
        v.t == 0,
    ensures
        forall|k: nat| k < v.note_length ==> #[trigger] advance_by(v, k) == (PlayerView { t: k as usize, ..v }),
        advance_by(v, v.note_length as nat) == (PlayerView { t: 0, row: ((v.row + 1) % (LENGTH as int)) as usize, ..v }),
{
    assert forall|k: nat| k < v.note_length implies #[trigger] advance_by(v, k) == (PlayerView { t: k as usize, ..v }) by {
        lemma_advance_within_row(v, k);
    }
    lemma_advance_within_row(v, (v.note_length - 1) as nat);
}

proof fn lemma_advance_within_row(v: PlayerView, k: nat)
    requires
        valid(v),
        v.t == 0,
        k < v.note_length,
    ensures
        advance_by(v, k) == (PlayerView { t: k as usize, ..v }),
    decreases k,
{
    if k > 0 {
        lemma_advance_within_row(v, (k - 1) as nat);
    }
}

/// Moving on by a sample keeps the player in a valid state.
pub proof fn lemma_advance_keeps_valid(v: PlayerView)
    requires
        valid(v),
    ensures
        valid(advance_step(v)),
{
}

/// A note that keeps sounding into the next sample, on the same row or on a
/// following empty row, is one sample further on: its exponents stay and its
/// count of samples since it started goes up by one.
pub proof fn lemma_held_note_advances(v: PlayerView, track: int)
    requires
        valid(v),
        0 <= track < TRACKS,
        voice_of(v, track) is Some,
        advance_step(v).row == v.row
            || (advance_step(v).row == v.row + 1
                && v.notes[crate::song::cell_index(track, advance_step(v).row as int)] is Empty),
    ensures
        voice_of(advance_step(v), track) == Some(Voice {
            factors: voice_of(v, track)->0.factors,
            elapsed: (voice_of(v, track)->0.elapsed + 1) as usize,
        }),
{
    let w = advance_step(v);
    crate::song::lemma_last_set_row(v.notes, track, v.row as int);
    let r = crate::song::last_set_row(v.notes, track, v.row as int);
    let rows = v.row - r;
    assert(rows * v.note_length + v.t + 1 <= LENGTH * v.note_length) by (nonlinear_arith)
        requires
            0 <= rows <= v.row < LENGTH,
            v.t < v.note_length,
    ;
    if w.row != v.row {
        assert(crate::song::last_set_row(v.notes, track, w.row as int) == r);
        assert((rows + 1) * v.note_length + 0 == rows * v.note_length + v.t + 1) by (nonlinear_arith)
            requires
                v.t + 1 == v.note_length,
        ;
        assert((rows + 1) * v.note_length <= LENGTH * v.note_length);
    }
}

/// The sequencer state of the audio side.
pub struct Player {
    song: Song,
    playing: bool,
    t: usize,
    note: usize,
    note_length: usize,
}

impl View for Player {
    type V = PlayerView;

    closed spec fn view(&self) -> PlayerView {
        PlayerView {
            notes: self.song@,
            playing: self.playing,
            t: self.t,
            row: self.note,
            note_length: self.note_length,
        }
    }
}

impl Player {
    /// The position lies on the song, and a row lasts a positive number of
    /// samples that `LENGTH` rows do not take beyond `usize`.
    pub open spec fn wf(&self) -> bool {
        valid(self@)
    }

    /// A stopped player with an empty song, at the start of the first row,
    /// that moves on one row every `note_length` samples.
    pub fn new(note_length: usize) -> (p: Player)
        requires
            0 < note_length,
            note_length * LENGTH <= usize::MAX,
        ensures
            p.wf(),
            p@ == (PlayerView {
                notes: Seq::new(CELLS as nat, |i: int| Note::Empty),
                playing: false,
                t: 0,
                row: 0,
                note_length,
            }),
    {
        Player { song: Song::default(), playing: false, t: 0, note: 0, note_length }
    }

    /// Whether playback runs.
    pub fn playing(&self) -> (b: bool)
        ensures
            b == self@.playing,
    {
        self.playing
    }

    /// Handles one message.
    pub fn receive(&mut self, msg: Msg)
        requires
            old(self).wf(),
        ensures
            final(self).wf(),
            final(self)@ == receive_step(old(self)@, msg),
    {
        proof {
            use_type_invariant(&self.song);
        }
        match msg {
            Msg::Play => {
                self.playing = true;
                self.t = 0;
                self.note = 0;
            },
            Msg::Stop => {
                self.playing = false;
            },
            Msg::Song(new_song) => {
                proof {
                    use_type_invariant(&new_song);
                }
                self.song = new_song;
            },
        }
    }

    /// Moves on by one sample.
    pub fn advance(&mut self)
        requires
            old(self).wf(),
        ensures
            final(self).wf(),
            final(self)@ == advance_step(old(self)@),
    {
        self.t += 1;
        if self.t == self.note_length {
            self.t = 0;
            self.note = (self.note + 1) % self.song.length();
        }
    }

    /// What `track` sounds now.
    pub fn voice(&self, track: usize) -> (res: Option<Voice>)
        requires
            self.wf(),
            track < TRACKS,
        ensures
            res == voice_of(self@, track as int),
    {
        match self.song.sounding(track, self.note) {
            Some((factors, length)) => {
                proof {
                    crate::song::lemma_last_set_row(self.song@, track as int, self.note as int);
                    assert(length <= self.note);
                    assert(length * self.note_length <= (LENGTH - 1) * self.note_length) by (nonlinear_arith)
                        requires
                            length <= LENGTH - 1,
                    ;
                }
                Some(Voice { factors, elapsed: length * self.note_length + self.t })
            },
            None => None,
        }
    }

    /// The next sample: when playing, moves on by one sample and tells what
    /// every track sounds, track by track; when stopped, changes nothing and
    /// tells that all is silent.
    pub fn next_frame(&mut self) -> (res: Option<Vec<Option<Voice>>>)
        requires
            old(self).wf(),
        ensures
            final(self).wf(),
            old(self)@.playing ==> final(self)@ == advance_step(old(self)@),
            old(self)@.playing ==> (res matches Some(v) && v@ == voices_of(final(self)@)),
            !old(self)@.playing ==> final(self)@ == old(self)@ && res is None,
    {
        if !self.playing {
            return None;
        }
        self.advance();
        let mut voices: Vec<Option<Voice>> = Vec::new();
        let tracks = self.song.tracks();
        let mut k: usize = 0;
        while k < tracks
            invariant
                self.wf(),
                tracks == TRACKS,
                k <= tracks,
                voices@ == Seq::new(k as nat, |j: int| voice_of(self@, j)),
            decreases tracks - k,
        {
            let v = self.voice(k);
            voices.push(v);
            k += 1;
        }
        assert(voices@ =~= voices_of(self@));
        Some(voices)
    }
}

} // verus!
