//! A just-intonation tracker: the song grid, the editing rules, the text of
//! the grid, the playback sequencer and the widget state, each with its contract.

pub mod cell;
pub mod editor;
pub mod player;
pub mod song;
pub mod spsc;
pub mod widgets;
