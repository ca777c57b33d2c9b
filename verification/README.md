# justi

A just-intonation tracker. Each track plays a sample; each step of a track
holds a note, written as four exponents of 2, 3/2, 5/4 and 7/4, a note-off,
or nothing.

- `src/` is the verified library: the song grid (`song`), the editing rules
  (`editor`), the text of the grid (`cell`), the playback sequencer (`player`),
  the widget state (`widgets`) and the queue ends (`spsc`).
- `app/` is the program around it: the window, the drawing, the file dialog,
  WAV reading and the audio stream, where the samples are mixed in floating point.
- `tests/` exercises the library.
