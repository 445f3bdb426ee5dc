# editor

A small terminal text editor, verified with Verus.

- `src/editor.rs`: the grid editor. A text of character lines, a real cursor
  and an "image" cursor that remembers the asked-for column when a line is
  too short; arrow-key moves, the boxes set from the screen size, and the
  window of text that is drawn. The laws of cursor movement (the cursor stays
  in the text, vertical and horizontal round trips restore it) are proved at
  the end of the file.
- `src/components/editor.rs`: the query editor component: where a key press
  goes (submit, focus, favorite, quit, abort, or the vim key machine), what
  is sent on the command channel and when the mode resets, the mouse and
  event handling, the padding at the right edge, and the keyword search
  pattern. The vim key machine and the channel sender are the caller's and
  come in as closures.
- `src/components/text_box.rs`: the `tui_textarea` text area that the
  component edits, and the contracts assumed of the calls made on it.
- `tests/`: the tests, run against the compiled library.
- `app/`: the terminal program (ratatui, crossterm, color-eyre) and the glue
  that converts terminal values for the query editor component.
