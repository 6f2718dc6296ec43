# cxgledit

The core of a small text editor, written in Verus and proved against its
contracts.

- `src/textbuffer`: the contiguous text buffer with its line table, cursor
  movement, selections, deletion and line shifting; a gap buffer; the edit
  history with undo and redo; reading movements from text.
- `src/cmd`: commands and how typed text selects them, key names and modifier
  names, key bindings and their configuration text.
- `src/ui`: sizes, margins, bounding boxes and frames of UI elements, the
  clipboard, the status bar text, scroll bar and list box state, text
  layout from glyph metrics, and what keys and mouse drags do in a text view.
- `src/application.rs`: the application's decisions: what a key event
  triggers, closing and opening views, moving the focus, where a click lands
  and how a dropped view rearranges its panel.
- `app/`: a terminal front end that opens a file in a buffer, lists matching
  project files, reports resource use and saves the buffer.
- `tests/`: tests of the library.
