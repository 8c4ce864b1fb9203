# chessian_gui

The decisions of the Chessian desktop chess front end, verified with Verus.

- `src/` is the library. `square`, `pieces` and `geometry` model the board and
  where each square is drawn. `gui` holds the interface state and what every
  event (click, key, panel button, engine report) does to it. `render` says how
  each cell, the best-move arrow, the move marks and the promotion menu are
  drawn. `laws` proves the properties that span these functions.
- `tests/` runs the library on concrete values.
- `app/` is the window: it reads the mouse and keyboard, draws with macroquad,
  runs the engine threads and carries out the commands the library returns.
